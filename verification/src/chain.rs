//! The error that the adapters render: a display string and, optionally, the
//! error that caused it.

use vstd::prelude::*;

verus! {

/// An error with a human-readable display string and at most one direct
/// cause, which is an error of the same kind.
///
/// Its view is the chain it heads: the display strings of the error itself,
/// of its cause, of the cause of that cause, and so on down to the deepest
/// one. A chain is never empty and, being a finite value, never cyclic.
#[derive(Debug)]
pub struct ChainedError {
    message: String,
    source: Option<Box<ChainedError>>,
}

impl View for ChainedError {
    type V = Seq<Seq<char>>;

    closed spec fn view(&self) -> Seq<Seq<char>> {
        self.messages()
    }
}

impl ChainedError {
    spec fn messages(&self) -> Seq<Seq<char>>
        decreases self,
    {
        match self.source {
            None => seq![self.message@],
            Some(cause) => seq![self.message@] + cause.messages(),
        }
    }

    /// A chain holds at least the error that heads it.
    pub proof fn lemma_chain_nonempty(&self)
        ensures
            self@.len() >= 1,
        decreases self,
    {
        match self.source {
            None => {},
            Some(cause) => {
                cause.lemma_chain_nonempty();
            },
        }
    }

    /// An error without a cause.
    pub fn new(message: String) -> (err: Self)
        ensures
            err@ == seq![message@],
    {
        ChainedError { message, source: None }
    }

    /// An error that was caused by `source`.
    pub fn with_source(message: String, source: ChainedError) -> (err: Self)
        ensures
            err@ == seq![message@] + source@,
    {
        ChainedError { message, source: Some(Box::new(source)) }
    }

    /// The display string of this error alone, without its causes.
    pub fn display(&self) -> (text: &str)
        ensures
            self@.len() >= 1,
            text@ == self@[0],
    {
        proof {
            self.lemma_chain_nonempty();
        }
        self.message.as_str()
    }

    /// The direct cause of this error, if it has one: the head of the rest
    /// of the chain.
    pub fn source(&self) -> (cause: Option<&ChainedError>)
        ensures
            match cause {
                None => self@.len() == 1,
                Some(c) => self@.len() > 1 && c@ == self@.drop_first(),
            },
    {
        match &self.source {
            None => None,
            Some(cause) => {
                proof {
                    cause.lemma_chain_nonempty();
                }
                Some(&**cause)
            },
        }
    }

    /// The errors of the chain in the order of the walk: this error first,
    /// then its cause, then the cause of that cause, down to the first error
    /// that has no cause.
    pub fn chain(&self) -> (errors: Vec<&ChainedError>)
        ensures
            errors.len() == self@.len(),
            errors.len() >= 1,
            *errors[0] == *self,
            forall|i: int| 0 <= i < errors.len() ==> (#[trigger] errors[i])@ == self@.skip(i),
    {
        let mut errors: Vec<&ChainedError> = Vec::new();
        errors.push(self);
        let mut source = self.source();
        while source.is_some()
            invariant
                1 <= errors.len() <= self@.len(),
                *errors[0] == *self,
                forall|i: int| 0 <= i < errors.len() ==> (#[trigger] errors[i])@ == self@.skip(i),
                match source {
                    None => errors.len() == self@.len(),
                    Some(c) => errors.len() < self@.len() && c@ == self@.skip(errors.len() as int),
                },
            decreases self@.len() - errors.len(),
        {
            let cause = source.unwrap();
            errors.push(cause);
            source = cause.source();
        }
        errors
    }
}

} // verus!
