//! Adapters for loggers that take structured values: a chain as an array of
//! strings, one element per error, and the owned snapshot of such a chain
//! that can be handed to another thread.

use vstd::prelude::*;
use crate::chain::ChainedError;
use crate::inline::InlineErrorChain;
use crate::render::{inline_text, lemma_join_push, push_cause, separator};

verus! {

/// An owned version of an [`ArrayErrorChain`]: the display strings of a
/// chain, copied out of the error, which it no longer refers to.
///
/// It is relatively expensive to construct, as it allocates one `String` for
/// each error of the chain. It exists so that a chain can outlive the error
/// it was taken from, for instance to be serialized on another thread.
///
/// Its view is the chain: the display string of the error first, then those
/// of its causes.
#[derive(Debug, Clone)]
pub struct OwnedErrorChain {
    first: String,
    rest: Vec<String>,
}

impl View for OwnedErrorChain {
    type V = Seq<Seq<char>>;

    closed spec fn view(&self) -> Seq<Seq<char>> {
        seq![self.first@] + self.rest.deep_view()
    }
}

impl OwnedErrorChain {
    /// An owned chain holds at least the display string of one error.
    pub proof fn lemma_chain_nonempty(&self)
        ensures
            self@.len() >= 1,
    {
    }

    /// Construct a new `OwnedErrorChain` from an error, by walking its chain
    /// once and copying each display string.
    pub fn new(err: &ChainedError) -> (chain: Self)
        ensures
            chain@ == err@,
    {
        let ghost whole = err@;
        let first = err.display().to_owned();
        let mut causes: Vec<String> = Vec::new();
        let mut source = err.source();
        while source.is_some()
            invariant
                whole == err@,
                whole.len() >= 1,
                first@ == whole[0],
                causes.len() + 1 <= whole.len(),
                causes.deep_view() == whole.subrange(1, causes.len() + 1),
                match source {
                    None => causes.len() + 1 == whole.len(),
                    Some(c) => causes.len() + 1 < whole.len() && c@ == whole.skip(
                        causes.len() + 1,
                    ),
                },
            decreases whole.len() - causes.len(),
        {
            let cause = source.unwrap();
            causes.push(cause.display().to_owned());
            source = cause.source();
        }
        OwnedErrorChain { first, rest: causes }
    }

    /// The text of the chain, as [`InlineErrorChain`] renders the error that
    /// the chain was taken from.
    pub fn to_string(&self) -> (text: String)
        ensures
            text@ == inline_text(self@),
    {
        let ghost chain = self@;
        let mut text = self.first.clone();
        let mut i: usize = 0;
        while i < self.rest.len()
            invariant
                chain == self@,
                i <= self.rest.len(),
                text@ == inline_text(chain.take(i + 1)),
            decreases self.rest.len() - i,
        {
            push_cause(&mut text, self.rest[i].as_str());
            proof {
                lemma_join_push(chain.take(i + 1), chain[i + 1], separator());
                assert(chain.take(i + 1).push(chain[i + 1]) =~= chain.take(i + 2));
            }
            i = i + 1;
        }
        assert(chain.take(self.rest.len() + 1) =~= chain);
        text
    }

    /// The chain as a structured logger is given it: one string per error,
    /// outermost first.
    pub fn elements(&self) -> (items: Vec<String>)
        ensures
            items.len() >= 1,
            items.deep_view() == self@,
    {
        let mut items: Vec<String> = Vec::new();
        items.push(self.first.clone());
        let mut i: usize = 0;
        while i < self.rest.len()
            invariant
                i <= self.rest.len(),
                items.len() == i + 1,
                items.deep_view() == self@.take(i + 1),
            decreases self.rest.len() - i,
        {
            items.push(self.rest[i].clone());
            i = i + 1;
        }
        items
    }

    /// A copy of the chain that can be sent to another thread.
    pub fn to_sendable(&self) -> (copy: OwnedErrorChain)
        ensures
            copy@ == self@,
    {
        OwnedErrorChain { first: self.first.clone(), rest: self.rest.clone() }
    }

    /// What a logger without support for structured values is given in
    /// place of the array: the text of the chain.
    pub fn serialize_fallback(&self) -> (text: String)
        ensures
            text@ == inline_text(self@),
    {
        self.to_string()
    }
}

/// Adapter for an error that renders the chain of its causes as an array of
/// strings, for loggers that support structured values.
///
/// Where the logger does not support them, the chain is rendered as
/// [`InlineErrorChain`] does: as one string, the causes separated by `: `.
/// Its view is the chain of the error that it was made from.
pub struct ArrayErrorChain<'a>(&'a ChainedError);

impl<'a> View for ArrayErrorChain<'a> {
    type V = Seq<Seq<char>>;

    closed spec fn view(&self) -> Seq<Seq<char>> {
        self.0@
    }
}

impl<'a> ArrayErrorChain<'a> {
    /// Construct a new `ArrayErrorChain` from an error.
    pub fn new(err: &'a ChainedError) -> (chain: Self)
        ensures
            chain@ == err@,
    {
        ArrayErrorChain(err)
    }

    /// The text of the chain, as [`InlineErrorChain`] renders the same
    /// error.
    pub fn to_string(&self) -> (text: String)
        ensures
            text@ == inline_text(self@),
    {
        InlineErrorChain::new(self.0).to_string()
    }

    /// The chain as a structured logger is given it: one string per error,
    /// outermost first.
    pub fn elements(&self) -> (items: Vec<String>)
        ensures
            items.len() >= 1,
            items.deep_view() == self@,
    {
        let ghost chain = self.0@;
        let mut items: Vec<String> = Vec::new();
        items.push(self.0.display().to_owned());
        let mut source = self.0.source();
        while source.is_some()
            invariant
                chain == self.0@,
                1 <= items.len() <= chain.len(),
                items.deep_view() == chain.take(items.len() as int),
                match source {
                    None => items.len() == chain.len(),
                    Some(c) => items.len() < chain.len() && c@ == chain.skip(items.len() as int),
                },
            decreases chain.len() - items.len(),
        {
            let cause = source.unwrap();
            items.push(cause.display().to_owned());
            source = cause.source();
        }
        items
    }

    /// The owned snapshot of the chain, which can be sent to another thread.
    pub fn to_sendable(&self) -> (owned: OwnedErrorChain)
        ensures
            owned@ == self@,
    {
        OwnedErrorChain::new(self.0)
    }

    /// What a logger without support for structured values is given in
    /// place of the array: the text of the chain.
    pub fn serialize_fallback(&self) -> (text: String)
        ensures
            text@ == inline_text(self@),
    {
        self.to_string()
    }
}

} // verus!
