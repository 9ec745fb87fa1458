//! The adapter that renders a chain as one line of text.

use vstd::prelude::*;
use crate::chain::ChainedError;
use crate::render::{inline_text, lemma_join_push, push_cause, separator};

verus! {

/// Adapter for an error that renders the full chain of its causes as one
/// string, the display strings separated by `: `.
///
/// It borrows the error and lives for one rendering. Its view is the chain
/// of the error that it was made from.
pub struct InlineErrorChain<'a>(&'a ChainedError);

impl<'a> View for InlineErrorChain<'a> {
    type V = Seq<Seq<char>>;

    closed spec fn view(&self) -> Seq<Seq<char>> {
        self.0@
    }
}

impl<'a> InlineErrorChain<'a> {
    /// Construct a new `InlineErrorChain` from an error.
    pub fn new(err: &'a ChainedError) -> (chain: Self)
        ensures
            chain@ == err@,
    {
        InlineErrorChain(err)
    }

    /// The text of the chain: the display string of the error, then, for
    /// each cause in turn, the separator and the display string of that
    /// cause.
    pub fn to_string(&self) -> (text: String)
        ensures
            text@ == inline_text(self@),
    {
        let ghost chain = self.0@;
        let mut text = self.0.display().to_owned();
        let mut cause = self.0.source();
        let ghost mut done: int = 1;
        while cause.is_some()
            invariant
                chain == self.0@,
                1 <= done <= chain.len(),
                text@ == inline_text(chain.take(done)),
                match cause {
                    None => done == chain.len(),
                    Some(c) => done < chain.len() && c@ == chain.skip(done),
                },
            decreases chain.len() - done,
        {
            let source = cause.unwrap();
            push_cause(&mut text, source.display());
            cause = source.source();
            proof {
                lemma_join_push(chain.take(done), chain[done], separator());
                assert(chain.take(done).push(chain[done]) =~= chain.take(done + 1));
                done = done + 1;
            }
        }
        assert(chain.take(done) =~= chain);
        text
    }
}

} // verus!
