//! What holds of the adapters whatever the error: how the renderings of one
//! chain relate to each other.
//!
//! Each law is stated over the views of the values involved and over the
//! spec functions that the contracts of the adapters use.

use vstd::prelude::*;
use crate::chain::ChainedError;
use crate::inline::InlineErrorChain;
use crate::nested_values::{ArrayErrorChain, OwnedErrorChain};
use crate::render::{
    inline_text, join, lemma_join_concat, lemma_join_shape, separator, total_len,
};

verus! {

/// The text of an error without a cause is its display string. The text of
/// an error with a cause is its display string, the separator, and the text
/// of the cause.
///
/// `cause` is what [`ChainedError::source`] returns for `err`.
pub proof fn lemma_text_follows_the_causes(err: ChainedError, cause: Option<ChainedError>)
    requires
        match cause {
            None => err@.len() == 1,
            Some(c) => err@.len() > 1 && c@ == err@.drop_first(),
        },
    ensures
        inline_text(err@) == match cause {
            None => err@[0],
            Some(c) => err@[0] + separator() + inline_text(c@),
        },
{
}

/// The text of a chain holds the display strings of all its errors, in the
/// order of the chain, and between them one separator fewer than there are
/// errors. It begins with the display string of the outermost error and ends
/// with that of the deepest cause, so no separator leads or trails.
pub proof fn lemma_text_is_the_joined_chain(err: ChainedError)
    ensures
        inline_text(err@) == join(err@, separator()),
        inline_text(err@).len() == total_len(err@) + 2 * (err@.len() - 1),
        err@.first().is_prefix_of(inline_text(err@)),
        err@.last().is_suffix_of(inline_text(err@)),
{
    err.lemma_chain_nonempty();
    lemma_join_shape(err@, separator());
    assert(separator().len() == 2);
}

/// The text of a chain can be cut at any of its causes: it is the text of the
/// errors above that cause, the separator, and the text of the cause with
/// all that lies below it.
///
/// The chain from the cause at position `at` on is `err@.skip(at)`, the view
/// of the error that [`ChainedError::chain`] returns at that position.
pub proof fn lemma_text_splits_at_any_cause(err: ChainedError, at: int)
    requires
        0 < at < err@.len(),
    ensures
        inline_text(err@) == inline_text(err@.take(at)) + separator() + inline_text(
            err@.skip(at),
        ),
{
    assert(err@ =~= err@.take(at) + err@.skip(at));
    lemma_join_concat(err@.take(at), err@.skip(at), separator());
}

/// An error without a cause renders as its display string alone, without a
/// separator, and as an array of that one string.
pub proof fn lemma_single_error(err: ChainedError, inline: InlineErrorChain, array: ArrayErrorChain)
    requires
        err@.len() == 1,
        inline@ == err@,
        array@ == err@,
    ensures
        inline_text(inline@) == err@[0],
        array@ == seq![err@[0]],
{
}

/// What the array adapter and the owned snapshot hand to a logger without
/// support for structured values is the text that the inline adapter gives
/// for the same error.
pub proof fn lemma_fallback_is_inline_text(
    err: ChainedError,
    inline: InlineErrorChain,
    array: ArrayErrorChain,
    owned: OwnedErrorChain,
)
    requires
        inline@ == err@,
        array@ == err@,
        owned@ == err@,
    ensures
        inline_text(array@) == inline_text(inline@),
        inline_text(owned@) == inline_text(inline@),
{
}

/// Taking the owned snapshot of an error and rendering the snapshot gives
/// what rendering the error itself gives: the same text and the same array.
///
/// `owned` is what [`OwnedErrorChain::new`] or
/// [`ArrayErrorChain::to_sendable`] returns for `err`; `text` and `items`
/// are what the snapshot renders.
pub proof fn lemma_snapshot_round_trip(
    err: ChainedError,
    owned: OwnedErrorChain,
    text: String,
    items: Vec<String>,
)
    requires
        owned@ == err@,
        text@ == inline_text(owned@),
        items.deep_view() == owned@,
    ensures
        text@ == inline_text(err@),
        items.deep_view() == err@,
        items.len() >= 1,
{
    owned.lemma_chain_nonempty();
}

/// Rendering is repeatable: two renderings of one chain, by whichever of the
/// adapters, are the same text, and two arrays of it hold the same strings.
pub proof fn lemma_rendering_is_repeatable(
    chain: Seq<Seq<char>>,
    first_text: String,
    second_text: String,
    first_items: Vec<String>,
    second_items: Vec<String>,
)
    requires
        first_text@ == inline_text(chain),
        second_text@ == inline_text(chain),
        first_items.deep_view() == chain,
        second_items.deep_view() == chain,
    ensures
        first_text@ == second_text@,
        first_items.len() == second_items.len(),
        forall|i: int| 0 <= i < first_items.len() ==> first_items[i]@ == second_items[i]@,
{
    assert forall|i: int| 0 <= i < first_items.len() implies first_items[i]@
        == second_items[i]@ by {
        assert(first_items.deep_view()[i] == first_items[i]@);
        assert(second_items.deep_view()[i] == second_items[i]@);
    }
}

} // verus!
