//! What the text of a chain is: the display strings of its errors, joined
//! by a separator.

use vstd::prelude::*;
use vstd::string::StringExecFns;

verus! {

/// The text that stands between an error and its cause: a colon and a space.
pub open spec fn separator() -> Seq<char> {
    seq![':', ' ']
}

/// `parts` written one after the other, with `sep` between each two
/// neighbours: nothing before the first part and nothing after the last.
pub open spec fn join(parts: Seq<Seq<char>>, sep: Seq<char>) -> Seq<char>
    decreases parts.len(),
{
    if parts.len() == 0 {
        Seq::empty()
    } else if parts.len() == 1 {
        parts[0]
    } else {
        parts[0] + sep + join(parts.drop_first(), sep)
    }
}

/// The one-line text of a chain of display strings, outermost error first.
pub open spec fn inline_text(chain: Seq<Seq<char>>) -> Seq<char> {
    join(chain, separator())
}

/// Joining a list that has one more part at its end appends the separator
/// and that part to the text of the list before it.
pub proof fn lemma_join_push(parts: Seq<Seq<char>>, last: Seq<char>, sep: Seq<char>)
    requires
        parts.len() >= 1,
    ensures
        join(parts.push(last), sep) == join(parts, sep) + sep + last,
    decreases parts.len(),
{
    let longer = parts.push(last);
    assert(longer.drop_first() =~= parts.drop_first().push(last));
    if parts.len() == 1 {
        assert(join(longer.drop_first(), sep) == last);
    } else {
        lemma_join_push(parts.drop_first(), last, sep);
    }
}

/// Joining two lists laid end to end gives the two texts with one separator
/// between them.
pub proof fn lemma_join_concat(front: Seq<Seq<char>>, back: Seq<Seq<char>>, sep: Seq<char>)
    requires
        front.len() >= 1,
        back.len() >= 1,
    ensures
        join(front + back, sep) == join(front, sep) + sep + join(back, sep),
    decreases front.len(),
{
    let whole = front + back;
    if front.len() == 1 {
        assert(whole.drop_first() =~= back);
    } else {
        assert(whole.drop_first() =~= front.drop_first() + back);
        lemma_join_concat(front.drop_first(), back, sep);
    }
}

/// The number of characters that the parts hold, all together.
pub open spec fn total_len(parts: Seq<Seq<char>>) -> nat
    decreases parts.len(),
{
    if parts.len() == 0 {
        0
    } else {
        parts[0].len() + total_len(parts.drop_first())
    }
}

/// The joined text holds every part once and one separator fewer than there
/// are parts. It begins with the first part and ends with the last one: no
/// separator stands before the first part or after the last.
pub proof fn lemma_join_shape(parts: Seq<Seq<char>>, sep: Seq<char>)
    requires
        parts.len() >= 1,
    ensures
        join(parts, sep).len() == total_len(parts) + (parts.len() - 1) * sep.len(),
        parts.first().is_prefix_of(join(parts, sep)),
        parts.last().is_suffix_of(join(parts, sep)),
    decreases parts.len(),
{
    if parts.len() == 1 {
        assert(total_len(parts.drop_first()) == 0);
    } else {
        let rest = parts.drop_first();
        lemma_join_shape(rest, sep);
        assert((parts.len() - 1) * sep.len() == sep.len() + (rest.len() - 1) * sep.len())
            by (nonlinear_arith)
            requires
                rest.len() == parts.len() - 1,
        ;
        let text = join(parts, sep);
        let tail = join(rest, sep);
        assert(tail.subrange(tail.len() - rest.last().len(), tail.len() as int)
            =~= text.subrange(text.len() - parts.last().len(), text.len() as int));
    }
}

/// Appends the separator and the display string of one more cause to a text.
pub fn push_cause(text: &mut String, cause: &str)
    ensures
        final(text)@ == old(text)@ + separator() + cause@,
{
    proof {
        reveal_strlit(": ");
    }
    text.append(": ");
    text.append(cause);
}

} // verus!
