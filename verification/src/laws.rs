//! General properties of the model, proved once and for all: how a chain
//! of insertions builds the text, and how the two staged slots behave
//! across repeated produce calls.

use vstd::prelude::*;
use crate::model::{DocModel, insert_into, utf8_of, all_ascii};

verus! {

/// The text after a chain of insertions that each place one character at
/// the then-current end of the text (the index equal to the current
/// length), as `insert_char` reports it.
pub open spec fn appended(t: Seq<u8>, cs: Seq<u8>) -> Seq<u8>
    decreases cs.len(),
{
    if cs.len() == 0 {
        t
    } else {
        appended(insert_into(t, t.len() as int, cs[0]), cs.drop_first())
    }
}

/// Inserting at the end of the text appends the character's bytes.
pub proof fn lemma_insert_at_end(t: Seq<u8>, c: u8)
    ensures
        insert_into(t, t.len() as int, c) == t + utf8_of(c),
{
    assert(insert_into(t, t.len() as int, c) =~= t + utf8_of(c));
}

/// A chain of end-of-text insertions of ASCII characters extends the text
/// by exactly those characters, in order.
pub proof fn lemma_appended_ascii(t: Seq<u8>, cs: Seq<u8>)
    requires
        all_ascii(cs),
    ensures
        appended(t, cs) == t + cs,
    decreases cs.len(),
{
    if cs.len() == 0 {
        assert(t + cs =~= t);
    } else {
        lemma_insert_at_end(t, cs[0]);
        assert(utf8_of(cs[0]) =~= seq![cs[0]]);
        assert(t + utf8_of(cs[0]) =~= t.push(cs[0]));
        assert forall|i: int| 0 <= i < cs.drop_first().len() implies cs.drop_first()[i]
            < 0x80 by {
            assert(cs.drop_first()[i] == cs[i + 1]);
        }
        lemma_appended_ascii(t.push(cs[0]), cs.drop_first());
        assert(t.push(cs[0]) + cs.drop_first() =~= t + cs);
    }
}

/// For every sequence of ASCII characters inserted one after another, each
/// at the index equal to the number of characters already present, the
/// text read back is exactly the concatenation of the inserted characters
/// in index order.
pub proof fn lemma_inserts_in_index_order(cs: Seq<u8>)
    requires
        all_ascii(cs),
    ensures
        appended(Seq::<u8>::empty(), cs) == cs,
{
    lemma_appended_ascii(Seq::<u8>::empty(), cs);
    assert(Seq::<u8>::empty() + cs =~= cs);
}

/// Staging the text twice before any read-out leaves exactly what the
/// second call staged pending: one slot, last write wins, nothing is
/// concatenated, and the document itself is untouched.
pub proof fn lemma_second_stringify_wins(m: DocModel)
    ensures
        m.stringified().stringified() == m.stringified(),
        m.stringified().text_slot == Some(m.text()),
        m.stringified().state == m.state,
{
}

/// Staging the encoded state twice without intervening mutation stages
/// byte-identical results both times: the staged bytes are a function of
/// the document state, which producing them does not change.
pub proof fn lemma_encode_idempotent(m: DocModel)
    ensures
        m.encoded().encoded() == m.encoded(),
        m.encoded().bin_slot == Some(m.state),
        m.encoded().state == m.state,
{
}

} // verus!
