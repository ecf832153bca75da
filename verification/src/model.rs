//! Mathematical model of a document handle: its abstract CRDT state, the
//! text it renders to, and the two staged export slots.

use vstd::prelude::*;
use crate::handle::{state_text, content_span};

verus! {

/// The canonical encoding of the empty document state: zero blocks and an
/// empty delete set, one zero byte for each count.
pub open spec fn empty_state() -> Seq<u8> {
    seq![0u8, 0u8]
}

/// UTF-8 encoding of a character taken from a single byte (a code point
/// below 256): one byte for ASCII, two bytes otherwise.
pub open spec fn utf8_of(c: u8) -> Seq<u8> {
    if c < 0x80 {
        seq![c]
    } else {
        seq![(0xC0u8 | (c >> 6)) as u8, (0x80u8 | (c & 0x3F)) as u8]
    }
}

/// Text after inserting the character `c` at byte offset `i`.
pub open spec fn insert_into(t: Seq<u8>, i: int, c: u8) -> Seq<u8> {
    t.take(i) + utf8_of(c) + t.skip(i)
}

/// Whether byte offset `i` falls on a character boundary of the UTF-8 text
/// `t`: either its end, or a byte that does not continue a previous
/// character (continuation bytes lie in `0x80..0xC0`).
pub open spec fn boundary_at(t: Seq<u8>, i: int) -> bool {
    i == t.len() || !(0x80 <= t[i] < 0xC0)
}

/// A text made only of ASCII bytes; every offset up to its length is then a
/// character boundary.
pub open spec fn all_ascii(t: Seq<u8>) -> bool {
    forall|i: int| 0 <= i < t.len() ==> t[i] < 0x80
}

/// Abstract value of one document handle.
pub struct DocModel {
    /// The document's full CRDT state, as its canonical binary encoding.
    pub state: Seq<u8>,
    /// Pending staged text result, if any.
    pub text_slot: Option<Seq<u8>>,
    /// Pending staged binary result, if any.
    pub bin_slot: Option<Seq<u8>>,
}

impl DocModel {
    /// The UTF-8 text the document currently renders to.
    pub open spec fn text(self) -> Seq<u8> {
        state_text(self.state)
    }

    /// Whether the root container holds plain text only, so that insertion
    /// offsets count the text's own bytes. True for every document this
    /// crate builds; only a foreign update carrying other content kinds
    /// can break it.
    pub open spec fn plain(self) -> bool {
        content_span(self.state) == self.text().len()
    }

    /// The model after staging the current text for export: the text slot
    /// holds the text, whatever was pending there before is discarded.
    pub open spec fn stringified(self) -> DocModel {
        DocModel { state: self.state, text_slot: Some(self.text()), bin_slot: self.bin_slot }
    }

    /// The model after staging the encoded state for export: the binary
    /// slot holds the state encoding, whatever was pending is discarded.
    pub open spec fn encoded(self) -> DocModel {
        DocModel { state: self.state, text_slot: self.text_slot, bin_slot: Some(self.state) }
    }

    /// The model after a successful text read-out: the slot is cleared.
    pub open spec fn text_taken(self) -> DocModel {
        DocModel { state: self.state, text_slot: None, bin_slot: self.bin_slot }
    }

    /// The model after a successful binary read-out: the slot is cleared.
    pub open spec fn bin_taken(self) -> DocModel {
        DocModel { state: self.state, text_slot: self.text_slot, bin_slot: None }
    }
}

} // verus!
