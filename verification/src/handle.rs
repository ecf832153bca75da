//! The boundary to the external CRDT library (`yrs`).
//!
//! The merge algorithm, conflict resolution and update encoding are a black
//! box here: each call into `yrs` sits behind one trusted wrapper whose
//! contract states only what the library's source and documentation show.
//! The abstract results of those calls are named by uninterpreted spec
//! functions over the handle's state.

use vstd::prelude::*;
use yrs::{Transact, ReadTxn, Text, GetString};
use yrs::updates::decoder::Decode;
use crate::model::{DocModel, empty_state, insert_into, boundary_at};
use crate::Error;

verus! {

#[verifier::external_type_specification]
#[verifier::external_body]
pub struct ExYrsDoc(yrs::Doc);

#[verifier::external_type_specification]
#[verifier::external_body]
pub struct ExYrsTextRef(yrs::TextRef);

/// The document's full CRDT state, as the canonical binary encoding that
/// `yrs` produces for it (what `encode_state_as_update` returns): all
/// blocks sorted by client, the delete set, and any stashed pending
/// updates. A document whose state is `empty_state()` holds nothing at all.
pub uninterp spec fn doc_state(d: yrs::Doc) -> Seq<u8>;

/// The UTF-8 text that the root text container of a document in state `s`
/// renders to; empty when the state holds no root text container.
pub uninterp spec fn state_text(s: Seq<u8>) -> Seq<u8>;

/// Whether `yrs` accepts `u` as an update: the bytes decode as a binary
/// update and merge into a freshly created document without error.
pub uninterp spec fn update_ok(u: Seq<u8>) -> bool;

/// The length of the root container of a document in state `s`, in the
/// byte offset units that insertion indices are counted in: each string
/// item counts its UTF-8 bytes, any other kind of item its own unit
/// length. It equals the text's byte length exactly when the container
/// holds plain text, which every operation of this crate keeps true, but
/// which a foreign update can break by merging in other content kinds.
pub uninterp spec fn content_span(s: Seq<u8>) -> nat;

/// Whether `t` is the root text container of the document `d`.
pub uninterp spec fn holds_root_text(d: yrs::Doc, t: yrs::TextRef) -> bool;

/// A document handle: the external CRDT document, its root text container,
/// and the two staged export slots of the copy-out protocol.
pub struct DocHandle {
    pub(crate) crdt: yrs::Doc,
    pub(crate) root: yrs::TextRef,
    pub(crate) text_slot: Option<Vec<u8>>,
    pub(crate) bin_slot: Option<Vec<u8>>,
}

impl View for DocHandle {
    type V = DocModel;

    closed spec fn view(&self) -> DocModel {
        DocModel {
            state: doc_state(self.crdt),
            text_slot: match self.text_slot {
                Some(v) => Some(v@),
                None => None,
            },
            bin_slot: match self.bin_slot {
                Some(v) => Some(v@),
                None => None,
            },
        }
    }
}

impl DocHandle {
    /// The handle's internal invariant: the stored container really is the
    /// root text container of the stored document.
    pub closed spec fn wf(&self) -> bool {
        holds_root_text(self.crdt, self.root)
    }

    /// Relies on `yrs::Doc::new` and `yrs::Doc::get_or_insert_text`: a new
    /// document has the empty state, whose canonical encoding is two zero
    /// bytes (no blocks, no deletions, nothing pending) and which renders
    /// to the empty text, and the container fetched at creation is its root
    /// text container.
    #[verifier::external_body]
    pub(crate) fn raw_new() -> (d: DocHandle)
        ensures
            holds_root_text(d.crdt, d.root),
            d@.state == empty_state(),
            state_text(d@.state) == Seq::<u8>::empty(),
            content_span(d@.state) == 0,
            d@.text_slot is None,
            d@.bin_slot is None,
    {
        let crdt = yrs::Doc::new();
        let root = crdt.get_or_insert_text("");
        DocHandle { crdt, root, text_slot: None, bin_slot: None }
    }

    /// A new document handle: empty document, empty text, nothing staged.
    pub fn new() -> (d: DocHandle)
        ensures
            d.wf(),
            d@.state == empty_state(),
            d@.text() == Seq::<u8>::empty(),
            d@.plain(),
            d@.text_slot is None,
            d@.bin_slot is None,
    {
        Self::raw_new()
    }

    /// Relies on `yrs::Text::len`: the root container's length in byte
    /// offset units, a function of the document state alone.
    #[verifier::external_body]
    pub(crate) fn raw_len(&self) -> (r: u32)
        requires
            self.wf(),
        ensures
            r as nat == content_span(self@.state),
    {
        let txn = self.crdt.transact();
        self.root.len(&txn)
    }

    /// Relies on `yrs::GetString::get_string`: the root container's current
    /// content as UTF-8 text, a function of the document state alone. The
    /// bytes come from one Rust allocation, so their number stays below
    /// `usize::MAX`.
    #[verifier::external_body]
    pub(crate) fn raw_text(&self) -> (r: Vec<u8>)
        requires
            self.wf(),
        ensures
            r@ == state_text(self@.state),
            r@.len() < usize::MAX,
    {
        let txn = self.crdt.transact();
        self.root.get_string(&txn).into_bytes()
    }

    /// Relies on `yrs::ReadTxn::encode_state_as_update_v1`: the canonical
    /// encoding of the document's full state, a function of that state
    /// alone; repeated calls without intervening mutation return identical
    /// bytes. The result is itself an update that `yrs` accepts, and one
    /// Rust allocation, so its length stays below `usize::MAX`.
    #[verifier::external_body]
    pub(crate) fn raw_encode(&self) -> (r: Vec<u8>)
        ensures
            r@ == doc_state(self.crdt),
            update_ok(r@),
            r@.len() < usize::MAX,
    {
        let txn = self.crdt.transact();
        txn.encode_state_as_update_v1(&yrs::StateVector::default())
    }

    /// Relies on `yrs::Text::insert` with the byte offset kind that
    /// `yrs::Doc::new` configures: on a root container that holds plain
    /// text only, inserts one character at a byte offset that lies on a
    /// character boundary at or before the end of the text, and touches
    /// neither staged slot.
    #[verifier::external_body]
    pub(crate) fn raw_insert(&mut self, index: u32, c: u8)
        requires
            old(self).wf(),
            content_span(old(self)@.state) == state_text(old(self)@.state).len(),
            index as int <= state_text(old(self)@.state).len(),
            boundary_at(state_text(old(self)@.state), index as int),
        ensures
            final(self).wf(),
            state_text(final(self)@.state) == insert_into(
                state_text(old(self)@.state),
                index as int,
                c,
            ),
            content_span(final(self)@.state) == state_text(final(self)@.state).len(),
            final(self)@.text_slot == old(self)@.text_slot,
            final(self)@.bin_slot == old(self)@.bin_slot,
    {
        let mut txn = self.crdt.transact_mut();
        let s = String::from(c as char);
        self.root.insert(&mut txn, index, s.as_str());
    }

    /// Relies on `yrs::updates::decoder::Decode::decode_v1` and
    /// `yrs::TransactionMut::apply_update`: an update that `yrs` accepts is
    /// merged into the document; bytes that do not decode, or fail to
    /// integrate, are reported as malformed (integration may then have
    /// changed part of the state, so nothing is claimed of it). On a
    /// document whose state is still empty, exactly the accepted updates
    /// merge, and merging one reproduces exactly the text that the update
    /// encodes. Neither staged slot is touched.
    #[verifier::external_body]
    pub(crate) fn raw_apply(&mut self, update: &Vec<u8>) -> (r: Result<(), Error>)
        requires
            old(self).wf(),
        ensures
            final(self).wf(),
            final(self)@.text_slot == old(self)@.text_slot,
            final(self)@.bin_slot == old(self)@.bin_slot,
            r matches Err(e) ==> e == Error::MalformedUpdate,
            old(self)@.state == empty_state() ==> (r is Ok <==> update_ok(update@)),
            old(self)@.state == empty_state() && r is Ok ==> state_text(final(self)@.state)
                == state_text(update@),
    {
        match yrs::Update::decode_v1(update.as_slice()) {
            Ok(u) => {
                let mut txn = self.crdt.transact_mut();
                match txn.apply_update(u) {
                    Ok(()) => Ok(()),
                    Err(_) => Err(Error::MalformedUpdate),
                }
            },
            Err(_) => Err(Error::MalformedUpdate),
        }
    }
}

impl DocHandle {
    /// Inserts one character at byte offset `index` of the document's text.
    /// Succeeds exactly when the root holds plain text and the offset lies
    /// on a character boundary at or before the end of the text; anything
    /// else is rejected.
    pub fn insert_char(&mut self, index: u32, c: u8) -> (r: Result<(), Error>)
        requires
            old(self).wf(),
        ensures
            final(self).wf(),
            final(self)@.text_slot == old(self)@.text_slot,
            final(self)@.bin_slot == old(self)@.bin_slot,
            match r {
                Ok(()) => {
                    &&& old(self)@.plain()
                    &&& index as int <= old(self)@.text().len()
                    &&& boundary_at(old(self)@.text(), index as int)
                    &&& final(self)@.text() == insert_into(old(self)@.text(), index as int, c)
                    &&& final(self)@.plain()
                },
                Err(e) => {
                    &&& e == Error::IndexOutOfBounds
                    &&& !(old(self)@.plain() && index as int <= old(self)@.text().len()
                        && boundary_at(old(self)@.text(), index as int))
                    &&& *final(self) == *old(self)
                },
            },
    {
        let t = self.raw_text();
        let span = self.raw_len();
        if span as usize != t.len() {
            return Err(Error::IndexOutOfBounds);
        }
        if index as usize > t.len() {
            return Err(Error::IndexOutOfBounds);
        }
        if (index as usize) < t.len() {
            let b = t[index as usize];
            if 0x80 <= b && b < 0xC0 {
                return Err(Error::IndexOutOfBounds);
            }
        }
        self.raw_insert(index, c);
        Ok(())
    }

    /// Merges a binary update into the document; bytes that the CRDT
    /// library does not accept are reported as malformed. On a document
    /// whose state is still empty, exactly the accepted updates merge, and
    /// merging one reproduces exactly the text that the update encodes.
    pub fn apply_update(&mut self, update: &Vec<u8>) -> (r: Result<(), Error>)
        requires
            old(self).wf(),
        ensures
            final(self).wf(),
            final(self)@.text_slot == old(self)@.text_slot,
            final(self)@.bin_slot == old(self)@.bin_slot,
            r matches Err(e) ==> e == Error::MalformedUpdate,
            old(self)@.state == empty_state() ==> (r is Ok <==> update_ok(update@)),
            old(self)@.state == empty_state() && r is Ok ==> final(self)@.text() == state_text(
                update@,
            ),
    {
        self.raw_apply(update)
    }

    /// Stages the document's full serialized state in the binary slot,
    /// replacing whatever was pending there, and reports the byte length
    /// the caller must allocate to receive it. The document itself is
    /// unchanged, so repeated calls stage byte-identical results, and what
    /// is staged is always a well-formed update.
    pub fn encode_state_as_update(&mut self) -> (n: usize)
        requires
            old(self).wf(),
        ensures
            final(self).wf(),
            final(self)@ == old(self)@.encoded(),
            n == old(self)@.state.len(),
            update_ok(old(self)@.state),
    {
        let b = self.raw_encode();
        let n = b.len();
        self.bin_slot = Some(b);
        n
    }

    /// Stages the document's current text in the text slot, replacing
    /// whatever was pending there, and reports the byte length the caller
    /// must allocate: the content length plus one terminator byte.
    pub fn stringify(&mut self) -> (n: usize)
        requires
            old(self).wf(),
        ensures
            final(self).wf(),
            final(self)@ == old(self)@.stringified(),
            n == old(self)@.text().len() + 1,
    {
        let t = self.raw_text();
        let n = t.len();
        self.text_slot = Some(t);
        n + 1
    }

    /// Copies the pending text result followed by one zero terminator byte
    /// into the front of `buf`, leaves the rest of `buf` as it was, and
    /// clears the slot. Fails without writing anything when nothing is
    /// pending, or when `buf` is shorter than the reported length (the
    /// pending result then stays staged).
    pub fn read_text_result(&mut self, buf: &mut Vec<u8>) -> (r: Result<(), Error>)
        requires
            old(self).wf(),
        ensures
            final(self).wf(),
            match r {
                Ok(()) => {
                    &&& old(self)@.text_slot matches Some(t)
                    &&& old(buf)@.len() >= t.len() as int + 1
                    &&& final(buf)@ == t + seq![0u8] + old(buf)@.skip(t.len() as int + 1)
                    &&& final(self)@ == old(self)@.text_taken()
                },
                Err(Error::NoPendingResult) => {
                    &&& old(self)@.text_slot is None
                    &&& *final(self) == *old(self)
                    &&& *final(buf) == *old(buf)
                },
                Err(Error::BufferTooSmall) => {
                    &&& old(self)@.text_slot matches Some(t) && old(buf)@.len() < t.len() as int + 1
                    &&& *final(self) == *old(self)
                    &&& *final(buf) == *old(buf)
                },
                Err(_) => false,
            },
    {
        let content = match self.text_slot.take() {
            None => {
                return Err(Error::NoPendingResult);
            },
            Some(c) => c,
        };
        let n = content.len();
        let bl = buf.len();
        let enough = match n.checked_add(1) {
            Some(need) => bl >= need,
            None => false,
        };
        if !enough {
            self.text_slot = Some(content);
            return Err(Error::BufferTooSmall);
        }
        let ghost buf0 = buf@;
        let mut i: usize = 0;
        while i < n
            invariant
                i <= n,
                n == content@.len(),
                n + 1 <= buf@.len(),
                buf@.len() == buf0.len(),
                forall|j: int| 0 <= j < i ==> buf@[j] == content@[j],
                forall|j: int| i <= j < buf0.len() ==> buf@[j] == buf0[j],
            decreases n - i,
        {
            buf[i] = content[i];
            i += 1;
        }
        buf[n] = 0;
        proof {
            assert(buf@ =~= content@ + seq![0u8] + buf0.skip(n + 1));
        }
        Ok(())
    }

    /// Copies the pending binary result into the front of `buf`, leaves the
    /// rest of `buf` as it was, and clears the slot. Fails without writing
    /// anything when nothing is pending, or when `buf` is shorter than the
    /// reported length (the pending result then stays staged).
    pub fn read_binary_result(&mut self, buf: &mut Vec<u8>) -> (r: Result<(), Error>)
        requires
            old(self).wf(),
        ensures
            final(self).wf(),
            match r {
                Ok(()) => {
                    &&& old(self)@.bin_slot matches Some(b)
                    &&& old(buf)@.len() >= b.len()
                    &&& final(buf)@ == b + old(buf)@.skip(b.len() as int)
                    &&& final(self)@ == old(self)@.bin_taken()
                },
                Err(Error::NoPendingResult) => {
                    &&& old(self)@.bin_slot is None
                    &&& *final(self) == *old(self)
                    &&& *final(buf) == *old(buf)
                },
                Err(Error::BufferTooSmall) => {
                    &&& old(self)@.bin_slot matches Some(b) && old(buf)@.len() < b.len()
                    &&& *final(self) == *old(self)
                    &&& *final(buf) == *old(buf)
                },
                Err(_) => false,
            },
    {
        let content = match self.bin_slot.take() {
            None => {
                return Err(Error::NoPendingResult);
            },
            Some(c) => c,
        };
        let n = content.len();
        if buf.len() < n {
            self.bin_slot = Some(content);
            return Err(Error::BufferTooSmall);
        }
        let ghost buf0 = buf@;
        let mut i: usize = 0;
        while i < n
            invariant
                i <= n,
                n == content@.len(),
                n <= buf@.len(),
                buf@.len() == buf0.len(),
                forall|j: int| 0 <= j < i ==> buf@[j] == content@[j],
                forall|j: int| i <= j < buf0.len() ==> buf@[j] == buf0[j],
            decreases n - i,
        {
            buf[i] = content[i];
            i += 1;
        }
        proof {
            assert(buf@ =~= content@ + buf0.skip(n as int));
        }
        Ok(())
    }
}

} // verus!
