//! The checked-handle table: a process-local registry that maps opaque
//! integer identifiers to owned document handles. Every entry point looks
//! the identifier up and fails with `InvalidHandle` when it was never
//! issued or was already destroyed, so no operation ever touches a dead
//! handle. Identifiers are never reused.

use vstd::prelude::*;
use crate::handle::{DocHandle, state_text, update_ok};
use crate::model::{DocModel, insert_into, boundary_at, empty_state};
use crate::Error;

verus! {

/// An opaque identifier for one live document handle.
pub type HandleId = usize;

/// A freshly created document's model: empty state, nothing staged.
pub open spec fn fresh_doc() -> DocModel {
    DocModel { state: empty_state(), text_slot: None, bin_slot: None }
}

/// Whether `id` names a live (created and not yet destroyed) handle.
pub open spec fn live(v: Seq<Option<DocModel>>, id: int) -> bool {
    &&& 0 <= id < v.len()
    &&& v[id] is Some
}

/// The model of the live handle `id`.
pub open spec fn doc_at(v: Seq<Option<DocModel>>, id: int) -> DocModel
    recommends
        live(v, id),
{
    v[id]->Some_0
}

/// Whether one registry entry, if live, satisfies the handle invariant.
pub open spec fn entry_wf(d: Option<DocHandle>) -> bool {
    match d {
        Some(x) => x.wf(),
        None => true,
    }
}

/// The registry of document handles.
pub struct DocTable {
    docs: Vec<Option<DocHandle>>,
}

impl View for DocTable {
    type V = Seq<Option<DocModel>>;

    closed spec fn view(&self) -> Seq<Option<DocModel>> {
        self.docs@.map_values(
            |d: Option<DocHandle>|
                match d {
                    Some(x) => Some(x@),
                    None => None,
                },
        )
    }
}

impl DocTable {
    /// Every live handle in the table satisfies its internal invariant.
    pub closed spec fn wf(&self) -> bool {
        forall|i: int| 0 <= i < self.docs@.len() ==> entry_wf(#[trigger] self.docs@[i])
    }

    /// An empty table: no handle has been issued yet.
    pub fn new() -> (t: DocTable)
        ensures
            t.wf(),
            t@ == Seq::<Option<DocModel>>::empty(),
    {
        let t = DocTable { docs: Vec::new() };
        proof {
            assert(t@ =~= Seq::<Option<DocModel>>::empty());
        }
        t
    }

    /// Creates a new empty document with empty staged slots and returns its
    /// identifier. Never fails.
    pub fn create_document(&mut self) -> (id: HandleId)
        requires
            old(self).wf(),
        ensures
            final(self).wf(),
            id == old(self)@.len(),
            final(self)@ == old(self)@.push(Some(fresh_doc())),
            state_text(empty_state()) == Seq::<u8>::empty(),
            fresh_doc().plain(),
    {
        let id = self.docs.len();
        self.docs.push(Some(DocHandle::new()));
        proof {
            assert(self@ =~= old(self)@.push(Some(fresh_doc())));
        }
        id
    }

    /// Releases the document and both staged slots behind `id`. The
    /// identifier is dead afterwards and is never issued again.
    pub fn destroy_document(&mut self, id: HandleId) -> (r: Result<(), Error>)
        requires
            old(self).wf(),
        ensures
            final(self).wf(),
            match r {
                Ok(()) => {
                    &&& live(old(self)@, id as int)
                    &&& final(self)@ == old(self)@.update(id as int, None)
                },
                Err(e) => {
                    &&& e == Error::InvalidHandle
                    &&& !live(old(self)@, id as int)
                    &&& final(self)@ == old(self)@
                },
            },
    {
        if id >= self.docs.len() {
            return Err(Error::InvalidHandle);
        }
        let entry = self.docs[id].take();
        match entry {
            None => {
                proof {
                    assert(self@ =~= old(self)@);
                }
                Err(Error::InvalidHandle)
            },
            Some(_) => {
                proof {
                    assert(self@ =~= old(self)@.update(id as int, None));
                }
                Ok(())
            },
        }
    }

    /// Inserts one character at byte offset `index` of the text of the
    /// document behind `id`.
    pub fn insert_char(&mut self, id: HandleId, index: u32, c: u8) -> (r: Result<(), Error>)
        requires
            old(self).wf(),
        ensures
            final(self).wf(),
            match r {
                Ok(()) => {
                    &&& live(old(self)@, id as int)
                    &&& doc_at(old(self)@, id as int).plain()
                    &&& index as int <= doc_at(old(self)@, id as int).text().len()
                    &&& boundary_at(doc_at(old(self)@, id as int).text(), index as int)
                    &&& live(final(self)@, id as int)
                    &&& doc_at(final(self)@, id as int).plain()
                    &&& doc_at(final(self)@, id as int).text() == insert_into(
                        doc_at(old(self)@, id as int).text(),
                        index as int,
                        c,
                    )
                    &&& doc_at(final(self)@, id as int).text_slot == doc_at(
                        old(self)@,
                        id as int,
                    ).text_slot
                    &&& doc_at(final(self)@, id as int).bin_slot == doc_at(
                        old(self)@,
                        id as int,
                    ).bin_slot
                    &&& forall|j: int| 0 <= j < old(self)@.len() && j != id ==> final(self)@[j]
                        == old(self)@[j]
                    &&& final(self)@.len() == old(self)@.len()
                },
                Err(Error::InvalidHandle) => {
                    &&& !live(old(self)@, id as int)
                    &&& final(self)@ == old(self)@
                },
                Err(Error::IndexOutOfBounds) => {
                    &&& live(old(self)@, id as int)
                    &&& !(doc_at(old(self)@, id as int).plain() && index as int <= doc_at(
                        old(self)@,
                        id as int,
                    ).text().len() && boundary_at(
                        doc_at(old(self)@, id as int).text(),
                        index as int,
                    ))
                    &&& final(self)@ == old(self)@
                },
                Err(_) => false,
            },
    {
        if id >= self.docs.len() {
            return Err(Error::InvalidHandle);
        }
        let entry = self.docs[id].take();
        match entry {
            None => {
                proof {
                    assert(self@ =~= old(self)@);
                }
                Err(Error::InvalidHandle)
            },
            Some(mut d) => {
                let r = d.insert_char(index, c);
                self.docs[id] = Some(d);
                proof {
                    assert(self@ =~= old(self)@.update(id as int, Some(d@)));
                    if r is Err {
                        assert(self@ =~= old(self)@);
                    }
                }
                r
            },
        }
    }

    /// Merges a binary update into the document behind `id`. On a document
    /// whose state is still empty, exactly the accepted updates merge, and
    /// merging one reproduces exactly the text that the update encodes.
    pub fn apply_update(&mut self, id: HandleId, update: &Vec<u8>) -> (r: Result<(), Error>)
        requires
            old(self).wf(),
        ensures
            final(self).wf(),
            match r {
                Ok(()) => {
                    &&& live(old(self)@, id as int)
                    &&& live(final(self)@, id as int)
                    &&& (doc_at(old(self)@, id as int).state == empty_state() ==> update_ok(
                        update@,
                    ) && doc_at(final(self)@, id as int).text() == state_text(update@))
                    &&& doc_at(final(self)@, id as int).text_slot == doc_at(
                        old(self)@,
                        id as int,
                    ).text_slot
                    &&& doc_at(final(self)@, id as int).bin_slot == doc_at(
                        old(self)@,
                        id as int,
                    ).bin_slot
                    &&& forall|j: int| 0 <= j < old(self)@.len() && j != id ==> final(self)@[j]
                        == old(self)@[j]
                    &&& final(self)@.len() == old(self)@.len()
                },
                Err(Error::InvalidHandle) => {
                    &&& !live(old(self)@, id as int)
                    &&& final(self)@ == old(self)@
                },
                Err(Error::MalformedUpdate) => {
                    &&& live(old(self)@, id as int)
                    &&& live(final(self)@, id as int)
                    &&& (doc_at(old(self)@, id as int).state == empty_state() ==> !update_ok(
                        update@,
                    ))
                    &&& doc_at(final(self)@, id as int).text_slot == doc_at(
                        old(self)@,
                        id as int,
                    ).text_slot
                    &&& doc_at(final(self)@, id as int).bin_slot == doc_at(
                        old(self)@,
                        id as int,
                    ).bin_slot
                    &&& forall|j: int| 0 <= j < old(self)@.len() && j != id ==> final(self)@[j]
                        == old(self)@[j]
                    &&& final(self)@.len() == old(self)@.len()
                },
                Err(_) => false,
            },
    {
        if id >= self.docs.len() {
            return Err(Error::InvalidHandle);
        }
        let entry = self.docs[id].take();
        match entry {
            None => {
                proof {
                    assert(self@ =~= old(self)@);
                }
                Err(Error::InvalidHandle)
            },
            Some(mut d) => {
                let r = d.apply_update(update);
                self.docs[id] = Some(d);
                proof {
                    assert(self@ =~= old(self)@.update(id as int, Some(d@)));
                }
                r
            },
        }
    }

    /// Stages the full serialized state of the document behind `id` in its
    /// binary slot and reports the byte length the caller must allocate.
    pub fn encode_state_as_update(&mut self, id: HandleId) -> (r: Result<usize, Error>)
        requires
            old(self).wf(),
        ensures
            final(self).wf(),
            match r {
                Ok(n) => {
                    &&& live(old(self)@, id as int)
                    &&& final(self)@ == old(self)@.update(
                        id as int,
                        Some(doc_at(old(self)@, id as int).encoded()),
                    )
                    &&& n == doc_at(old(self)@, id as int).state.len()
                    &&& update_ok(doc_at(old(self)@, id as int).state)
                },
                Err(e) => {
                    &&& e == Error::InvalidHandle
                    &&& !live(old(self)@, id as int)
                    &&& final(self)@ == old(self)@
                },
            },
    {
        if id >= self.docs.len() {
            return Err(Error::InvalidHandle);
        }
        let entry = self.docs[id].take();
        match entry {
            None => {
                proof {
                    assert(self@ =~= old(self)@);
                }
                Err(Error::InvalidHandle)
            },
            Some(mut d) => {
                let n = d.encode_state_as_update();
                self.docs[id] = Some(d);
                proof {
                    assert(self@ =~= old(self)@.update(
                        id as int,
                        Some(doc_at(old(self)@, id as int).encoded()),
                    ));
                }
                Ok(n)
            },
        }
    }

    /// Stages the current text of the document behind `id` in its text slot
    /// and reports the byte length the caller must allocate: the content
    /// length plus one terminator byte.
    pub fn stringify(&mut self, id: HandleId) -> (r: Result<usize, Error>)
        requires
            old(self).wf(),
        ensures
            final(self).wf(),
            match r {
                Ok(n) => {
                    &&& live(old(self)@, id as int)
                    &&& final(self)@ == old(self)@.update(
                        id as int,
                        Some(doc_at(old(self)@, id as int).stringified()),
                    )
                    &&& n == doc_at(old(self)@, id as int).text().len() + 1
                },
                Err(e) => {
                    &&& e == Error::InvalidHandle
                    &&& !live(old(self)@, id as int)
                    &&& final(self)@ == old(self)@
                },
            },
    {
        if id >= self.docs.len() {
            return Err(Error::InvalidHandle);
        }
        let entry = self.docs[id].take();
        match entry {
            None => {
                proof {
                    assert(self@ =~= old(self)@);
                }
                Err(Error::InvalidHandle)
            },
            Some(mut d) => {
                let n = d.stringify();
                self.docs[id] = Some(d);
                proof {
                    assert(self@ =~= old(self)@.update(
                        id as int,
                        Some(doc_at(old(self)@, id as int).stringified()),
                    ));
                }
                Ok(n)
            },
        }
    }

    /// Copies the pending text result of the document behind `id`, followed
    /// by one zero terminator byte, into the front of `buf`, and clears the
    /// slot. Fails without writing anything when the handle is dead, when
    /// nothing is pending, or when `buf` is shorter than the reported
    /// length (the pending result then stays staged).
    pub fn read_text_result(&mut self, id: HandleId, buf: &mut Vec<u8>) -> (r: Result<(), Error>)
        requires
            old(self).wf(),
        ensures
            final(self).wf(),
            match r {
                Ok(()) => {
                    &&& live(old(self)@, id as int)
                    &&& doc_at(old(self)@, id as int).text_slot matches Some(t)
                    &&& old(buf)@.len() >= t.len() as int + 1
                    &&& final(buf)@ == t + seq![0u8] + old(buf)@.skip(t.len() as int + 1)
                    &&& final(self)@ == old(self)@.update(
                        id as int,
                        Some(doc_at(old(self)@, id as int).text_taken()),
                    )
                },
                Err(Error::InvalidHandle) => {
                    &&& !live(old(self)@, id as int)
                    &&& final(self)@ == old(self)@
                    &&& *final(buf) == *old(buf)
                },
                Err(Error::NoPendingResult) => {
                    &&& live(old(self)@, id as int)
                    &&& doc_at(old(self)@, id as int).text_slot is None
                    &&& final(self)@ == old(self)@
                    &&& *final(buf) == *old(buf)
                },
                Err(Error::BufferTooSmall) => {
                    &&& live(old(self)@, id as int)
                    &&& doc_at(old(self)@, id as int).text_slot matches Some(t) && old(
                        buf,
                    )@.len() < t.len() as int + 1
                    &&& final(self)@ == old(self)@
                    &&& *final(buf) == *old(buf)
                },
                Err(_) => false,
            },
    {
        if id >= self.docs.len() {
            return Err(Error::InvalidHandle);
        }
        let entry = self.docs[id].take();
        match entry {
            None => {
                proof {
                    assert(self@ =~= old(self)@);
                }
                Err(Error::InvalidHandle)
            },
            Some(mut d) => {
                let r = d.read_text_result(buf);
                self.docs[id] = Some(d);
                proof {
                    if r is Ok {
                        assert(self@ =~= old(self)@.update(
                            id as int,
                            Some(doc_at(old(self)@, id as int).text_taken()),
                        ));
                    } else {
                        assert(self@ =~= old(self)@);
                    }
                }
                r
            },
        }
    }

    /// Copies the pending binary result of the document behind `id` into
    /// the front of `buf` and clears the slot. Fails without writing
    /// anything when the handle is dead, when nothing is pending, or when
    /// `buf` is shorter than the reported length (the pending result then
    /// stays staged).
    pub fn read_binary_result(&mut self, id: HandleId, buf: &mut Vec<u8>) -> (r: Result<(), Error>)
        requires
            old(self).wf(),
        ensures
            final(self).wf(),
            match r {
                Ok(()) => {
                    &&& live(old(self)@, id as int)
                    &&& doc_at(old(self)@, id as int).bin_slot matches Some(b)
                    &&& old(buf)@.len() >= b.len()
                    &&& final(buf)@ == b + old(buf)@.skip(b.len() as int)
                    &&& final(self)@ == old(self)@.update(
                        id as int,
                        Some(doc_at(old(self)@, id as int).bin_taken()),
                    )
                },
                Err(Error::InvalidHandle) => {
                    &&& !live(old(self)@, id as int)
                    &&& final(self)@ == old(self)@
                    &&& *final(buf) == *old(buf)
                },
                Err(Error::NoPendingResult) => {
                    &&& live(old(self)@, id as int)
                    &&& doc_at(old(self)@, id as int).bin_slot is None
                    &&& final(self)@ == old(self)@
                    &&& *final(buf) == *old(buf)
                },
                Err(Error::BufferTooSmall) => {
                    &&& live(old(self)@, id as int)
                    &&& doc_at(old(self)@, id as int).bin_slot matches Some(b) && old(
                        buf,
                    )@.len() < b.len()
                    &&& final(self)@ == old(self)@
                    &&& *final(buf) == *old(buf)
                },
                Err(_) => false,
            },
    {
        if id >= self.docs.len() {
            return Err(Error::InvalidHandle);
        }
        let entry = self.docs[id].take();
        match entry {
            None => {
                proof {
                    assert(self@ =~= old(self)@);
                }
                Err(Error::InvalidHandle)
            },
            Some(mut d) => {
                let r = d.read_binary_result(buf);
                self.docs[id] = Some(d);
                proof {
                    if r is Ok {
                        assert(self@ =~= old(self)@.update(
                            id as int,
                            Some(doc_at(old(self)@, id as int).bin_taken()),
                        ));
                    } else {
                        assert(self@ =~= old(self)@);
                    }
                }
                r
            },
        }
    }
}

} // verus!
