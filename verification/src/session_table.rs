//! The session table: which handles are open, and what is known of each.
//!
//! A handle is the key under which a slab keeps the session.  A key is free for
//! reuse once its session was closed, so a handle means something only while
//! its session is open.

use crate::error_channel::{set_err, ErrorChannel, FAILURE};
use slab::Slab;
use vstd::prelude::*;

verus! {

/// What the boundary keeps of one open session.
#[derive(Clone, Copy, Debug, PartialEq, Eq, Structural)]
pub struct PortState {
    /// The longest that one read on the session's device waits, in
    /// milliseconds.
    pub read_timeout_ms: u64,
}

/// `slab::Slab`, the collection that allots the keys.
#[verifier::external_type_specification]
#[verifier::external_body]
#[verifier::reject_recursive_types(T)]
pub struct ExSlab<T>(Slab<T>);

/// The values that a slab holds, each under its key.
pub uninterp spec fn slab_entries(slab: Slab<PortState>) -> Map<usize, PortState>;

/// `Slab::new`: a slab that holds nothing.
#[verifier::external_body]
fn slab_new() -> (fresh: Slab<PortState>)
    ensures
        slab_entries(fresh).dom() == Set::<usize>::empty(),
{
    Slab::new()
}

/// `Slab::insert`: stores the value under a key that held nothing, returns
/// that key, and leaves every other key as it was.  Like a `Vec` that grows,
/// the slab gives up only where its storage can no longer be allocated.
#[verifier::external_body]
fn slab_insert(slab: &mut Slab<PortState>, state: PortState) -> (key: usize)
    ensures
        !slab_entries(*old(slab)).dom().contains(key),
        slab_entries(*final(slab)) == slab_entries(*old(slab)).insert(key, state),
{
    slab.insert(state)
}

/// `Slab::contains`: whether a value is stored under the key.
#[verifier::external_body]
fn slab_contains(slab: &Slab<PortState>, key: usize) -> (held: bool)
    ensures
        held == slab_entries(*slab).dom().contains(key),
{
    slab.contains(key)
}

/// `Slab::remove`: takes out the value stored under the key and returns it.
/// The slab panics on a key that holds nothing, so such a key is not admitted.
#[verifier::external_body]
fn slab_remove(slab: &mut Slab<PortState>, key: usize) -> (state: PortState)
    requires
        slab_entries(*old(slab)).dom().contains(key),
    ensures
        state == slab_entries(*old(slab))[key],
        slab_entries(*final(slab)) == slab_entries(*old(slab)).remove(key),
{
    slab.remove(key)
}

/// `Slab::get_mut`: the value stored under the key, open to change, or nothing
/// where the key holds none.  Whatever the caller writes through the reference
/// is what the slab then holds under that key.
#[verifier::external_body]
fn slab_get_mut(slab: &mut Slab<PortState>, key: usize) -> (found: Option<&mut PortState>)
    ensures
        match found {
            Some(state) => {
                &&& slab_entries(*old(slab)).dom().contains(key)
                &&& *state == slab_entries(*old(slab))[key]
                &&& slab_entries(*final(slab)) == slab_entries(*old(slab)).insert(
                    key,
                    *final(state),
                )
            },
            None => {
                &&& !slab_entries(*old(slab)).dom().contains(key)
                &&& slab_entries(*final(slab)) == slab_entries(*old(slab))
            },
        },
{
    slab.get_mut(key)
}

/// The slab's entries as the boundary sees them: each under its key as a
/// 64-bit handle.
spec fn by_handle(entries: Map<usize, PortState>) -> Map<u64, PortState> {
    Map::new(
        |handle: u64| handle <= usize::MAX && entries.dom().contains(handle as usize),
        |handle: u64| entries[handle as usize],
    )
}

proof fn lemma_by_handle_insert(entries: Map<usize, PortState>, key: usize, state: PortState)
    ensures
        by_handle(entries.insert(key, state)) == by_handle(entries).insert(key as u64, state),
{
    assert(by_handle(entries.insert(key, state)) =~= by_handle(entries).insert(
        key as u64,
        state,
    ));
}

proof fn lemma_by_handle_remove(entries: Map<usize, PortState>, key: usize)
    ensures
        by_handle(entries.remove(key)) == by_handle(entries).remove(key as u64),
{
    assert(by_handle(entries.remove(key)) =~= by_handle(entries).remove(key as u64));
}

/// The table of open sessions, with the handle that was opened last.  A
/// handle too large to be a key of the slab names no session.
pub struct SessionTable {
    slab: Slab<PortState>,
    last: u64,
}

impl SessionTable {
    /// The open sessions, each under its handle.
    pub closed spec fn sessions(&self) -> Map<u64, PortState> {
        by_handle(slab_entries(self.slab))
    }

    /// The handle that `serial_last_handle` reports.
    pub closed spec fn last_handle(&self) -> u64 {
        self.last
    }

    /// Whether `handle` names an open session.
    pub open spec fn is_open(&self, handle: u64) -> bool {
        self.sessions().dom().contains(handle)
    }

    /// A table with no session; its last handle is zero.
    pub fn new() -> (table: SessionTable)
        ensures
            table.sessions() == Map::<u64, PortState>::empty(),
            table.last_handle() == 0,
    {
        let table = SessionTable { slab: slab_new(), last: 0 };
        table
    }

    /// Whether `handle` names an open session.
    pub fn contains(&self, handle: u64) -> (open: bool)
        ensures
            open == self.is_open(handle),
    {
        handle <= usize::MAX as u64 && slab_contains(&self.slab, handle as usize)
    }

    /// Makes `handle` the one that `serial_last_handle` reports.
    pub(crate) fn set_last_handle(&mut self, handle: u64)
        ensures
            final(self).sessions() == old(self).sessions(),
            final(self).last_handle() == handle,
    {
        self.last = handle;
    }
}

/// Stores a session and returns the handle allotted to it: one that named no
/// open session before.
pub fn insert_handle(table: &mut SessionTable, state: PortState) -> (handle: u64)
    ensures
        !old(table).is_open(handle),
        final(table).sessions() == old(table).sessions().insert(handle, state),
        final(table).last_handle() == old(table).last_handle(),
{
    let key = slab_insert(&mut table.slab, state);
    proof {
        lemma_by_handle_insert(slab_entries(old(table).slab), key, state);
    }
    key as u64
}

/// The text left on the error channel where a handle names no open session.
pub open spec fn invalid_handle_text() -> Seq<char> {
    "invalid handle"@
}

/// Looks up the session that `handle` names and hands it out for the length of
/// one operation.  Where the handle names none, the failure is reported and
/// the table stays as it was.
pub fn with_state_mut<'a>(
    table: &'a mut SessionTable,
    errors: &mut ErrorChannel,
    handle: u64,
) -> (found: Result<&'a mut PortState, i32>)
    ensures
        found is Ok == old(table).is_open(handle),
        final(table).last_handle() == old(table).last_handle(),
        match found {
            Ok(state) => {
                &&& *state == old(table).sessions()[handle]
                &&& final(table).sessions() == old(table).sessions().insert(
                    handle,
                    *final(state),
                )
                &&& final(errors).message() == old(errors).message()
            },
            Err(code) => {
                &&& code == FAILURE
                &&& final(table).sessions() == old(table).sessions()
                &&& final(errors).message() == Some(invalid_handle_text())
            },
        },
{
    if handle > usize::MAX as u64 {
        return Err(set_err(errors, "invalid handle".to_owned()));
    }
    match slab_get_mut(&mut table.slab, handle as usize) {
        Some(state) => {
            proof {
                lemma_by_handle_insert(
                    slab_entries(old(table).slab),
                    handle as usize,
                    *final(state),
                );
            }
            Ok(state)
        },
        None => Err(set_err(errors, "invalid handle".to_owned())),
    }
}

/// The handle of the session that was opened last; zero before the first one.
/// It may name a session that has been closed since.
pub fn serial_last_handle(table: &SessionTable) -> (handle: u64)
    ensures
        handle == table.last_handle(),
{
    table.last
}

/// Closes the session that `handle` names and returns zero.  Where the handle
/// names none, the failure is reported and the table stays as it was.
pub fn serial_close(table: &mut SessionTable, errors: &mut ErrorChannel, handle: u64) -> (code:
    i32)
    ensures
        final(table).last_handle() == old(table).last_handle(),
        !final(table).is_open(handle),
        old(table).is_open(handle) ==> {
            &&& code == 0
            &&& final(table).sessions() == old(table).sessions().remove(handle)
            &&& final(errors).message() == old(errors).message()
        },
        !old(table).is_open(handle) ==> {
            &&& code == FAILURE
            &&& final(table).sessions() == old(table).sessions()
            &&& final(errors).message() == Some(invalid_handle_text())
        },
{
    if table.contains(handle) {
        let _ = slab_remove(&mut table.slab, handle as usize);
        proof {
            lemma_by_handle_remove(slab_entries(old(table).slab), handle as usize);
        }
        0
    } else {
        set_err(errors, "invalid handle".to_owned())
    }
}

/// One change that an operation makes to the sessions of a table.  A
/// completed open makes the first, a close that succeeds the second, and an
/// operation that was handed an open session the third; every other outcome
/// leaves the sessions as they were.
pub enum TableChange {
    /// An open entered this session under this handle.
    Opened(u64, PortState),
    /// A close removed the session under this handle.
    Closed(u64),
    /// An operation on the open session under this handle left it in this
    /// state.
    Changed(u64, PortState),
}

/// Whether the change is an open that hands out `handle`.
pub open spec fn hands_out(change: TableChange, handle: u64) -> bool {
    change matches TableChange::Opened(opened, _) && opened == handle
}

/// The sessions after one change.  Only an open brings a handle in, and only a
/// close takes one out; a change of state needs the session to be open.
pub open spec fn sessions_changed(sessions: Map<u64, PortState>, change: TableChange) -> Map<
    u64,
    PortState,
> {
    match change {
        TableChange::Opened(handle, state) => sessions.insert(handle, state),
        TableChange::Closed(handle) => sessions.remove(handle),
        TableChange::Changed(handle, state) => if sessions.dom().contains(handle) {
            sessions.insert(handle, state)
        } else {
            sessions
        },
    }
}

/// The sessions after the changes were made, in order, to `start`.
pub open spec fn sessions_after(start: Map<u64, PortState>, changes: Seq<TableChange>) -> Map<
    u64,
    PortState,
>
    decreases changes.len(),
{
    if changes.len() == 0 {
        start
    } else {
        sessions_changed(sessions_after(start, changes.drop_last()), changes.last())
    }
}

/// Whatever is done to a table after a handle was closed, the handle names no
/// open session as long as no later open hands out the same number again.
/// Every operation on it then fails as on a handle that was never open.
pub proof fn lemma_closed_handle_stays_closed(
    start: Map<u64, PortState>,
    changes: Seq<TableChange>,
    at: int,
    handle: u64,
)
    requires
        0 <= at < changes.len(),
        changes[at] == TableChange::Closed(handle),
        forall|later: int|
            at < later < changes.len() ==> !hands_out(#[trigger] changes[later], handle),
    ensures
        !sessions_after(start, changes).dom().contains(handle),
    decreases changes.len(),
{
    if at < changes.len() - 1 {
        let earlier = changes.drop_last();
        assert(earlier[at] == changes[at]);
        assert forall|later: int| at < later < earlier.len() implies !hands_out(
            #[trigger] earlier[later],
            handle,
        ) by {
            assert(earlier[later] == changes[later]);
        }
        lemma_closed_handle_stays_closed(start, earlier, at, handle);
    }
}

/// A handle that a later open hands out again names the new session, in the
/// state in which it was opened: the earlier close does not reach it.
pub proof fn lemma_reopened_handle_names_new_session(
    start: Map<u64, PortState>,
    changes: Seq<TableChange>,
    handle: u64,
    state: PortState,
)
    requires
        changes.len() > 0,
        changes.last() == TableChange::Opened(handle, state),
    ensures
        sessions_after(start, changes).dom().contains(handle),
        sessions_after(start, changes)[handle] == state,
{
}

/// No change but an open brings a handle into the table: a handle that names
/// no session before a close or a change of state names none after it.
pub proof fn lemma_only_open_brings_a_handle_in(
    sessions: Map<u64, PortState>,
    change: TableChange,
    handle: u64,
)
    requires
        !sessions.dom().contains(handle),
        !hands_out(change, handle),
    ensures
        !sessions_changed(sessions, change).dom().contains(handle),
{
}

} // verus!
