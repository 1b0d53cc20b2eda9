//! Lock-guarded handles to the mutable stores, for sharing across worker
//! threads. Each handle brokers exclusive mutation access through a verified
//! reader-writer lock whose invariant says that every value ever stored in it
//! is well formed; each method below is exactly one critical section — the
//! lock is taken, the store operation runs, the lock is released, and no
//! other work happens in between.

use vstd::prelude::*;
use vstd::rwlock::RwLock;
use vstd::rwlock::RwLockPredicate;

verus! {

use crate::RegistryError;
use crate::roster::RosterStore;
use crate::roster::Student;
use crate::teacher::SingleValueStore;

/// What may sit in the shared teacher cell: only a well-formed store, whose
/// name is never empty.
pub struct TeacherInv {}

impl RwLockPredicate<SingleValueStore> for TeacherInv {
    open spec fn inv(self, v: SingleValueStore) -> bool {
        v.wf()
    }
}

/// The one teacher name, shared by all worker threads. Whatever interleaving
/// the threads produce, every value the lock ever guards is well formed, so
/// no reader ever observes an empty name and no writer ever stores one.
pub struct SharedTeacher {
    cell: RwLock<SingleValueStore, TeacherInv>,
}

impl SharedTeacher {
    /// Builds the shared cell around an initial name; an empty one is
    /// refused.
    pub fn new(initial: String) -> (r: Result<SharedTeacher, RegistryError>)
        ensures
            initial@.len() == 0 ==> (r matches Err(e) && e == RegistryError::InvalidArgument),
            initial@.len() > 0 ==> r is Ok,
    {
        match SingleValueStore::new(initial) {
            Ok(store) => Ok(SharedTeacher { cell: RwLock::new(store, Ghost(TeacherInv {})) }),
            Err(e) => Err(e),
        }
    }

    /// Copies the current name out under a read lock; the copy is never
    /// empty. Writers are blocked only for the duration of the copy.
    pub fn read(&self) -> (r: String)
        ensures
            r@.len() > 0,
    {
        let handle = self.cell.acquire_read();
        let name = handle.borrow().read();
        handle.release_read();
        name
    }

    /// Atomically swaps in a new name and returns the previous one: the swap
    /// runs under the write lock, so the returned text is the value
    /// immediately preceding this caller's own write in the cell's
    /// modification order. An empty new name is refused and the stored value
    /// stays as it was.
    pub fn set(&self, new_value: String) -> (r: Result<String, RegistryError>)
        ensures
            new_value@.len() == 0 ==> (r matches Err(e) && e == RegistryError::InvalidArgument),
            new_value@.len() > 0 ==> (r matches Ok(prev) && prev@.len() > 0),
    {
        let (mut store, handle) = self.cell.acquire_write();
        let swapped = store.set(new_value);
        handle.release_write(store);
        swapped
    }
}

/// What may sit in the shared roster cell: only a well-formed roster, whose
/// ids form the contiguous sequence 1..=len.
pub struct RosterInv {}

impl RwLockPredicate<RosterStore> for RosterInv {
    open spec fn inv(self, v: RosterStore) -> bool {
        v.wf()
    }
}

/// The student roster, shared by all worker threads. Identifier assignment
/// and the append run under one write lock, so no two insertions — however
/// interleaved — can compute the same id, and every value the lock ever
/// guards is a well-formed roster.
pub struct SharedRoster {
    cell: RwLock<RosterStore, RosterInv>,
}

impl SharedRoster {
    /// A shared cell around an empty roster.
    pub fn new() -> SharedRoster {
        SharedRoster { cell: RwLock::new(RosterStore::new(), Ghost(RosterInv {})) }
    }

    /// Assigns the next identifier and appends the record, as one critical
    /// section. A roster that has used up the identifier space surfaces as
    /// `ResourceExhausted`; otherwise the returned record is the appended
    /// one, and its id is at least 1.
    pub fn add(&self, firstname: &str, lastname: &str, fav_language: &str) -> (r: Result<
        Student,
        RegistryError,
    >)
        ensures
            r matches Ok(s) ==> (s.id >= 1 && s.firstname@ == firstname@
                && s.lastname@ == lastname@ && s.fav_language@ == fav_language@),
            r matches Err(e) ==> e == RegistryError::ResourceExhausted,
    {
        let (mut store, handle) = self.cell.acquire_write();
        let added = if store.len() >= (u32::MAX - 1) as usize {
            Err(RegistryError::ResourceExhausted)
        } else {
            Ok(store.add(firstname, lastname, fav_language))
        };
        handle.release_write(store);
        added
    }

    /// A consistent point-in-time snapshot, taken under a read lock: inserts
    /// running concurrently are not visible within it. Whatever interleaving
    /// produced the roster, the snapshot's ids are the contiguous sequence
    /// 1..=len — the record at position `i` carries id `i + 1`.
    pub fn list(&self) -> (r: Vec<Student>)
        ensures
            forall|i: int| 0 <= i < r@.len() ==> #[trigger] r@[i].id == i + 1,
    {
        let handle = self.cell.acquire_read();
        let snapshot = handle.borrow().list();
        handle.release_read();
        snapshot
    }

    /// Looks the record with the given id up under a read lock; absence is no
    /// error. A record that comes back carries exactly the id asked for.
    pub fn find(&self, id: u32) -> (r: Option<Student>)
        ensures
            r matches Some(s) ==> s.id == id,
    {
        let handle = self.cell.acquire_read();
        let found = handle.borrow().find(id);
        handle.release_read();
        found
    }
}

} // verus!
