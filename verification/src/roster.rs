//! The roster of student records and the sequencer that hands out their
//! identifiers.

use vstd::prelude::*;

verus! {

/// One student record. Its `id` equals its 1-based insertion rank in the
/// roster that owns it; records are never updated or deleted.
pub struct Student {
    pub id: u32,
    pub firstname: String,
    pub lastname: String,
    pub fav_language: String,
}

impl Student {
    /// Builds a record from its parts.
    pub fn new(id: u32, firstname: &str, lastname: &str, fav_language: &str) -> (r: Student)
        ensures
            r.id == id,
            r.firstname@ == firstname@,
            r.lastname@ == lastname@,
            r.fav_language@ == fav_language@,
    {
        Student {
            id,
            firstname: firstname.to_owned(),
            lastname: lastname.to_owned(),
            fav_language: fav_language.to_owned(),
        }
    }
}

impl Clone for Student {
    fn clone(&self) -> (r: Self)
        ensures
            r == *self,
    {
        Student {
            id: self.id,
            firstname: self.firstname.clone(),
            lastname: self.lastname.clone(),
            fav_language: self.fav_language.clone(),
        }
    }
}

/// Assigns unique, gap-free increasing identifiers: the first call yields 1,
/// and each call yields the successor of the one before.
pub struct IdentitySequencer {
    next: u32,
}

impl IdentitySequencer {
    /// The identifier the next call of `fresh` will yield.
    pub closed spec fn next_spec(&self) -> int {
        self.next as int
    }

    /// A fresh sequencer, whose first identifier is 1.
    pub fn new() -> (r: IdentitySequencer)
        ensures
            r.next_spec() == 1,
    {
        IdentitySequencer { next: 1 }
    }

    /// Yields the next identifier and advances past it.
    pub fn fresh(&mut self) -> (id: u32)
        requires
            old(self).next_spec() < u32::MAX,
        ensures
            id == old(self).next_spec(),
            final(self).next_spec() == old(self).next_spec() + 1,
    {
        let id = self.next;
        self.next = self.next + 1;
        id
    }
}

/// Owns the ordered roster of student records. Identifier assignment and the
/// append happen in one operation, so ids always form the contiguous sequence
/// 1..=len: callers that share the roster across worker threads put it behind
/// a lock, and each method here is the whole critical section.
pub struct RosterStore {
    students: Vec<Student>,
    ids: IdentitySequencer,
}

impl RosterStore {
    /// The records, in insertion order.
    pub closed spec fn records(&self) -> Seq<Student> {
        self.students@
    }

    /// Spec-level view of the sequencer position.
    pub closed spec fn next_id(&self) -> int {
        self.ids.next_spec()
    }

    /// The roster invariant: the record at position `i` carries id `i + 1`,
    /// and the sequencer stands one past the last id handed out.
    pub open spec fn wf(&self) -> bool {
        &&& self.next_id() == self.records().len() + 1
        &&& self.records().len() < u32::MAX
        &&& forall|i: int|
            0 <= i < self.records().len() ==> #[trigger] self.records()[i].id == i + 1
    }

    /// An empty roster.
    pub fn new() -> (r: RosterStore)
        ensures
            r.wf(),
            r.records().len() == 0,
    {
        RosterStore { students: Vec::new(), ids: IdentitySequencer::new() }
    }

    /// The number of records.
    pub fn len(&self) -> (n: usize)
        ensures
            n == self.records().len(),
    {
        self.students.len()
    }

    /// Assigns the next identifier and appends the new record, as one
    /// operation: the returned record equals the one appended, and its id is
    /// the old length plus one.
    pub fn add(&mut self, firstname: &str, lastname: &str, fav_language: &str) -> (r: Student)
        requires
            old(self).wf(),
            old(self).records().len() + 1 < u32::MAX,
        ensures
            final(self).wf(),
            final(self).records() == old(self).records().push(r),
            r.id == old(self).records().len() + 1,
            r.firstname@ == firstname@,
            r.lastname@ == lastname@,
            r.fav_language@ == fav_language@,
    {
        let id = self.ids.fresh();
        let record = Student::new(id, firstname, lastname, fav_language);
        let copy = record.clone();
        self.students.push(record);
        copy
    }

    /// A consistent point-in-time copy of the roster, in insertion order.
    pub fn list(&self) -> (r: Vec<Student>)
        ensures
            r@ == self.records(),
    {
        let r = self.students.clone();
        proof {
            assert(r@ =~= self.students@);
        }
        r
    }

    /// Looks the record with the given id up; absence is no error. On a
    /// well-formed roster the record with id `k` stands at position `k - 1`,
    /// so exactly the ids 1..=len are found.
    pub fn find(&self, id: u32) -> (r: Option<Student>)
        requires
            self.wf(),
        ensures
            1 <= id <= self.records().len() ==> r == Some(self.records()[id - 1]),
            (id == 0 || id > self.records().len()) ==> r is None,
    {
        let n = self.students.len();
        let mut i: usize = 0;
        while i < n
            invariant
                self.wf(),
                n == self.records().len(),
                0 <= i <= n,
                forall|j: int| 0 <= j < i ==> #[trigger] self.records()[j].id != id,
            decreases n - i,
        {
            if self.students[i].id == id {
                return Some(self.students[i].clone());
            }
            i = i + 1;
        }
        proof {
            if 1 <= id <= self.records().len() {
                assert(self.records()[id - 1].id == id);
            }
        }
        None
    }
}

/// Law: however many insertions a roster has seen, its `n` records carry
/// exactly the identifiers 1 through `n` — every id in that range occurs,
/// no id occurs twice, and no id outside the range occurs.
pub proof fn lemma_roster_ids_gap_free(r: RosterStore)
    requires
        r.wf(),
    ensures
        forall|k: int|
            1 <= k <= r.records().len() ==> #[trigger] r.records()[k - 1].id == k,
        forall|i: int, j: int|
            0 <= i < r.records().len() && 0 <= j < r.records().len() && i != j
                ==> r.records()[i].id != r.records()[j].id,
        forall|i: int|
            0 <= i < r.records().len() ==> 1 <= #[trigger] r.records()[i].id <= r.records().len(),
{
}

} // verus!
