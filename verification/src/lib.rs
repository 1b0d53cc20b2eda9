//! Core of a small school registry: a single mutable teacher name, a
//! growable roster of student records with gap-free identifiers, a
//! per-session audit hint, and a read-mostly classroom catalog served from a
//! pooled persistent store. Request handling, templating and transport live
//! outside this crate; they call the plain operations offered here.

use vstd::prelude::*;

pub mod audit;
pub mod catalog;
pub mod roster;
pub mod shared;
pub mod teacher;

verus! {

/// How an operation of this registry fails.
#[derive(Clone, Copy, Debug, PartialEq, Eq, Structural)]
pub enum RegistryError {
    /// The input breaks a validation rule (an empty teacher name); the state
    /// is left unchanged.
    InvalidArgument,
    /// The connection pool stayed saturated for the whole configured wait;
    /// the caller may retry.
    ResourceExhausted,
    /// A stored row did not have the expected shape; not retryable.
    DataCorruption,
}

/// Shared application state: the one teacher name and the student roster.
/// The composition root constructs it once at startup and shares it across
/// worker threads behind locks; nothing here is a global singleton.
pub struct AppState {
    pub teacher: teacher::SingleValueStore,
    pub roster: roster::RosterStore,
}

impl AppState {
    /// Builds the state around an initial teacher name and an empty roster;
    /// an empty name is refused.
    pub fn new(initial_teacher: String) -> (r: Result<AppState, RegistryError>)
        ensures
            initial_teacher@.len() == 0 ==> r == Err::<AppState, RegistryError>(
                RegistryError::InvalidArgument,
            ),
            initial_teacher@.len() > 0 ==> (r matches Ok(s)
                && s.teacher.value_spec() == initial_teacher@ && s.teacher.wf() && s.roster.wf()
                && s.roster.records().len() == 0),
    {
        match teacher::SingleValueStore::new(initial_teacher) {
            Ok(t) => Ok(AppState { teacher: t, roster: roster::RosterStore::new() }),
            Err(e) => Err(e),
        }
    }

    /// Looks the student with the given id up in the roster; absence is no
    /// error.
    pub fn find_student(&self, id: u32) -> (r: Option<roster::Student>)
        requires
            self.roster.wf(),
        ensures
            1 <= id <= self.roster.records().len() ==> r == Some(
                self.roster.records()[id - 1],
            ),
            (id == 0 || id > self.roster.records().len()) ==> r is None,
    {
        self.roster.find(id)
    }
}

} // verus!
