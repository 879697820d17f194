use std::collections::HashMap;
use vstd::prelude::*;

verus! {

/// Display information for one user, shared by every session of a week.
#[derive(Clone, Debug)]
pub struct UserProfile {
    pub alias: String,
}

/// Why a store operation or a command was refused.
#[derive(Clone, Copy, Debug, PartialEq, Eq, Structural)]
pub enum StoreError {
    /// The command's arguments are malformed.
    Validation,
    /// No session stands at the given position or carries the given id.
    NotFound,
    /// Every session id up to the largest one is taken.
    IdsExhausted,
}

/// A user's relationship to one session.
#[derive(Clone, Copy, Debug, PartialEq, Eq, Structural)]
pub struct Attendee {
    pub user_id: u64,
    pub cancelled: bool,
}

/// One recurring activity slot and the users who signed up for it.
#[derive(Clone, Debug)]
pub struct TrainingSession {
    pub id: u8,
    pub activity: String,
    pub location: String,
    pub day: String,
    pub attendees: Vec<Attendee>,
    pub time: String,
}

/// A week of sessions, in display order, with the registry of user aliases.
#[derive(Clone, Debug)]
pub struct WeeklyAttendance {
    pub start_date: String,
    pub end_date: String,
    pub sessions: Vec<TrainingSession>,
    pub user_registry: HashMap<u64, UserProfile>,
}

/// No two sessions share an id.
pub open spec fn ids_unique(sessions: Seq<TrainingSession>) -> bool {
    forall|i: int, j: int|
        0 <= i < sessions.len() && 0 <= j < sessions.len() && i != j
            ==> #[trigger] sessions[i].id != #[trigger] sessions[j].id
}

/// No user appears twice in one attendee list.
pub open spec fn users_unique(attendees: Seq<Attendee>) -> bool {
    forall|i: int, j: int|
        0 <= i < attendees.len() && 0 <= j < attendees.len() && i != j
            ==> #[trigger] attendees[i].user_id != #[trigger] attendees[j].user_id
}

/// Every attendee of the list has an entry in the registry.
pub open spec fn all_registered(attendees: Seq<Attendee>, registry: Map<u64, UserProfile>) -> bool {
    forall|k: int| 0 <= k < attendees.len() ==> registry.contains_key(#[trigger] attendees[k].user_id)
}

/// Whether the session with id `id` stands in the list.
pub open spec fn has_session(sessions: Seq<TrainingSession>, id: u8) -> bool {
    exists|i: int| 0 <= i < sessions.len() && #[trigger] sessions[i].id == id
}

/// Whether `user_id` stands in the attendee list.
pub open spec fn has_user(attendees: Seq<Attendee>, user_id: u64) -> bool {
    exists|k: int| 0 <= k < attendees.len() && #[trigger] attendees[k].user_id == user_id
}

/// The largest session id in the list, or 0 when it is empty.
pub open spec fn max_id(sessions: Seq<TrainingSession>) -> nat
    decreases sessions.len(),
{
    if sessions.len() == 0 {
        0
    } else {
        let m = max_id(sessions.drop_last());
        if sessions.last().id > m {
            sessions.last().id as nat
        } else {
            m
        }
    }
}

/// The number of attendees that have not cancelled.
pub open spec fn active_count(attendees: Seq<Attendee>) -> nat
    decreases attendees.len(),
{
    if attendees.len() == 0 {
        0
    } else {
        active_count(attendees.drop_last()) + if attendees.last().cancelled {
            0nat
        } else {
            1nat
        }
    }
}

impl TrainingSession {
    /// The attendee list as a sequence.
    pub open spec fn roster(&self) -> Seq<Attendee> {
        self.attendees@
    }
}

impl WeeklyAttendance {
    /// The registry as a map from user id to profile.
    pub open spec fn registry(&self) -> Map<u64, UserProfile> {
        self.user_registry@
    }

    /// The week's invariants: session ids are unique, each user appears at most once
    /// per session, and every attendee has a registry entry.
    pub open spec fn wf(&self) -> bool {
        &&& ids_unique(self.sessions@)
        &&& forall|i: int|
            0 <= i < self.sessions@.len() ==> users_unique(#[trigger] self.sessions@[i].roster())
        &&& forall|i: int|
            0 <= i < self.sessions@.len() ==> all_registered(
                #[trigger] self.sessions@[i].roster(),
                self.registry(),
            )
    }
}

} // verus!
