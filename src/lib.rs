//! Weekly attendance for recurring training sessions: the week's sessions and their
//! attendees, the operations that change them, the reports and controls drawn from
//! them, the parsing of commands and button tokens, and the lock that shares the week
//! between concurrent handlers.

pub mod calendar;
pub mod commands;
pub mod controls;
pub mod laws;
pub mod model;
pub mod parse;
pub mod persist;
pub mod render;
pub mod shared;
pub mod store;

pub use commands::Reply;
pub use model::{Attendee, StoreError, TrainingSession, UserProfile, WeeklyAttendance};
pub use persist::AttendanceRow;
pub use shared::SharedState;
