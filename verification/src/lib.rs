//! Live-reloadable validation rules for person records.
//!
//! The crate holds a snapshot model of the validation rules read from a
//! configuration document, a concurrency-safe store that swaps whole
//! snapshots, and the pure validation functions that judge candidate
//! records against one snapshot, including the check-digit algorithm for
//! the structured AHV identifier.

pub mod ahv;
pub mod config;
pub mod numerals;
pub mod store;
pub mod users;
pub mod validation;

pub use ahv::validate_ahv;
pub use config::{Age, Config, DefaultSettings, Email, Name, Pensum, Person, ValidationRules};
pub use store::{AppState, ConfigStore};
pub use users::{UpdatedUser, User, MSG};
pub use validation::{validate_update, validate_user, ValidationError};
