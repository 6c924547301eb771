//! Core of a film-title lookup tool: turning the raw hits of a movie search
//! API into a validated, ordered candidate list with a deterministic
//! most-relevant marker, plus the small pieces of pure logic around it
//! (picking the selected title, checking a credential file for a key).
//!
//! Everything that talks to the network, the terminal or the clipboard lives
//! outside this crate; this crate only computes, and every function here
//! carries a proved contract.

mod api;
mod env_file;
mod error;
mod models;
mod select;

pub use api::normalize;
pub use api::normalize_date;
pub use api::normalize_validated;
pub use api::validate;
pub use api::RawHit;
pub use api::TmdbMovie;
pub use api::TmdbResponse;
pub use error::Error;
pub use models::MovieData;

pub use api::lemma_date_policy;
pub use api::lemma_normalization_wf;
pub use api::lemma_normalize_deterministic;
pub use env_file::env_file_has_key;
pub use select::chosen_title;
