//! DKIM key retrieval boundary and the error taxonomy of signature verification.
//!
//! `errors` holds the closed set of failure kinds, their classification into
//! permanent and temporary failures, and their log rendering. `dns` turns what a
//! DNS resolver answers for a key lookup into key text or into one of those errors.

pub mod dns;
pub mod errors;

pub use dns::{
    join_character_strings, lookup_error_for, lookup_txt_answer, to_lookup_error,
    txt_lookup_result, txt_strings, ResolveFailure,
};
pub use errors::{DKIMError, Status};
