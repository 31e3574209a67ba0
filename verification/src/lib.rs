//! Tolerant decoders for archival social-media activity records.
//!
//! Each input line is expected to hold one JSON object describing either a
//! comment or a submission. The decoders absorb known schema drift in the
//! archival dumps (timestamps encoded as integers, floating-point numbers or
//! strings, composite parent identifiers, NUL padding) and produce strict,
//! strongly typed records, or fail with a structured error that carries the
//! offending line.

pub mod comment;
pub mod error;
pub mod fields;
pub mod filter;
pub mod json;
pub mod parent;
pub mod storage;
pub mod submission;
pub mod timestamp;

pub use comment::Comment;
pub use error::DecodeError;
pub use error::DecodeErrorKind;
pub use filter::Filterable;
pub use json::JsonScalar;
pub use json::ParsedLine;
pub use parent::ParentId;
pub use parent::ParentIdError;
pub use storage::CountingStorage;
pub use storage::Storage;
pub use submission::Submission;
