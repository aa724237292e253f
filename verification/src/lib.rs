//! Stream-key authorization core: a credential parser, a timezone-aware
//! expiry evaluator, a bounded audit log with monotonic sequence numbers,
//! and the validation engine that ties them together. The transport layer
//! and the record store are outside collaborators; the engine consumes the
//! store's reply as a plain value.

pub mod audit;
pub mod credential;
pub mod engine;
pub mod expiry;
pub mod timezone;

pub use audit::AuditEntry;
pub use audit::AuditLog;
pub use credential::Credential;
pub use credential::ParseError;
pub use engine::StoreReply;
pub use engine::ValidationError;
pub use engine::ValidationRequest;
pub use timezone::CivilInstant;
pub use timezone::TimeParseError;
