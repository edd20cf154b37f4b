/// The error taxonomy surfaced at the HTTP boundary, with its status codes
/// and messages.
pub mod errors;
/// Rendering of a resolved record as a JSON document or as an HTML page
/// with embedded social-preview metadata.
pub mod present;
/// The profile snapshot, its mathematical model, and the freshness rule.
pub mod record;
/// The cache-aside decision: serve a fresh stored record, or fetch, persist
/// and return.
pub mod resolve;
/// Keyed storage of profile snapshots with a freshness-aware read.
pub mod store;
/// Character-level helpers over strings.
pub mod text;
/// Decoding of the identity provider's two payloads into a record, with
/// documented defaults for absent or malformed fields.
pub mod upstream;
