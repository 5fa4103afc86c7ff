//! Alert relay core: severity glyphs, report construction with audit lines,
//! the error taxonomy folded into client-facing errors, the credential guard
//! and the decisions of the alert ingestion pipeline.

pub mod severity;
pub mod text;
pub mod report;
pub mod errors;
pub mod guard;
pub mod ingest;

pub use errors::{AbotError, ApiError, CacheError, ErrorResponse, MatrixError};
pub use guard::ApiKeyGuard;
pub use report::{RawAlert, Report};
pub use severity::{severity_emoji, Severity};
