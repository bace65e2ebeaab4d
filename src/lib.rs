//! Prepared statements over a native PostgreSQL session: the values handed to
//! the backend's prepare and execute-prepared primitives, and what is made of
//! the backend's replies.
pub mod c_text;
pub mod error;
pub mod fingerprint;
pub mod laws;
pub mod statement;

pub use c_text::CText;
pub use error::{accept_reply, BackendReply, StatementError};
pub use fingerprint::{decimal_text, sql_fingerprint};
pub use statement::{ExecuteRequest, ParamPointer, PrepareRequest, Statement, BINARY_FORMAT};
