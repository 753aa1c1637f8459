//! Decoder for the syslog lines of a mail transfer agent's subprocesses.
//!
//! Each line is decoded independently, with no state carried across lines:
//! the preamble (date, host, service tag, process kind, pid, optional queue
//! id) is extracted first, then the grammar of the producing subprocess is
//! applied to the remainder.  The outcome is one of three things: the line is
//! ignored (noise or out-of-scope chatter), it is rejected with the exact
//! grammar checkpoint that failed, or it is decoded into a typed message
//! whose fields are byte ranges into the one owned copy of the line.

mod bounce;
mod cleanup;
mod config;
mod errors;
mod forward;
mod inner;
mod messages;
mod parse;
mod pickup;
mod qmgr;
mod reject;
mod scan;
mod smtpd;

pub use bounce::Bounce;
pub use cleanup::Cleanup;
pub use config::ParserConfig;
pub use errors::ParseError;
pub use forward::Forward;
pub use forward::ForwardError;
pub use inner::DATE_LEN;
pub use inner::Inner;
pub use inner::Process;
pub use messages::Message;
pub use messages::MessageParser;
pub use parse::parse_line;
pub use pickup::Pickup;
pub use qmgr::Qmgr;
pub use qmgr::QmgrExpired;
pub use qmgr::QmgrRemoved;
pub use reject::Reject;
pub use reject::RejectProto;
pub use reject::RejectReason;
pub use smtpd::Smtpd;
pub use smtpd::SmtpdForward;
pub use smtpd::SmtpdLogin;
pub use smtpd::SmtpdMethod;
