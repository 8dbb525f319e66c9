//! A typed session layer over a datalink-layer packet provider.
//!
//! The provider itself — opening a link, sending and receiving raw frames,
//! binding to a protocol selector, toggling multicast and promiscuous
//! filters — is an opaque native capability that reports every outcome as an
//! integer result code. This crate holds the logic around those calls: the
//! error taxonomy that turns result codes into structured errors, the
//! handle and lifecycle model that makes release-exactly-once a fact of the
//! types, the interpretation of each synchronous operation's outcome, and
//! the state machines that bridge the provider's timeout-based blocking
//! receive into a cooperative, non-blocking asynchronous contract.

pub mod bridge;
pub mod error;
pub mod ops;
pub mod session;
pub mod sys;

pub use bridge::on_attempt;
pub use bridge::on_readable;
pub use bridge::poll_step;
pub use bridge::Attempt;
pub use bridge::ReadinessRecv;
pub use bridge::RecvPoll;
pub use bridge::RECV_NONBLOCK_MSEC;
pub use error::check_return;
pub use error::result_code_from;
pub use error::to_io_error;
pub use error::DlpiError;
pub use error::ResultCode;
pub use ops::bind_result;
pub use ops::is_truncated;
pub use ops::promisc_result;
pub use ops::recv_result;
pub use ops::terminated_link_name;
pub use session::fd_result;
pub use session::open_result;
pub use session::DlpiHandle;
pub use session::DropHandle;
