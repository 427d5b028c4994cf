//! Reading a line of sensitive text without echoing it.
//!
//! The crate separates the logic of a hidden password read from the
//! operating-system calls around it:
//!
//! - `SecureString` is the secret value itself; its backing buffer is
//!   erased when the value is dropped.
//! - `ByteSource` is a buffered byte source positioned at the start of a
//!   line; `read_password_from_source` performs one line read on it and
//!   normalizes the result (line-ending trimming and line-kill handling).
//! - `Terminal` models the terminal's line-discipline state, and
//!   `ModeGuard` is the scoped echo-off transition on it:
//!   `read_password_from_terminal` shows that the settings in place
//!   before the read are restored on every path, error paths included.
//!
//! An unverified platform layer applies the same protocol to the real
//! terminal device and feeds the bytes it reads into `ByteSource`.

mod errors;
mod normalize;
mod secret;
mod source;
mod terminal;

pub use errors::Error;
pub use normalize::{after_last_kill, normalize, normalize_spec, trim_line_ending};
pub use normalize::{lemma_crlf_trimmed, lemma_kill_at, lemma_kill_handled};
pub use normalize::{lemma_lf_trimmed, lemma_no_kill, lemma_terminator_agnostic};
pub use normalize::{CR, LF, LINE_KILL};
pub use secret::SecureString;
pub use source::{lemma_accumulated_line, lemma_first_line, lemma_line_break_bounds};
pub use source::{line_at, line_break, LineAccumulator};
pub use source::{read_password_from_source, ByteSource};
pub use terminal::{check_os_status, hidden_line_flags, hidden_settings};
pub use terminal::{read_password_from_terminal, ModeGuard, Settings, Terminal};
