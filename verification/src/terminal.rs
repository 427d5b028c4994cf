//! The terminal-mode transition protocol.
//!
//! `Terminal` is an in-memory model of the one shared, mutable resource a
//! hidden read touches: the terminal's line-discipline settings. The
//! protocol is acquire, read, release: [`ModeGuard::acquire`] snapshots
//! the current settings and disables echo while keeping the newline echo
//! on Enter; [`ModeGuard::release`] unconditionally reapplies the
//! snapshot. [`read_password_from_terminal`] runs the whole protocol and
//! its contract states the central guarantee: whatever the read does,
//! the settings after the call equal the settings before it.
//!
//! The unverified platform layer drives the same protocol against the
//! real device; [`hidden_line_flags`] and [`check_os_status`] are the
//! decisions it borrows from here.

use vstd::prelude::*;

use crate::errors::Error;
use crate::normalize::normalize_spec;
use crate::secret::SecureString;
use crate::source::{line_at, line_break, read_password_from_source, ByteSource};

verus! {

/// A terminal's line-discipline settings, reduced to what the protocol
/// touches: whether typed characters are echoed, whether the newline on
/// Enter is still displayed, and the remaining configuration bits, which
/// the protocol must not disturb.
#[derive(Clone, Copy, Debug, PartialEq, Eq, Structural)]
pub struct Settings {
    /// Typed characters are displayed.
    pub echo: bool,
    /// The newline on Enter is displayed even when `echo` is off.
    pub echo_newline: bool,
    /// Every other configuration bit, carried untouched.
    pub rest: u64,
}

/// The settings a guard installs for the duration of a hidden read: echo
/// off, newline on Enter preserved, everything else as it was.
pub open spec fn hidden_settings(s: Settings) -> Settings {
    Settings { echo: false, echo_newline: true, rest: s.rest }
}

/// A model of the terminal device: its current settings, and two fault
/// switches that stand for an operating system refusing to report or to
/// change them, so that every error path of the protocol can be exercised.
#[derive(Clone, Copy, Debug, PartialEq, Eq, Structural)]
pub struct Terminal {
    /// The settings currently in force.
    pub settings: Settings,
    /// Reading the current settings fails.
    pub fail_query: bool,
    /// Applying modified settings fails.
    pub fail_apply: bool,
}

impl Terminal {
    /// A healthy terminal with the given settings.
    pub fn new(settings: Settings) -> (r: Terminal)
        ensures
            r.settings == settings,
            !r.fail_query,
            !r.fail_apply,
    {
        Terminal { settings, fail_query: false, fail_apply: false }
    }

    /// A terminal whose settings calls fail as directed.
    pub fn with_faults(settings: Settings, fail_query: bool, fail_apply: bool) -> (r: Terminal)
        ensures
            r.settings == settings,
            r.fail_query == fail_query,
            r.fail_apply == fail_apply,
    {
        Terminal { settings, fail_query, fail_apply }
    }

    /// Resolves the controlling terminal device: the model of opening the
    /// well-known device path. When no device is present the read fails
    /// before any settings are touched.
    pub fn open(device_present: bool, settings: Settings) -> (r: Result<Terminal, Error>)
        ensures
            device_present ==> (r matches Ok(t) && t.settings == settings && !t.fail_query
                && !t.fail_apply),
            !device_present ==> r == Err::<Terminal, Error>(Error::DeviceOpen),
    {
        if device_present {
            Ok(Terminal::new(settings))
        } else {
            Err(Error::DeviceOpen)
        }
    }
}

/// The scoped echo-off modification of one terminal. A guard owns the
/// snapshot taken at acquisition; releasing it reapplies the snapshot.
/// At most one guard should be acquired per terminal at a time: a second
/// acquisition would snapshot the already-hidden settings.
pub struct ModeGuard {
    /// The settings in force when the guard was acquired.
    pub saved: Settings,
}

impl ModeGuard {
    /// Captures the current settings and applies the hidden variant. On
    /// failure nothing is modified: a failed query reports
    /// [`Error::SettingsQuery`], a failed application reports
    /// [`Error::SettingsMutation`], and both leave the settings exactly
    /// as they were.
    pub fn acquire(term: &mut Terminal) -> (r: Result<ModeGuard, Error>)
        ensures
            final(term).fail_query == old(term).fail_query,
            final(term).fail_apply == old(term).fail_apply,
            old(term).fail_query ==> r == Err::<ModeGuard, Error>(Error::SettingsQuery)
                && final(term).settings == old(term).settings,
            !old(term).fail_query && old(term).fail_apply ==> r == Err::<ModeGuard, Error>(
                Error::SettingsMutation,
            ) && final(term).settings == old(term).settings,
            !old(term).fail_query && !old(term).fail_apply ==> (r matches Ok(g) && g.saved == old(term).settings) && final(term).settings == hidden_settings(old(term).settings),
    {
        if term.fail_query {
            return Err(Error::SettingsQuery);
        }
        let saved = term.settings;
        if term.fail_apply {
            return Err(Error::SettingsMutation);
        }
        term.settings = Settings { echo: false, echo_newline: true, rest: term.settings.rest };
        Ok(ModeGuard { saved })
    }

    /// Reapplies the snapshot taken at acquisition, unconditionally. The
    /// release consumes the guard, so settings cannot be restored twice
    /// from a stale snapshot.
    pub fn release(self, term: &mut Terminal)
        ensures
            final(term).settings == self.saved,
            final(term).fail_query == old(term).fail_query,
            final(term).fail_apply == old(term).fail_apply,
    {
        term.settings = self.saved;
    }
}

/// Performs the guarded read: acquires the mode guard, reads and
/// normalizes one line, and releases the guard.
///
/// The first two clauses are the protocol's central guarantee: the
/// terminal leaves the call bit-for-bit as it entered it, whether the
/// read succeeded, the read failed, or the guard itself could not be
/// acquired — and an error on the way never masks which step failed.
pub fn read_password_from_terminal(term: &mut Terminal, src: &mut ByteSource) -> (r: Result<
    SecureString,
    Error,
>)
    requires
        old(src).wf(),
    ensures
        *final(term) == *old(term),
        final(src).wf(),
        final(src).data@ == old(src).data@,
        final(src).fail == old(src).fail,
        old(term).fail_query ==> r == Err::<SecureString, Error>(Error::SettingsQuery) && final(src).pos == old(src).pos,
        !old(term).fail_query && old(term).fail_apply ==> r == Err::<SecureString, Error>(
            Error::SettingsMutation,
        ) && final(src).pos == old(src).pos,
        !old(term).fail_query && !old(term).fail_apply && old(src).fail ==> r == Err::<
            SecureString,
            Error,
        >(Error::Read) && final(src).pos == old(src).pos,
        !old(term).fail_query && !old(term).fail_apply && !old(src).fail ==> (r matches Ok(p) && p@
            == normalize_spec(line_at(old(src).data@, old(src).pos as int))) && final(src).pos
            == line_break(old(src).data@, old(src).pos as int),
{
    let guard = match ModeGuard::acquire(term) {
        Ok(g) => g,
        Err(e) => { return Err(e); },
    };
    let result = read_password_from_source(src);
    guard.release(term);
    result
}

/// The line-discipline flag computation of the acquire step, for a
/// platform whose settings are a bitmask: the echo bit is cleared, the
/// newline-echo bit is set, and no other bit moves.
pub fn hidden_line_flags(orig: u64, echo_mask: u64, echonl_mask: u64) -> (r: u64)
    ensures
        r == (orig & !echo_mask) | echonl_mask,
        r & echonl_mask == echonl_mask,
        echo_mask & echonl_mask == 0 ==> r & echo_mask == 0,
        r & !(echo_mask | echonl_mask) == orig & !(echo_mask | echonl_mask),
{
    let r = (orig & !echo_mask) | echonl_mask;
    proof {
        assert(((orig & !echo_mask) | echonl_mask) & echonl_mask == echonl_mask) by (bit_vector);
        assert(echo_mask & echonl_mask == 0 ==> ((orig & !echo_mask) | echonl_mask) & echo_mask
            == 0) by (bit_vector);
        assert(((orig & !echo_mask) | echonl_mask) & !(echo_mask | echonl_mask) == orig & !(
        echo_mask | echonl_mask)) by (bit_vector);
    }
    r
}

/// Turns the integer status of a settings call into a result: zero is
/// success, anything else reports the given error.
pub fn check_os_status(ret: i32, error: Error) -> (r: Result<(), Error>)
    ensures
        ret == 0 ==> r == Ok::<(), Error>(()),
        ret != 0 ==> r == Err::<(), Error>(error),
{
    if ret == 0 {
        Ok(())
    } else {
        Err(error)
    }
}

} // verus!
