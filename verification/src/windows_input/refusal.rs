//! What is said when the system refuses injected input.
//!
//! The system drops clicks and keys that a standard user's program sends to an
//! elevated window, without a word, which to the user looks as if remote control
//! had stopped. So the refusal is reported, but not for every event.

use vstd::prelude::*;
use vstd::string::StringExecFns;
use crate::quic_transport::health;
use crate::text;

verus! {

/// The error of a refusal for want of rights.
pub const ERROR_ACCESS_DENIED: u32 = 5;

/// How long after a report no other is made, in nanoseconds.
pub const REFUSAL_QUIET: u64 = 10_000_000_000;

/// When a refusal was last reported.
#[derive(Debug, Clone, Copy, PartialEq, Eq, Structural)]
pub struct RefusalNotices {
    pub last_warn: Option<u64>,
}

/// Whether a refusal at time `now` goes without a report.
pub open spec fn is_muted(notices: RefusalNotices, now: u64) -> bool {
    notices.last_warn matches Some(last) && health::elapsed(last, now) < REFUSAL_QUIET
}

/// What is said of a refused event of this kind.
pub open spec fn refusal_text(kind: Seq<char>, error: u32) -> Seq<char> {
    if error == ERROR_ACCESS_DENIED {
        "injected "@ + kind
            + " refused by Windows (ERROR_ACCESS_DENIED): an elevated or uiAccess window (e.g. Task Manager, a UAC-elevated app) has focus. A standard-user MyKVM cannot hook or inject into higher-privilege windows — restart MyKVM as administrator (Settings) on this machine to control them."@
    } else {
        "injected "@ + kind + " was refused: SendInput failed with error "@ + text::decimal(
            error as nat,
        )
    }
}

/// Whether a refusal at time `now` is noted with `warning`, and leaves `after`.
pub open spec fn refusal_noted(
    before: RefusalNotices,
    kind: Seq<char>,
    error: u32,
    now: u64,
    warning: Option<String>,
    after: RefusalNotices,
) -> bool {
    match warning {
        Some(w) => !is_muted(before, now) && w@ == refusal_text(kind, error) && after.last_warn
            == Some(now),
        None => is_muted(before, now) && after == before,
    }
}

impl RefusalNotices {
    /// Nothing reported yet.
    pub fn new() -> (notices: Self)
        ensures
            notices.last_warn is None,
    {
        RefusalNotices { last_warn: None }
    }

    /// Takes note that an event of this kind was refused at time `now`, and gives
    /// the warning to log, if it is time for one.
    pub fn note_injection_refused(&mut self, kind: &str, error: u32, now: u64) -> (warning: Option<
        String,
    >)
        ensures
            refusal_noted(*old(self), kind@, error, now, warning, *final(self)),
    {
        if let Some(last) = self.last_warn {
            let quiet: u64 = if now >= last {
                now - last
            } else {
                0
            };
            if quiet < REFUSAL_QUIET {
                return None;
            }
        }
        self.last_warn = Some(now);
        if error == ERROR_ACCESS_DENIED {
            Some(
                "injected ".to_owned().concat(kind).concat(
                    " refused by Windows (ERROR_ACCESS_DENIED): an elevated or uiAccess window (e.g. Task Manager, a UAC-elevated app) has focus. A standard-user MyKVM cannot hook or inject into higher-privilege windows — restart MyKVM as administrator (Settings) on this machine to control them.",
                ),
            )
        } else {
            let number = text::decimal_text(error as u64);
            Some(
                "injected ".to_owned().concat(kind).concat(
                    " was refused: SendInput failed with error ",
                ).concat(number.as_str()),
            )
        }
    }
}

/// After a report at time `warned`, the next one comes no sooner than the quiet
/// time later.
pub proof fn reports_keep_their_distance(notices: RefusalNotices, warned: u64, now: u64)
    requires
        notices.last_warn == Some(warned),
        !is_muted(notices, now),
    ensures
        now >= warned + REFUSAL_QUIET,
{
}

/// The first refusal of all is reported, whenever it comes.
pub proof fn first_refusal_is_reported(notices: RefusalNotices, now: u64)
    requires
        notices.last_warn is None,
    ensures
        !is_muted(notices, now),
{
}

/// A refusal goes without a report exactly within ten seconds of the last one, by
/// a clock of nanoseconds; a clock that went back counts as no time.
pub proof fn refusals_are_muted_for_ten_seconds(last: u64, now: u64)
    ensures
        is_muted(RefusalNotices { last_warn: Some(last) }, now) <==> now < last + 10_000_000_000,
        !is_muted(RefusalNotices { last_warn: None }, now),
{
}

/// A report names the kind of event. A refusal for want of rights, error 5, is
/// explained; any other is told by its number.
pub proof fn reports_name_kind_and_error(kind: Seq<char>, error: u32)
    ensures
        error != 5 ==> refusal_text(kind, error) == "injected "@ + kind
            + " was refused: SendInput failed with error "@ + text::decimal(error as nat),
        error == 5 ==> refusal_text(kind, error) == "injected "@ + kind
            + " refused by Windows (ERROR_ACCESS_DENIED): an elevated or uiAccess window (e.g. Task Manager, a UAC-elevated app) has focus. A standard-user MyKVM cannot hook or inject into higher-privilege windows — restart MyKVM as administrator (Settings) on this machine to control them."@,
{
}

/// A refusal that is reported mutes every further one for ten seconds, of
/// whatever kind; one that is muted mutes nothing, so that reports come even
/// while refusals never cease.
pub proof fn reports_mute_what_follows(
    before: RefusalNotices,
    kind: Seq<char>,
    error: u32,
    now: u64,
    warning: Option<String>,
    after: RefusalNotices,
    later: u64,
)
    requires
        refusal_noted(before, kind, error, now, warning, after),
    ensures
        warning is Some <==> (before.last_warn matches Some(last) ==> now >= last + 10_000_000_000),
        warning is Some ==> (is_muted(after, later) <==> later < now + 10_000_000_000),
        warning is None ==> is_muted(after, later) == is_muted(before, later),
        warning is Some ==> warning->0@ == refusal_text(kind, error),
{
}

} // verus!
