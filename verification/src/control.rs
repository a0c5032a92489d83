//! Restarting, shutting down and updating: the answers to those requests,
//! the exit codes that carry them to the supervising process, the
//! supervisor's decisions, the program lock, and the settings fragments for
//! updates and configuration.
use vstd::prelude::*;
use crate::text::{decimal, push_decimal, parse_unsigned, parse_decimal};

verus! {

/// An HTTP answer: status code and body.
pub struct Reply {
    pub status: u16,
    pub body: String,
}

/// Answers a restart request: accepted while the restart signal has not
/// been sent yet, refused with 405 afterwards.
pub fn restart_handler(signal_available: bool) -> (r: Reply)
    ensures
        signal_available ==> r.status == 200 && r.body@ == "Restarting..."@,
        !signal_available ==> r.status == 405 && r.body@ == "Restart already sent!"@,
{
    if signal_available {
        Reply { status: 200, body: String::from_str("Restarting...") }
    } else {
        Reply { status: 405, body: String::from_str("Restart already sent!") }
    }
}

/// Answers a shutdown request: accepted while the shutdown signal has not
/// been sent yet, refused with 405 afterwards.
pub fn shutdown_handler(signal_available: bool) -> (r: Reply)
    ensures
        signal_available ==> r.status == 200 && r.body@ == "Shutting down..."@,
        !signal_available ==> r.status == 405 && r.body@ == "Shutdown already sent!"@,
{
    if signal_available {
        Reply { status: 200, body: String::from_str("Shutting down...") }
    } else {
        Reply { status: 405, body: String::from_str("Shutdown already sent!") }
    }
}

/// Where the published version is read from.
pub const REMOTE_CARGO_TOML_URL: &'static str = "https://raw.githubusercontent.com/AllLiver/Froggi/refs/heads/main/Cargo.toml";

/// Whether an update request should send the update signal: a newer
/// version exists and the signal has not been sent yet.
pub open spec fn update_starts(check: Option<bool>, signal_available: bool) -> bool {
    check == Some(true) && signal_available
}

/// Answers an update request given the outcome of the update check (`None`
/// when the remote file could not be fetched): 503 when the check failed,
/// 405 when up to date, 409 when the update signal was sent already, and
/// 200 when the update starts.
pub fn update_handler(check: Option<bool>, signal_available: bool) -> (r: Reply)
    ensures
        check is None ==> r.status == 503 && r.body@ == "Failed to make request to "@
            + REMOTE_CARGO_TOML_URL@,
        check == Some(false) ==> r.status == 405 && r.body@ == "Already up to date!"@,
        check == Some(true) && !signal_available ==> r.status == 409 && r.body@
            == "Update already sent!"@,
        update_starts(check, signal_available) ==> r.status == 200 && r.body@
            == "Starting update..."@,
{
    match check {
        None => {
            let mut body = String::from_str("Failed to make request to ");
            body.append(REMOTE_CARGO_TOML_URL);
            Reply { status: 503, body }
        },
        Some(true) => if signal_available {
            Reply { status: 200, body: String::from_str("Starting update...") }
        } else {
            Reply { status: 409, body: String::from_str("Update already sent!") }
        },
        Some(false) => Reply { status: 405, body: String::from_str("Already up to date!") },
    }
}

/// A pending signal is taken out of its slot: whatever was there is handed
/// out, and the slot is empty afterwards.
pub open spec fn take_post<T>(old: Option<T>, new: Option<T>, taken: Option<T>) -> bool {
    new is None && taken == old
}

/// The status of the answer to a restart or shutdown request: 200 while
/// the signal is still there, 405 once it has been sent.
pub open spec fn signal_status(available: bool) -> u16 {
    if available {
        200
    } else {
        405
    }
}

/// The status of the answer to an update request (see [`update_handler`]).
pub open spec fn update_status(check: Option<bool>, available: bool) -> u16 {
    match check {
        None => 503,
        Some(false) => 405,
        Some(true) => if available {
            200
        } else {
            409
        },
    }
}

/// Handles a restart request against the pending restart signal: the
/// signal, when there, is taken out to be sent, and the answer says whether
/// it was there (see [`restart_handler`]).
pub fn restart_request<T>(signal: &mut Option<T>) -> (r: (Reply, Option<T>))
    ensures
        take_post(*old(signal), *final(signal), r.1),
        r.0.status == signal_status((*old(signal)) is Some),
        (*old(signal)) is Some ==> r.0.body@ == "Restarting..."@,
        (*old(signal)) is None ==> r.0.body@ == "Restart already sent!"@,
{
    let taken = signal.take();
    let reply = restart_handler(taken.is_some());
    (reply, taken)
}

/// Handles a shutdown request against the pending shutdown signal (see
/// [`restart_request`] and [`shutdown_handler`]).
pub fn shutdown_request<T>(signal: &mut Option<T>) -> (r: (Reply, Option<T>))
    ensures
        take_post(*old(signal), *final(signal), r.1),
        r.0.status == signal_status((*old(signal)) is Some),
        (*old(signal)) is Some ==> r.0.body@ == "Shutting down..."@,
        (*old(signal)) is None ==> r.0.body@ == "Shutdown already sent!"@,
{
    let taken = signal.take();
    let reply = shutdown_handler(taken.is_some());
    (reply, taken)
}

/// Handles an update request against the pending update signal, given the
/// outcome of the update check: the signal is taken out to be sent only
/// when a newer version exists; otherwise the slot is left as it is.
pub fn update_request<T>(check: Option<bool>, signal: &mut Option<T>) -> (r: (Reply, Option<T>))
    ensures
        check == Some(true) ==> take_post(*old(signal), *final(signal), r.1),
        check != Some(true) ==> *final(signal) == *old(signal) && r.1 is None,
        r.0.status == update_status(check, (*old(signal)) is Some),
        check is None ==> r.0.body@ == "Failed to make request to "@ + REMOTE_CARGO_TOML_URL@,
        check == Some(false) ==> r.0.body@ == "Already up to date!"@,
        check == Some(true) && (*old(signal)) is None ==> r.0.body@ == "Update already sent!"@,
        check == Some(true) && (*old(signal)) is Some ==> r.0.body@ == "Starting update..."@,
{
    if check == Some(true) {
        let taken = signal.take();
        let reply = update_handler(check, taken.is_some());
        (reply, taken)
    } else {
        let reply = update_handler(check, signal.is_some());
        (reply, None)
    }
}

/// Each signal is sent at most once: over any run of requests that take it
/// out of its slot, only the first hands out what was there, and every later
/// request finds the slot empty, hands out nothing and is answered as
/// already sent (405 for restart and shutdown, 409 for an update that is
/// due).
pub proof fn lemma_signal_sent_at_most_once<T>(slots: Seq<Option<T>>, taken: Seq<Option<T>>)
    requires
        slots.len() == taken.len() + 1,
        forall|k: int|
            0 <= k < taken.len() ==> take_post(slots[k], slots[k + 1], #[trigger] taken[k]),
    ensures
        forall|k: int|
            1 <= k < slots.len() ==> (#[trigger] slots[k]) is None && signal_status(
                slots[k] is Some,
            ) == 405 && update_status(Some(true), slots[k] is Some) == 409,
        forall|k: int| 1 <= k < taken.len() ==> (#[trigger] taken[k]) is None,
{
    assert forall|k: int| 1 <= k < slots.len() implies (#[trigger] slots[k]) is None by {
        assert(take_post(slots[k - 1], slots[k - 1 + 1], taken[k - 1]));
    }
    assert forall|k: int| 1 <= k < taken.len() implies (#[trigger] taken[k]) is None by {
        assert(take_post(slots[k], slots[k + 1], taken[k]));
        assert(take_post(slots[k - 1], slots[k - 1 + 1], taken[k - 1]));
    }
}

/// Why the server stopped serving.
pub enum ShutdownCause {
    CtrlC,
    Terminate,
    Restart,
    Shutdown,
    Update,
}

/// The exit code that tells the supervisor what to do next: 10 to
/// restart, 0 after a shutdown request, 11 to update; none when the process
/// was interrupted from outside.
pub open spec fn cause_code(cause: ShutdownCause) -> Option<i32> {
    match cause {
        ShutdownCause::Restart => Some(10i32),
        ShutdownCause::Shutdown => Some(0i32),
        ShutdownCause::Update => Some(11i32),
        _ => None::<i32>,
    }
}

/// The exit code for the way the server stopped (see [`cause_code`]).
pub fn shutdown_signal(cause: ShutdownCause) -> (code: Option<i32>)
    ensures
        code == cause_code(cause),
{
    match cause {
        ShutdownCause::Restart => Some(10),
        ShutdownCause::Shutdown => Some(0),
        ShutdownCause::Update => Some(11),
        _ => None,
    }
}

/// What the supervisor does when the worker process ends.
pub enum WorkerExit {
    /// Start the worker again.
    Restart,
    /// Fetch, build and install the new version, then continue.
    Update,
    /// Exit with this code.
    Exit(i32),
}

/// The supervisor's decision on the worker's exit code: 10 restarts, 11
/// updates, any other code is passed on, and a worker killed by a signal
/// (no code) makes the supervisor exit with 1.
pub open spec fn worker_action(code: Option<i32>) -> WorkerExit {
    match code {
        Some(c) => if c == 10 {
            WorkerExit::Restart
        } else if c == 11 {
            WorkerExit::Update
        } else {
            WorkerExit::Exit(c)
        },
        None => WorkerExit::Exit(1),
    }
}

/// The supervisor's decision on the worker's exit code (see
/// [`worker_action`]).
pub fn worker_exit(code: Option<i32>) -> (r: WorkerExit)
    ensures
        r == worker_action(code),
{
    match code {
        Some(10) => WorkerExit::Restart,
        Some(11) => WorkerExit::Update,
        Some(c) => WorkerExit::Exit(c),
        None => WorkerExit::Exit(1),
    }
}

/// Each way the server stops leads the supervisor to the matching step: a
/// restart request restarts the worker, an update request updates it, a
/// shutdown request ends the supervisor with code 0, and an interruption
/// from outside ends it with code 1.
pub proof fn lemma_signals_reach_supervisor()
    ensures
        worker_action(cause_code(ShutdownCause::Restart)) is Restart,
        worker_action(cause_code(ShutdownCause::Update)) is Update,
        worker_action(cause_code(ShutdownCause::Shutdown)) == WorkerExit::Exit(0),
        worker_action(cause_code(ShutdownCause::CtrlC)) == WorkerExit::Exit(1),
        worker_action(cause_code(ShutdownCause::Terminate)) == WorkerExit::Exit(1),
{
}

/// How an update attempt ends.
pub enum UpdateOutcome {
    /// The repository could not be cloned; the worker is restarted as it is.
    RestartWithoutCleanup,
    /// The build directory is removed and the worker restarted.
    CleanupAndRestart,
    /// The supervisor could not return to its directory and exits with this
    /// code.
    Exit(i32),
}

/// The end of an update attempt, from whether the clone succeeded, whether
/// the supervisor could enter the build directory, and whether it could
/// return to its own directory afterwards.
pub fn update_outcome(cloned: bool, entered: bool, returned: bool) -> (r: UpdateOutcome)
    ensures
        !cloned ==> r is RestartWithoutCleanup,
        cloned && !entered ==> r is CleanupAndRestart,
        cloned && entered && !returned ==> r == UpdateOutcome::Exit(1),
        cloned && entered && returned ==> r is CleanupAndRestart,
{
    if !cloned {
        UpdateOutcome::RestartWithoutCleanup
    } else if entered && !returned {
        UpdateOutcome::Exit(1)
    } else {
        UpdateOutcome::CleanupAndRestart
    }
}

/// Seconds after which an unrefreshed program lock is taken to be left by a
/// crashed process.
pub const LOCK_STALE_SECS: u64 = 30;

/// Whether a program lock last refreshed at `lock_time` is stale at `now`
/// (both in seconds since the Unix epoch).
pub fn lock_is_stale(now: u64, lock_time: u64) -> (r: bool)
    requires
        now >= lock_time,
    ensures
        r == (now - lock_time >= LOCK_STALE_SECS),
{
    now - lock_time >= LOCK_STALE_SECS
}

/// Whether a character is white space in the Unicode sense that `trim` uses.
pub open spec fn is_white_space(c: char) -> bool {
    ('\u{9}' <= c && c <= '\u{d}') || c == ' ' || c == '\u{85}' || c == '\u{a0}' || c == '\u{1680}'
        || ('\u{2000}' <= c && c <= '\u{200a}') || c == '\u{2028}' || c == '\u{2029}' || c
        == '\u{202f}' || c == '\u{205f}' || c == '\u{3000}'
}

/// `s` without white space at either end.
pub open spec fn trimmed(s: Seq<char>) -> Seq<char>
    decreases s.len(),
{
    if s.len() > 0 && is_white_space(s[0]) {
        trimmed(s.drop_first())
    } else if s.len() > 0 && is_white_space(s.last()) {
        trimmed(s.drop_last())
    } else {
        s
    }
}

fn white_space(c: char) -> (r: bool)
    ensures
        r == is_white_space(c),
{
    ('\u{9}' <= c && c <= '\u{d}') || c == ' ' || c == '\u{85}' || c == '\u{a0}' || c == '\u{1680}'
        || ('\u{2000}' <= c && c <= '\u{200a}') || c == '\u{2028}' || c == '\u{2029}' || c
        == '\u{202f}' || c == '\u{205f}' || c == '\u{3000}'
}

/// Removes white space from both ends of a string.
pub fn trim<'a>(s: &'a str) -> (r: &'a str)
    ensures
        r@ == trimmed(s@),
{
    let n = s.unicode_len();
    let mut a: usize = 0;
    let mut b: usize = n;
    assert(s@.subrange(0, n as int) =~= s@);
    while a < b && white_space(s.get_char(a))
        invariant
            n == s@.len(),
            a <= b <= n,
            b == n,
            trimmed(s@.subrange(a as int, b as int)) == trimmed(s@),
        decreases b - a,
    {
        assert(s@.subrange(a as int, b as int).drop_first() =~= s@.subrange(a + 1, b as int));
        a = a + 1;
    }
    while a < b && white_space(s.get_char(b - 1))
        invariant
            n == s@.len(),
            a <= b <= n,
            a == b || !is_white_space(s@[a as int]),
            trimmed(s@.subrange(a as int, b as int)) == trimmed(s@),
        decreases b - a,
    {
        let ghost t = s@.subrange(a as int, b as int);
        assert(t.drop_last() =~= s@.subrange(a as int, b - 1));
        assert(t[0] == s@[a as int]);
        b = b - 1;
    }
    let r = s.substring_char(a, b);
    proof {
        let t = s@.subrange(a as int, b as int);
        assert(r@ == t);
        if t.len() > 0 {
            assert(t[0] == s@[a as int]);
            assert(t.last() == s@[b - 1]);
        }
    }
    r
}

/// The time written in the program lock: the file's text without
/// surrounding white space, read as a decimal number of seconds.
pub fn parse_lock_time(text: &str) -> (r: Option<u64>)
    ensures
        r == (match parse_unsigned(trimmed(text@), u64::MAX as nat) {
            Some(v) => Some(v as u64),
            None => None::<u64>,
        }),
{
    parse_decimal(trim(text), u64::MAX)
}

/// The new sponsor roll time from the settings form: the submitted value
/// when it is a decimal number of seconds, otherwise the current one.
pub fn config_sponsor_wait_time(current: u64, submitted: Option<&str>) -> (r: u64)
    ensures
        r == (match submitted {
            Some(v) => match parse_unsigned(v@, u64::MAX as nat) {
                Some(n) => n as u64,
                None => current,
            },
            None => current,
        }),
{
    match submitted {
        Some(v) => match parse_decimal(v, u64::MAX) {
            Some(n) => n,
            None => current,
        },
        None => current,
    }
}

pub const UPDATE_MENU_0: &'static str = "\n        <div class=\"settings-box\">\n            <div class=\"settings-title\">\n                <h2>Update</h2>\n                <div class=\"subtext-settings\">\n                    <h6>Update availible! (";

pub const UPDATE_MENU_1: &'static str = " -> ";

pub const UPDATE_MENU_2: &'static str = ")</h6>\n                    <h6>Do not restart the server during update!</h6>\n                </div>\n            </div>\n            <div class=\"setting\">\n                <button hx-post=\"/update\" hx-confirm=\"You are trying to update Froggi, are you sure? This completely stops Froggi until the update is complete.\">Update now</button>\n            </div>\n        </div>\n        ";

pub const UP_TO_DATE: &'static str = "<div class=\"settings-box\"><div class=\"settings-title\"><h2>Update</h2><div class=\"subtext-settings\"><h6>Froggi is up to date!</h6></div></div></div>";

/// The update section of the settings page: an offer to update from the
/// running version to the published one, or a note that all is current.
pub open spec fn update_menu(out_of_date: bool, local: Seq<char>, remote: Seq<char>) -> Seq<char> {
    if out_of_date {
        UPDATE_MENU_0@ + local + UPDATE_MENU_1@ + remote + UPDATE_MENU_2@
    } else {
        UP_TO_DATE@
    }
}

/// The update section of the settings page.
pub fn update_menu_handler(out_of_date: bool, local_version: &str, remote_version: &str) -> (r:
    String)
    ensures
        r@ == update_menu(out_of_date, local_version@, remote_version@),
{
    if out_of_date {
        let mut s = String::from_str(UPDATE_MENU_0);
        s.append(local_version);
        s.append(UPDATE_MENU_1);
        s.append(remote_version);
        s.append(UPDATE_MENU_2);
        s
    } else {
        String::from_str(UP_TO_DATE)
    }
}

pub const CONFIG_FORM_0: &'static str = "<form hx-post=\"/config-json/set\" hx-swap=\"outerHTML\">\n        <label for=\"sponsor-wait-time\">Sponsor roll time:</label>\n        <input type=\"text\" name=\"sponsor-wait-time\" placeholder=\"";

pub const CONFIG_FORM_1: &'static str = "\">\n        \n        <label for=\"countdown-opacity\">Countdown opacity:</label>\n        <input type=\"text\" name=\"countdown-opacity\" placeholder=\"";

pub const CONFIG_FORM_2: &'static str = "\">\n            \n        <label for=\"popup-opacity\">Popup opacity:</label>\n        <input type=\"text\" name=\"popup-opacity\" placeholder=\"";

pub const CONFIG_FORM_3: &'static str = "\">\n            \n        <input type=\"submit\" value=\"Submit\">\n        <img class=\"htmx-indicator\" src=\"/favicon.png\"></img>\n    </form>";

/// The configuration form, showing the current sponsor roll time and the
/// two opacities as placeholders.
pub open spec fn config_form(wait: u64, countdown_opacity: Seq<char>, popup_opacity: Seq<char>) -> Seq<char> {
    CONFIG_FORM_0@ + decimal(wait as nat) + CONFIG_FORM_1@ + countdown_opacity + CONFIG_FORM_2@
        + popup_opacity + CONFIG_FORM_3@
}

/// The configuration form; the opacities come already written out.
pub fn config_json_form_handler(wait: u64, countdown_opacity: &str, popup_opacity: &str) -> (r:
    String)
    ensures
        r@ == config_form(wait, countdown_opacity@, popup_opacity@),
{
    let mut s = String::from_str(CONFIG_FORM_0);
    push_decimal(&mut s, wait);
    s.append(CONFIG_FORM_1);
    s.append(countdown_opacity);
    s.append(CONFIG_FORM_2);
    s.append(popup_opacity);
    s.append(CONFIG_FORM_3);
    proof {
        assert(s@ =~= config_form(wait, countdown_opacity@, popup_opacity@));
    }
    s
}

} // verus!
