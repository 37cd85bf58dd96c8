//! The focus session itself: the duration grammar, the merging of
//! command-line and file configuration, and the coordinator's state
//! machine that arbitrates between timeout, local interrupt and remote
//! signals and decides what must be restored and notified on the way out.

use vstd::prelude::*;

use crate::cli::Cli;
use crate::config::ConfigFile;
use crate::timer::Timer;

verus! {

/// The built-in default session length: twenty-five minutes, in seconds.
pub const DEFAULT_DURATION_SECS: u64 = 25 * 60;

/// Signals that a remote controller can inject into a running session.
#[derive(Debug, PartialEq, Eq, Structural, Clone, Copy)]
pub enum Signal {
    /// Remote request to stop the session.
    Dbus,
    /// Remote request to pause or resume the timer.
    TogglePause,
}

/// The resolved session configuration: the merge of command-line
/// arguments and the configuration file, fixed once the session starts.
#[derive(Debug)]
pub struct FocusConfig {
    /// Session length in seconds.
    pub duration: u64,
    /// Whether to suppress the timer-end notification.
    pub no_notification: bool,
    /// Whether to keep the status bar visible.
    pub keep_status_bar: bool,
    /// Whether to print the remaining time.
    pub print_time: bool,
}

// ---------------------------------------------------------------------
// The duration grammar: a run of decimal digits followed by a single
// unit letter, one of `d`, `h`, `m`, `s`.
// ---------------------------------------------------------------------
/// Whether `c` is a decimal digit.
pub open spec fn is_digit(c: char) -> bool {
    48 <= c as u32 <= 57
}

/// The value of a decimal digit.
pub open spec fn digit_val(c: char) -> int {
    c as u32 - 48
}

/// Seconds per unit letter; zero marks a letter that is no unit.
pub open spec fn unit_mult(c: char) -> u64 {
    if c == 's' {
        1
    } else if c == 'm' {
        60
    } else if c == 'h' {
        3600
    } else if c == 'd' {
        86400
    } else {
        0
    }
}

/// Whether `s` matches the duration grammar: at least one digit,
/// followed by exactly one unit letter.
pub open spec fn is_valid_duration(s: Seq<char>) -> bool {
    &&& s.len() >= 2
    &&& unit_mult(s.last()) != 0
    &&& forall|i: int| 0 <= i < s.len() - 1 ==> is_digit(#[trigger] s[i])
}

/// The number a run of decimal digits denotes.
pub open spec fn digits_val(s: Seq<char>) -> int
    decreases s.len(),
{
    if s.len() == 0 {
        0
    } else {
        digits_val(s.drop_last()) * 10 + digit_val(s.last())
    }
}

/// The number of seconds a valid duration string denotes.
pub open spec fn spec_duration_secs(s: Seq<char>) -> int {
    digits_val(s.take(s.len() - 1)) * unit_mult(s.last())
}

/// What parsing a duration string returns: the denoted seconds for a
/// string of the grammar whose value fits in a machine word, nothing
/// otherwise.
pub open spec fn spec_parse_duration(s: Seq<char>) -> Option<u64> {
    if is_valid_duration(s) && spec_duration_secs(s) <= u64::MAX {
        Some(spec_duration_secs(s) as u64)
    } else {
        None
    }
}

proof fn lemma_digits_val_nonneg(s: Seq<char>)
    requires
        forall|i: int| 0 <= i < s.len() ==> is_digit(#[trigger] s[i]),
    ensures
        digits_val(s) >= 0,
    decreases s.len(),
{
    if s.len() > 0 {
        lemma_digits_val_nonneg(s.drop_last());
    }
}

/// Reading further digits never shrinks the denoted number.
proof fn lemma_digits_val_prefix_le(s: Seq<char>, i: int, j: int)
    requires
        0 <= i <= j <= s.len(),
        forall|k: int| 0 <= k < s.len() ==> is_digit(#[trigger] s[k]),
    ensures
        digits_val(s.take(i)) <= digits_val(s.take(j)),
    decreases j - i,
{
    if i < j {
        lemma_digits_val_prefix_le(s, i, j - 1);
        assert(s.take(j).drop_last() =~= s.take(j - 1));
        assert(forall|k: int| 0 <= k < s.take(j - 1).len() ==> is_digit(#[trigger] s.take(j - 1)[k]));
        lemma_digits_val_nonneg(s.take(j - 1));
    }
}

/// Parses a duration string such as `"50s"`, `"4m"`, `"3h"` or `"1d"`
/// into a number of seconds. Returns `None` for anything outside the
/// grammar, and for values too large for a machine word.
pub fn parse_duration(input: &str) -> (r: Option<u64>)
    ensures
        r == spec_parse_duration(input@),
{
    let n: usize = input.unicode_len();
    if n < 2 {
        return None;
    }
    let unit: char = input.get_char(n - 1);
    let mult: u64 = match unit {
        's' => 1,
        'm' => 60,
        'h' => 3600,
        'd' => 86400,
        _ => {
            return None;
        },
    };
    assert(mult == unit_mult(input@.last()));
    let ghost digits: Seq<char> = input@.take(n - 1);
    let mut i: usize = 0;
    let mut val: u64 = 0;
    while i < n - 1
        invariant
            0 <= i <= n - 1,
            n == input@.len(),
            digits == input@.take(n - 1),
            forall|k: int| 0 <= k < i ==> is_digit(#[trigger] input@[k]),
            val == digits_val(digits.take(i as int)),
        decreases n - 1 - i,
    {
        let c: char = input.get_char(i);
        let cv: u32 = c as u32;
        if cv < 48 || cv > 57 {
            return None;
        }
        let d: u64 = (cv - 48) as u64;
        proof {
            assert(digits.take(i + 1).drop_last() =~= digits.take(i as int));
            assert(digits.take(i + 1).last() == input@[i as int]);
        }
        let next: u64 = match val.checked_mul(10) {
            Some(v10) => match v10.checked_add(d) {
                Some(v) => v,
                None => {
                    proof {
                        lemma_parse_overflow(input@, i as int, val, d);
                    }
                    return None;
                },
            },
            None => {
                proof {
                    lemma_parse_overflow(input@, i as int, val, d);
                }
                return None;
            },
        };
        val = next;
        i = i + 1;
    }
    assert(digits.take(i as int) =~= digits);
    match val.checked_mul(mult) {
        Some(secs) => Some(secs),
        None => {
            proof {
                lemma_digits_val_nonneg(input@.take(n - 1));
                assert(spec_duration_secs(input@) > u64::MAX) by (nonlinear_arith)
                    requires
                        spec_duration_secs(input@) == digits_val(input@.take(n - 1)) * mult as int,
                        digits_val(input@.take(n - 1)) * (mult as int) > u64::MAX,
                ;
            }
            None
        },
    }
}

/// If the digits read so far already outgrow a machine word, the whole
/// string denotes no representable duration.
proof fn lemma_parse_overflow(s: Seq<char>, i: int, val: u64, d: u64)
    requires
        0 <= i < s.len() - 1,
        val == digits_val(s.take(s.len() - 1).take(i)),
        d == digit_val(s[i]),
        val * 10 + d > u64::MAX,
    ensures
        spec_parse_duration(s) is None,
{
    if is_valid_duration(s) {
        let digits = s.take(s.len() - 1);
        assert(digits.take(i + 1).drop_last() =~= digits.take(i));
        assert(digits.take(i + 1).last() == s[i]);
        assert(digits_val(digits.take(i + 1)) == val * 10 + d);
        assert(forall|k: int| 0 <= k < digits.len() ==> is_digit(#[trigger] digits[k]));
        lemma_digits_val_prefix_le(digits, i + 1, digits.len() as int);
        assert(digits.take(digits.len() as int) =~= digits);
        lemma_digits_val_nonneg(digits);
        let m = unit_mult(s.last()) as int;
        assert(digits_val(digits) * m >= digits_val(digits)) by (nonlinear_arith)
            requires
                digits_val(digits) >= 0,
                m >= 1,
        ;
    }
}

// ---------------------------------------------------------------------
// Configuration precedence: command line over file over default.
// ---------------------------------------------------------------------
/// The error text reported for a rejected duration string.
pub open spec fn spec_invalid_msg(d: Seq<char>) -> Seq<char> {
    "Invalid duration: '"@ + d + "'"@
}

/// What resolving the duration returns: the argument wins over the
/// file, the file over the default, and a present but malformed value
/// fails at once, never falling back to a later source.
pub open spec fn spec_get_duration(arg: Option<Seq<char>>, cfg: Option<Seq<char>>) -> Result<
    u64,
    Seq<char>,
> {
    match arg {
        Some(d) => match spec_parse_duration(d) {
            Some(v) => Ok(v),
            None => Err(spec_invalid_msg(d)),
        },
        None => match cfg {
            Some(d) => match spec_parse_duration(d) {
                Some(v) => Ok(v),
                None => Err(spec_invalid_msg(d)),
            },
            None => Ok(DEFAULT_DURATION_SECS),
        },
    }
}

/// The error text reported for the rejected duration string `d`.
fn invalid_duration_message(d: &str) -> (r: String)
    ensures
        r@ == spec_invalid_msg(d@),
{
    let mut s = String::from_str("Invalid duration: '");
    s.append(d);
    s.append("'");
    assert(s@ =~= spec_invalid_msg(d@));
    s
}

/// Resolves the session duration, in seconds, from the command-line
/// argument and the configuration file. A present but invalid value is
/// an error at once; only absent values fall through, down to the
/// built-in default.
pub fn get_duration(from_arg: &Option<String>, from_config: &Option<String>) -> (r: Result<
    u64,
    String,
>)
    ensures
        r is Ok <==> spec_get_duration(from_arg.deep_view(), from_config.deep_view()) is Ok,
        r is Ok ==> r->Ok_0 == spec_get_duration(from_arg.deep_view(), from_config.deep_view())->Ok_0,
        r is Err ==> r->Err_0@ == spec_get_duration(
            from_arg.deep_view(),
            from_config.deep_view(),
        )->Err_0,
{
    match from_arg {
        Some(d) => match parse_duration(d.as_str()) {
            Some(v) => Ok(v),
            None => Err(invalid_duration_message(d.as_str())),
        },
        None => match from_config {
            Some(d) => match parse_duration(d.as_str()) {
                Some(v) => Ok(v),
                None => Err(invalid_duration_message(d.as_str())),
            },
            None => Ok(DEFAULT_DURATION_SECS),
        },
    }
}

/// A present argument alone decides the duration, whatever the file
/// says: a valid argument wins, and an invalid one fails at once — it
/// never falls back to the file's value.
pub proof fn law_argument_never_falls_back(
    arg: Seq<char>,
    cfg1: Option<Seq<char>>,
    cfg2: Option<Seq<char>>,
)
    ensures
        spec_get_duration(Some(arg), cfg1) == spec_get_duration(Some(arg), cfg2),
        spec_parse_duration(arg) is None ==> spec_get_duration(Some(arg), cfg1) == Err::<
            u64,
            Seq<char>,
        >(spec_invalid_msg(arg)),
        spec_parse_duration(arg) is Some ==> spec_get_duration(Some(arg), cfg1) == Ok::<
            u64,
            Seq<char>,
        >(spec_parse_duration(arg)->0),
{
}

/// How a command-line switch merges with an optional file setting: the
/// switch wins when set, an absent file entry counts as off.
pub open spec fn merged_flag(arg: bool, file: Option<bool>) -> bool {
    arg || (file is Some && file->0)
}

/// Merges the configuration file and the command-line arguments into
/// the session configuration. The duration follows `get_duration`; each
/// boolean flag is on when set on either side.
pub fn create_config(file_config: ConfigFile, args: Cli) -> (r: Result<FocusConfig, String>)
    ensures
        r is Ok <==> spec_get_duration(args.duration.deep_view(), file_config.duration.deep_view())
            is Ok,
        r is Ok ==> ({
            let c = r->Ok_0;
            &&& c.duration == spec_get_duration(
                args.duration.deep_view(),
                file_config.duration.deep_view(),
            )->Ok_0
            &&& c.no_notification == merged_flag(args.no_notification, file_config.no_notification)
            &&& c.keep_status_bar == merged_flag(args.keep_status_bar, file_config.keep_status_bar)
            &&& c.print_time == merged_flag(args.print_time, file_config.print_time)
        }),
        r is Err ==> r->Err_0@ == spec_get_duration(
            args.duration.deep_view(),
            file_config.duration.deep_view(),
        )->Err_0,
{
    let duration = match get_duration(&args.duration, &file_config.duration) {
        Ok(d) => d,
        Err(e) => {
            return Err(e);
        },
    };
    Ok(
        FocusConfig {
            duration,
            no_notification: args.no_notification || match file_config.no_notification {
                Some(b) => b,
                None => false,
            },
            keep_status_bar: args.keep_status_bar || match file_config.keep_status_bar {
                Some(b) => b,
                None => false,
            },
            print_time: args.print_time || match file_config.print_time {
                Some(b) => b,
                None => false,
            },
        },
    )
}

// ---------------------------------------------------------------------
// The session coordinator: a state machine from events to state
// changes and environment requests. The binary around this crate runs
// the waiting; every decision is taken here.
// ---------------------------------------------------------------------
/// Why a session ended.
#[derive(Debug, PartialEq, Eq, Structural, Clone, Copy)]
pub enum ExitReason {
    /// The configured duration ran out.
    Timeout,
    /// A local interrupt, such as the user breaking off at the terminal.
    LocalInterrupt,
    /// A remote stop request.
    RemoteStop,
    /// The signal channel closed without a signal.
    ChannelClosed,
}

/// One occurrence the coordinator reacts to while the session runs.
#[derive(Debug, PartialEq, Eq, Structural, Clone, Copy)]
pub enum Event {
    /// The remaining time ran out.
    Expired,
    /// A local interrupt arrived.
    LocalInterrupt,
    /// A remote signal arrived.
    Remote(Signal),
    /// The signal channel closed without a signal.
    ChannelClosed,
}

/// One request the coordinator makes of the outside environment. The
/// binary performs these in the order handed out.
#[derive(Debug, PartialEq, Eq, Structural, Clone, Copy)]
pub enum EnvAction {
    /// Turn do-not-disturb on.
    EnableDnd,
    /// Hide the status bars, remembering their modes.
    HideBars,
    /// Show the terminal cursor, in case a display loop hid it.
    ShowCursor,
    /// Turn do-not-disturb off.
    DisableDnd,
    /// Restore the status bars that the session itself hid.
    RestoreBars,
    /// Send the session-over notification.
    Notify,
}

/// Phase of a session.
#[derive(Debug, PartialEq, Eq, Structural, Clone, Copy)]
pub enum SessionState {
    /// Created, environment not yet touched.
    Entering,
    /// Counting down; the timer may be paused and resumed.
    Running,
    /// An exit reason is recorded; restoration is owed.
    Exiting(ExitReason),
    /// Restoration requests handed out; nothing more will happen.
    Done(ExitReason),
}

/// The focus session: its configuration, its timer and its phase.
#[derive(Debug)]
pub struct Focus {
    /// The resolved configuration, fixed for the whole session.
    pub config: FocusConfig,
    /// The countdown timer.
    pub timer: Timer,
    /// The phase the session is in.
    pub state: SessionState,
}

/// The configured duration in milliseconds, clamped to a machine word.
pub open spec fn spec_duration_ms(c: FocusConfig) -> u64 {
    if c.duration * 1000 <= u64::MAX {
        (c.duration * 1000) as u64
    } else {
        u64::MAX
    }
}

/// The environment requests owed on entry: do-not-disturb on, and the
/// bars hidden unless the configuration keeps them.
pub open spec fn spec_entry_actions(c: FocusConfig) -> Seq<EnvAction> {
    if c.keep_status_bar {
        seq![EnvAction::EnableDnd]
    } else {
        seq![EnvAction::EnableDnd, EnvAction::HideBars]
    }
}

/// Whether the session-over notification is owed: a remote stop always
/// notifies; otherwise the configuration decides.
pub open spec fn spec_should_notify(c: FocusConfig, r: ExitReason) -> bool {
    r is RemoteStop || !c.no_notification
}

/// The environment requests owed on exit, in order: cursor back,
/// do-not-disturb off, the bars restored unless they were kept, and the
/// notification where it is owed.
pub open spec fn spec_exit_actions(c: FocusConfig, r: ExitReason) -> Seq<EnvAction> {
    seq![EnvAction::ShowCursor, EnvAction::DisableDnd] + (if c.keep_status_bar {
        Seq::<EnvAction>::empty()
    } else {
        seq![EnvAction::RestoreBars]
    }) + (if spec_should_notify(c, r) {
        seq![EnvAction::Notify]
    } else {
        Seq::<EnvAction>::empty()
    })
}

/// The exit reason an event carries, if it ends the session: a remote
/// pause toggle is the one event the session survives.
pub open spec fn spec_reason_of(event: Event) -> Option<ExitReason> {
    match event {
        Event::Expired => Some(ExitReason::Timeout),
        Event::LocalInterrupt => Some(ExitReason::LocalInterrupt),
        Event::Remote(Signal::Dbus) => Some(ExitReason::RemoteStop),
        Event::Remote(Signal::TogglePause) => None,
        Event::ChannelClosed => Some(ExitReason::ChannelClosed),
    }
}

impl Focus {
    /// Creates a session in the entering phase, its timer seeded from
    /// the configured duration and running from `now_ms`.
    pub fn new(config: FocusConfig, now_ms: u64) -> (f: Focus)
        ensures
            f.config == config,
            f.state is Entering,
            f.timer == Timer::spec_new(spec_duration_ms(config), now_ms),
    {
        let duration_ms = match config.duration.checked_mul(1000) {
            Some(ms) => ms,
            None => u64::MAX,
        };
        Focus { config, timer: Timer::new(duration_ms, now_ms), state: SessionState::Entering }
    }

    /// Moves from entering to running and hands out the entry requests.
    /// Failure of any of them is fatal to the session; the binary
    /// reports it and does not reach the wait loop.
    pub fn begin(&mut self) -> (actions: Vec<EnvAction>)
        requires
            old(self).state is Entering,
        ensures
            final(self).state is Running,
            final(self).config == old(self).config,
            final(self).timer == old(self).timer,
            actions@ == spec_entry_actions(old(self).config),
    {
        self.state = SessionState::Running;
        let mut actions: Vec<EnvAction> = Vec::new();
        actions.push(EnvAction::EnableDnd);
        if !self.config.keep_status_bar {
            actions.push(EnvAction::HideBars);
        }
        assert(actions@ =~= spec_entry_actions(self.config));
        actions
    }

    /// Checks the clock at the head of each wait round: when nothing
    /// remains, the session leaves the running phase with a timeout.
    pub fn check_timeout(&mut self, now_ms: u64) -> (expired: bool)
        requires
            old(self).state is Running,
        ensures
            expired == (old(self).timer.spec_remaining(now_ms) == 0),
            final(self).config == old(self).config,
            final(self).timer == old(self).timer,
            final(self).state == (if expired {
                SessionState::Exiting(ExitReason::Timeout)
            } else {
                old(self).state
            }),
    {
        let remaining = self.timer.remaining(now_ms);
        if remaining == 0 {
            self.state = SessionState::Exiting(ExitReason::Timeout);
            true
        } else {
            false
        }
    }

    /// Reacts to one event: a remote pause toggle flips the timer and
    /// the session keeps running; every other event records its exit
    /// reason, and the session leaves the running phase exactly once.
    pub fn handle_event(&mut self, event: Event, now_ms: u64)
        requires
            old(self).state is Running,
        ensures
            final(self).config == old(self).config,
            final(self).state == (match spec_reason_of(event) {
                Some(r) => SessionState::Exiting(r),
                None => SessionState::Running,
            }),
            final(self).timer == (if spec_reason_of(event) is None {
                old(self).timer.spec_toggle(now_ms)
            } else {
                old(self).timer
            }),
    {
        match event {
            Event::Expired => {
                self.state = SessionState::Exiting(ExitReason::Timeout);
            },
            Event::LocalInterrupt => {
                self.state = SessionState::Exiting(ExitReason::LocalInterrupt);
            },
            Event::Remote(Signal::Dbus) => {
                self.state = SessionState::Exiting(ExitReason::RemoteStop);
            },
            Event::Remote(Signal::TogglePause) => {
                self.timer.toggle_pause(now_ms);
            },
            Event::ChannelClosed => {
                self.state = SessionState::Exiting(ExitReason::ChannelClosed);
            },
        }
    }

    /// Moves from exiting to done and hands out the exit requests.
    /// These are best effort: the binary reports a failure and goes on
    /// with the rest, since a partly restored environment is better
    /// than none.
    pub fn finish(&mut self) -> (actions: Vec<EnvAction>)
        requires
            old(self).state is Exiting,
        ensures
            final(self).state == SessionState::Done(old(self).state->Exiting_0),
            final(self).config == old(self).config,
            final(self).timer == old(self).timer,
            actions@ == spec_exit_actions(old(self).config, old(self).state->Exiting_0),
    {
        let reason = match self.state {
            SessionState::Exiting(r) => r,
            _ => ExitReason::Timeout,
        };
        self.state = SessionState::Done(reason);
        let mut actions: Vec<EnvAction> = Vec::new();
        actions.push(EnvAction::ShowCursor);
        actions.push(EnvAction::DisableDnd);
        if !self.config.keep_status_bar {
            actions.push(EnvAction::RestoreBars);
        }
        if self.should_notify(reason) {
            actions.push(EnvAction::Notify);
        }
        assert(actions@ =~= spec_exit_actions(self.config, reason));
        actions
    }

    /// Whether the session-over notification is owed for `reason`.
    pub fn should_notify(&self, reason: ExitReason) -> (r: bool)
        ensures
            r == spec_should_notify(self.config, reason),
    {
        match reason {
            ExitReason::RemoteStop => true,
            _ => !self.config.no_notification,
        }
    }
}

/// How often `a` occurs in `s`.
pub open spec fn count_action(s: Seq<EnvAction>, a: EnvAction) -> int
    decreases s.len(),
{
    if s.len() == 0 {
        0
    } else {
        count_action(s.drop_last(), a) + if s.last() == a {
            1int
        } else {
            0int
        }
    }
}

/// However a session ends, the exit hands out one cursor restoration
/// and one do-not-disturb release, and restores the bars exactly once
/// unless the configuration kept them visible.
pub proof fn law_every_exit_restores(c: FocusConfig, r: ExitReason)
    ensures
        count_action(spec_exit_actions(c, r), EnvAction::ShowCursor) == 1,
        count_action(spec_exit_actions(c, r), EnvAction::DisableDnd) == 1,
        count_action(spec_exit_actions(c, r), EnvAction::RestoreBars) == (if c.keep_status_bar {
            0int
        } else {
            1int
        }),
{
    reveal_with_fuel(count_action, 6);
    let tail: Seq<EnvAction> = if spec_should_notify(c, r) {
        seq![EnvAction::Notify]
    } else {
        Seq::<EnvAction>::empty()
    };
    if c.keep_status_bar {
        assert(spec_exit_actions(c, r) =~= seq![EnvAction::ShowCursor, EnvAction::DisableDnd]
            + tail);
    } else {
        assert(spec_exit_actions(c, r) =~= seq![
            EnvAction::ShowCursor,
            EnvAction::DisableDnd,
            EnvAction::RestoreBars,
        ] + tail);
    }
}

/// A session that hides the bars, has its pause toggled remotely twice
/// — at `tp` and `tr` — and then times out, hides the bars exactly once
/// on entry, restores them exactly once on exit, and notifies exactly
/// once; the two toggles leave the session running, and its countdown
/// continues where it stopped, the paused interval excluded.
pub proof fn law_toggle_twice_timeout_session(c: FocusConfig, t: Timer, tp: u64, tr: u64, d: u64)
    requires
        !c.keep_status_bar,
        !c.no_notification,
        !t.paused,
        t.start_ms <= tp <= tr,
        tp + d <= u64::MAX,
        tr + d <= u64::MAX,
    ensures
        count_action(spec_entry_actions(c), EnvAction::HideBars) == 1,
        spec_reason_of(Event::Remote(Signal::TogglePause)) is None,
        !t.spec_toggle(tp).spec_toggle(tr).paused,
        t.spec_toggle(tp).spec_toggle(tr).spec_remaining((tr + d) as u64) == t.spec_remaining(
            (tp + d) as u64,
        ),
        count_action(spec_exit_actions(c, ExitReason::Timeout), EnvAction::RestoreBars) == 1,
        count_action(spec_exit_actions(c, ExitReason::Timeout), EnvAction::Notify) == 1,
{
    crate::timer::lemma_toggle_toggle_resumes_countdown(t, tp, tr, d);
    reveal_with_fuel(count_action, 6);
    assert(spec_entry_actions(c) =~= seq![EnvAction::EnableDnd, EnvAction::HideBars]);
    assert(spec_exit_actions(c, ExitReason::Timeout) =~= seq![
        EnvAction::ShowCursor,
        EnvAction::DisableDnd,
        EnvAction::RestoreBars,
        EnvAction::Notify,
    ]);
}

/// A remote stop ends the running phase with the remote-stop reason, and
/// the exit still restores the environment — do-not-disturb off, bars
/// back unless they were kept — and notifies exactly once, even when the
/// configuration asked for no notification.
pub proof fn law_remote_stop_restores_and_notifies(c: FocusConfig)
    ensures
        spec_reason_of(Event::Remote(Signal::Dbus)) == Some(ExitReason::RemoteStop),
        count_action(spec_exit_actions(c, ExitReason::RemoteStop), EnvAction::DisableDnd) == 1,
        !c.keep_status_bar ==> count_action(
            spec_exit_actions(c, ExitReason::RemoteStop),
            EnvAction::RestoreBars,
        ) == 1,
        count_action(spec_exit_actions(c, ExitReason::RemoteStop), EnvAction::Notify) == 1,
{
    reveal_with_fuel(count_action, 6);
    if c.keep_status_bar {
        assert(spec_exit_actions(c, ExitReason::RemoteStop) =~= seq![
            EnvAction::ShowCursor,
            EnvAction::DisableDnd,
            EnvAction::Notify,
        ]);
    } else {
        assert(spec_exit_actions(c, ExitReason::RemoteStop) =~= seq![
            EnvAction::ShowCursor,
            EnvAction::DisableDnd,
            EnvAction::RestoreBars,
            EnvAction::Notify,
        ]);
    }
}

} // verus!
