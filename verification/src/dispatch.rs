//! The decisions of the scheduler's main loop: where and how long a task runs, when the
//! planets are due for a refresh, how each round of dispatching proceeds and ends, which
//! reports startup prints, and a task's command name.
use vstd::prelude::*;
use crate::text::push_char;

verus! {

/// A priority's share of the full slice, in thousandths: `priority / 1000` kept within
/// [0.1, 1.0].
pub open spec fn priority_permille(priority: int) -> int {
    if priority < 100 {
        100
    } else if priority > 1000 {
        1000
    } else {
        priority
    }
}

/// The slice in nanoseconds before any retrograde penalty: from the minimum slice toward the
/// default slice in proportion to the priority's share, rounded down.
pub open spec fn unpenalized_slice_ns(priority: int, slice_us: int, slice_us_min: int) -> int {
    let base = slice_us * 1000;
    let min = slice_us_min * 1000;
    let f = priority_permille(priority);
    (min * (1000 - f) + base * f) / 1000
}

/// The slice in nanoseconds: halved (rounded down) when the ruling planet is retrograde
/// and retrograde effects are on.
pub open spec fn spec_time_slice_ns(
    priority: int,
    slice_us: int,
    slice_us_min: int,
    retrograde: bool,
    no_retrograde: bool,
) -> int {
    let s = unpenalized_slice_ns(priority, slice_us, slice_us_min);
    if !no_retrograde && retrograde {
        s / 2
    } else {
        s
    }
}

/// The time slice (nanoseconds) for a task of astrological `priority`: higher priority,
/// longer slice, between the minimum and the default slice (both in microseconds);
/// halved when `retrograde` (negative planetary influence) unless `no_retrograde`.
pub fn time_slice_ns(
    priority: i32,
    slice_us: u64,
    slice_us_min: u64,
    retrograde: bool,
    no_retrograde: bool,
) -> (ns: u64)
    requires
        slice_us * 1000 <= u64::MAX,
        slice_us_min * 1000 <= u64::MAX,
    ensures
        ns == spec_time_slice_ns(priority as int, slice_us as int, slice_us_min as int, retrograde, no_retrograde),
{
    let f: u128 = if priority < 100 {
        100
    } else if priority > 1000 {
        1000
    } else {
        priority as u128
    };
    let base_slice = (slice_us * 1000) as u128;
    let min_slice = (slice_us_min * 1000) as u128;
    assert(min_slice * (1000 - f) <= 18_446_744_073_709_551_615 * 1000) by (nonlinear_arith)
        requires
            min_slice <= 18_446_744_073_709_551_615,
            1000 - f <= 1000,
    ;
    assert(base_slice * f <= 18_446_744_073_709_551_615 * 1000) by (nonlinear_arith)
        requires
            base_slice <= 18_446_744_073_709_551_615,
            f <= 1000,
    ;
    let mixed = min_slice * (1000 - f) + base_slice * f;
    let slice = mixed / 1000;
    assert(slice <= u64::MAX) by (nonlinear_arith)
        requires
            slice == mixed / 1000,
            mixed == min_slice * (1000 - f) + base_slice * f,
            min_slice <= u64::MAX,
            base_slice <= u64::MAX,
            100 <= f <= 1000,
    ;
    let slice_ns = slice as u64;
    if !no_retrograde && retrograde {
        slice_ns / 2
    } else {
        slice_ns
    }
}

/// Where and for how long a dequeued task runs.
#[derive(Debug, Clone, Copy, PartialEq, Eq, Structural)]
pub struct DispatchDecision {
    /// The CPU the task is dispatched to; the "any CPU" value when none was selected.
    pub cpu: i32,
    /// The time slice in nanoseconds.
    pub slice_ns: u64,
}

/// The CPU a task goes to: the selected one, or `any_cpu` when the selection failed
/// (a negative CPU).
pub open spec fn dispatch_cpu(selected_cpu: i32, any_cpu: i32) -> i32 {
    if selected_cpu >= 0 {
        selected_cpu
    } else {
        any_cpu
    }
}

/// The decision for one dequeued task: the CPU that `select_cpu` returned, falling back to
/// `any_cpu` when it returned a negative value, and the time slice for its astrological
/// `priority`, halved when its ruling planet is `retrograde` unless `no_retrograde`.
pub fn dispatch_decision(
    selected_cpu: i32,
    any_cpu: i32,
    priority: i32,
    slice_us: u64,
    slice_us_min: u64,
    retrograde: bool,
    no_retrograde: bool,
) -> (d: DispatchDecision)
    requires
        slice_us * 1000 <= u64::MAX,
        slice_us_min * 1000 <= u64::MAX,
    ensures
        d.cpu == dispatch_cpu(selected_cpu, any_cpu),
        d.slice_ns == spec_time_slice_ns(
            priority as int,
            slice_us as int,
            slice_us_min as int,
            retrograde,
            no_retrograde,
        ),
{
    let cpu = if selected_cpu >= 0 {
        selected_cpu
    } else {
        any_cpu
    };
    DispatchDecision {
        cpu,
        slice_ns: time_slice_ns(priority, slice_us, slice_us_min, retrograde, no_retrograde),
    }
}

/// Whether the planetary positions are due for a refresh: at least `interval` seconds have
/// passed since `last_update`.
pub fn positions_due(now: u64, last_update: u64, interval: u64) -> (due: bool)
    requires
        now >= last_update,
    ensures
        due == (now - last_update >= interval),
{
    now - last_update >= interval
}

/// A slice always lies between the minimum and the default slice, before any retrograde
/// penalty.
pub proof fn lemma_slice_between(priority: int, slice_us: nat, slice_us_min: nat)
    ensures
        ({
            let s = unpenalized_slice_ns(priority, slice_us as int, slice_us_min as int);
            let lo = if slice_us <= slice_us_min { slice_us * 1000 } else { slice_us_min * 1000 };
            let hi = if slice_us <= slice_us_min { slice_us_min * 1000 } else { slice_us * 1000 };
            lo <= s <= hi
        }),
{
    let base = slice_us * 1000;
    let min = slice_us_min * 1000;
    let f = priority_permille(priority);
    let lo = if slice_us <= slice_us_min { base } else { min };
    let hi = if slice_us <= slice_us_min { min } else { base };
    assert(lo * 1000 <= min * (1000 - f) + base * f <= hi * 1000) by (nonlinear_arith)
        requires
            100 <= f <= 1000,
            lo <= base,
            lo <= min,
            base <= hi,
            min <= hi,
            0 <= lo,
    ;
}

/// Higher astrological priority never shortens the slice when the default slice is at least
/// the minimum one.
pub proof fn lemma_slice_monotonic(p1: int, p2: int, slice_us: nat, slice_us_min: nat, retrograde: bool, no_retrograde: bool)
    requires
        p1 <= p2,
        slice_us_min <= slice_us,
    ensures
        spec_time_slice_ns(p1, slice_us as int, slice_us_min as int, retrograde, no_retrograde)
            <= spec_time_slice_ns(p2, slice_us as int, slice_us_min as int, retrograde, no_retrograde),
{
    let base = slice_us * 1000;
    let min = slice_us_min * 1000;
    let f1 = priority_permille(p1);
    let f2 = priority_permille(p2);
    assert(min * (1000 - f1) + base * f1 <= min * (1000 - f2) + base * f2) by (nonlinear_arith)
        requires
            f1 <= f2,
            min <= base,
    ;
    let a = min * (1000 - f1) + base * f1;
    let b = min * (1000 - f2) + base * f2;
    vstd::arithmetic::div_mod::lemma_div_is_ordered(a, b, 1000);
    vstd::arithmetic::div_mod::lemma_div_is_ordered(a / 1000, b / 1000, 2);
}

/// The slice in full: priority 1000 and above earns the whole default slice; priority 100
/// and below a tenth of the way from the minimum toward it; in between, the share
/// `priority / 1000` of that way (all rounded down); a retrograde ruling planet halves it
/// unless retrograde effects are off.
pub proof fn lemma_slice_values(priority: int, slice_us: nat, slice_us_min: nat, retrograde: bool, no_retrograde: bool)
    ensures
        ({
            let base = slice_us * 1000;
            let min = slice_us_min * 1000;
            let plain = spec_time_slice_ns(priority, slice_us as int, slice_us_min as int, false, no_retrograde);
            &&& priority >= 1000 ==> plain == base
            &&& priority <= 100 ==> plain == (min * 900 + base * 100) / 1000
            &&& 100 <= priority <= 1000 ==> plain == (min * (1000 - priority) + base * priority) / 1000
            &&& spec_time_slice_ns(priority, slice_us as int, slice_us_min as int, retrograde, no_retrograde) == (
            if retrograde && !no_retrograde { plain / 2 } else { plain })
        }),
{
    let base = slice_us * 1000;
    let min = slice_us_min * 1000;
    if priority >= 1000 {
        assert((min * 0 + base * 1000) / 1000 == base) by (nonlinear_arith);
    }
}

/// A dispatched task goes to the CPU that was selected for it, and to "any CPU" only when
/// the selection failed.
pub proof fn lemma_dispatch_cpu(selected_cpu: i32, any_cpu: i32)
    ensures
        selected_cpu >= 0 ==> dispatch_cpu(selected_cpu, any_cpu) == selected_cpu,
        selected_cpu < 0 ==> dispatch_cpu(selected_cpu, any_cpu) == any_cpu,
{
}

// ───────────────────────────── the main loop ─────────────────────────────

/// The reports printed at startup.
#[derive(Debug, Clone, Copy, PartialEq, Eq, Structural)]
pub struct StartupReports {
    pub cosmic_weather: bool,
    pub daily_horoscope: bool,
}

/// Which reports to print at startup: the cosmic weather with `-w`; the daily horoscope
/// with `--daily-horoscope`, which requires `-w` as well.
pub fn startup_reports(cosmic_weather: bool, daily_horoscope: bool) -> (r: StartupReports)
    ensures
        r.cosmic_weather == cosmic_weather,
        r.daily_horoscope == (daily_horoscope && cosmic_weather),
{
    StartupReports { cosmic_weather, daily_horoscope: daily_horoscope && cosmic_weather }
}

/// What the queue of waiting tasks answered.
#[derive(Debug, Clone, Copy, PartialEq, Eq, Structural)]
pub enum Dequeued {
    /// A task to schedule.
    Task,
    /// No task is waiting.
    Empty,
    /// The queue could not be read; the error code.
    Failed(i32),
}

/// What the main loop reacts to.
#[derive(Debug, Clone, Copy, PartialEq, Eq, Structural)]
pub enum LoopEvent {
    /// A round of dispatching begins at second `now`.
    RoundBegins { now: u64 },
    /// The queue of waiting tasks answered.
    Queue(Dequeued),
    /// The round of dispatching has ended; the clock reads second `now`.
    RoundEnds { now: u64 },
}

/// What the main loop does next.
#[derive(Debug, Clone, Copy, PartialEq, Eq, Structural)]
pub enum LoopAction {
    /// Refresh the planets and evict the charts of dead processes, then take the next task.
    RefreshThenDequeue,
    /// Take the next waiting task.
    Dequeue,
    /// Dispatch the task just taken, then take the next one.
    DispatchThenDequeue,
    /// Report the failed read with its code, then tell the kernel that the round is done.
    ReportThenNotify(i32),
    /// Tell the kernel that the round is done.
    Notify,
    /// Print the dispatch statistics.
    PrintStats,
    /// Nothing.
    Idle,
}

/// What the main loop remembers: the second of the last refresh of the planets and the
/// second of the last round's end.
#[derive(Debug, Clone, Copy, PartialEq, Eq, Structural)]
pub struct LoopState {
    pub last_update: u64,
    pub prev_ts: u64,
}

/// The state at startup, at second `now`.
pub fn loop_start(now: u64) -> (s: LoopState)
    ensures
        s == (LoopState { last_update: now, prev_ts: now }),
{
    LoopState { last_update: now, prev_ts: now }
}

/// One step of the main loop. A round begins with a refresh when `update_interval` seconds
/// have passed since the last one; each task taken is dispatched and the next one taken; an
/// empty queue ends the round with one notification, and so does a failed read, after it is
/// reported. At the end of a round, once a second has passed since the last one, the
/// statistics are printed when `verbose`.
pub open spec fn spec_loop_step(s: LoopState, e: LoopEvent, update_interval: u64, verbose: bool) -> (
    LoopState,
    LoopAction,
) {
    match e {
        LoopEvent::RoundBegins { now } => {
            if now - s.last_update >= update_interval {
                (LoopState { last_update: now, prev_ts: s.prev_ts }, LoopAction::RefreshThenDequeue)
            } else {
                (s, LoopAction::Dequeue)
            }
        },
        LoopEvent::Queue(Dequeued::Task) => (s, LoopAction::DispatchThenDequeue),
        LoopEvent::Queue(Dequeued::Empty) => (s, LoopAction::Notify),
        LoopEvent::Queue(Dequeued::Failed(code)) => (s, LoopAction::ReportThenNotify(code)),
        LoopEvent::RoundEnds { now } => {
            if now > s.prev_ts {
                (
                    LoopState { last_update: s.last_update, prev_ts: now },
                    if verbose {
                        LoopAction::PrintStats
                    } else {
                        LoopAction::Idle
                    },
                )
            } else {
                (s, LoopAction::Idle)
            }
        },
    }
}

/// The next state and action of the main loop after event `e`.
pub fn loop_step(s: LoopState, e: LoopEvent, update_interval: u64, verbose: bool) -> (r: (
    LoopState,
    LoopAction,
))
    requires
        e matches LoopEvent::RoundBegins { now } ==> now >= s.last_update,
    ensures
        r == spec_loop_step(s, e, update_interval, verbose),
{
    match e {
        LoopEvent::RoundBegins { now } => {
            if positions_due(now, s.last_update, update_interval) {
                (LoopState { last_update: now, prev_ts: s.prev_ts }, LoopAction::RefreshThenDequeue)
            } else {
                (s, LoopAction::Dequeue)
            }
        },
        LoopEvent::Queue(Dequeued::Task) => (s, LoopAction::DispatchThenDequeue),
        LoopEvent::Queue(Dequeued::Empty) => (s, LoopAction::Notify),
        LoopEvent::Queue(Dequeued::Failed(code)) => (s, LoopAction::ReportThenNotify(code)),
        LoopEvent::RoundEnds { now } => {
            if now > s.prev_ts {
                let action = if verbose {
                    LoopAction::PrintStats
                } else {
                    LoopAction::Idle
                };
                (LoopState { last_update: s.last_update, prev_ts: now }, action)
            } else {
                (s, LoopAction::Idle)
            }
        },
    }
}

/// Each round notifies the kernel exactly once: only the queue's last answer of a round,
/// an empty queue or a failed read, leads to a notification, and it takes no further task.
pub proof fn lemma_round_notifies_once(s: LoopState, e: LoopEvent, update_interval: u64, verbose: bool)
    ensures
        ({
            let a = spec_loop_step(s, e, update_interval, verbose).1;
            (a == LoopAction::Notify || a is ReportThenNotify) <==> (e == LoopEvent::Queue(Dequeued::Empty)
                || e matches LoopEvent::Queue(Dequeued::Failed(_)))
        }),
        spec_loop_step(s, e, update_interval, verbose).1 is PrintStats ==> verbose,
{
}

/// The loop's timing: a round begins with a refresh exactly when `update_interval` seconds
/// have passed since the last refresh, which then dates from that round; a round ends with
/// statistics exactly when a later second has begun and the loop is verbose, and the later
/// second is remembered whether or not they are printed.
pub proof fn lemma_loop_timing(s: LoopState, now: u64, update_interval: u64, verbose: bool)
    requires
        now >= s.last_update,
    ensures
        ({
            let (b, ba) = spec_loop_step(s, LoopEvent::RoundBegins { now }, update_interval, verbose);
            &&& ba == LoopAction::RefreshThenDequeue <==> now - s.last_update >= update_interval
            &&& ba != LoopAction::RefreshThenDequeue ==> ba == LoopAction::Dequeue && b == s
            &&& ba == LoopAction::RefreshThenDequeue ==> b.last_update == now && b.prev_ts == s.prev_ts
        }),
        ({
            let (e, ea) = spec_loop_step(s, LoopEvent::RoundEnds { now }, update_interval, verbose);
            &&& ea == LoopAction::PrintStats <==> (now > s.prev_ts && verbose)
            &&& ea != LoopAction::PrintStats ==> ea == LoopAction::Idle
            &&& e.prev_ts == (if now > s.prev_ts { now } else { s.prev_ts })
            &&& e.last_update == s.last_update
        }),
        spec_loop_step(s, LoopEvent::Queue(Dequeued::Task), update_interval, verbose) == (
        s,
        LoopAction::DispatchThenDequeue,
        ),
{
}

// ───────────────────────────── the command name ─────────────────────────────

/// The text that `bytes` decode to as UTF-8, each invalid sequence replaced by U+FFFD.
pub uninterp spec fn utf8_lossy_of(bytes: Seq<u8>) -> Seq<char>;

/// Decodes `bytes` by `String::from_utf8_lossy`, into an owned `String`. Claimed: the named
/// text; nothing is said of its content.
#[verifier::external_body]
fn decode_utf8_lossy(bytes: &[u8]) -> (s: String)
    ensures
        s@ == utf8_lossy_of(bytes@),
{
    String::from_utf8_lossy(bytes).into_owned()
}

/// `s` without the NUL characters at its end.
pub open spec fn trim_trailing_nuls(s: Seq<char>) -> Seq<char>
    decreases s.len(),
{
    if s.len() > 0 && s.last() == '\0' {
        trim_trailing_nuls(s.drop_last())
    } else {
        s
    }
}

/// The bytes of a command name held as C characters.
pub open spec fn comm_bytes(raw: Seq<i8>) -> Seq<u8> {
    raw.map_values(|c: i8| c as u8)
}

/// `s` with the NUL characters at its end removed.
pub fn trim_nuls(s: &str) -> (r: String)
    ensures
        r@ == trim_trailing_nuls(s@),
{
    let mut cs: Vec<char> = Vec::new();
    for c in it: s.chars()
        invariant
            it.seq() == s@,
            cs@ == s@.take(it.index@),
    {
        let ghost i = it.index@;
        assert(s@.take(i + 1) == s@.take(i).push(c));
        cs.push(c);
    }
    assert(s@.take(s@.len() as int) == s@);
    while cs.len() > 0 && cs[cs.len() - 1] == '\0'
        invariant
            trim_trailing_nuls(cs@) == trim_trailing_nuls(s@),
        decreases cs@.len(),
    {
        let ghost before = cs@;
        cs.pop();
        assert(cs@ == before.drop_last());
    }
    let mut out = String::new();
    let mut i: usize = 0;
    while i < cs.len()
        invariant
            i <= cs@.len(),
            out@ == cs@.take(i as int),
        decreases cs@.len() - i,
    {
        assert(cs@.take(i + 1) == cs@.take(i as int).push(cs@[i as int]));
        push_char(&mut out, cs[i]);
        i = i + 1;
    }
    assert(cs@.take(cs@.len() as int) == cs@);
    out
}

/// A task's command name from its C characters: decoded as UTF-8 (invalid sequences
/// replaced) and stripped of the NULs that pad it.
pub fn command_name(raw: &[i8]) -> (r: String)
    ensures
        r@ == trim_trailing_nuls(utf8_lossy_of(comm_bytes(raw@))),
{
    let mut bytes: Vec<u8> = Vec::new();
    let mut i: usize = 0;
    while i < raw.len()
        invariant
            i <= raw@.len(),
            bytes@ == comm_bytes(raw@.take(i as int)),
        decreases raw@.len() - i,
    {
        assert(comm_bytes(raw@.take(i + 1)) == comm_bytes(raw@.take(i as int)).push(raw@[i as int] as u8));
        bytes.push(raw[i] as u8);
        i = i + 1;
    }
    assert(raw@.take(raw@.len() as int) == raw@);
    let text = decode_utf8_lossy(bytes.as_slice());
    trim_nuls(text.as_str())
}

} // verus!
