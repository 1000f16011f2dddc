//! A process's start time from the text of `/proc/<pid>/stat`, and its birth instant.
use vstd::prelude::*;
use crate::text::{decimal, digit_char, push_char, split_whitespace, words};
use crate::time::{representable, UtcTime};

verus! {

/// What follows the last `c` in the text read so far, once `ch` is read: `None` until a `c`
/// has been read, and empty again at each new `c`.
pub open spec fn after_step(st: Option<Seq<char>>, ch: char, c: char) -> Option<Seq<char>> {
    if ch == c {
        Some(Seq::empty())
    } else {
        match st {
            None => None,
            Some(acc) => Some(acc.push(ch)),
        }
    }
}

/// The text after the last `c` in `s`, or `None` when `s` holds no `c`.
pub open spec fn after_last(s: Seq<char>, c: char) -> Option<Seq<char>>
    decreases s.len(),
{
    if s.len() == 0 {
        None
    } else {
        after_step(after_last(s.drop_last(), c), s.last(), c)
    }
}

pub open spec fn is_digit(c: char) -> bool {
    '0' <= c <= '9'
}

/// Whether every character of `d` is a decimal digit.
pub open spec fn all_digits(d: Seq<char>) -> bool {
    forall|i: int| 0 <= i < d.len() ==> is_digit(#[trigger] d[i])
}

/// The text after an optional leading `+`.
pub open spec fn unsigned_digits(s: Seq<char>) -> Seq<char> {
    if s.len() > 0 && s[0] == '+' { s.drop_first() } else { s }
}

/// The number that a string of decimal digits denotes.
pub open spec fn digits_value(d: Seq<char>) -> nat
    decreases d.len(),
{
    if d.len() == 0 {
        0
    } else {
        digits_value(d.drop_last()) * 10 + ((d.last() as int - 48) as nat)
    }
}

/// `u64::from_str`: an optional `+`, then one or more decimal digits denoting at most
/// `u64::MAX`.
pub open spec fn parse_u64(s: Seq<char>) -> Option<u64> {
    let d = unsigned_digits(s);
    if d.len() > 0 && all_digits(d) && digits_value(d) <= u64::MAX {
        Some(digits_value(d) as u64)
    } else {
        None
    }
}

/// The start time, in clock ticks after boot, recorded in the text of `/proc/<pid>/stat`:
/// field 22, the 20th whitespace-separated field after the command name. The name stands in
/// brackets and may itself hold `)` or spaces; the fields after it hold no `)`, so the name
/// ends at the last `)` of the text.
pub open spec fn stat_start_ticks(stat: Seq<char>) -> Option<u64> {
    match after_last(stat, ')') {
        None => None,
        Some(rest) => {
            let fields = words(rest);
            if fields.len() > 19 {
                parse_u64(fields[19])
            } else {
                None
            }
        },
    }
}

/// The instant `start_ticks` clock ticks after `boot`: whole seconds converted with `as i64`,
/// the remaining ticks as nanoseconds rounded down.
pub open spec fn spec_birth_time(start_ticks: u64, ticks_per_sec: u64, boot: UtcTime) -> UtcTime {
    let secs = ((start_ticks / ticks_per_sec) as i64) as int;
    let nanos = ((start_ticks % ticks_per_sec) as int) * 1_000_000_000 / (ticks_per_sec as int);
    let total = boot.nanos + nanos;
    if total >= 1_000_000_000 {
        UtcTime { secs: (boot.secs + secs + 1) as i64, nanos: (total - 1_000_000_000) as u32 }
    } else {
        UtcTime { secs: (boot.secs + secs) as i64, nanos: total as u32 }
    }
}

/// Whether the arithmetic of `spec_birth_time` stays in range: the sub-second ticks times
/// 10⁹ fit in a `u64`, and the resulting instant is one chrono represents.
pub open spec fn birth_time_in_range(start_ticks: u64, ticks_per_sec: u64, boot: UtcTime) -> bool {
    let secs = ((start_ticks / ticks_per_sec) as i64) as int;
    let nanos = ((start_ticks % ticks_per_sec) as int) * 1_000_000_000 / (ticks_per_sec as int);
    let carry: int = if boot.nanos + nanos >= 1_000_000_000 { 1 } else { 0 };
    &&& ((start_ticks % ticks_per_sec) as int) * 1_000_000_000 <= u64::MAX
    &&& representable(boot.secs + secs + carry)
}

/// Parses an unsigned decimal number as `str::parse::<u64>` does.
pub fn parse_decimal_u64(s: &str) -> (r: Option<u64>)
    ensures
        r == parse_u64(s@),
{
    let ghost d = unsigned_digits(s@);
    let ghost mut count: int = 0;
    let mut first = true;
    let mut skipped_sign = false;
    let mut any_digit = false;
    let mut acc: u64 = 0;
    let mut overflow = false;
    let mut bad = false;
    for c in it: s.chars()
        invariant
            it.seq() == s@,
            first == (it.index@ == 0),
            skipped_sign == (it.index@ > 0 && s@[0] == '+'),
            d == unsigned_digits(s@),
            count == if skipped_sign { it.index@ - 1 } else { it.index@ },
            0 <= count <= d.len(),
            any_digit == (count > 0),
            bad == !(forall|i: int| 0 <= i < count ==> is_digit(#[trigger] d[i])),
            !bad && !overflow ==> acc == digits_value(d.take(count)),
            overflow && !bad ==> digits_value(d.take(count)) > u64::MAX,
    {
        if first && c == '+' {
            skipped_sign = true;
        } else {
            assert(d.take(count + 1).drop_last() == d.take(count));
            if '0' <= c && c <= '9' {
                let digit = (c as u32 - 48) as u64;
                if !bad && !overflow {
                    if acc > (u64::MAX - digit) / 10 {
                        overflow = true;
                    } else {
                        acc = acc * 10 + digit;
                    }
                }
            } else {
                bad = true;
            }
            any_digit = true;
            proof {
                count = count + 1;
            }
        }
        first = false;
    }
    assert(d.take(count) == d);
    if !any_digit || bad || overflow {
        None
    } else {
        Some(acc)
    }
}

/// The text after the last `c` in `s`, or `None` when `s` holds no `c`.
fn text_after_last(s: &str, c: char) -> (r: Option<String>)
    ensures
        match r {
            Some(t) => after_last(s@, c) == Some(t@),
            None => after_last(s@, c) is None,
        },
{
    let mut found = false;
    let mut rest = String::new();
    for ch in it: s.chars()
        invariant
            it.seq() == s@,
            found ==> after_last(s@.take(it.index@), c) == Some(rest@),
            !found ==> after_last(s@.take(it.index@), c) is None,
            !found ==> rest@ == Seq::<char>::empty(),
    {
        let ghost i = it.index@;
        assert(s@.take(i + 1).drop_last() == s@.take(i));
        if ch == c {
            found = true;
            rest = String::new();
        } else if found {
            push_char(&mut rest, ch);
        }
    }
    assert(s@.take(s@.len() as int) == s@);
    if found {
        Some(rest)
    } else {
        None
    }
}

/// The start time in clock ticks recorded in the text of `/proc/<pid>/stat`, if present.
pub fn parse_stat_start_ticks(stat: &str) -> (r: Option<u64>)
    ensures
        r == stat_start_ticks(stat@),
{
    let rest = match text_after_last(stat, ')') {
        Some(t) => t,
        None => return None,
    };
    let fields = split_whitespace(rest.as_str());
    if fields.len() > 19 {
        parse_decimal_u64(fields[19].as_str())
    } else {
        None
    }
}

/// The birth instant of a process: `boot_time` plus the start time recorded in the text of
/// its `/proc/<pid>/stat`; `None` when the text records none.
pub fn birth_time_from_stat(stat: &str, ticks_per_sec: u64, boot_time: &UtcTime) -> (r: Option<UtcTime>)
    requires
        boot_time.wf(),
        stat_start_ticks(stat@) matches Some(st) ==> ticks_per_sec > 0 && birth_time_in_range(
            st,
            ticks_per_sec,
            *boot_time,
        ),
    ensures
        r == match stat_start_ticks(stat@) {
            Some(st) => Some(spec_birth_time(st, ticks_per_sec, *boot_time)),
            None => None,
        },
        r matches Some(t) ==> t.wf(),
{
    let starttime = match parse_stat_start_ticks(stat) {
        Some(st) => st,
        None => return None,
    };
    let start_secs_since_boot = starttime / ticks_per_sec;
    let start_subsec_ticks = starttime % ticks_per_sec;
    let start_nanos = (start_subsec_ticks * 1_000_000_000) / ticks_per_sec;
    assert(start_nanos < 1_000_000_000) by (nonlinear_arith)
        requires
            start_subsec_ticks < ticks_per_sec,
            start_nanos == (start_subsec_ticks as int) * 1_000_000_000 / (ticks_per_sec as int),
            ticks_per_sec > 0,
    ;
    let secs = start_secs_since_boot as i64;
    let total_nanos = boot_time.nanos as u64 + start_nanos;
    if total_nanos >= 1_000_000_000 {
        let s = (boot_time.secs as i128 + secs as i128 + 1) as i64;
        Some(UtcTime { secs: s, nanos: (total_nanos - 1_000_000_000) as u32 })
    } else {
        let s = (boot_time.secs as i128 + secs as i128) as i64;
        Some(UtcTime { secs: s, nanos: total_nanos as u32 })
    }
}


/// Decimal digits read back as the number they were written from: every number up to
/// `u64::MAX` written in decimal parses to itself.
pub proof fn lemma_parse_decimal_roundtrip(n: nat)
    requires
        n <= u64::MAX,
    ensures
        parse_u64(decimal(n)) == Some(n as u64),
{
    lemma_decimal_digits(n);
    assert(decimal(n).len() > 0);
    if decimal(n)[0] == '+' {
        assert(is_digit(decimal(n)[0]));
    }
}

proof fn lemma_decimal_digits(n: nat)
    ensures
        all_digits(decimal(n)),
        digits_value(decimal(n)) == n,
        decimal(n).len() > 0,
    decreases n,
{
    if n < 10 {
        assert(decimal(n) == seq![digit_char(n)]);
        assert(decimal(n).drop_last() =~= Seq::<char>::empty());
        assert(digits_value(Seq::<char>::empty()) == 0);
        assert(digit_char(n) as int == n + 48);
    } else {
        lemma_decimal_digits(n / 10);
        let d = decimal(n);
        assert(d == decimal(n / 10).push(digit_char(n % 10)));
        assert(d.drop_last() == decimal(n / 10));
        assert(digit_char(n % 10) as int == n % 10 + 48);
        assert(d.last() == digit_char(n % 10));
        assert(n == (n / 10) * 10 + n % 10);
        assert forall|i: int| 0 <= i < d.len() implies is_digit(#[trigger] d[i]) by {
            if i < d.len() - 1 {
                assert(d[i] == decimal(n / 10)[i]);
            }
        }
    }
}


/// The birth instant is the boot instant plus the start time: whole seconds of ticks and the
/// remaining ticks as nanoseconds (rounded down), carried into a valid instant.
pub proof fn lemma_birth_time_adds(start_ticks: u64, ticks_per_sec: u64, boot: UtcTime)
    requires
        ticks_per_sec > 0,
        boot.wf(),
        birth_time_in_range(start_ticks, ticks_per_sec, boot),
        start_ticks / ticks_per_sec <= i64::MAX,
    ensures
        ({
            let b = spec_birth_time(start_ticks, ticks_per_sec, boot);
            &&& b.wf()
            &&& b.secs * 1_000_000_000 + b.nanos == boot.secs * 1_000_000_000 + boot.nanos
                + (start_ticks / ticks_per_sec) * 1_000_000_000
                + ((start_ticks % ticks_per_sec) as int) * 1_000_000_000 / (ticks_per_sec as int)
        }),
{
    let sub = (start_ticks % ticks_per_sec) as int;
    let nanos = sub * 1_000_000_000 / (ticks_per_sec as int);
    assert(nanos < 1_000_000_000) by (nonlinear_arith)
        requires
            0 <= sub < ticks_per_sec,
            nanos == sub * 1_000_000_000 / (ticks_per_sec as int),
            ticks_per_sec > 0,
    ;
    assert(nanos >= 0) by (nonlinear_arith)
        requires
            0 <= sub,
            nanos == sub * 1_000_000_000 / (ticks_per_sec as int),
            ticks_per_sec > 0,
    ;
}

} // verus!
