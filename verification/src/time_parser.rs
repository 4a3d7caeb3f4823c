//! The time parser: turns user text into a whole-second duration, first by
//! the relative-duration grammar (`<digits><unit>` tokens, unit one of
//! h/m/s, case-insensitive, spaces permitted between tokens only), then by
//! the clock-time grammar (a wall-clock time of day, resolved forward from
//! the current local time).
use vstd::prelude::*;

verus! {

/// Why an input was rejected.
#[derive(Debug)]
pub enum ParseError {
    /// The input matched neither grammar; carries the original text.
    InvalidFormat(String),
    /// The relative-duration grammar matched structurally but broke one of
    /// its rules; carries the specific reason.
    InvalidDuration(String),
}

impl ParseError {
    /// The human-readable message for this error.
    pub fn message(&self) -> (m: String)
        ensures
            self matches ParseError::InvalidFormat(s) ==> m@ == "Invalid format: "@ + s@,
            self matches ParseError::InvalidDuration(s) ==> m@ == "Invalid duration: "@ + s@,
    {
        match self {
            ParseError::InvalidFormat(s) => {
                let mut out = "Invalid format: ".to_owned();
                out.append(s.as_str());
                out
            },
            ParseError::InvalidDuration(s) => {
                let mut out = "Invalid duration: ".to_owned();
                out.append(s.as_str());
                out
            },
        }
    }
}

/// The whitespace the parser trims from the ends of its input.
pub open spec fn is_space_char(c: char) -> bool {
    c == ' ' || c == '\t' || c == '\n' || c == '\r' || c == '\u{b}' || c == '\u{c}'
}

pub open spec fn is_digit_char(c: char) -> bool {
    '0' <= c && c <= '9'
}

pub open spec fn digit_val(c: char) -> nat {
    (c as u32 - 48) as nat
}

pub open spec fn is_unit_char(c: char) -> bool {
    c == 'h' || c == 'H' || c == 'm' || c == 'M' || c == 's' || c == 'S'
}

/// How many seconds one unit letter stands for: h=3600, m=60, s=1.
pub open spec fn unit_seconds(c: char) -> nat {
    if c == 'h' || c == 'H' {
        3600
    } else if c == 'm' || c == 'M' {
        60
    } else {
        1
    }
}

/// The left-to-right scan of the relative-duration grammar from position
/// `i`, carrying the pending digit run (`cur`, with `cur_len` digits seen)
/// and the accumulated total of completed tokens. Spaces may stand between
/// tokens, never inside one: a space while a digit run is pending leaves
/// the run without its unit. `Err` carries the message of the first rule
/// broken, exactly as the parser reports it.
pub open spec fn scan_duration(s: Seq<char>, i: int, cur: nat, cur_len: nat, total: nat) -> Result<
    nat,
    Seq<char>,
>
    decreases s.len() - i,
{
    if i >= s.len() {
        if cur_len > 0 {
            Err("Number without unit"@)
        } else {
            Ok(total)
        }
    } else {
        let c = s[i];
        if is_digit_char(c) {
            scan_duration(s, i + 1, cur * 10 + digit_val(c), cur_len + 1, total)
        } else if is_unit_char(c) {
            if cur_len == 0 {
                if c == 'h' || c == 'H' {
                    Err("Missing number before 'h'"@)
                } else if c == 'm' || c == 'M' {
                    Err("Missing number before 'm'"@)
                } else {
                    Err("Missing number before 's'"@)
                }
            } else if cur > u64::MAX {
                Err("Invalid number"@)
            } else if total + cur * unit_seconds(c) > u64::MAX {
                Err("Duration too large"@)
            } else {
                scan_duration(s, i + 1, 0, 0, total + cur * unit_seconds(c))
            }
        } else if c == ' ' {
            if cur_len > 0 {
                Err("Number without unit"@)
            } else {
                scan_duration(s, i + 1, cur, cur_len, total)
            }
        } else {
            Err("Invalid character"@)
        }
    }
}

pub open spec fn trim_start_spec(s: Seq<char>) -> Seq<char>
    decreases s.len(),
{
    if s.len() > 0 && is_space_char(s[0]) {
        trim_start_spec(s.drop_first())
    } else {
        s
    }
}

pub open spec fn trim_end_spec(s: Seq<char>) -> Seq<char>
    decreases s.len(),
{
    if s.len() > 0 && is_space_char(s.last()) {
        trim_end_spec(s.drop_last())
    } else {
        s
    }
}

pub open spec fn trim_spec(s: Seq<char>) -> Seq<char> {
    trim_end_spec(trim_start_spec(s))
}

/// What `parse_duration_string` returns on any input: the token sum for a
/// well-formed, nonzero, in-range duration, else the message of the first
/// rule broken.
pub open spec fn spec_parse_duration(raw: Seq<char>) -> Result<u64, Seq<char>> {
    let t = trim_spec(raw);
    if t.len() == 0 {
        Err("Empty string"@)
    } else {
        match scan_duration(t, 0, 0, 0, 0) {
            Ok(n) => if n == 0 {
                Err("Zero duration"@)
            } else {
                Ok(n as u64)
            },
            Err(msg) => Err(msg),
        }
    }
}

fn is_space(c: char) -> (r: bool)
    ensures
        r == is_space_char(c),
{
    c == ' ' || c == '\t' || c == '\n' || c == '\r' || c == '\u{b}' || c == '\u{c}'
}

/// The characters of `s`, in order, as a vector.
pub fn chars_vec(s: &str) -> (v: Vec<char>)
    ensures
        v@ == s@,
{
    let n = s.unicode_len();
    let mut v: Vec<char> = Vec::new();
    let mut i: usize = 0;
    while i < n
        invariant
            n == s@.len(),
            i <= n,
            v@ =~= s@.take(i as int),
        decreases n - i,
    {
        let c = s.get_char(i);
        v.push(c);
        i = i + 1;
        assert(v@ =~= s@.take(i as int));
    }
    assert(v@ =~= s@);
    v
}

proof fn lemma_trim_start_prefix(s: Seq<char>, lo: int)
    requires
        0 <= lo <= s.len(),
        forall|j: int| 0 <= j < lo ==> is_space_char(#[trigger] s[j]),
        lo < s.len() ==> !is_space_char(s[lo]),
    ensures
        trim_start_spec(s) =~= s.subrange(lo, s.len() as int),
    decreases lo,
{
    if lo == 0 {
        assert(s.subrange(0, s.len() as int) =~= s);
    } else {
        let d = s.drop_first();
        assert(trim_start_spec(s) == trim_start_spec(d));
        lemma_trim_start_prefix(d, lo - 1);
        assert(d.subrange(lo - 1, d.len() as int) =~= s.subrange(lo, s.len() as int));
    }
}

proof fn lemma_trim_end_suffix(s: Seq<char>, hi: int)
    requires
        0 <= hi <= s.len(),
        forall|j: int| hi <= j < s.len() ==> is_space_char(#[trigger] s[j]),
        hi > 0 ==> !is_space_char(s[hi - 1]),
    ensures
        trim_end_spec(s) =~= s.subrange(0, hi),
    decreases s.len() - hi,
{
    if hi == s.len() {
        assert(s.subrange(0, s.len() as int) =~= s);
    } else {
        let d = s.drop_last();
        assert(trim_end_spec(s) == trim_end_spec(d));
        lemma_trim_end_suffix(d, hi);
        assert(d.subrange(0, hi) =~= s.subrange(0, hi));
    }
}

/// The bounds of `v` with the parser's whitespace trimmed off both ends.
fn trim_range(v: &Vec<char>) -> (r: (usize, usize))
    ensures
        r.0 <= r.1 <= v@.len(),
        trim_spec(v@) =~= v@.subrange(r.0 as int, r.1 as int),
{
    let n = v.len();
    let mut lo: usize = 0;
    while lo < n && is_space(v[lo])
        invariant
            lo <= n == v@.len(),
            forall|j: int| 0 <= j < lo ==> is_space_char(#[trigger] v@[j]),
        decreases n - lo,
    {
        lo = lo + 1;
    }
    let mut hi: usize = n;
    while hi > lo && is_space(v[hi - 1])
        invariant
            lo <= hi <= n == v@.len(),
            forall|j: int| hi <= j < n ==> is_space_char(#[trigger] v@[j]),
        decreases hi,
    {
        hi = hi - 1;
    }
    proof {
        lemma_trim_start_prefix(v@, lo as int);
        let t = v@.subrange(lo as int, n as int);
        lemma_trim_end_suffix(t, hi - lo);
        assert(t.subrange(0, hi - lo) =~= v@.subrange(lo as int, hi as int));
    }
    (lo, hi)
}

/// One rejection of the relative-duration grammar, with its message.
fn dur_err(msg: &str) -> (e: ParseError)
    ensures
        e matches ParseError::InvalidDuration(m) && m@ == msg@,
{
    ParseError::InvalidDuration(msg.to_owned())
}

/// The token scan of the relative-duration grammar over `chars[lo..hi]`,
/// exactly as [`scan_duration`] describes it.
fn scan_tokens(chars: &Vec<char>, lo: usize, hi: usize) -> (r: Result<u64, ParseError>)
    requires
        lo <= hi <= chars@.len(),
    ensures
        match scan_duration(chars@.subrange(lo as int, hi as int), 0, 0, 0, 0) {
            Ok(n) => r matches Ok(v) && v == n,
            Err(msg) => r matches Err(ParseError::InvalidDuration(m)) && m@ == msg,
        },
{
    let ghost t = chars@.subrange(lo as int, hi as int);
    let mut i = lo;
    let mut cur: u64 = 0;
    let mut cur_big = false;
    let ghost mut cur_nat: nat = 0;
    let mut cur_len: usize = 0;
    let mut total: u64 = 0;
    while i < hi
        invariant
            lo <= i <= hi <= chars@.len(),
            t == chars@.subrange(lo as int, hi as int),
            scan_duration(t, 0, 0, 0, 0) == scan_duration(
                t,
                i - lo,
                cur_nat,
                cur_len as nat,
                total as nat,
            ),
            !cur_big ==> cur_nat == cur,
            cur_big ==> cur_nat > u64::MAX,
            cur_len == 0 ==> cur_nat == 0 && !cur_big,
            cur_len as int <= i - lo,
        decreases hi - i,
    {
        let c = chars[i];
        proof {
            assert(t[i - lo] == chars@[i as int]);
        }
        let ghost g_cur = cur_nat;
        let ghost g_len = cur_len as nat;
        let ghost g_total = total as nat;
        if c >= '0' && c <= '9' {
            let d = c as u32 - 48;
            proof {
                assert(is_digit_char(c));
                assert(scan_duration(t, i - lo, g_cur, g_len, g_total) == scan_duration(
                    t,
                    i + 1 - lo,
                    g_cur * 10 + digit_val(c),
                    g_len + 1,
                    g_total,
                ));
                cur_nat = g_cur * 10 + digit_val(c);
            }
            if !cur_big {
                match cur.checked_mul(10) {
                    Some(x) => match x.checked_add(d as u64) {
                        Some(y) => {
                            cur = y;
                        },
                        None => {
                            cur_big = true;
                        },
                    },
                    None => {
                        cur_big = true;
                    },
                }
            }
            cur_len = cur_len + 1;
            i = i + 1;
        } else if c == 'h' || c == 'H' || c == 'm' || c == 'M' || c == 's' || c == 'S' {
            if cur_len == 0 {
                if c == 'h' || c == 'H' {
                    proof {
                        assert(scan_duration(t, i - lo, g_cur, g_len, g_total) == Err::<
                            nat,
                            Seq<char>,
                        >("Missing number before 'h'"@));
                    }
                    return Err(dur_err("Missing number before 'h'"));
                } else if c == 'm' || c == 'M' {
                    proof {
                        assert(scan_duration(t, i - lo, g_cur, g_len, g_total) == Err::<
                            nat,
                            Seq<char>,
                        >("Missing number before 'm'"@));
                    }
                    return Err(dur_err("Missing number before 'm'"));
                } else {
                    proof {
                        assert(scan_duration(t, i - lo, g_cur, g_len, g_total) == Err::<
                            nat,
                            Seq<char>,
                        >("Missing number before 's'"@));
                    }
                    return Err(dur_err("Missing number before 's'"));
                }
            }
            if cur_big {
                proof {
                    assert(scan_duration(t, i - lo, g_cur, g_len, g_total) == Err::<
                        nat,
                        Seq<char>,
                    >("Invalid number"@));
                }
                return Err(dur_err("Invalid number"));
            }
            let unit: u64 = if c == 'h' || c == 'H' {
                3600
            } else if c == 'm' || c == 'M' {
                60
            } else {
                1
            };
            proof {
                assert(unit == unit_seconds(c));
            }
            let scaled = match cur.checked_mul(unit) {
                Some(x) => x,
                None => {
                    proof {
                        assert(g_total + g_cur * unit_seconds(c) > u64::MAX);
                        assert(scan_duration(t, i - lo, g_cur, g_len, g_total) == Err::<
                            nat,
                            Seq<char>,
                        >("Duration too large"@));
                    }
                    return Err(dur_err("Duration too large"));
                },
            };
            match total.checked_add(scaled) {
                Some(x) => {
                    proof {
                        assert(scan_duration(t, i - lo, g_cur, g_len, g_total) == scan_duration(
                            t,
                            i + 1 - lo,
                            0,
                            0,
                            g_total + g_cur * unit_seconds(c),
                        ));
                    }
                    total = x;
                },
                None => {
                    proof {
                        assert(g_total + g_cur * unit_seconds(c) > u64::MAX);
                        assert(scan_duration(t, i - lo, g_cur, g_len, g_total) == Err::<
                            nat,
                            Seq<char>,
                        >("Duration too large"@));
                    }
                    return Err(dur_err("Duration too large"));
                },
            }
            cur = 0;
            cur_big = false;
            proof {
                cur_nat = 0;
            }
            cur_len = 0;
            i = i + 1;
        } else if c == ' ' {
            if cur_len > 0 {
                proof {
                    assert(scan_duration(t, i - lo, g_cur, g_len, g_total) == Err::<
                        nat,
                        Seq<char>,
                    >("Number without unit"@));
                }
                return Err(dur_err("Number without unit"));
            }
            proof {
                assert(scan_duration(t, i - lo, g_cur, g_len, g_total) == scan_duration(
                    t,
                    i + 1 - lo,
                    g_cur,
                    g_len,
                    g_total,
                ));
            }
            i = i + 1;
        } else {
            proof {
                assert(!is_digit_char(c));
                assert(!is_unit_char(c));
                assert(c != ' ');
                assert(scan_duration(t, i - lo, g_cur, g_len, g_total) == Err::<nat, Seq<char>>(
                    "Invalid character"@,
                ));
            }
            return Err(dur_err("Invalid character"));
        }
    }
    if cur_len > 0 {
        proof {
            assert(scan_duration(t, i - lo, cur_nat, cur_len as nat, total as nat) == Err::<
                nat,
                Seq<char>,
            >("Number without unit"@));
        }
        return Err(dur_err("Number without unit"));
    }
    proof {
        assert(scan_duration(t, i - lo, cur_nat, cur_len as nat, total as nat) == Ok::<
            nat,
            Seq<char>,
        >(total as nat));
    }
    Ok(total)
}

/// Parse a relative duration such as `"25s"` or `"1h2m3s"`: each
/// `<digits><unit>` token adds `value * unit_seconds` to the total; spaces
/// may separate tokens but never split one; a zero total, a number without
/// a unit, a unit without a number and any other character are rejected
/// with the specific reason.
pub fn parse_duration_string(input: &str) -> (r: Result<u64, ParseError>)
    ensures
        match spec_parse_duration(input@) {
            Ok(n) => r matches Ok(v) && v == n,
            Err(msg) => r matches Err(ParseError::InvalidDuration(m)) && m@ == msg,
        },
{
    let chars = chars_vec(input);
    let (lo, hi) = trim_range(&chars);
    let ghost t = trim_spec(input@);
    proof {
        assert(t =~= chars@.subrange(lo as int, hi as int));
    }
    if lo == hi {
        proof {
            assert(t.len() == 0);
        }
        return Err(dur_err("Empty string"));
    }
    let scanned = scan_tokens(&chars, lo, hi);
    proof {
        assert(t.len() > 0);
    }
    match scanned {
        Ok(total) => {
            if total == 0 {
                Err(dur_err("Zero duration"))
            } else {
                Ok(total)
            }
        },
        Err(e) => Err(e),
    }
}

/// What chrono's time-of-day parser returns for an input and format pair:
/// the hour and minute of the parsed time, a function of the two strings
/// alone.
pub uninterp spec fn clock_parse(s: Seq<char>, fmt: Seq<char>) -> Option<(u32, u32)>;

/// Relies on chrono::NaiveTime::parse_from_str (with chrono::Timelike::hour
/// and chrono::Timelike::minute reading the parsed value): the outcome is a
/// function of the input and format strings alone, and a parsed time of day
/// has its hour below 24 and its minute below 60.
#[verifier::external_body]
fn parse_clock(s: &Vec<char>, fmt: &str) -> (r: Option<(u32, u32)>)
    ensures
        r == clock_parse(s@, fmt@),
        r matches Some(hm) ==> hm.0 < 24 && hm.1 < 60,
{
    let text: String = s.iter().collect();
    match chrono::NaiveTime::parse_from_str(&text, fmt) {
        Ok(t) => Some((chrono::Timelike::hour(&t), chrono::Timelike::minute(&t))),
        Err(_) => None,
    }
}

/// Relies on chrono::Local::now and
/// chrono::Timelike::num_seconds_from_midnight: whatever the current local
/// time is, its count of non-leap seconds past midnight is below 86400.
#[verifier::external_body]
fn current_second_of_day() -> (r: u32)
    ensures
        r < 86400,
{
    chrono::Timelike::num_seconds_from_midnight(&chrono::Local::now().time())
}

pub open spec fn is_m_char(c: char) -> bool {
    c == 'm' || c == 'M'
}

pub open spec fn is_a_char(c: char) -> bool {
    c == 'a' || c == 'A'
}

pub open spec fn is_p_char(c: char) -> bool {
    c == 'p' || c == 'P'
}

/// Whether the text ends in an AM or PM marker, in any letter case.
pub open spec fn has_ampm_suffix(s: Seq<char>) -> bool {
    s.len() >= 2 && is_m_char(s.last()) && (is_a_char(s[s.len() - 2]) || is_p_char(
        s[s.len() - 2],
    ))
}

/// Drop every trailing AM marker, in any letter case.
pub open spec fn strip_am_spec(s: Seq<char>) -> Seq<char>
    decreases s.len(),
{
    if s.len() >= 2 && is_a_char(s[s.len() - 2]) && is_m_char(s.last()) {
        strip_am_spec(s.take(s.len() - 2))
    } else {
        s
    }
}

/// Drop every trailing PM marker, in any letter case.
pub open spec fn strip_pm_spec(s: Seq<char>) -> Seq<char>
    decreases s.len(),
{
    if s.len() >= 2 && is_p_char(s[s.len() - 2]) && is_m_char(s.last()) {
        strip_pm_spec(s.take(s.len() - 2))
    } else {
        s
    }
}

/// The time digits of a trimmed input carrying an AM/PM suffix: the
/// trailing AM markers go, then the trailing PM markers, then surrounding
/// whitespace.
pub open spec fn ampm_core(s: Seq<char>) -> Seq<char> {
    trim_spec(strip_pm_spec(strip_am_spec(s)))
}

/// The text handed to the clock parser for a trimmed input carrying an
/// AM/PM suffix: the core, one space, and the suffix in upper case.
pub open spec fn ampm_candidate(s: Seq<char>) -> Seq<char> {
    ampm_core(s) + seq![' '] + (if is_p_char(s[s.len() - 2]) {
        seq!['P', 'M']
    } else {
        seq!['A', 'M']
    })
}

/// The hour and minute the clock-time grammar reads from the input, if any:
/// with an AM/PM suffix the 12-hour formats are tried on the rebuilt
/// candidate, else the 24-hour formats on the trimmed input; the first
/// format to succeed wins.
pub open spec fn spec_clock_lookup(raw: Seq<char>) -> Option<(u32, u32)> {
    let t = trim_spec(raw);
    if has_ampm_suffix(t) {
        let cand = ampm_candidate(t);
        if clock_parse(cand, "%I:%M %p"@) is Some {
            clock_parse(cand, "%I:%M %p"@)
        } else if clock_parse(cand, "%I:%M%p"@) is Some {
            clock_parse(cand, "%I:%M%p"@)
        } else if clock_parse(cand, "%l:%M %p"@) is Some {
            clock_parse(cand, "%l:%M %p"@)
        } else {
            clock_parse(cand, "%l:%M%p"@)
        }
    } else {
        if clock_parse(t, "%H:%M"@) is Some {
            clock_parse(t, "%H:%M"@)
        } else {
            clock_parse(t, "%H%M"@)
        }
    }
}

/// How many seconds lie between the current second of day and the target
/// second of day, wrapping forward to tomorrow when the target has already
/// passed.
pub open spec fn spec_seconds_until(target: int, now: int) -> int {
    if target <= now {
        86400 + target - now
    } else {
        target - now
    }
}

/// The forward distance from `now` to the target second of day: a target at
/// or before the current time wraps to tomorrow, so the result is always at
/// least one second and at most a full day.
pub fn seconds_until(target: u32, now: u32) -> (d: u32)
    requires
        target < 86400,
        now < 86400,
    ensures
        d == spec_seconds_until(target as int, now as int),
        1 <= d <= 86400,
{
    if target <= now {
        24 * 3600 + target - now
    } else {
        target - now
    }
}

fn copy_range(v: &Vec<char>, lo: usize, hi: usize) -> (r: Vec<char>)
    requires
        lo <= hi <= v@.len(),
    ensures
        r@ == v@.subrange(lo as int, hi as int),
{
    let mut r: Vec<char> = Vec::new();
    let mut j = lo;
    while j < hi
        invariant
            lo <= j <= hi <= v@.len(),
            r@ =~= v@.subrange(lo as int, j as int),
        decreases hi - j,
    {
        r.push(v[j]);
        j = j + 1;
        assert(r@ =~= v@.subrange(lo as int, j as int));
    }
    r
}

fn is_m(c: char) -> (r: bool)
    ensures
        r == is_m_char(c),
{
    c == 'm' || c == 'M'
}

fn is_a(c: char) -> (r: bool)
    ensures
        r == is_a_char(c),
{
    c == 'a' || c == 'A'
}

fn is_p(c: char) -> (r: bool)
    ensures
        r == is_p_char(c),
{
    c == 'p' || c == 'P'
}

/// Read the input as a clock time of day and return the forward distance in
/// seconds from the current local time, if the clock-time grammar accepts
/// it.
#[verifier::rlimit(60)]
fn parse_time_seconds(input: &str) -> (r: Option<u64>)
    ensures
        spec_clock_lookup(input@) matches Some(hm) ==> r matches Some(d) && 1 <= d <= 86400 && (
        exists|now: int|
            0 <= now < 86400 && d == #[trigger] spec_seconds_until(
                hm.0 as int * 3600 + hm.1 as int * 60,
                now,
            )),
        spec_clock_lookup(input@) is None ==> r is None,
{
    let chars = chars_vec(input);
    let (lo, hi) = trim_range(&chars);
    let tvec = copy_range(&chars, lo, hi);
    let ghost t = trim_spec(input@);
    proof {
        assert(t =~= tvec@);
    }
    let n = tvec.len();
    let looked: Option<(u32, u32)> = if n >= 2 && is_m(tvec[n - 1]) && (is_a(tvec[n - 2]) || is_p(
        tvec[n - 2],
    )) {
        assert(has_ampm_suffix(t));
        proof {
            assert(tvec@.take(n as int) =~= tvec@);
        }
        let mut e = n;
        while e >= 2 && is_a(tvec[e - 2]) && is_m(tvec[e - 1])
            invariant
                e <= n == tvec@.len(),
                strip_am_spec(tvec@) == strip_am_spec(tvec@.take(e as int)),
            decreases e,
        {
            proof {
                let u = tvec@.take(e as int);
                assert(u.take(e - 2) =~= tvec@.take(e - 2));
                assert(strip_am_spec(u) == strip_am_spec(tvec@.take(e - 2)));
            }
            e = e - 2;
        }
        proof {
            assert(strip_am_spec(tvec@.take(e as int)) == tvec@.take(e as int));
        }
        let ghost after_am = strip_am_spec(tvec@);
        let mut e2 = e;
        while e2 >= 2 && is_p(tvec[e2 - 2]) && is_m(tvec[e2 - 1])
            invariant
                e2 <= e <= n == tvec@.len(),
                after_am == tvec@.take(e as int),
                strip_pm_spec(after_am) == strip_pm_spec(tvec@.take(e2 as int)),
            decreases e2,
        {
            proof {
                let u = tvec@.take(e2 as int);
                assert(u.take(e2 - 2) =~= tvec@.take(e2 - 2));
                assert(strip_pm_spec(u) == strip_pm_spec(tvec@.take(e2 - 2)));
            }
            e2 = e2 - 2;
        }
        proof {
            assert(strip_pm_spec(tvec@.take(e2 as int)) == tvec@.take(e2 as int));
        }
        let mut lo3: usize = 0;
        while lo3 < e2 && is_space(tvec[lo3])
            invariant
                lo3 <= e2 <= tvec@.len(),
                forall|j: int| 0 <= j < lo3 ==> is_space_char(#[trigger] tvec@[j]),
            decreases e2 - lo3,
        {
            lo3 = lo3 + 1;
        }
        let mut hi3: usize = e2;
        while hi3 > lo3 && is_space(tvec[hi3 - 1])
            invariant
                lo3 <= hi3 <= e2 <= tvec@.len(),
                forall|j: int| hi3 <= j < e2 ==> is_space_char(#[trigger] tvec@[j]),
            decreases hi3,
        {
            hi3 = hi3 - 1;
        }
        proof {
            let s2 = tvec@.take(e2 as int);
            lemma_trim_start_prefix(s2, lo3 as int);
            let s3 = s2.subrange(lo3 as int, e2 as int);
            lemma_trim_end_suffix(s3, hi3 - lo3);
            assert(s3.subrange(0, hi3 - lo3) =~= tvec@.subrange(lo3 as int, hi3 as int));
            assert(ampm_core(t) == tvec@.subrange(lo3 as int, hi3 as int));
        }
        let mut cand = copy_range(&tvec, lo3, hi3);
        cand.push(' ');
        if is_p(tvec[n - 2]) {
            cand.push('P');
        } else {
            cand.push('A');
        }
        cand.push('M');
        proof {
            assert(cand@ =~= ampm_candidate(t));
        }
        let mut got = parse_clock(&cand, "%I:%M %p");
        if got.is_none() {
            got = parse_clock(&cand, "%I:%M%p");
        }
        if got.is_none() {
            got = parse_clock(&cand, "%l:%M %p");
        }
        if got.is_none() {
            got = parse_clock(&cand, "%l:%M%p");
        }
        proof {
            assert(got == spec_clock_lookup(input@));
        }
        got
    } else {
        assert(!has_ampm_suffix(t));
        let mut got = parse_clock(&tvec, "%H:%M");
        if got.is_none() {
            got = parse_clock(&tvec, "%H%M");
        }
        proof {
            assert(got == spec_clock_lookup(input@));
        }
        got
    };
    match looked {
        Some((h, m)) => {
            let target = h * 3600 + m * 60;
            let now = current_second_of_day();
            let d = seconds_until(target, now);
            proof {
                let hm = spec_clock_lookup(input@)->Some_0;
                assert(0 <= now < 86400 && d == spec_seconds_until(
                    hm.0 as int * 3600 + hm.1 as int * 60,
                    now as int,
                ));
            }
            Some(d as u64)
        },
        None => None,
    }
}

/// Parse the input first by the relative-duration grammar, then, if that
/// fails, as a clock time of day resolved forward from the current local
/// time; an input matching neither grammar is an `InvalidFormat` error
/// carrying the original text.
pub fn parse_duration_or_time(input: &str) -> (r: Result<u64, ParseError>)
    ensures
        spec_parse_duration(input@) matches Ok(n) ==> r matches Ok(v) && v == n,
        spec_parse_duration(input@) is Err ==> (spec_clock_lookup(input@) matches Some(hm)
            ==> r matches Ok(d) && 1 <= d <= 86400 && (exists|now: int|
            0 <= now < 86400 && d == #[trigger] spec_seconds_until(
                hm.0 as int * 3600 + hm.1 as int * 60,
                now,
            ))),
        spec_parse_duration(input@) is Err ==> (spec_clock_lookup(input@) is None ==> (r matches
        Err(ParseError::InvalidFormat(s)) && s@ == input@)),
{
    match parse_duration_string(input) {
        Ok(d) => Ok(d),
        Err(_) => match parse_time_seconds(input) {
            Some(d) => Ok(d),
            None => Err(ParseError::InvalidFormat(input.to_owned())),
        },
    }
}

} // verus!
