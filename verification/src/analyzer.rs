//! Logic analyzers: which are attached, as a scan reports them, and how a
//! capture is ordered.

use crate::logs::split_lines;
use crate::model::views;
use crate::text::{decimal, push_decimal};
use vstd::prelude::*;
use vstd::string::StringExecFns;

verus! {

/// A logic analyzer, by its place on the bus.
#[derive(Debug, Clone, Copy, PartialEq, Eq, Structural)]
pub struct LogicAnalyzer {
    pub bus: u8,
    pub device: u8,
}

/// What leads the connection of an analyzer in the report of a scan.
pub open spec fn lead() -> Seq<char> {
    "fx2lafw:conn="@
}

/// Number of characters that lead a connection.
pub open spec fn lead_len() -> int {
    13
}

/// Whether `c` is a decimal digit.
pub open spec fn is_digit(c: char) -> bool {
    '0' <= c <= '9'
}

/// Number of digits that stand in `s` from place `i` on without a break.
pub open spec fn digits_from(s: Seq<char>, i: int) -> nat
    decreases s.len() - i,
{
    if i < 0 || i >= s.len() || !is_digit(s[i]) {
        0
    } else {
        1 + digits_from(s, i + 1)
    }
}

/// The two numerals of a connection that begins at place `q`, each by its
/// first place and the place after its last: as many digits as stand there,
/// any one character but a line feed, and as many digits as follow. Where
/// nothing of that kind follows the first digits, the last but one of them
/// is taken for the character between, and the last for the second numeral.
pub open spec fn numerals_at(s: Seq<char>, q: int) -> Option<(int, int, int, int)> {
    let n = digits_from(s, q) as int;
    if n >= 1 && q + n < s.len() && s[q + n] != '\n' && digits_from(s, q + n + 1) >= 1 {
        Some((q, q + n, q + n + 1, q + n + 1 + digits_from(s, q + n + 1)))
    } else if n >= 3 {
        Some((q, q + n - 2, q + n - 1, q + n))
    } else {
        None
    }
}

/// The numerals of the first connection in `s` at or after place `p`.
pub open spec fn first_connection(s: Seq<char>, p: int) -> Option<(int, int, int, int)>
    decreases s.len() - p,
{
    if p < 0 || p + lead_len() > s.len() {
        None
    } else if s.subrange(p, p + lead_len()) == lead() && numerals_at(s, p + lead_len()) is Some {
        numerals_at(s, p + lead_len())
    } else {
        first_connection(s, p + 1)
    }
}

/// The value of the digit `c`.
pub open spec fn digit_value(c: char) -> nat {
    (c as int - '0' as int) as nat
}

/// The number that the digits of `s` from place `a` up to place `b` write.
pub open spec fn numeral_value(s: Seq<char>, a: int, b: int) -> nat
    decreases b - a,
{
    if b <= a {
        0
    } else {
        numeral_value(s, a, b - 1) * 10 + digit_value(s[b - 1])
    }
}

/// The analyzer that a line of the report of a scan tells of: its bus and
/// its device are the two numerals of the first connection in the line; no
/// analyzer where there is no connection, or where a numeral is above 255.
pub open spec fn analyzer_in(line: Seq<char>) -> Option<LogicAnalyzer> {
    match first_connection(line, 0) {
        None => None,
        Some((a, b, c, d)) => if numeral_value(line, a, b) <= 255 && numeral_value(line, c, d)
            <= 255 {
            Some(
                LogicAnalyzer {
                    bus: numeral_value(line, a, b) as u8,
                    device: numeral_value(line, c, d) as u8,
                },
            )
        } else {
            None
        },
    }
}

/// The analyzers that the first `n` lines tell of, in order.
pub open spec fn analyzers_upto(lines: Seq<Seq<char>>, n: nat) -> Seq<LogicAnalyzer>
    decreases n,
{
    if n == 0 {
        Seq::empty()
    } else {
        let head = analyzers_upto(lines, (n - 1) as nat);
        match analyzer_in(lines[n - 1]) {
            Some(found) => head.push(found),
            None => head,
        }
    }
}

/// The characters of a text.
fn chars_of(text: &str) -> (r: Vec<char>)
    ensures
        r@ == text@,
{
    let mut out: Vec<char> = Vec::new();
    for c in it: text.chars()
        invariant
            it.seq() == text@,
            out@ == text@.take(it.index() as int),
    {
        out.push(c);
        assert(out@ =~= text@.take(it.index() as int + 1));
    }
    assert(text@.take(text@.len() as int) =~= text@);
    out
}

/// Whether `c` is a decimal digit.
fn digit(c: char) -> (r: bool)
    ensures
        r == is_digit(c),
{
    '0' <= c && c <= '9'
}

/// Counts the digits that stand in `s` from place `i` on without a break.
fn count_digits(s: &Vec<char>, i: usize) -> (r: usize)
    requires
        i <= s@.len(),
    ensures
        r == digits_from(s@, i as int),
        i + r <= s@.len(),
{
    let mut k: usize = i;
    while k < s.len() && digit(s[k])
        invariant
            i <= k <= s@.len(),
            digits_from(s@, i as int) == (k - i) + digits_from(s@, k as int),
        decreases s@.len() - k,
    {
        k += 1;
    }
    k - i
}

/// Finds the two numerals of a connection that begins at place `q`.
fn find_numerals(s: &Vec<char>, q: usize) -> (r: Option<(usize, usize, usize, usize)>)
    requires
        q <= s@.len(),
    ensures
        match r {
            Some((a, b, c, d)) => numerals_at(s@, q as int) == Some(
                (a as int, b as int, c as int, d as int),
            ) && a <= b <= c <= d <= s@.len(),
            None => numerals_at(s@, q as int) is None,
        },
{
    let len = s.len();
    let n = count_digits(s, q);
    if n >= 1 && q + n < len && s[q + n] != '\n' {
        let m = count_digits(s, q + n + 1);
        if m >= 1 {
            return Some((q, q + n, q + n + 1, q + n + 1 + m));
        }
    }
    if n >= 3 {
        Some((q, q + n - 2, q + n - 1, q + n))
    } else {
        None
    }
}

/// Whether what leads a connection stands in `s` at place `p`.
fn leads_at(s: &Vec<char>, p: usize, lead_chars: &Vec<char>) -> (r: bool)
    requires
        lead_chars@ == lead(),
        lead_chars@.len() == lead_len(),
        p + lead_len() <= s@.len(),
    ensures
        r == (s@.subrange(p as int, p + lead_len()) == lead()),
{
    let len = s.len();
    let mut k: usize = 0;
    while k < lead_chars.len()
        invariant
            k <= lead_chars@.len(),
            lead_chars@ == lead(),
            lead_chars@.len() == lead_len(),
            p + lead_len() <= s@.len(),
            len == s@.len(),
            forall|j: int| 0 <= j < k ==> s@[p + j] == lead()[j],
        decreases lead_chars@.len() - k,
    {
        if s[p + k] != lead_chars[k] {
            assert(s@.subrange(p as int, p + lead_len())[k as int] != lead()[k as int]);
            return false;
        }
        k += 1;
    }
    assert(s@.subrange(p as int, p + lead_len()) =~= lead());
    true
}

/// Reads the number that the digits of `s` from place `a` up to place `b`
/// write, if it is no more than 255.
fn read_numeral(s: &Vec<char>, a: usize, b: usize) -> (r: Option<u8>)
    requires
        a <= b <= s@.len(),
        forall|j: int| a <= j < b ==> is_digit(#[trigger] s@[j]),
    ensures
        match r {
            Some(v) => numeral_value(s@, a as int, b as int) == v,
            None => numeral_value(s@, a as int, b as int) > 255,
        },
{
    let mut value: u32 = 0;
    let mut k: usize = a;
    while k < b
        invariant
            a <= k <= b <= s@.len(),
            forall|j: int| a <= j < b ==> is_digit(#[trigger] s@[j]),
            value <= 256,
            value <= 255 ==> numeral_value(s@, a as int, k as int) == value,
            value == 256 ==> numeral_value(s@, a as int, k as int) > 255,
        decreases b - k,
    {
        let c = s[k];
        assert(is_digit(s@[k as int]));
        let d = (c as u32) - ('0' as u32);
        assert(d == digit_value(c));
        assert(numeral_value(s@, a as int, k as int + 1) == numeral_value(s@, a as int, k as int)
            * 10 + digit_value(c));
        if value <= 255 {
            value = value * 10 + d;
            if value > 255 {
                value = 256;
            }
        } else {
            assert(numeral_value(s@, a as int, k as int) * 10 + digit_value(c) > 255) by (nonlinear_arith)
                requires
                    numeral_value(s@, a as int, k as int) > 255,
            ;
        }
        k += 1;
    }
    if value <= 255 {
        Some(value as u8)
    } else {
        None
    }
}

/// Every place of a numeral of a connection holds a digit.
proof fn numerals_hold_digits(s: Seq<char>, q: int)
    requires
        0 <= q <= s.len(),
    ensures
        numerals_at(s, q) matches Some((a, b, c, d)) ==> (forall|j: int|
            a <= j < b ==> is_digit(#[trigger] s[j])) && (forall|j: int|
            c <= j < d ==> is_digit(#[trigger] s[j])),
{
    let n = digits_from(s, q) as int;
    digits_are_digits(s, q);
    if q + n + 1 <= s.len() {
        digits_are_digits(s, q + n + 1);
    }
}

/// The places that `digits_from` counts hold digits.
proof fn digits_are_digits(s: Seq<char>, i: int)
    requires
        0 <= i <= s.len(),
    ensures
        i + digits_from(s, i) <= s.len(),
        forall|j: int| i <= j < i + digits_from(s, i) ==> is_digit(#[trigger] s[j]),
    decreases s.len() - i,
{
    if i < s.len() && is_digit(s[i]) {
        digits_are_digits(s, i + 1);
    }
}

/// Finds the analyzer that a line of the report of a scan tells of.
pub fn parse_line(line: &str) -> (r: Option<LogicAnalyzer>)
    ensures
        r == analyzer_in(line@),
{
    let s = chars_of(line);
    let lead_chars = chars_of("fx2lafw:conn=");
    proof {
        reveal_strlit("fx2lafw:conn=");
    }
    let width: usize = 13;
    let len = s.len();
    if len < width {
        return None;
    }
    let last = len - width;
    let mut p: usize = 0;
    while p <= last
        invariant
            lead_chars@ == lead(),
            lead_chars@.len() == lead_len(),
            width == lead_len(),
            len == s@.len(),
            last == len - width,
            s@ == line@,
            first_connection(s@, 0) == first_connection(s@, p as int),
        decreases last + 1 - p,
    {
        if leads_at(&s, p, &lead_chars) {
            match find_numerals(&s, p + width) {
                Some((a, b, c, d)) => {
                    proof {
                        numerals_hold_digits(s@, p + lead_len());
                    }
                    let bus = read_numeral(&s, a, b);
                    let device = read_numeral(&s, c, d);
                    return match (bus, device) {
                        (Some(bus), Some(device)) => Some(LogicAnalyzer { bus, device }),
                        _ => None,
                    };
                },
                None => {},
            }
        }
        p += 1;
    }
    None
}

/// Reads the report of a scan: the analyzers that its lines tell of, in
/// order.
pub fn parse_scan(report: &str) -> (r: Vec<LogicAnalyzer>)
    ensures
        r@ == analyzers_upto(
            crate::logs::lines_of(report@),
            crate::logs::lines_of(report@).len(),
        ),
{
    let lines = split_lines(report);
    let mut found: Vec<LogicAnalyzer> = Vec::new();
    let mut i: usize = 0;
    while i < lines.len()
        invariant
            i <= lines.len(),
            views(lines@) == crate::logs::lines_of(report@),
            found@ == analyzers_upto(views(lines@), i as nat),
        decreases lines.len() - i,
    {
        assert(views(lines@)[i as int] == lines@[i as int]@);
        match parse_line(lines[i].as_str()) {
            Some(analyzer) => {
                found.push(analyzer);
            },
            None => {},
        }
        i += 1;
    }
    found
}

/// The connection of an analyzer, as the capture tool wants it.
pub open spec fn connection_text(analyzer: LogicAnalyzer) -> Seq<char> {
    lead() + decimal(analyzer.bus as nat) + "."@ + decimal(analyzer.device as nat)
}

/// The sample rate, as the capture tool wants it.
pub open spec fn samplerate_text(samplerate_mhz: u8) -> Seq<char> {
    "samplerate="@ + decimal(samplerate_mhz as nat) + "M"@
}

impl LogicAnalyzer {
    /// The arguments with which the capture tool is started on this analyzer:
    /// its driver and connection, a capture without end, the sample rate,
    /// and binary output.
    pub fn capture_args(&self, samplerate_mhz: u8) -> (r: Vec<String>)
        ensures
            views(r@) == seq![
                "--driver"@,
                connection_text(*self),
                "--continuous"@,
                "--config"@,
                samplerate_text(samplerate_mhz),
                "-O"@,
                "binary"@,
            ],
    {
        let mut connection = String::from_str("fx2lafw:conn=");
        push_decimal(&mut connection, self.bus as usize);
        connection.append(".");
        push_decimal(&mut connection, self.device as usize);
        let mut samplerate = String::from_str("samplerate=");
        push_decimal(&mut samplerate, samplerate_mhz as usize);
        samplerate.append("M");
        let mut args: Vec<String> = Vec::new();
        args.push(String::from_str("--driver"));
        args.push(connection);
        args.push(String::from_str("--continuous"));
        args.push(String::from_str("--config"));
        args.push(samplerate);
        args.push(String::from_str("-O"));
        args.push(String::from_str("binary"));
        assert(views(args@) =~= seq![
            "--driver"@,
            connection_text(*self),
            "--continuous"@,
            "--config"@,
            samplerate_text(samplerate_mhz),
            "-O"@,
            "binary"@,
        ]);
        args
    }
}

} // verus!
