//! Decimal numerals and the paths that point into a job description.

use vstd::prelude::*;
use vstd::string::StringExecFns;

verus! {

/// The character of the decimal digit `d`.
pub open spec fn digit_char(d: int) -> char {
    if d == 0 {
        '0'
    } else if d == 1 {
        '1'
    } else if d == 2 {
        '2'
    } else if d == 3 {
        '3'
    } else if d == 4 {
        '4'
    } else if d == 5 {
        '5'
    } else if d == 6 {
        '6'
    } else if d == 7 {
        '7'
    } else if d == 8 {
        '8'
    } else {
        '9'
    }
}

/// The decimal numeral of `n`, without leading zeros.
pub open spec fn decimal(n: nat) -> Seq<char>
    decreases n,
{
    if n < 10 {
        seq![digit_char(n as int)]
    } else {
        decimal(n / 10).push(digit_char((n % 10) as int))
    }
}

/// A numeral has at least one digit.
pub proof fn decimal_is_not_empty(n: nat)
    ensures
        decimal(n).len() >= 1,
    decreases n,
{
    if n >= 10 {
        decimal_is_not_empty(n / 10);
    }
}

/// Different numbers have different numerals.
pub proof fn decimal_is_injective(a: nat, b: nat)
    requires
        decimal(a) == decimal(b),
    ensures
        a == b,
    decreases a,
{
    if a < 10 && b < 10 {
        assert(decimal(a)[0] == digit_char(a as int));
        assert(decimal(b)[0] == digit_char(b as int));
    } else if a < 10 {
        decimal_is_not_empty(b / 10);
        assert(decimal(a).len() == 1);
        assert(decimal(b).len() == decimal(b / 10).len() + 1);
    } else if b < 10 {
        decimal_is_not_empty(a / 10);
        assert(decimal(b).len() == 1);
        assert(decimal(a).len() == decimal(a / 10).len() + 1);
    } else {
        let x = decimal(a / 10);
        let y = decimal(b / 10);
        assert(x.push(digit_char((a % 10) as int)).drop_last() =~= x);
        assert(y.push(digit_char((b % 10) as int)).drop_last() =~= y);
        assert(x.push(digit_char((a % 10) as int)).last() == digit_char((a % 10) as int));
        assert(y.push(digit_char((b % 10) as int)).last() == digit_char((b % 10) as int));
        assert(x == y);
        decimal_is_injective(a / 10, b / 10);
        assert(a % 10 == b % 10);
    }
}

/// The one-character string of the decimal digit `d`.
pub fn digit_str(d: usize) -> (r: &'static str)
    requires
        d < 10,
    ensures
        r@ == seq![digit_char(d as int)],
{
    proof {
        reveal_strlit("0");
        reveal_strlit("1");
        reveal_strlit("2");
        reveal_strlit("3");
        reveal_strlit("4");
        reveal_strlit("5");
        reveal_strlit("6");
        reveal_strlit("7");
        reveal_strlit("8");
        reveal_strlit("9");
    }
    let r = if d == 0 {
        "0"
    } else if d == 1 {
        "1"
    } else if d == 2 {
        "2"
    } else if d == 3 {
        "3"
    } else if d == 4 {
        "4"
    } else if d == 5 {
        "5"
    } else if d == 6 {
        "6"
    } else if d == 7 {
        "7"
    } else if d == 8 {
        "8"
    } else {
        "9"
    };
    assert(r@ =~= seq![digit_char(d as int)]);
    r
}

/// Appends the decimal numeral of `n` to `s`.
pub fn push_decimal(s: &mut String, n: usize)
    ensures
        final(s)@ == old(s)@ + decimal(n as nat),
    decreases n,
{
    if n >= 10 {
        push_decimal(s, n / 10);
    }
    s.append(digit_str(n % 10));
    assert(s@ =~= old(s)@ + decimal(n as nat));
}

/// Where the selectors of task `t` stand in a job description.
pub open spec fn run_on_path(t: nat) -> Seq<char> {
    "tasks."@ + decimal(t) + ".run_on"@
}

/// Where the encoded binary of task `t` stands in a job description.
pub open spec fn binary_path(t: nat) -> Seq<char> {
    "tasks."@ + decimal(t) + ".binary_b64"@
}

/// Where identifier `k` of selector `r` of task `t` stands in a job
/// description, led by the identifier itself.
pub open spec fn entry_path(ident: Seq<char>, t: nat, r: nat, variant: Seq<char>, k: nat) -> Seq<
    char,
> {
    ident + " @ tasks."@ + decimal(t) + ".run_on."@ + decimal(r) + "."@ + variant + "."@ + decimal(
        k,
    )
}

/// The path of the selectors of task `t`.
pub fn make_run_on_path(t: usize) -> (r: String)
    ensures
        r@ == run_on_path(t as nat),
{
    let mut s = String::from_str("tasks.");
    push_decimal(&mut s, t);
    s.append(".run_on");
    s
}

/// The path of the encoded binary of task `t`.
pub fn make_binary_path(t: usize) -> (r: String)
    ensures
        r@ == binary_path(t as nat),
{
    let mut s = String::from_str("tasks.");
    push_decimal(&mut s, t);
    s.append(".binary_b64");
    s
}

/// The path of identifier `k` of selector `r` of task `t`.
pub fn make_entry_path(ident: &str, t: usize, r: usize, variant: &str, k: usize) -> (p: String)
    ensures
        p@ == entry_path(ident@, t as nat, r as nat, variant@, k as nat),
{
    let mut s = String::from_str(ident);
    s.append(" @ tasks.");
    push_decimal(&mut s, t);
    s.append(".run_on.");
    push_decimal(&mut s, r);
    s.append(".");
    s.append(variant);
    s.append(".");
    push_decimal(&mut s, k);
    s
}

/// Different tasks have different selector paths.
pub proof fn run_on_path_is_injective(a: nat, b: nat)
    requires
        run_on_path(a) == run_on_path(b),
    ensures
        a == b,
{
    let head = "tasks."@;
    let tail = ".run_on"@;
    let pa = run_on_path(a);
    let pb = run_on_path(b);
    assert(pa.len() == head.len() + decimal(a).len() + tail.len());
    assert(pb.len() == head.len() + decimal(b).len() + tail.len());
    assert(decimal(a) =~= pa.subrange(head.len() as int, (head.len() + decimal(a).len()) as int));
    assert(decimal(b) =~= pb.subrange(head.len() as int, (head.len() + decimal(b).len()) as int));
    decimal_is_injective(a, b);
}

/// The character of the hexadecimal digit `d`, in lower case.
pub open spec fn hex_digit_char(d: int) -> char {
    if d == 0 {
        '0'
    } else if d == 1 {
        '1'
    } else if d == 2 {
        '2'
    } else if d == 3 {
        '3'
    } else if d == 4 {
        '4'
    } else if d == 5 {
        '5'
    } else if d == 6 {
        '6'
    } else if d == 7 {
        '7'
    } else if d == 8 {
        '8'
    } else if d == 9 {
        '9'
    } else if d == 10 {
        'a'
    } else if d == 11 {
        'b'
    } else if d == 12 {
        'c'
    } else if d == 13 {
        'd'
    } else if d == 14 {
        'e'
    } else {
        'f'
    }
}

/// The hexadecimal numeral of `n` in lower case, padded with zeros on the
/// left to at least `width` digits.
pub open spec fn hex_padded(n: nat, width: nat) -> Seq<char>
    decreases n + width,
{
    if n < 16 && width <= 1 {
        seq![hex_digit_char(n as int)]
    } else {
        hex_padded(
            n / 16,
            if width > 0 {
                (width - 1) as nat
            } else {
                0
            },
        ).push(hex_digit_char((n % 16) as int))
    }
}

/// The hexadecimal numeral of `n` led by `0x`, with at least `width` digits.
pub open spec fn hex_text(n: nat, width: nat) -> Seq<char> {
    "0x"@ + hex_padded(n, width)
}

/// The one-character string of the hexadecimal digit `d`.
pub fn hex_digit_str(d: u32) -> (r: &'static str)
    requires
        d < 16,
    ensures
        r@ == seq![hex_digit_char(d as int)],
{
    proof {
        reveal_strlit("0");
        reveal_strlit("1");
        reveal_strlit("2");
        reveal_strlit("3");
        reveal_strlit("4");
        reveal_strlit("5");
        reveal_strlit("6");
        reveal_strlit("7");
        reveal_strlit("8");
        reveal_strlit("9");
        reveal_strlit("a");
        reveal_strlit("b");
        reveal_strlit("c");
        reveal_strlit("d");
        reveal_strlit("e");
        reveal_strlit("f");
    }
    let r = if d == 0 {
        "0"
    } else if d == 1 {
        "1"
    } else if d == 2 {
        "2"
    } else if d == 3 {
        "3"
    } else if d == 4 {
        "4"
    } else if d == 5 {
        "5"
    } else if d == 6 {
        "6"
    } else if d == 7 {
        "7"
    } else if d == 8 {
        "8"
    } else if d == 9 {
        "9"
    } else if d == 10 {
        "a"
    } else if d == 11 {
        "b"
    } else if d == 12 {
        "c"
    } else if d == 13 {
        "d"
    } else if d == 14 {
        "e"
    } else {
        "f"
    };
    assert(r@ =~= seq![hex_digit_char(d as int)]);
    r
}

/// Appends the hexadecimal numeral of `n`, padded to at least `width` digits.
pub fn push_hex_padded(s: &mut String, n: u32, width: usize)
    ensures
        final(s)@ == old(s)@ + hex_padded(n as nat, width as nat),
    decreases n + width,
{
    if n >= 16 || width > 1 {
        push_hex_padded(
            s,
            n / 16,
            if width > 0 {
                width - 1
            } else {
                0
            },
        );
    }
    s.append(hex_digit_str(n % 16));
    assert(s@ =~= old(s)@ + hex_padded(n as nat, width as nat));
}

/// Appends the hexadecimal numeral of `n` led by `0x`, with at least `width`
/// digits.
pub fn push_hex(s: &mut String, n: u32, width: usize)
    ensures
        final(s)@ == old(s)@ + hex_text(n as nat, width as nat),
{
    s.append("0x");
    push_hex_padded(s, n, width);
    assert(s@ =~= old(s)@ + hex_text(n as nat, width as nat));
}

/// The lines that show the first `n` causes of an error, each under its
/// number.
pub open spec fn causes_upto(causes: Seq<Seq<char>>, n: nat) -> Seq<char>
    decreases n,
{
    if n == 0 {
        Seq::empty()
    } else {
        causes_upto(causes, (n - 1) as nat) + "\n    "@ + decimal((n - 1) as nat) + ": "@
            + causes[n - 1]
    }
}

/// An error with the chain of its causes, as it is shown in a log.
pub open spec fn unrolled(error: Seq<char>, causes: Seq<Seq<char>>) -> Seq<char> {
    let heading = if causes.len() > 0 {
        "\n\nCaused by:"@
    } else {
        Seq::empty()
    };
    "\nError: "@ + error + heading + causes_upto(causes, causes.len())
}

/// Shows an error with the chain of its causes, the nearest first.
pub fn unroll_error(error: &str, causes: &[String]) -> (r: String)
    ensures
        r@ == unrolled(error@, crate::model::views(causes@)),
{
    let mut s = String::from_str("\nError: ");
    s.append(error);
    if causes.len() > 0 {
        s.append("\n\nCaused by:");
    }
    let ghost head = s@;
    let mut level: usize = 0;
    while level < causes.len()
        invariant
            level <= causes.len(),
            s@ == head + causes_upto(crate::model::views(causes@), level as nat),
        decreases causes.len() - level,
    {
        s.append("\n    ");
        push_decimal(&mut s, level);
        s.append(": ");
        s.append(causes[level].as_str());
        assert(crate::model::views(causes@)[level as int] == causes@[level as int]@);
        assert(s@ =~= head + causes_upto(crate::model::views(causes@), (level + 1) as nat));
        level += 1;
    }
    assert(s@ =~= unrolled(error@, crate::model::views(causes@)));
    s
}

} // verus!
