//! Decimal numbers as text: rendering and the grammar of unsigned integers.

use vstd::prelude::*;
use vstd::string::*;

verus! {

/// The character of the decimal digit `d` (`0 <= d < 10`).
pub open spec fn digit_char(d: int) -> char {
    (d + 48) as char
}

/// Whether `c` is one of the ASCII digits `0`..`9`.
pub open spec fn is_digit(c: char) -> bool {
    48 <= c as int <= 57
}

/// The value of the ASCII digit `c`.
pub open spec fn digit_value(c: char) -> nat {
    (c as int - 48) as nat
}

/// The decimal rendering of `n`, without sign or leading zeros.
pub open spec fn decimal(n: nat) -> Seq<char>
    decreases n,
{
    if n < 10 {
        seq![digit_char(n as int)]
    } else {
        decimal(n / 10).push(digit_char((n % 10) as int))
    }
}

/// Whether every character of `s` is an ASCII digit.
pub open spec fn all_digits(s: Seq<char>) -> bool {
    forall|i: int| 0 <= i < s.len() ==> is_digit(#[trigger] s[i])
}

/// The number that the digit string `s` denotes (0 for the empty string).
pub open spec fn digits_value(s: Seq<char>) -> nat
    decreases s.len(),
{
    if s.len() == 0 {
        0
    } else {
        digits_value(s.drop_last()) * 10 + digit_value(s.last())
    }
}

/// The digits of an unsigned number written as an optional `+` followed by
/// one or more ASCII digits, or `None` where `s` is not of that form.
pub open spec fn unsigned_digits(s: Seq<char>) -> Option<Seq<char>> {
    let body = if s.len() > 0 && s[0] == '+' { s.drop_first() } else { s };
    if body.len() > 0 && all_digits(body) {
        Some(body)
    } else {
        None
    }
}

/// The unsigned number that `s` denotes when it is at most `max`: an optional
/// `+` and one or more ASCII digits, leading zeros allowed, no whitespace.
pub open spec fn parse_unsigned(s: Seq<char>, max: nat) -> Option<nat> {
    match unsigned_digits(s) {
        Some(d) => if digits_value(d) <= max {
            Some(digits_value(d))
        } else {
            None
        },
        None => None,
    }
}

/// Appending a digit never makes a digit string denote less.
proof fn lemma_digits_value_grows(s: Seq<char>, c: char)
    requires
        s.len() > 0,
    ensures
        digits_value(s.push(c)) >= digits_value(s),
{
    assert(s.push(c).drop_last() =~= s);
}

proof fn lemma_digit_char(d: int)
    requires
        0 <= d < 10,
    ensures
        digit_value(digit_char(d)) == d,
{
    assert(digit_char(d) as int == d + 48);
}

/// Every decimal rendering is a non-empty string of digits without a sign,
/// and denotes the number it renders.
pub proof fn lemma_decimal_is_digits(n: nat)
    ensures
        decimal(n).len() >= 1,
        all_digits(decimal(n)),
        decimal(n)[0] != '+',
        digits_value(decimal(n)) == n,
    decreases n,
{
    if n < 10 {
        let s = decimal(n);
        assert(s == seq![digit_char(n as int)]);
        assert(s.drop_last() =~= Seq::<char>::empty());
        lemma_digit_char(n as int);
        assert(digits_value(s) == digits_value(s.drop_last()) * 10 + digit_value(s.last()));
    } else {
        lemma_decimal_is_digits(n / 10);
        let prefix = decimal(n / 10);
        let s = decimal(n);
        let c = digit_char((n % 10) as int);
        assert(s == prefix.push(c));
        assert(s.drop_last() =~= prefix);
        lemma_digit_char((n % 10) as int);
        assert(digits_value(s) == digits_value(prefix) * 10 + digit_value(c));
        assert((n / 10) * 10 + n % 10 == n) by (nonlinear_arith);
        assert(s[0] == prefix[0]);
        assert forall|i: int| 0 <= i < s.len() implies is_digit(#[trigger] s[i]) by {
            if i < prefix.len() {
                assert(s[i] == prefix[i]);
            }
        }
    }
}

/// Reading back what was rendered: the decimal rendering of any number no
/// greater than `max` reads as that number.
pub proof fn law_decimal_reads_back(n: nat, max: nat)
    requires
        n <= max,
    ensures
        parse_unsigned(decimal(n), max) == Some(n),
{
    lemma_decimal_is_digits(n);
}

fn digit_str(d: u64) -> (s: &'static str)
    requires
        d < 10,
    ensures
        s@ == seq![digit_char(d as int)],
{
    proof {
        reveal_strlit("0");
        reveal_strlit("1");
        reveal_strlit("2");
        reveal_strlit("3");
        reveal_strlit("4");
        reveal_strlit("5");
        reveal_strlit("6");
        reveal_strlit("7");
        reveal_strlit("8");
        reveal_strlit("9");
    }
    if d == 0 {
        "0"
    } else if d == 1 {
        "1"
    } else if d == 2 {
        "2"
    } else if d == 3 {
        "3"
    } else if d == 4 {
        "4"
    } else if d == 5 {
        "5"
    } else if d == 6 {
        "6"
    } else if d == 7 {
        "7"
    } else if d == 8 {
        "8"
    } else {
        "9"
    }
}

/// Appends the decimal rendering of `n` to `out`.
pub fn push_decimal(out: &mut String, n: u64)
    ensures
        final(out)@ == old(out)@ + decimal(n as nat),
    decreases n,
{
    if n >= 10 {
        push_decimal(out, n / 10);
    }
    out.append(digit_str(n % 10));
    proof {
        if n < 10 {
            assert(decimal(n as nat) == seq![digit_char(n as int)]);
        }
    }
    assert(final(out)@ =~= old(out)@ + decimal(n as nat));
}

/// The decimal rendering of `n`.
pub fn decimal_string(n: u64) -> (s: String)
    ensures
        s@ == decimal(n as nat),
{
    let mut s = String::new();
    push_decimal(&mut s, n);
    assert(s@ =~= decimal(n as nat));
    s
}

/// Reads an unsigned number no greater than `max` from `s`, by the grammar
/// of [`parse_unsigned`].
pub fn parse_unsigned_at_most(s: &str, max: u64) -> (r: Option<u64>)
    ensures
        match r {
            Some(v) => parse_unsigned(s@, max as nat) == Some(v as nat),
            None => parse_unsigned(s@, max as nat) is None,
        },
{
    let n = s.unicode_len();
    let mut start: usize = 0;
    if n > 0 && s.get_char(0) == '+' {
        start = 1;
    }
    let ghost body = if s@.len() > 0 && s@[0] == '+' { s@.drop_first() } else { s@ };
    assert(body =~= s@.subrange(start as int, n as int));
    if start >= n {
        return None;
    }
    let mut i = start;
    let mut acc: u64 = 0;
    let mut over = false;
    while i < n
        invariant
            n == s@.len(),
            start < n,
            start <= i <= n,
            body =~= s@.subrange(start as int, n as int),
            body == (if s@.len() > 0 && s@[0] == '+' { s@.drop_first() } else { s@ }),
            all_digits(s@.subrange(start as int, i as int)),
            !over ==> acc as nat == digits_value(s@.subrange(start as int, i as int)),
            !over ==> acc <= max,
            over ==> digits_value(s@.subrange(start as int, i as int)) > max,
            over ==> i > start,
        decreases n - i,
    {
        let c = s.get_char(i);
        let ghost prefix = s@.subrange(start as int, i as int);
        let ghost next = s@.subrange(start as int, i + 1);
        assert(next =~= prefix.push(c));
        assert(next.drop_last() =~= prefix);
        if !('0' <= c && c <= '9') {
            assert(body[i - start] == c);
            assert(!is_digit(c));
            assert(!all_digits(body));
            return None;
        }
        let d: u64 = (c as u32 - 48) as u64;
        if over {
            proof {
                lemma_digits_value_grows(prefix, c);
            }
        } else {
            match acc.checked_mul(10) {
                Some(m) => match m.checked_add(d) {
                    Some(v) => {
                        if v <= max {
                            acc = v;
                        } else {
                            over = true;
                        }
                    },
                    None => {
                        over = true;
                    },
                },
                None => {
                    over = true;
                },
            }
        }
        i = i + 1;
    }
    assert(s@.subrange(start as int, n as int) =~= body);
    if over {
        None
    } else {
        Some(acc)
    }
}

/// How Discord writes a mention of the channel `id`.
pub open spec fn channel_mention(id: nat) -> Seq<char> {
    "<#"@ + decimal(id) + ">"@
}

/// How Discord writes a mention of the user `id`.
pub open spec fn user_mention(id: nat) -> Seq<char> {
    "<@"@ + decimal(id) + ">"@
}

/// How Discord writes a mention of the role `id`.
pub open spec fn role_mention(id: nat) -> Seq<char> {
    "<@&"@ + decimal(id) + ">"@
}

/// Appends `open`, the decimal rendering of `id` and `close` to `out`.
fn push_wrapped_id(out: &mut String, open: &str, id: u64, close: &str)
    ensures
        final(out)@ == old(out)@ + open@ + decimal(id as nat) + close@,
{
    out.append(open);
    push_decimal(out, id);
    out.append(close);
    assert(final(out)@ =~= old(out)@ + open@ + decimal(id as nat) + close@);
}

/// Appends the mention of the channel `id` to `out`.
pub fn push_channel_mention(out: &mut String, id: u64)
    ensures
        final(out)@ == old(out)@ + channel_mention(id as nat),
{
    push_wrapped_id(out, "<#", id, ">");
    assert(final(out)@ =~= old(out)@ + channel_mention(id as nat));
}

/// Appends the mention of the user `id` to `out`.
pub fn push_user_mention(out: &mut String, id: u64)
    ensures
        final(out)@ == old(out)@ + user_mention(id as nat),
{
    push_wrapped_id(out, "<@", id, ">");
    assert(final(out)@ =~= old(out)@ + user_mention(id as nat));
}

/// Appends the mention of the role `id` to `out`.
pub fn push_role_mention(out: &mut String, id: u64)
    ensures
        final(out)@ == old(out)@ + role_mention(id as nat),
{
    push_wrapped_id(out, "<@&", id, ">");
    assert(final(out)@ =~= old(out)@ + role_mention(id as nat));
}

} // verus!
