//! Decimal text: rendering unsigned integers and parsing identifier strings.

use vstd::prelude::*;

verus! {

/// The character for a single decimal digit.
pub open spec fn spec_digit(d: int) -> char {
    if d == 0 {
        '0'
    } else if d == 1 {
        '1'
    } else if d == 2 {
        '2'
    } else if d == 3 {
        '3'
    } else if d == 4 {
        '4'
    } else if d == 5 {
        '5'
    } else if d == 6 {
        '6'
    } else if d == 7 {
        '7'
    } else if d == 8 {
        '8'
    } else {
        '9'
    }
}

/// Decimal rendering of a natural number, most significant digit first.
pub open spec fn spec_dec(n: nat) -> Seq<char>
    decreases n,
{
    if n < 10 {
        seq![spec_digit(n as int)]
    } else {
        spec_dec(n / 10).push(spec_digit((n % 10) as int))
    }
}

/// Append one decimal digit to `out`.
fn append_digit(out: &mut String, d: u64)
    requires
        d < 10,
    ensures
        final(out)@ == old(out)@ + seq![spec_digit(d as int)],
{
    let piece: &str = if d == 0 {
        "0"
    } else if d == 1 {
        "1"
    } else if d == 2 {
        "2"
    } else if d == 3 {
        "3"
    } else if d == 4 {
        "4"
    } else if d == 5 {
        "5"
    } else if d == 6 {
        "6"
    } else if d == 7 {
        "7"
    } else if d == 8 {
        "8"
    } else {
        "9"
    };
    proof {
        reveal_strlit("0");
        reveal_strlit("1");
        reveal_strlit("2");
        reveal_strlit("3");
        reveal_strlit("4");
        reveal_strlit("5");
        reveal_strlit("6");
        reveal_strlit("7");
        reveal_strlit("8");
        reveal_strlit("9");
        assert(piece@ =~= seq![spec_digit(d as int)]);
    }
    out.append(piece);
}

/// Append the decimal rendering of `n` to `out`.
pub fn append_dec(out: &mut String, n: u64)
    ensures
        final(out)@ == old(out)@ + spec_dec(n as nat),
    decreases n,
{
    if n >= 10 {
        append_dec(out, n / 10);
    }
    append_digit(out, n % 10);
}

/// Decimal rendering of `n` on its own.
pub fn dec_string(n: u64) -> (r: String)
    ensures
        r@ == spec_dec(n as nat),
{
    let mut out = String::new();
    append_dec(&mut out, n);
    proof {
        assert(out@ =~= spec_dec(n as nat));
    }
    out
}

pub open spec fn is_digit(c: char) -> bool {
    '0' as u32 <= c as u32 && c as u32 <= '9' as u32
}

pub open spec fn digit_val(c: char) -> int {
    c as u32 - '0' as u32
}

/// Numeric value of a digit string, most significant digit first.
pub open spec fn spec_digits_val(s: Seq<char>) -> int
    decreases s.len(),
{
    if s.len() == 0 {
        0
    } else {
        spec_digits_val(s.drop_last()) * 10 + digit_val(s.last())
    }
}

pub open spec fn all_digits(s: Seq<char>) -> bool {
    forall|i: int| 0 <= i < s.len() ==> is_digit(s[i])
}

/// The value `str::parse::<u64>` would yield, with every failure mapped to 0:
/// an optional `+` sign, then at least one digit, and a value that fits in
/// `u64`; anything else is 0.
pub open spec fn spec_parse_id(s: Seq<char>) -> u64 {
    let body = if s.len() > 0 && s[0] == '+' {
        s.drop_first()
    } else {
        s
    };
    if body.len() > 0 && all_digits(body) && spec_digits_val(body) <= u64::MAX {
        spec_digits_val(body) as u64
    } else {
        0
    }
}

proof fn lemma_digits_val_nonneg(s: Seq<char>)
    requires
        all_digits(s),
    ensures
        spec_digits_val(s) >= 0,
    decreases s.len(),
{
    if s.len() > 0 {
        assert(all_digits(s.drop_last()));
        lemma_digits_val_nonneg(s.drop_last());
    }
}

/// Parse a decimal identifier, returning 0 when `s` is not a valid `u64`.
pub fn parse_id(s: &str) -> (r: u64)
    ensures
        r == spec_parse_id(s@),
{
    let n = s.unicode_len();
    let skip: usize = if n > 0 && s.get_char(0) == '+' {
        1
    } else {
        0
    };
    let ghost body = if skip == 1 {
        s@.drop_first()
    } else {
        s@
    };
    proof {
        assert(body == (if s@.len() > 0 && s@[0] == '+' {
            s@.drop_first()
        } else {
            s@
        }));
        assert(body.len() == n - skip);
        assert(forall|j: int| 0 <= j < body.len() ==> body[j] == s@[j + skip]);
    }
    if n == skip {
        return 0;
    }
    let mut acc: u64 = 0;
    let mut i: usize = skip;
    while i < n
        invariant
            skip <= i <= n,
            n == s@.len(),
            skip == 0 || skip == 1,
            (skip == 1) == (s@.len() > 0 && s@[0] == '+'),
            body == (if skip == 1 {
                s@.drop_first()
            } else {
                s@
            }),
            body.len() == n - skip,
            all_digits(body.take(i - skip)),
            acc == spec_digits_val(body.take(i - skip)),
        decreases n - i,
    {
        let c = s.get_char(i);
        let cv = c as u32;
        if cv < '0' as u32 || cv > '9' as u32 {
            proof {
                assert(body[i - skip] == s@[i as int]);
                assert(!is_digit(body[i - skip]));
                assert(!all_digits(body));
            }
            return 0;
        }
        let d = (cv - '0' as u32) as u64;
        proof {
            assert(body[i - skip] == c);
            assert(is_digit(c));
            assert(digit_val(c) == d);
            lemma_digits_val_nonneg(body.take(i - skip));
        }
        if acc > (u64::MAX - d) / 10 {
            proof {
                lemma_digits_val_overflow(body, i - skip);
                assert(all_digits(body) ==> spec_digits_val(body) > u64::MAX);
            }
            return 0;
        }
        acc = acc * 10 + d;
        proof {
            assert(body.take(i - skip + 1).drop_last() =~= body.take(i - skip));
            assert(body.take(i - skip + 1).last() == c);
        }
        i = i + 1;
    }
    proof {
        assert(body.take(n - skip) =~= body);
    }
    acc
}

/// Once a prefix already exceeds what fits before the remaining digits,
/// the whole digit string exceeds `u64::MAX`.
proof fn lemma_digits_val_overflow(body: Seq<char>, k: int)
    requires
        0 <= k < body.len(),
        all_digits(body.take(k)),
        is_digit(body[k]),
        spec_digits_val(body.take(k)) > (u64::MAX - digit_val(body[k])) / 10,
    ensures
        all_digits(body) ==> spec_digits_val(body) > u64::MAX,
    decreases body.len() - k,
{
    let prefix = body.take(k);
    let next = body.take(k + 1);
    assert(next.drop_last() =~= prefix);
    assert(next.last() == body[k]);
    let v = spec_digits_val(prefix);
    let d = digit_val(body[k]);
    assert(v >= (u64::MAX - d) / 10 + 1);
    assert(spec_digits_val(next) == v * 10 + d);
    assert(v * 10 + d > u64::MAX) by (nonlinear_arith)
        requires
            v > (u64::MAX - d) / 10,
            0 <= d <= 9,
    ;
    if k + 1 == body.len() {
        assert(body.take(k + 1) =~= body);
    } else {
        if all_digits(body) {
            lemma_digits_val_monotone(body, k + 1);
        }
    }
}

/// A digit string is at least as large as the value of any of its prefixes.
proof fn lemma_digits_val_monotone(body: Seq<char>, k: int)
    requires
        0 <= k <= body.len(),
        all_digits(body),
    ensures
        spec_digits_val(body) >= spec_digits_val(body.take(k)),
    decreases body.len() - k,
{
    if k < body.len() {
        let next = body.take(k + 1);
        assert(next.drop_last() =~= body.take(k));
        lemma_digits_val_nonneg(body.take(k));
        assert(spec_digits_val(next) == spec_digits_val(body.take(k)) * 10 + digit_val(body[k]));
        assert(spec_digits_val(next) >= spec_digits_val(body.take(k))) by (nonlinear_arith)
            requires
                spec_digits_val(next) == spec_digits_val(body.take(k)) * 10 + digit_val(body[k]),
                spec_digits_val(body.take(k)) >= 0,
                digit_val(body[k]) >= 0,
        ;
        lemma_digits_val_monotone(body, k + 1);
    } else {
        assert(body.take(k) =~= body);
    }
}

} // verus!
