use vstd::prelude::*;
use vstd::string::StrSliceExecFns;

verus! {

/// Readings are held as whole millionths of their unit.
pub const MICROS_PER_UNIT: i64 = 1_000_000;

/// Largest whole part that a reading may have.
pub const MAX_WHOLE: i64 = 999_999_999_999;

pub open spec fn is_digit(c: char) -> bool {
    '0' <= c && c <= '9'
}

pub open spec fn digit_of(c: char) -> int {
    c as int - '0' as int
}

/// End of the run of decimal digits that starts at `i`.
pub open spec fn digit_run(s: Seq<char>, i: int) -> int
    decreases s.len() - i,
{
    if 0 <= i < s.len() && is_digit(s[i]) {
        digit_run(s, i + 1)
    } else {
        i
    }
}

/// Value of the decimal digits in `s[a..b]`.
pub open spec fn run_value(s: Seq<char>, a: int, b: int) -> int
    decreases b - a,
{
    if b <= a {
        0
    } else {
        run_value(s, a, b - 1) * 10 + digit_of(s[b - 1])
    }
}

/// Value of the first `j` digits from `a`, with zeros past the end of `s`.
pub open spec fn padded_value(s: Seq<char>, a: int, j: int) -> int
    decreases j,
{
    if j <= 0 {
        0
    } else {
        padded_value(s, a, j - 1) * 10 + if a + j - 1 < s.len() {
            digit_of(s[a + j - 1])
        } else {
            0
        }
    }
}

/// The unsigned integer that `s` spells in decimal digits, if it fits in 32 bits.
pub open spec fn u32_of_text(s: Seq<char>) -> Option<u32> {
    let k = digit_run(s, 0);
    if k == 0 || k != s.len() || run_value(s, 0, k) > u32::MAX {
        None
    } else {
        Some(run_value(s, 0, k) as u32)
    }
}

/// The reading, in millionths, that `s` spells as an optional minus sign,
/// one or more digits, and optionally a point followed by one or more digits.
/// Digits past the sixth after the point are dropped. `None` where `s` has
/// another shape or a whole part above `MAX_WHOLE`.
pub open spec fn micros_of_text(s: Seq<char>) -> Option<i64> {
    let start: int = if s.len() > 0 && s[0] == '-' { 1 } else { 0 };
    let k = digit_run(s, start);
    let has_frac = k < s.len();
    if k == start || run_value(s, start, k) > MAX_WHOLE {
        None
    } else if has_frac && !(s[k] == '.' && k + 1 < s.len() && digit_run(s, k + 1) == s.len()) {
        None
    } else {
        let frac = if has_frac { padded_value(s, k + 1, 6) } else { 0 };
        let magnitude = run_value(s, start, k) * MICROS_PER_UNIT + frac;
        Some((if start == 1 { -magnitude } else { magnitude }) as i64)
    }
}

proof fn lemma_digit_run_step(s: Seq<char>, i: int)
    requires
        0 <= i < s.len(),
        is_digit(s[i]),
    ensures
        digit_run(s, i) == digit_run(s, i + 1),
{
}

proof fn lemma_run_value_mono(s: Seq<char>, a: int, b: int, c: int)
    requires
        a <= b <= c <= s.len(),
        forall|i: int| a <= i < c ==> is_digit(#[trigger] s[i]),
    ensures
        run_value(s, a, b) <= run_value(s, a, c),
        run_value(s, a, c) >= 0,
    decreases c - b,
{
    if b < c {
        lemma_run_value_mono(s, a, b, c - 1);
        assert(run_value(s, a, c) == run_value(s, a, c - 1) * 10 + digit_of(s[c - 1]));
    } else {
        lemma_run_value_nonneg(s, a, c);
    }
}

proof fn lemma_run_value_nonneg(s: Seq<char>, a: int, c: int)
    requires
        a <= c <= s.len(),
        forall|i: int| a <= i < c ==> is_digit(#[trigger] s[i]),
    ensures
        run_value(s, a, c) >= 0,
    decreases c - a,
{
    if a < c {
        lemma_run_value_nonneg(s, a, c - 1);
    }
}

/// Ten to the power `n`.
pub open spec fn pow10(n: nat) -> int
    decreases n,
{
    if n == 0 {
        1
    } else {
        10 * pow10((n - 1) as nat)
    }
}

proof fn lemma_pow10_small(j: nat)
    requires
        j <= 6,
    ensures
        0 < pow10(j) <= 1_000_000,
        j < 6 ==> pow10(j) <= 100_000,
{
    reveal_with_fuel(pow10, 7);
}

fn is_digit_char(c: char) -> (r: bool)
    ensures
        r == is_digit(c),
{
    '0' <= c && c <= '9'
}

/// Moves past the run of digits that starts at `i`.
fn skip_digits(s: &str, i: usize, n: usize) -> (r: usize)
    requires
        n == s@.len(),
        i <= n,
    ensures
        r == digit_run(s@, i as int),
        i <= r <= n,
        forall|j: int| i <= j < r ==> is_digit(#[trigger] s@[j]),
{
    let mut k = i;
    while k < n && is_digit_char(s.get_char(k))
        invariant
            n == s@.len(),
            i <= k <= n,
            digit_run(s@, k as int) == digit_run(s@, i as int),
            forall|j: int| i <= j < k ==> is_digit(#[trigger] s@[j]),
        decreases n - k,
    {
        proof {
            lemma_digit_run_step(s@, k as int);
        }
        k = k + 1;
    }
    k
}

/// Value of the digits in `s[a..b]`, or `None` once it passes `limit`.
fn run_value_upto(s: &str, a: usize, b: usize, limit: u64) -> (r: Option<u64>)
    requires
        a <= b <= s@.len(),
        limit <= u32::MAX as u64 * 1000,
        forall|j: int| a <= j < b ==> is_digit(#[trigger] s@[j]),
    ensures
        r matches Some(v) ==> v == run_value(s@, a as int, b as int) && v <= limit,
        r is None ==> run_value(s@, a as int, b as int) > limit,
{
    let mut acc: u64 = 0;
    let mut i = a;
    while i < b
        invariant
            a <= i <= b <= s@.len(),
            limit <= u32::MAX as u64 * 1000,
            forall|j: int| a <= j < b ==> is_digit(#[trigger] s@[j]),
            acc == run_value(s@, a as int, i as int),
            acc <= limit,
        decreases b - i,
    {
        let c = s.get_char(i);
        let d = (c as u32 - '0' as u32) as u64;
        acc = acc * 10 + d;
        i = i + 1;
        if acc > limit {
            proof {
                lemma_run_value_mono(s@, a as int, i as int, b as int);
            }
            return None;
        }
    }
    Some(acc)
}

/// Reads a column cell as an unsigned 32-bit integer.
pub fn parse_u32(s: &str) -> (r: Option<u32>)
    ensures
        r == u32_of_text(s@),
{
    let n = s.unicode_len();
    let k = skip_digits(s, 0, n);
    if k == 0 || k != n {
        return None;
    }
    match run_value_upto(s, 0, k, u32::MAX as u64) {
        None => None,
        Some(v) => Some(v as u32),
    }
}

/// Reads a column cell as a reading in millionths of its unit.
pub fn parse_micros(s: &str) -> (r: Option<i64>)
    ensures
        r == micros_of_text(s@),
{
    let n = s.unicode_len();
    let start: usize = if n > 0 && s.get_char(0) == '-' { 1 } else { 0 };
    let k = skip_digits(s, start, n);
    if k == start {
        return None;
    }
    let whole = match run_value_upto(s, start, k, MAX_WHOLE as u64) {
        None => return None,
        Some(v) => v,
    };
    let mut frac: u64 = 0;
    if k < n {
        if s.get_char(k) != '.' || k + 1 >= n {
            return None;
        }
        let e = skip_digits(s, k + 1, n);
        if e != n {
            return None;
        }
        let mut j: usize = 0;
        while j < 6
            invariant
                k + 1 < n == s@.len(),
                j <= 6,
                frac == padded_value(s@, k + 1, j as int),
                frac < pow10(j as nat),
                forall|i: int| k + 1 <= i < s@.len() ==> is_digit(#[trigger] s@[i]),
            decreases 6 - j,
        {
            proof {
                lemma_pow10_small(j as nat);
            }
            let d: u64 = if j < n - (k + 1) {
                let c = s.get_char(k + 1 + j);
                (c as u32 - '0' as u32) as u64
            } else {
                0
            };
            frac = frac * 10 + d;
            j = j + 1;
        }
        proof {
            lemma_pow10_small(6);
        }
    }
    assert(frac < 1_000_000);
    assert(whole * 1_000_000 <= 999_999_999_999_000_000) by (nonlinear_arith)
        requires
            whole <= 999_999_999_999,
    ;
    let magnitude = (whole * MICROS_PER_UNIT as u64 + frac) as i64;
    if start == 1 {
        Some(-magnitude)
    } else {
        Some(magnitude)
    }
}

} // verus!
