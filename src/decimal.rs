//! Exact decimal numbers read from text such as `"0.1"`, `"-6"` or `"100.0001"`.
use vstd::prelude::*;
use vstd::string::*;

verus! {

/// The most digits a decimal text may hold; with this many the mantissa fits an `i64`.
pub const MAX_DIGITS: usize = 18;

pub open spec fn pow10(n: nat) -> int
    decreases n,
{
    if n == 0 {
        1
    } else {
        10 * pow10((n - 1) as nat)
    }
}

pub open spec fn is_digit(c: char) -> bool {
    '0' <= c && c <= '9'
}

pub open spec fn digit_value(c: char) -> int {
    (c as int) - ('0' as int)
}

pub open spec fn all_digits(s: Seq<char>) -> bool {
    forall|i: int| 0 <= i < s.len() ==> is_digit(#[trigger] s[i])
}

/// The number that a run of decimal digits denotes.
pub open spec fn digits_value(s: Seq<char>) -> int
    decreases s.len(),
{
    if s.len() == 0 {
        0
    } else {
        digits_value(s.drop_last()) * 10 + digit_value(s.last())
    }
}

/// Length of the optional leading sign, `-` or `+`.
pub open spec fn sign_len(s: Seq<char>) -> int {
    if s.len() > 0 && (s[0] == '-' || s[0] == '+') {
        1
    } else {
        0
    }
}

/// The text after the sign.
pub open spec fn unsigned_part(s: Seq<char>) -> Seq<char> {
    s.skip(sign_len(s))
}

/// `b` is a run of digits, a point at `k`, and a run of digits, not both runs empty.
pub open spec fn point_at(b: Seq<char>, k: int) -> bool {
    0 <= k < b.len() && b.len() >= 2 && b[k] == '.' && all_digits(b.take(k)) && all_digits(
        b.skip(k + 1),
    )
}

pub open spec fn signed(s: Seq<char>, v: int) -> int {
    if s.len() > 0 && s[0] == '-' {
        -v
    } else {
        v
    }
}

/// What a decimal text denotes, as a mantissa and a count of fractional digits
/// (the number is `mantissa / 10^scale`): an optional sign, digits, and optionally
/// a point followed by digits, with at least one digit and at most `MAX_DIGITS`
/// digits in all (`5.` and `.5` are read as 5 and 0.5).
pub open spec fn decimal_of(s: Seq<char>) -> Option<(int, nat)> {
    let b = unsigned_part(s);
    if b.len() > 0 && all_digits(b) {
        if b.len() <= MAX_DIGITS {
            Some((signed(s, digits_value(b)), 0nat))
        } else {
            None
        }
    } else if exists|k: int| point_at(b, k) {
        let k = choose|k: int| point_at(b, k);
        if b.len() - 1 <= MAX_DIGITS {
            Some((signed(s, digits_value(b.take(k) + b.skip(k + 1))), (b.len() - k - 1) as nat))
        } else {
            None
        }
    } else {
        None
    }
}

/// What an integer text denotes: an optional sign and digits, without a point,
/// in the range of `i32`.
pub open spec fn integer_of(s: Seq<char>) -> Option<int> {
    match decimal_of(s) {
        Some((m, e)) => if all_digits(unsigned_part(s)) && i32::MIN <= m <= i32::MAX {
            Some(m)
        } else {
            None
        },
        None => None,
    }
}

pub proof fn lemma_pow10_positive(n: nat)
    ensures
        pow10(n) >= 1,
    decreases n,
{
    if n > 0 {
        lemma_pow10_positive((n - 1) as nat);
    }
}

pub proof fn lemma_pow10_monotone(a: nat, b: nat)
    requires
        a <= b,
    ensures
        pow10(a) <= pow10(b),
    decreases b,
{
    if a < b {
        lemma_pow10_monotone(a, (b - 1) as nat);
        lemma_pow10_positive((b - 1) as nat);
    }
}

proof fn lemma_pow10_18()
    ensures
        pow10(18) == 1_000_000_000_000_000_000,
{
    reveal_with_fuel(pow10, 19);
}

proof fn lemma_digits_value_bounds(s: Seq<char>)
    requires
        all_digits(s),
    ensures
        0 <= digits_value(s) < pow10(s.len()),
    decreases s.len(),
{
    if s.len() > 0 {
        let t = s.drop_last();
        assert(all_digits(t)) by {
            assert forall|i: int| 0 <= i < t.len() implies is_digit(#[trigger] t[i]) by {
                assert(t[i] == s[i]);
            }
        }
        lemma_digits_value_bounds(t);
        assert(is_digit(s[s.len() - 1]));
    }
}

/// At most one position of `b` can hold the point.
proof fn lemma_point_unique(b: Seq<char>, k1: int, k2: int)
    requires
        point_at(b, k1),
        point_at(b, k2),
    ensures
        k1 == k2,
{
    if k1 < k2 {
        assert(b.take(k2)[k1] == b[k1]);
    } else if k2 < k1 {
        assert(b.take(k1)[k2] == b[k2]);
    }
}

/// A point can only stand at the first position that is not a digit.
proof fn lemma_point_at_first_non_digit(b: Seq<char>, i: int, k: int)
    requires
        0 <= i < b.len(),
        all_digits(b.take(i)),
        !is_digit(b[i]),
        point_at(b, k),
    ensures
        k == i,
{
    if k < i {
        assert(b.take(i)[k] == b[k]);
    } else if i < k {
        assert(b.take(k)[i] == b[i]);
    }
}

/// One more digit at the end of a run of digits.
proof fn lemma_extend_run(x: Seq<char>, c: char)
    requires
        all_digits(x),
        is_digit(c),
    ensures
        all_digits(x.push(c)),
        digits_value(x.push(c)) == digits_value(x) * 10 + digit_value(c),
{
    assert(x.push(c).drop_last() =~= x);
    assert forall|i: int| 0 <= i < x.push(c).len() implies is_digit(#[trigger] x.push(c)[i]) by {
        if i < x.len() {
            assert(x.push(c)[i] == x[i]);
        }
    }
}

/// The next value of a run of at most 18 digits still fits an `i64`.
proof fn lemma_extend_fits(x: Seq<char>, c: char)
    requires
        all_digits(x),
        is_digit(c),
        x.len() < MAX_DIGITS,
    ensures
        0 <= digits_value(x) * 10 + digit_value(c) < pow10(18),
{
    lemma_digits_value_bounds(x);
    lemma_pow10_monotone((x.len() + 1) as nat, 18);
    assert(pow10((x.len() + 1) as nat) == 10 * pow10(x.len()));
}

/// A text denotes no decimal when it is neither a short enough run of digits nor
/// a short enough pair of runs around a point.
proof fn lemma_no_decimal(s: Seq<char>)
    requires
        !(unsigned_part(s).len() > 0 && all_digits(unsigned_part(s))) || unsigned_part(s).len()
            > MAX_DIGITS,
        forall|k: int|
            point_at(unsigned_part(s), k) ==> unsigned_part(s).len() - 1 > MAX_DIGITS,
    ensures
        decimal_of(s) is None,
{
}

/// A run with a non-digit in it is not all digits.
proof fn lemma_not_all_digits(b: Seq<char>, k: int)
    requires
        0 <= k < b.len(),
        !is_digit(b[k]),
    ensures
        !all_digits(b),
{
}

fn is_digit_char(c: char) -> (r: bool)
    ensures
        r == is_digit(c),
{
    '0' <= c && c <= '9'
}

fn digit_of(c: char) -> (r: i64)
    requires
        is_digit(c),
    ensures
        r == digit_value(c),
{
    (c as u32 - '0' as u32) as i64
}

/// A decimal number `mantissa / 10^scale` with at most 18 fractional digits.
#[derive(Clone, Copy, Debug, PartialEq, Eq)]
pub struct Decimal {
    mantissa: i64,
    scale: u32,
}

impl View for Decimal {
    type V = (int, nat);

    open spec fn view(&self) -> (int, nat) {
        (self.mantissa(), self.scale())
    }
}

/// The number `v.0 / 10^v.1` is greater than `p / q` (for `q > 0`).
pub open spec fn exceeds(v: (int, nat), p: int, q: int) -> bool {
    v.0 * q > p * pow10(v.1)
}

/// The number `v.0 / 10^v.1` is less than `p / q` (for `q > 0`).
pub open spec fn falls_short(v: (int, nat), p: int, q: int) -> bool {
    v.0 * q < p * pow10(v.1)
}

impl Decimal {
    #[verifier::type_invariant]
    spec fn scale_in_range(self) -> bool {
        self.scale <= MAX_DIGITS
    }

    pub closed spec fn mantissa(self) -> int {
        self.mantissa as int
    }

    pub closed spec fn scale(self) -> nat {
        self.scale as nat
    }

    /// `self > p / q`.
    pub open spec fn above(self, p: int, q: int) -> bool {
        exceeds(self@, p, q)
    }

    /// `self < p / q`.
    pub open spec fn below(self, p: int, q: int) -> bool {
        falls_short(self@, p, q)
    }

    /// `mantissa / 10^scale`, for a scale of at most 18.
    pub fn new(mantissa: i64, scale: u32) -> (r: Option<Decimal>)
        ensures
            r is Some <==> scale <= MAX_DIGITS,
            r matches Some(d) ==> d@ == (mantissa as int, scale as nat),
    {
        if scale as usize <= MAX_DIGITS {
            Some(Decimal { mantissa, scale })
        } else {
            None
        }
    }

    /// Reads a decimal text: an optional sign (`-` or `+`), digits, and optionally
    /// a point followed by digits; `None` for any other text or for more than 18
    /// digits.
    pub fn parse(text: &str) -> (r: Option<Decimal>)
        ensures
            match r {
                Some(d) => decimal_of(text@) == Some(d@),
                None => decimal_of(text@) is None,
            },
    {
        let ghost s = text@;
        let n = text.unicode_len();
        let neg = n > 0 && text.get_char(0) == '-';
        let start: usize = if n > 0 && (text.get_char(0) == '-' || text.get_char(0) == '+') {
            1
        } else {
            0
        };
        let ghost b = unsigned_part(s);
        assert(sign_len(s) == start);
        proof {
            lemma_pow10_18();
        }
        let mut acc: i64 = 0;
        let mut i: usize = start;
        assert(b.take(0) =~= Seq::<char>::empty());
        while i < n && is_digit_char(text.get_char(i))
            invariant
                start <= i <= n,
                s == text@,
                n == s.len(),
                b == s.skip(start as int),
                b == unsigned_part(s),
                all_digits(b.take(i - start)),
                acc == digits_value(b.take(i - start)),
                i - start <= MAX_DIGITS,
                pow10(18) == 1_000_000_000_000_000_000,
            decreases n - i,
        {
            let c = text.get_char(i);
            assert(b[i - start] == c);
            assert(b.take(i - start + 1) =~= b.take(i - start).push(c));
            proof {
                lemma_extend_run(b.take(i - start), c);
            }
            if i - start == MAX_DIGITS {
                proof {
                    assert(!(b.len() <= MAX_DIGITS));
                    assert forall|k: int| point_at(b, k) implies b.len() - 1 > MAX_DIGITS by {
                        if k <= i - start {
                            assert(b.take(i - start + 1)[k] == b[k]);
                        }
                    }
                    lemma_no_decimal(s);
                }
                return None;
            }
            proof {
                lemma_extend_fits(b.take(i - start), c);
            }
            acc = acc * 10 + digit_of(c);
            i = i + 1;
        }
        let ghost k = i - start;
        if i == n {
            if i == start {
                return None;
            }
            assert(b.take(k) =~= b);
            proof {
                lemma_digits_value_bounds(b);
            }
            let m = if neg { -acc } else { acc };
            return Some(Decimal { mantissa: m, scale: 0 });
        }
        let c = text.get_char(i);
        assert(b[k] == c);
        if c != '.' {
            proof {
                lemma_not_all_digits(b, k);
                assert forall|k2: int| point_at(b, k2) implies b.len() - 1 > MAX_DIGITS by {
                    lemma_point_at_first_non_digit(b, k, k2);
                }
                lemma_no_decimal(s);
            }
            return None;
        }
        let mut j: usize = i + 1;
        assert(b.subrange(k + 1, k + 1) =~= Seq::<char>::empty());
        assert(b.take(k) + b.subrange(k + 1, k + 1) =~= b.take(k));
        while j < n
            invariant
                start <= i < j <= n,
                k == i - start,
                s == text@,
                n == s.len(),
                b == s.skip(start as int),
                b == unsigned_part(s),
                b[k] == '.',
                all_digits(b.take(k)),
                all_digits(b.subrange(k + 1, j - start)),
                acc == digits_value(b.take(k) + b.subrange(k + 1, j - start)),
                j - start - 1 <= MAX_DIGITS,
                pow10(18) == 1_000_000_000_000_000_000,
            decreases n - j,
        {
            let c = text.get_char(j);
            let ghost t = j - start;
            assert(b[t] == c);
            if !is_digit_char(c) {
                proof {
                    lemma_not_all_digits(b, k);
                    assert forall|k2: int| point_at(b, k2) implies b.len() - 1 > MAX_DIGITS by {
                        lemma_point_at_first_non_digit(b, k, k2);
                        assert(b.skip(k + 1)[t - k - 1] == b[t]);
                    }
                    lemma_no_decimal(s);
                }
                return None;
            }
            let ghost x = b.take(k) + b.subrange(k + 1, t);
            assert(all_digits(x)) by {
                assert forall|q: int| 0 <= q < x.len() implies is_digit(#[trigger] x[q]) by {
                    if q < k {
                        assert(x[q] == b.take(k)[q]);
                    } else {
                        assert(x[q] == b.subrange(k + 1, t)[q - k]);
                    }
                }
            }
            assert(b.subrange(k + 1, t + 1) =~= b.subrange(k + 1, t).push(c));
            assert(b.take(k) + b.subrange(k + 1, t + 1) =~= x.push(c));
            proof {
                lemma_extend_run(b.subrange(k + 1, t), c);
                lemma_extend_run(x, c);
            }
            if j - start - 1 == MAX_DIGITS {
                proof {
                    lemma_not_all_digits(b, k);
                    lemma_no_decimal(s);
                }
                return None;
            }
            proof {
                lemma_extend_fits(x, c);
            }
            acc = acc * 10 + digit_of(c);
            j = j + 1;
        }
        if j == i + 1 && i == start {
            proof {
                lemma_not_all_digits(b, k);
                assert forall|k2: int| point_at(b, k2) implies b.len() - 1 > MAX_DIGITS by {
                    lemma_point_at_first_non_digit(b, k, k2);
                }
                lemma_no_decimal(s);
            }
            return None;
        }
        let ghost x = b.take(k) + b.subrange(k + 1, j - start);
        proof {
            assert(b.subrange(k + 1, j - start) =~= b.skip(k + 1));
            assert(point_at(b, k));
            let k2 = choose|k2: int| point_at(b, k2);
            lemma_point_unique(b, k, k2);
            lemma_not_all_digits(b, k);
            assert(all_digits(x)) by {
                assert forall|q: int| 0 <= q < x.len() implies is_digit(#[trigger] x[q]) by {
                    if q < k {
                        assert(x[q] == b.take(k)[q]);
                    } else {
                        assert(x[q] == b.subrange(k + 1, j - start)[q - k]);
                    }
                }
            }
            lemma_digits_value_bounds(x);
        }
        let m = if neg { -acc } else { acc };
        Some(Decimal { mantissa: m, scale: (n - i - 1) as u32 })
    }

    /// Both sides of a comparison of `self` with `p / q`, brought to one denominator.
    fn cross_sides(&self, p: i32, q: i32) -> (r: (i128, i128))
        requires
            q > 0,
        ensures
            r.0 == self.mantissa() * q,
            r.1 == p * pow10(self.scale()),
    {
        proof {
            use_type_invariant(self);
        }
        let mut f: i128 = 1;
        let mut i: u32 = 0;
        while i < self.scale
            invariant
                i <= self.scale <= MAX_DIGITS,
                f == pow10(i as nat),
                1 <= f <= 1_000_000_000_000_000_000,
            decreases self.scale - i,
        {
            proof {
                lemma_pow10_monotone((i + 1) as nat, MAX_DIGITS as nat);
                lemma_pow10_18();
            }
            f = f * 10;
            i = i + 1;
        }
        let m = self.mantissa as i128;
        assert(-9223372036854775808 * 2147483647 <= m * q <= 9223372036854775807 * 2147483647)
            by (nonlinear_arith)
            requires
                -9223372036854775808 <= m <= 9223372036854775807,
                1 <= q <= 2147483647,
        ;
        let lhs = m * q as i128;
        assert(-2147483648 * 1_000_000_000_000_000_000 <= p * f <= 2147483647 * 1_000_000_000_000_000_000)
            by (nonlinear_arith)
            requires
                1 <= f <= 1_000_000_000_000_000_000,
                -2147483648 <= p <= 2147483647,
        ;
        let rhs = p as i128 * f;
        (lhs, rhs)
    }

    /// Whether `self > p / q`.
    pub fn is_above(&self, p: i32, q: i32) -> (r: bool)
        requires
            q > 0,
        ensures
            r == self.above(p as int, q as int),
    {
        let (lhs, rhs) = self.cross_sides(p, q);
        lhs > rhs
    }

    /// Whether `self < p / q`.
    pub fn is_below(&self, p: i32, q: i32) -> (r: bool)
        requires
            q > 0,
        ensures
            r == self.below(p as int, q as int),
    {
        let (lhs, rhs) = self.cross_sides(p, q);
        lhs < rhs
    }
}

/// Reads an integer text: an optional sign (`-` or `+`) and digits, without a
/// point, in the range of `i32`.
pub fn parse_integer(text: &str) -> (r: Option<i32>)
    ensures
        match r {
            Some(v) => integer_of(text@) == Some(v as int),
            None => integer_of(text@) is None,
        },
{
    match Decimal::parse(text) {
        Some(d) => {
            let ghost s = text@;
            let ghost b = unsigned_part(s);
            let n = text.unicode_len();
            assert(b.len() > 0);
            // A point as the last character is the one way to a scale of 0 with a point.
            if d.scale == 0 && text.get_char(n - 1) != '.' && i32::MIN as i64 <= d.mantissa
                && d.mantissa <= i32::MAX as i64 {
                proof {
                    if !all_digits(b) {
                        let k = choose|k: int| point_at(b, k);
                        assert(b[k] == s[s.len() - 1]);
                    }
                }
                Some(d.mantissa as i32)
            } else {
                proof {
                    if s[s.len() - 1] == '.' {
                        lemma_not_all_digits(b, b.len() - 1);
                    }
                }
                None
            }
        },
        None => None,
    }
}

} // verus!
