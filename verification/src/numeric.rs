//! The bounded numeric value model behind a numeric input field: a value of
//! one of a closed set of integer kinds, optional minimum and maximum bounds,
//! clamped assignment, decimal parsing and formatting, and drag-to-adjust.
//!
//! Values of every kind are carried as `i128`; the kind contributes its
//! representable range and its keyboard character set.

use vstd::prelude::*;

use crate::text_edit::is_space_char;
use crate::text_edit::skip_spaces_back;
use crate::text_edit::skip_spaces_fwd;

verus! {

/// Whether `c` is a decimal digit.
pub open spec fn is_digit_char(c: char) -> bool {
    48 <= (c as u32) <= 57
}

/// The numeric value of a digit character.
pub open spec fn digit_val(c: char) -> int {
    (c as u32) - 48
}

/// Whether every character of `s` is a decimal digit.
pub open spec fn all_digits(s: Seq<char>) -> bool {
    forall|i: int| 0 <= i < s.len() ==> is_digit_char(s[i])
}

/// The value of a digit string read in base ten.
pub open spec fn digits_val(s: Seq<char>) -> int
    decreases s.len(),
{
    if s.len() == 0 {
        0
    } else {
        digits_val(s.drop_last()) * 10 + digit_val(s.last())
    }
}

/// What an unsigned digit string parses to, negated when `neg`: `None` when
/// it is empty, holds a non-digit, or does not fit an `i128`.
pub open spec fn parse_digits_spec(ds: Seq<char>, neg: bool) -> Option<i128> {
    if ds.len() == 0 || !all_digits(ds) {
        Option::None
    } else {
        let v = if neg {
            -digits_val(ds)
        } else {
            digits_val(ds)
        };
        if i128::MIN <= v <= i128::MAX {
            Option::Some(v as i128)
        } else {
            Option::None
        }
    }
}

/// What `s` parses to as a decimal integer: an optional `+` or `-` sign,
/// then digits only; `None` on an empty body, a stray character, or a value
/// outside `i128`.
pub open spec fn parse_i128_spec(s: Seq<char>) -> Option<i128> {
    if s.len() > 0 && (s[0] == '-' || s[0] == '+') {
        parse_digits_spec(s.skip(1), s[0] == '-')
    } else {
        parse_digits_spec(s, false)
    }
}

proof fn lemma_digits_val_nonneg(s: Seq<char>)
    requires
        all_digits(s),
    ensures
        digits_val(s) >= 0,
    decreases s.len(),
{
    if s.len() > 0 {
        assert(all_digits(s.drop_last()));
        lemma_digits_val_nonneg(s.drop_last());
    }
}

proof fn lemma_digits_val_prefix(s: Seq<char>, k: int)
    requires
        all_digits(s),
        0 <= k <= s.len(),
    ensures
        digits_val(s) >= digits_val(s.take(k)),
    decreases s.len() - k,
{
    if k < s.len() {
        lemma_digits_val_prefix(s, k + 1);
        assert(s.take(k + 1).drop_last() =~= s.take(k));
        assert(all_digits(s.take(k)));
        lemma_digits_val_nonneg(s.take(k));
        assert(digits_val(s.take(k + 1)) == digits_val(s.take(k)) * 10 + digit_val(s[k]));
    } else {
        assert(s.take(k) =~= s);
    }
}

/// Parses `input` as a decimal integer: an optional `+` or `-` sign followed
/// by digits. Returns `None` on an empty body, any other character, or a
/// value outside the `i128` range.
pub fn parse_i128(input: &Vec<char>) -> (r: Option<i128>)
    ensures
        r == parse_i128_spec(input@),
{
    let len = input.len();
    let mut start: usize = 0;
    let mut neg = false;
    if len > 0 && (input[0] == '-' || input[0] == '+') {
        neg = input[0] == '-';
        start = 1;
    }
    let ghost ds = input@.skip(start as int);
    proof {
        assert(input@.skip(0) =~= input@);
    }
    if start >= len {
        assert(ds.len() == 0);
        return Option::None;
    }
    let mut mag: u128 = 0;
    let mut j: usize = start;
    while j < len
        invariant
            start <= j <= len,
            start < len,
            len == input@.len(),
            ds == input@.skip(start as int),
            parse_i128_spec(input@) == parse_digits_spec(ds, neg),
            all_digits(ds.take(j - start)),
            mag as int == digits_val(ds.take(j - start)),
        decreases len - j,
    {
        let c = input[j];
        let n = c as u32;
        proof {
            assert(ds.take(j - start + 1).drop_last() =~= ds.take(j - start));
            assert(ds.take(j - start + 1).last() == input@[j as int]);
        }
        if n < 48 || n > 57 {
            proof {
                assert(ds[j - start] == input@[j as int]);
                assert(!is_digit_char(ds[j - start]));
            }
            return Option::None;
        }
        let d = (n - 48) as u128;
        if mag > u128::MAX / 10 {
            proof {
                lemma_digits_overflow(ds, j - start, mag as int, d as int);
            }
            return Option::None;
        }
        let m10 = mag * 10;
        if d > u128::MAX - m10 {
            proof {
                lemma_digits_overflow(ds, j - start, mag as int, d as int);
            }
            return Option::None;
        }
        mag = m10 + d;
        j += 1;
    }
    proof {
        assert(ds.take(len - start) =~= ds);
    }
    if neg {
        if mag < 0x8000_0000_0000_0000_0000_0000_0000_0000u128 {
            Option::Some(-(mag as i128))
        } else if mag == 0x8000_0000_0000_0000_0000_0000_0000_0000u128 {
            Option::Some(i128::MIN)
        } else {
            Option::None
        }
    } else {
        if mag <= 0x7FFF_FFFF_FFFF_FFFF_FFFF_FFFF_FFFF_FFFFu128 {
            Option::Some(mag as i128)
        } else {
            Option::None
        }
    }
}

/// When the accumulated prefix would overflow a `u128`, the whole digit
/// string's value is beyond the `i128` range (if it is digits at all).
proof fn lemma_digits_overflow(ds: Seq<char>, k: int, mag: int, d: int)
    requires
        0 <= k < ds.len(),
        all_digits(ds.take(k)),
        mag == digits_val(ds.take(k)),
        0 <= d <= 9,
        is_digit_char(ds[k]),
        d == digit_val(ds[k]),
        mag * 10 + d > u128::MAX,
    ensures
        all_digits(ds) ==> digits_val(ds) > i128::MAX && -digits_val(ds) < i128::MIN,
{
    if all_digits(ds) {
        lemma_digits_val_prefix(ds, k + 1);
        assert(ds.take(k + 1).drop_last() =~= ds.take(k));
        assert(digits_val(ds.take(k + 1)) == mag * 10 + d);
    }
}

/// The digit character for a value in `0 ..= 9`.
pub open spec fn digit_char_spec(d: int) -> char {
    if d == 0 {
        '0'
    } else if d == 1 {
        '1'
    } else if d == 2 {
        '2'
    } else if d == 3 {
        '3'
    } else if d == 4 {
        '4'
    } else if d == 5 {
        '5'
    } else if d == 6 {
        '6'
    } else if d == 7 {
        '7'
    } else if d == 8 {
        '8'
    } else {
        '9'
    }
}

/// The canonical decimal digits of a non-negative value: no sign, no
/// leading zero except for zero itself.
pub open spec fn fmt_nat_spec(n: int) -> Seq<char>
    decreases n,
{
    if n < 10 {
        seq![digit_char_spec(n)]
    } else {
        fmt_nat_spec(n / 10).push(digit_char_spec(n % 10))
    }
}

/// The canonical decimal form of an integer: a `-` sign for negative values,
/// then the digits of its magnitude.
pub open spec fn fmt_i128_spec(v: int) -> Seq<char> {
    if v >= 0 {
        fmt_nat_spec(v)
    } else {
        seq!['-'] + fmt_nat_spec(-v)
    }
}

fn digit_char(d: u128) -> (r: char)
    requires
        d < 10,
    ensures
        r == digit_char_spec(d as int),
{
    if d == 0 {
        '0'
    } else if d == 1 {
        '1'
    } else if d == 2 {
        '2'
    } else if d == 3 {
        '3'
    } else if d == 4 {
        '4'
    } else if d == 5 {
        '5'
    } else if d == 6 {
        '6'
    } else if d == 7 {
        '7'
    } else if d == 8 {
        '8'
    } else {
        '9'
    }
}

/// Writes `v` in its canonical decimal form.
pub fn format_i128(v: i128) -> (r: Vec<char>)
    ensures
        r@ == fmt_i128_spec(v as int),
{
    let mag0: u128 = if v >= 0 {
        v as u128
    } else {
        ((-(v + 1)) as u128) + 1
    };
    assert(mag0 as int == if v >= 0 {
        v as int
    } else {
        -(v as int)
    });
    let mut rev: Vec<char> = Vec::new();
    let mut mag: u128 = mag0;
    if mag == 0 {
        rev.push('0');
        proof {
            assert(rev@.reverse() =~= seq!['0']);
            assert(fmt_nat_spec(0) =~= seq!['0']);
        }
    } else {
        while mag > 0
            invariant
                fmt_nat_spec(mag0 as int) =~= (if mag > 0 {
                    fmt_nat_spec(mag as int)
                } else {
                    Seq::<char>::empty()
                }) + rev@.reverse(),
            decreases mag,
        {
            let d = mag % 10;
            let c = digit_char(d);
            let ghost rev0 = rev@;
            rev.push(c);
            proof {
                assert(rev@.reverse() =~= seq![c] + rev0.reverse());
                if mag >= 10 {
                    assert(fmt_nat_spec(mag as int) == fmt_nat_spec((mag as int) / 10).push(
                        digit_char_spec((mag as int) % 10),
                    ));
                    assert(fmt_nat_spec((mag as int) / 10).push(c) =~= fmt_nat_spec(
                        (mag as int) / 10,
                    ) + seq![c]);
                } else {
                    assert(fmt_nat_spec(mag as int) =~= seq![c]);
                }
                assert((mag as int) / 10 == (mag / 10) as int);
            }
            mag = mag / 10;
        }
    }
    let mut out: Vec<char> = Vec::new();
    if v < 0 {
        out.push('-');
    }
    let ghost sign = out@;
    let n = rev.len();
    let mut k: usize = n;
    while k > 0
        invariant
            0 <= k <= n,
            n == rev@.len(),
            sign == if v < 0 {
                seq!['-']
            } else {
                Seq::<char>::empty()
            },
            out@ =~= sign + rev@.reverse().take(n - k),
        decreases k,
    {
        k = k - 1;
        out.push(rev[k]);
        proof {
            assert(rev@.reverse()[n - k - 1] == rev@[k as int]);
            assert(rev@.reverse().take(n - k) =~= rev@.reverse().take(n - k - 1).push(
                rev@[k as int],
            ));
        }
    }
    proof {
        assert(rev@.reverse().take(n as int) =~= rev@.reverse());
        assert(fmt_nat_spec(mag0 as int) =~= rev@.reverse());
        if v >= 0 {
            assert(out@ =~= fmt_i128_spec(v as int));
        } else {
            assert(out@ =~= seq!['-'] + fmt_nat_spec(mag0 as int));
        }
    }
    out
}

proof fn lemma_fmt_nat_digits(n: int)
    requires
        n >= 0,
    ensures
        all_digits(fmt_nat_spec(n)),
        digits_val(fmt_nat_spec(n)) == n,
        fmt_nat_spec(n).len() >= 1,
        is_digit_char(fmt_nat_spec(n)[0]),
    decreases n,
{
    if n < 10 {
        let s = fmt_nat_spec(n);
        assert(s == seq![digit_char_spec(n)]);
        assert(is_digit_char(digit_char_spec(n)));
        assert(digit_val(digit_char_spec(n)) == n);
        assert(s.drop_last() =~= Seq::<char>::empty());
        assert(s.last() == digit_char_spec(n));
        assert(digits_val(Seq::<char>::empty()) == 0);
        assert(digits_val(s) == digits_val(s.drop_last()) * 10 + digit_val(s.last()));
        assert(digits_val(s) == n);
    } else {
        lemma_fmt_nat_digits(n / 10);
        let s = fmt_nat_spec(n / 10);
        let c = digit_char_spec(n % 10);
        assert(fmt_nat_spec(n) == s.push(c));
        assert(s.push(c).drop_last() =~= s);
        assert(s.push(c).last() == c);
        assert(is_digit_char(c));
        assert(digit_val(c) == n % 10);
        assert(digits_val(s.push(c)) == digits_val(s) * 10 + digit_val(c));
        assert(digits_val(s) * 10 + (n % 10) == n);
        assert(all_digits(s.push(c))) by {
            assert(forall|i: int|
                0 <= i < s.len() ==> s.push(c)[i] == s[i] && is_digit_char(s[i]));
            assert(s.push(c)[s.len() as int] == c);
        }
        assert(fmt_nat_spec(n)[0] == s[0]);
    }
}

/// Law: the canonical decimal form of any representable value parses back to
/// exactly that value, so reverting a field's text to the stored value never
/// produces text the parser would reject.
pub proof fn lemma_format_parses_back(v: int)
    requires
        i128::MIN <= v <= i128::MAX,
    ensures
        parse_i128_spec(fmt_i128_spec(v)) == Option::Some(v as i128),
{
    if v >= 0 {
        lemma_fmt_nat_digits(v);
        let s = fmt_nat_spec(v);
        assert(s[0] != '-' && s[0] != '+') by {
            assert(is_digit_char(s[0]));
        }
        assert(parse_i128_spec(s) == parse_digits_spec(s, false));
        assert(digits_val(s) == v);
    } else {
        lemma_fmt_nat_digits(-v);
        let m = fmt_nat_spec(-v);
        let s = seq!['-'] + m;
        assert(fmt_i128_spec(v) == s);
        assert(s.len() > 0 && s[0] == '-');
        assert(s.skip(1) =~= m);
        assert(parse_i128_spec(s) == parse_digits_spec(m, true));
        assert(digits_val(m) == -v);
    }
}

/// `s` with the whitespace at both ends removed.
pub open spec fn trim_spec(s: Seq<char>) -> Seq<char> {
    let a = skip_spaces_fwd(s, 0);
    let b = skip_spaces_back(s, s.len() as int);
    if a <= b {
        s.subrange(a, b)
    } else {
        Seq::empty()
    }
}

/// A copy of `input` with the whitespace at both ends removed.
pub fn trim_chars(input: &Vec<char>) -> (r: Vec<char>)
    ensures
        r@ == trim_spec(input@),
{
    let ghost s = input@;
    let len = input.len();
    let mut a: usize = 0;
    while a < len && crate::text_edit::is_space(input[a])
        invariant
            0 <= a <= len,
            len == s.len(),
            s == input@,
            skip_spaces_fwd(s, a as int) == skip_spaces_fwd(s, 0),
        decreases len - a,
    {
        a += 1;
    }
    assert(skip_spaces_fwd(s, 0) == a as int);
    let mut b: usize = len;
    while b > a && crate::text_edit::is_space(input[b - 1])
        invariant
            a <= b <= len,
            len == s.len(),
            s == input@,
            a < len ==> !is_space_char(s[a as int]),
            a < len ==> b > a,
            skip_spaces_back(s, b as int) == skip_spaces_back(s, len as int),
        decreases b,
    {
        b -= 1;
    }
    proof {
        if a < len {
            assert(b > a);
            assert(!is_space_char(s[b - 1]));
            assert(skip_spaces_back(s, b as int) == b as int);
        } else {
            assert(a == len && b == len);
            lemma_skip_spaces_back_le(s, len as int);
        }
    }
    let mut r: Vec<char> = Vec::new();
    let mut i: usize = a;
    while i < b
        invariant
            a <= i <= b <= len,
            len == s.len(),
            s == input@,
            r@ =~= s.subrange(a as int, i as int),
        decreases b - i,
    {
        r.push(input[i]);
        proof {
            assert(r@ =~= s.subrange(a as int, i + 1));
        }
        i += 1;
    }
    proof {
        if a < len {
            assert(r@ =~= trim_spec(s));
        } else {
            assert(r@ =~= Seq::<char>::empty());
            if skip_spaces_fwd(s, 0) <= skip_spaces_back(s, s.len() as int) {
                assert(trim_spec(s) =~= s.subrange(
                    skip_spaces_fwd(s, 0),
                    skip_spaces_back(s, s.len() as int),
                ));
                assert(trim_spec(s).len() == 0);
            }
            assert(r@ =~= trim_spec(s));
        }
    }
    r
}

proof fn lemma_skip_spaces_back_le(s: Seq<char>, i: int)
    requires
        0 <= i <= s.len(),
    ensures
        0 <= skip_spaces_back(s, i) <= i,
    decreases i,
{
    if 0 < i && is_space_char(s[i - 1]) {
        lemma_skip_spaces_back_le(s, i - 1);
    }
}

/// The closed set of numeric kinds a field can hold.
#[derive(Clone, Copy, PartialEq, Eq, Structural, Debug)]
pub enum NumericKind {
    /// 8-bit signed.
    I8,
    /// 16-bit signed.
    I16,
    /// 32-bit signed.
    I32,
    /// 64-bit signed.
    I64,
    /// 128-bit signed.
    I128,
    /// 8-bit unsigned.
    U8,
    /// 16-bit unsigned.
    U16,
    /// 32-bit unsigned.
    U32,
    /// 64-bit unsigned.
    U64,
}

/// The smallest value of a kind.
pub open spec fn kind_min_spec(k: NumericKind) -> int {
    match k {
        NumericKind::I8 => i8::MIN as int,
        NumericKind::I16 => i16::MIN as int,
        NumericKind::I32 => i32::MIN as int,
        NumericKind::I64 => i64::MIN as int,
        NumericKind::I128 => i128::MIN as int,
        NumericKind::U8 => 0,
        NumericKind::U16 => 0,
        NumericKind::U32 => 0,
        NumericKind::U64 => 0,
    }
}

/// The largest value of a kind.
pub open spec fn kind_max_spec(k: NumericKind) -> int {
    match k {
        NumericKind::I8 => i8::MAX as int,
        NumericKind::I16 => i16::MAX as int,
        NumericKind::I32 => i32::MAX as int,
        NumericKind::I64 => i64::MAX as int,
        NumericKind::I128 => i128::MAX as int,
        NumericKind::U8 => u8::MAX as int,
        NumericKind::U16 => u16::MAX as int,
        NumericKind::U32 => u32::MAX as int,
        NumericKind::U64 => u64::MAX as int,
    }
}

/// Whether values of this kind may go below zero.
pub open spec fn kind_signed_spec(k: NumericKind) -> bool {
    match k {
        NumericKind::I8 | NumericKind::I16 | NumericKind::I32 | NumericKind::I64
            | NumericKind::I128 => true,
        NumericKind::U8 | NumericKind::U16 | NumericKind::U32 | NumericKind::U64 => false,
    }
}

impl NumericKind {
    /// The smallest value of this kind.
    pub fn min_value(&self) -> (r: i128)
        ensures
            r as int == kind_min_spec(*self),
    {
        match self {
            NumericKind::I8 => i8::MIN as i128,
            NumericKind::I16 => i16::MIN as i128,
            NumericKind::I32 => i32::MIN as i128,
            NumericKind::I64 => i64::MIN as i128,
            NumericKind::I128 => i128::MIN,
            NumericKind::U8 => 0,
            NumericKind::U16 => 0,
            NumericKind::U32 => 0,
            NumericKind::U64 => 0,
        }
    }

    /// The largest value of this kind.
    pub fn max_value(&self) -> (r: i128)
        ensures
            r as int == kind_max_spec(*self),
    {
        match self {
            NumericKind::I8 => i8::MAX as i128,
            NumericKind::I16 => i16::MAX as i128,
            NumericKind::I32 => i32::MAX as i128,
            NumericKind::I64 => i64::MAX as i128,
            NumericKind::I128 => i128::MAX,
            NumericKind::U8 => u8::MAX as i128,
            NumericKind::U16 => u16::MAX as i128,
            NumericKind::U32 => u32::MAX as i128,
            NumericKind::U64 => u64::MAX as i128,
        }
    }

    /// Whether values of this kind may go below zero.
    pub fn is_signed(&self) -> (r: bool)
        ensures
            r == kind_signed_spec(*self),
    {
        match self {
            NumericKind::I8 | NumericKind::I16 | NumericKind::I32 | NumericKind::I64
                | NumericKind::I128 => true,
            NumericKind::U8 | NumericKind::U16 | NumericKind::U32 | NumericKind::U64 => false,
        }
    }

    /// The change per drag step when a field gives none: one unit.
    pub fn default_drag_step(&self) -> (r: i64)
        ensures
            r == 1,
    {
        1
    }
}

/// One edge of a requested value range.
#[derive(Clone, Copy, PartialEq, Eq, Structural, Debug)]
pub enum RangeEdge {
    /// The edge value belongs to the range.
    Included(i128),
    /// The edge value sits just outside the range.
    Excluded(i128),
    /// No constraint on this side.
    Unbounded,
}

/// The clamp of `v` into `lo ..= hi` by saturating at the nearer bound.
pub open spec fn clamp_spec(v: int, lo: int, hi: int) -> int {
    if v < lo {
        lo
    } else if v > hi {
        hi
    } else {
        v
    }
}

/// Law: clamping is idempotent — re-clamping an already clamped value changes
/// nothing, so `set_value(clamp(v))` stores the same value as `set_value(v)`.
pub proof fn lemma_clamp_idempotent(v: int, lo: int, hi: int)
    requires
        lo <= hi,
    ensures
        clamp_spec(clamp_spec(v, lo, hi), lo, hi) == clamp_spec(v, lo, hi),
        lo <= clamp_spec(v, lo, hi) <= hi,
{
}

/// A numeric value under optional bounds.
///
/// `set_value` always stores the clamp of the requested value: the bounds
/// saturate, they never reject. An exclusive upper bound changes nothing
/// about clamping — the maximum stays reachable as the nearest representable
/// value — it only records how the range was described.
pub struct NumericValue {
    kind: NumericKind,
    value: i128,
    min: Option<i128>,
    max: Option<i128>,
    end_inclusive: bool,
    drag_step: i64,
}

impl NumericValue {
    /// The kind of value the field holds.
    pub closed spec fn kind_spec(self) -> NumericKind {
        self.kind
    }

    /// The stored value.
    pub closed spec fn value_spec(self) -> int {
        self.value as int
    }

    /// The configured minimum, if any.
    pub closed spec fn min_spec(self) -> Option<int> {
        match self.min {
            Option::Some(m) => Option::Some(m as int),
            Option::None => Option::None,
        }
    }

    /// The configured maximum, if any.
    pub closed spec fn max_spec(self) -> Option<int> {
        match self.max {
            Option::Some(m) => Option::Some(m as int),
            Option::None => Option::None,
        }
    }

    /// Whether the range was described with an inclusive upper edge.
    pub closed spec fn end_inclusive_spec(self) -> bool {
        self.end_inclusive
    }

    /// The change applied per drag step.
    pub closed spec fn drag_step_spec(self) -> int {
        self.drag_step as int
    }

    /// The lower clamp bound: the configured minimum, or the kind's smallest
    /// value.
    pub open spec fn lo(self) -> int {
        match self.min_spec() {
            Option::Some(m) => m,
            Option::None => kind_min_spec(self.kind_spec()),
        }
    }

    /// The upper clamp bound: the configured maximum, or the kind's largest
    /// value.
    pub open spec fn hi(self) -> int {
        match self.max_spec() {
            Option::Some(m) => m,
            Option::None => kind_max_spec(self.kind_spec()),
        }
    }

    /// Bounds sit inside the kind's range and do not cross; the value sits
    /// inside the kind's range.
    pub open spec fn wf(self) -> bool {
        &&& kind_min_spec(self.kind_spec()) <= self.lo()
        &&& self.lo() <= self.hi()
        &&& self.hi() <= kind_max_spec(self.kind_spec())
        &&& kind_min_spec(self.kind_spec()) <= self.value_spec() <= kind_max_spec(self.kind_spec())
    }

    /// Everything but the stored value: kind, bounds and drag step.
    pub open spec fn same_config(self, other: NumericValue) -> bool {
        &&& self.kind_spec() == other.kind_spec()
        &&& self.min_spec() == other.min_spec()
        &&& self.max_spec() == other.max_spec()
        &&& self.end_inclusive_spec() == other.end_inclusive_spec()
        &&& self.drag_step_spec() == other.drag_step_spec()
    }

    /// An unbounded value of the given kind, holding zero if the kind allows
    /// it (it always does), with a drag step of one unit.
    pub fn new(kind: NumericKind) -> (r: NumericValue)
        ensures
            r.wf(),
            r.kind_spec() == kind,
            r.value_spec() == 0,
            r.min_spec() is None,
            r.max_spec() is None,
            r.end_inclusive_spec() == false,
            r.drag_step_spec() == 1,
    {
        NumericValue {
            kind,
            value: 0,
            min: Option::None,
            max: Option::None,
            end_inclusive: false,
            drag_step: 1,
        }
    }

    /// A value with its whole configuration, as a builder assembles it.
    ///
    /// Bounds are clamped into the kind's range and ordered (a crossed upper
    /// bound collapses onto the lower one). The initial value is clamped
    /// into the kind's range only, not into the configured bounds: the
    /// bounds constrain assignments, not what a builder seeds the field
    /// with.
    pub fn with_config(
        kind: NumericKind,
        value: i128,
        min: Option<i128>,
        max: Option<i128>,
        end_inclusive: bool,
        drag_step: i64,
    ) -> (r: NumericValue)
        ensures
            r.wf(),
            r.kind_spec() == kind,
            r.end_inclusive_spec() == end_inclusive,
            r.drag_step_spec() == drag_step as int,
            r.min_spec() == (match min {
                Option::Some(m) => Option::Some(
                    clamp_spec(m as int, kind_min_spec(kind), kind_max_spec(kind)),
                ),
                Option::None => Option::<int>::None,
            }),
            r.max_spec() == (match max {
                Option::Some(m) => Option::Some(clamp_spec(m as int, r.lo(), kind_max_spec(kind))),
                Option::None => Option::<int>::None,
            }),
            r.value_spec() == clamp_spec(value as int, kind_min_spec(kind), kind_max_spec(kind)),
    {
        let kind_lo = kind.min_value();
        let kind_hi = kind.max_value();
        let min_c = match min {
            Option::Some(m) => Option::Some(
                if m < kind_lo {
                    kind_lo
                } else if m > kind_hi {
                    kind_hi
                } else {
                    m
                },
            ),
            Option::None => Option::None,
        };
        let lo = match min_c {
            Option::Some(m) => m,
            Option::None => kind_lo,
        };
        let max_c = match max {
            Option::Some(m) => Option::Some(
                if m < lo {
                    lo
                } else if m > kind_hi {
                    kind_hi
                } else {
                    m
                },
            ),
            Option::None => Option::None,
        };
        let value_c = if value < kind_lo {
            kind_lo
        } else if value > kind_hi {
            kind_hi
        } else {
            value
        };
        NumericValue {
            kind,
            value: value_c,
            min: min_c,
            max: max_c,
            end_inclusive,
            drag_step,
        }
    }

    /// The stored value.
    pub fn get_value(&self) -> (r: i128)
        ensures
            r as int == self.value_spec(),
    {
        self.value
    }

    /// The kind of value the field holds.
    pub fn kind(&self) -> (r: NumericKind)
        ensures
            r == self.kind_spec(),
    {
        self.kind
    }

    /// The change applied per drag step.
    pub fn drag_step(&self) -> (r: i64)
        ensures
            r as int == self.drag_step_spec(),
    {
        self.drag_step
    }

    /// Whether the range was described with an inclusive upper edge.
    pub fn end_inclusive(&self) -> (r: bool)
        ensures
            r == self.end_inclusive_spec(),
    {
        self.end_inclusive
    }

    /// Stores the clamp of `value` into the configured bounds (and the
    /// kind's range): requests outside the bounds saturate at the nearer
    /// bound, they are never rejected.
    pub fn set_value(&mut self, value: i128)
        requires
            old(self).wf(),
        ensures
            final(self).wf(),
            final(self).same_config(*old(self)),
            final(self).value_spec() == clamp_spec(value as int, old(self).lo(), old(self).hi()),
    {
        let lo = match self.min {
            Option::Some(m) => m,
            Option::None => self.kind.min_value(),
        };
        let hi = match self.max {
            Option::Some(m) => m,
            Option::None => self.kind.max_value(),
        };
        self.value = if value < lo {
            lo
        } else if value > hi {
            hi
        } else {
            value
        };
    }

    /// Replaces the bounds with the range described by two edges.
    ///
    /// Either edge value becomes the bound on its side (an excluded lower
    /// edge is kept as an inclusive minimum, as the nearest representable
    /// policy); an excluded upper edge is recorded as such. Edges outside the
    /// kind's range are clamped to it; crossed edges collapse to the lower
    /// one. The stored value stays as it is, even when it now lies outside
    /// the new bounds: the bounds constrain assignments, and the next
    /// assignment clamps.
    pub fn set_bounds(&mut self, start: RangeEdge, end: RangeEdge)
        requires
            old(self).wf(),
        ensures
            final(self).wf(),
            final(self).kind_spec() == old(self).kind_spec(),
            final(self).drag_step_spec() == old(self).drag_step_spec(),
            final(self).min_spec() == (match start {
                RangeEdge::Included(m) | RangeEdge::Excluded(m) => Option::Some(
                    clamp_spec(
                        m as int,
                        kind_min_spec(old(self).kind_spec()),
                        kind_max_spec(old(self).kind_spec()),
                    ),
                ),
                RangeEdge::Unbounded => Option::None,
            }),
            final(self).max_spec() == (match end {
                RangeEdge::Included(m) | RangeEdge::Excluded(m) => Option::Some(
                    clamp_spec(m as int, final(self).lo(), kind_max_spec(old(self).kind_spec())),
                ),
                RangeEdge::Unbounded => Option::None,
            }),
            final(self).end_inclusive_spec() == !(end is Excluded),
            final(self).value_spec() == old(self).value_spec(),
    {
        let kind_lo = self.kind.min_value();
        let kind_hi = self.kind.max_value();
        self.min = match start {
            RangeEdge::Included(m) | RangeEdge::Excluded(m) => Option::Some(
                if m < kind_lo {
                    kind_lo
                } else if m > kind_hi {
                    kind_hi
                } else {
                    m
                },
            ),
            RangeEdge::Unbounded => Option::None,
        };
        let lo = match self.min {
            Option::Some(m) => m,
            Option::None => kind_lo,
        };
        self.max = match end {
            RangeEdge::Included(m) | RangeEdge::Excluded(m) => Option::Some(
                if m < lo {
                    lo
                } else if m > kind_hi {
                    kind_hi
                } else {
                    m
                },
            ),
            RangeEdge::Unbounded => Option::None,
        };
        self.end_inclusive = match end {
            RangeEdge::Excluded(_) => false,
            RangeEdge::Included(_) | RangeEdge::Unbounded => true,
        };
    }

    /// Replaces the drag step.
    pub fn set_drag_step(&mut self, step: i64)
        requires
            old(self).wf(),
        ensures
            final(self).wf(),
            final(self).kind_spec() == old(self).kind_spec(),
            final(self).min_spec() == old(self).min_spec(),
            final(self).max_spec() == old(self).max_spec(),
            final(self).end_inclusive_spec() == old(self).end_inclusive_spec(),
            final(self).value_spec() == old(self).value_spec(),
            final(self).drag_step_spec() == step as int,
    {
        self.drag_step = step;
    }

    /// Keeps the numeric model and its text buffer in step after the text
    /// changed: text that parses (after trimming) is stored through the
    /// clamping assignment and left as typed; text that does not parse is
    /// replaced by the stored value's decimal form, so the field can show an
    /// interim clamped value but never garbage.
    pub fn sync_with_text(&mut self, text: &mut Vec<char>)
        requires
            old(self).wf(),
        ensures
            final(self).wf(),
            final(self).same_config(*old(self)),
            parse_i128_spec(trim_spec(old(text)@)) is Some ==> final(self).value_spec()
                == clamp_spec(
                parse_i128_spec(trim_spec(old(text)@))->0 as int,
                old(self).lo(),
                old(self).hi(),
            ) && final(text)@ == old(text)@,
            parse_i128_spec(trim_spec(old(text)@)) is None ==> final(self).value_spec() == old(
                self,
            ).value_spec() && final(text)@ == fmt_i128_spec(old(self).value_spec()),
    {
        let trimmed = trim_chars(text);
        match parse_i128(&trimmed) {
            Option::Some(v) => {
                self.set_value(v);
            },
            Option::None => {
                *text = format_i128(self.get_value());
            },
        }
    }

    /// Applies a drag movement: the value moves by the drag step once per
    /// unit of rightward (`dx`) movement and once, inverted, per unit of
    /// downward (`dy`) movement, then clamps into the bounds.
    pub fn drag_by(&mut self, dx: i32, dy: i32)
        requires
            old(self).wf(),
        ensures
            final(self).wf(),
            final(self).same_config(*old(self)),
            final(self).value_spec() == clamp_spec(
                old(self).value_spec() + old(self).drag_step_spec() * (dx as int - dy as int),
                old(self).lo(),
                old(self).hi(),
            ),
    {
        let d: i64 = dx as i64 - dy as i64;
        let s: i128 = self.drag_step as i128;
        let dd: i128 = d as i128;
        assert(-0x1_0000_0000_0000_0000_0000_0000 <= s * dd
            <= 0x1_0000_0000_0000_0000_0000_0000) by (nonlinear_arith)
            requires
                -0x8000_0000_0000_0000 <= s <= 0x7FFF_FFFF_FFFF_FFFF,
                -0x2_0000_0000 <= dd <= 0x2_0000_0000,
        ;
        let product: i128 = s * dd;
        match self.value.checked_add(product) {
            Option::Some(sum) => {
                self.set_value(sum);
            },
            Option::None => {
                if product > 0 {
                    let hi = match self.max {
                        Option::Some(m) => m,
                        Option::None => self.kind.max_value(),
                    };
                    self.value = hi;
                } else {
                    let lo = match self.min {
                        Option::Some(m) => m,
                        Option::None => self.kind.min_value(),
                    };
                    self.value = lo;
                }
            },
        }
    }
}

} // verus!
