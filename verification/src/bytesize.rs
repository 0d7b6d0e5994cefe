//! Human-readable byte counts: rendering and parsing.

use vstd::prelude::*;

verus! {

/// The decimal digit character for a value below ten.
pub open spec fn digit_char(n: int) -> char {
    if n == 0 {
        '0'
    } else if n == 1 {
        '1'
    } else if n == 2 {
        '2'
    } else if n == 3 {
        '3'
    } else if n == 4 {
        '4'
    } else if n == 5 {
        '5'
    } else if n == 6 {
        '6'
    } else if n == 7 {
        '7'
    } else if n == 8 {
        '8'
    } else {
        '9'
    }
}

/// The decimal rendering of a number.
pub open spec fn dec_digits(n: int) -> Seq<char>
    decreases n,
{
    if n < 10 {
        seq![digit_char(n)]
    } else {
        dec_digits(n / 10).push(digit_char(n % 10))
    }
}

/// The numeric value of a digit character.
pub open spec fn digit_value(c: char) -> Option<int> {
    if c == '0' {
        Some(0)
    } else if c == '1' {
        Some(1)
    } else if c == '2' {
        Some(2)
    } else if c == '3' {
        Some(3)
    } else if c == '4' {
        Some(4)
    } else if c == '5' {
        Some(5)
    } else if c == '6' {
        Some(6)
    } else if c == '7' {
        Some(7)
    } else if c == '8' {
        Some(8)
    } else if c == '9' {
        Some(9)
    } else {
        None
    }
}

fn digit_char_exec(n: u64) -> (r: char)
    requires
        n < 10,
    ensures
        r == digit_char(n as int),
{
    if n == 0 {
        '0'
    } else if n == 1 {
        '1'
    } else if n == 2 {
        '2'
    } else if n == 3 {
        '3'
    } else if n == 4 {
        '4'
    } else if n == 5 {
        '5'
    } else if n == 6 {
        '6'
    } else if n == 7 {
        '7'
    } else if n == 8 {
        '8'
    } else {
        '9'
    }
}



/// Render a number in decimal.
pub fn u64_to_decimal(n: u64) -> (r: String)
    ensures
        r@ == dec_digits(n as int),
    decreases n,
{
    if n < 10 {
        let mut s = String::new();
        crate::strutil::push_char(&mut s, digit_char_exec(n));
        proof {
            assert(s@ =~= dec_digits(n as int));
        }
        s
    } else {
        let mut s = u64_to_decimal(n / 10);
        crate::strutil::push_char(&mut s, digit_char_exec(n % 10));
        s
    }
}

/// The unit suffix for a scale index.
pub open spec fn unit_suffix(u: int) -> Seq<char> {
    if u == 0 {
        " B"@
    } else if u == 1 {
        " KB"@
    } else if u == 2 {
        " MB"@
    } else if u == 3 {
        " GB"@
    } else {
        " TB"@
    }
}

/// The scale index used for a byte count: the largest power of 1024
/// not exceeding the value, capped at terabytes.
pub open spec fn byte_scale(bytes: int) -> int {
    if bytes < 1024int {
        0
    } else if bytes < 1024int * 1024 {
        1
    } else if bytes < 1024int * 1024 * 1024 {
        2
    } else if bytes < 1024int * 1024 * 1024 * 1024 {
        3
    } else {
        4
    }
}

/// The divisor for a scale index.
pub open spec fn scale_divisor(u: int) -> int {
    if u == 0 {
        1
    } else if u == 1 {
        1024
    } else if u == 2 {
        1024int * 1024
    } else if u == 3 {
        1024int * 1024 * 1024
    } else {
        1024int * 1024 * 1024 * 1024
    }
}

/// The rendering of a byte count: the scaled value with one decimal
/// digit and the unit suffix, and `0 B` for zero.
pub open spec fn spec_format_bytes(bytes: int) -> Seq<char> {
    if bytes == 0 {
        "0 B"@
    } else {
        let u = byte_scale(bytes);
        let tenths = bytes * 10 / scale_divisor(u);
        dec_digits(tenths / 10) + seq!['.'] + seq![digit_char(tenths % 10)] + unit_suffix(u)
    }
}

/// Render a byte count as a human-readable string with one decimal
/// digit and a unit from bytes to terabytes.  The decimal digit
/// truncates toward zero rather than rounding: `1535` bytes render as
/// `1.4 KB`.
pub fn format_bytes(bytes: u64) -> (r: String)
    ensures
        r@ == spec_format_bytes(bytes as int),
{
    if bytes == 0 {
        let mut s = String::new();
        crate::strutil::append_str(&mut s, "0 B");
        proof {
            assert(s@ =~= "0 B"@);
        }
        return s;
    }
    let kb: u64 = 1024;
    let mb: u64 = 1024 * 1024;
    let gb: u64 = 1024 * 1024 * 1024;
    let tb: u64 = 1024 * 1024 * 1024 * 1024;
    let (divisor, unit): (u64, &str) = if bytes < kb {
        (1, " B")
    } else if bytes < mb {
        (kb, " KB")
    } else if bytes < gb {
        (mb, " MB")
    } else if bytes < tb {
        (gb, " GB")
    } else {
        (tb, " TB")
    };
    proof {
        reveal_strlit(" B");
        reveal_strlit(" KB");
        reveal_strlit(" MB");
        reveal_strlit(" GB");
        reveal_strlit(" TB");
    }
    let tenths: u64 = if bytes <= u64::MAX / 10 {
        bytes * 10 / divisor
    } else {
        (bytes / divisor) * 10 + (bytes % divisor) * 10 / divisor
    };
    proof {
        if bytes > u64::MAX / 10 {
            assert((bytes as int / divisor as int) * 10 + (bytes as int % divisor as int) * 10
                / divisor as int == bytes as int * 10 / divisor as int) by (nonlinear_arith)
                requires divisor == 0x100_0000_0000u64 && bytes >= 0x100_0000_0000u64;
        }
    }
    let mut s = u64_to_decimal(tenths / 10);
    crate::strutil::push_char(&mut s, '.');
    crate::strutil::push_char(&mut s, digit_char_exec(tenths % 10));
    crate::strutil::append_str(&mut s, unit);
    proof {
        assert(s@ =~= spec_format_bytes(bytes as int));
    }
    s
}

/// The value of a digit string read in decimal.
pub open spec fn dec_value(s: Seq<char>) -> Option<int>
    decreases s.len(),
{
    if s.len() == 0 {
        None
    } else if s.len() == 1 {
        digit_value(s[0])
    } else {
        match (dec_value(s.drop_last()), digit_value(s.last())) {
            (Some(h), Some(d)) => Some(h * 10 + d),
            _ => None,
        }
    }
}

fn digit_value_exec(c: char) -> (r: Option<u64>)
    ensures
        match r {
            Some(v) => digit_value(c) == Some(v as int) && v < 10,
            None => digit_value(c) is None,
        },
{
    if c == '0' {
        Some(0)
    } else if c == '1' {
        Some(1)
    } else if c == '2' {
        Some(2)
    } else if c == '3' {
        Some(3)
    } else if c == '4' {
        Some(4)
    } else if c == '5' {
        Some(5)
    } else if c == '6' {
        Some(6)
    } else if c == '7' {
        Some(7)
    } else if c == '8' {
        Some(8)
    } else if c == '9' {
        Some(9)
    } else {
        None
    }
}

/// Powers of ten.
pub open spec fn pow10(n: nat) -> int
    decreases n,
{
    if n == 0 {
        1
    } else {
        10 * pow10((n - 1) as nat)
    }
}

proof fn lemma_dec_value_bound(s: Seq<char>)
    requires
        s.len() >= 1,
        forall|i: int| 0 <= i < s.len() ==> digit_value(#[trigger] s[i]) is Some,
    ensures
        dec_value(s) is Some,
        0 <= dec_value(s).unwrap() < pow10(s.len()),
    decreases s.len(),
{
    if s.len() == 1 {
        assert(digit_value(s[0]) is Some);
    } else {
        assert(forall|i: int| 0 <= i < s.drop_last().len() ==> digit_value(
            #[trigger] s.drop_last()[i],
        ) is Some);
        lemma_dec_value_bound(s.drop_last());
        assert(s.last() == s[s.len() - 1]);
        assert(digit_value(s[s.len() - 1]) is Some);
        let h = dec_value(s.drop_last()).unwrap();
        let d = digit_value(s.last()).unwrap();
        assert(0 <= d <= 9);
        assert(h * 10 + d < 10 * pow10((s.len() - 1) as nat)) by (nonlinear_arith)
            requires h < pow10((s.len() - 1) as nat) && 0 <= d <= 9 && h >= 0;
    }
}

/// The first position at or past `i` that does not hold a space.
pub open spec fn skip_spaces(s: Seq<char>, i: int) -> int
    decreases s.len() - i,
{
    if i < 0 || i >= s.len() {
        s.len() as int
    } else if s[i] == ' ' {
        skip_spaces(s, i + 1)
    } else {
        i
    }
}

/// The first position at or past `i` that does not hold a decimal
/// digit.
pub open spec fn digits_end_at(s: Seq<char>, i: int) -> int
    decreases s.len() - i,
{
    if i < 0 || i >= s.len() {
        s.len() as int
    } else if digit_value(s[i]) is Some {
        digits_end_at(s, i + 1)
    } else {
        i
    }
}

/// The non-space characters from `i` on, in order.
pub open spec fn nonspace_from(s: Seq<char>, i: int) -> Seq<char>
    decreases s.len() - i,
{
    if i < 0 || i >= s.len() {
        Seq::empty()
    } else if s[i] == ' ' {
        nonspace_from(s, i + 1)
    } else {
        seq![s[i]] + nonspace_from(s, i + 1)
    }
}

/// The multiplier a unit suffix stands for: empty or `b` is bytes, and
/// `k`, `m`, `g`, `t` scale by powers of 1024, each letter in either
/// case with an optional trailing `b`.
pub open spec fn spec_unit_multiplier(u: Seq<char>) -> Option<int> {
    if u.len() == 0 {
        Some(1)
    } else if u.len() > 2 {
        None
    } else if u.len() == 2 && !(u[1] == 'b' || u[1] == 'B') {
        None
    } else {
        let c0 = u[0];
        if (c0 == 'b' || c0 == 'B') && u.len() == 1 {
            Some(1)
        } else if c0 == 'k' || c0 == 'K' {
            Some(1024)
        } else if c0 == 'm' || c0 == 'M' {
            Some(1048576)
        } else if c0 == 'g' || c0 == 'G' {
            Some(1073741824)
        } else if c0 == 't' || c0 == 'T' {
            Some(1099511627776)
        } else {
            None
        }
    }
}

/// What parsing a byte string yields: optional leading spaces, one to
/// nineteen digits, an optional fraction of which the first nine
/// digits count, and a unit whose spaces are ignored.  The value is
/// the digits scaled by the unit, plus the fraction's share rounded
/// down; a missing number, an unknown unit or a value past `u64::MAX`
/// is an error.
pub open spec fn spec_parse_bytes(s: Seq<char>) -> Option<int> {
    let i0 = skip_spaces(s, 0);
    let i1 = digits_end_at(s, i0);
    if i1 == i0 || i1 - i0 > 19 {
        None
    } else if i1 < s.len() && s[i1] == '.' && digits_end_at(s, i1 + 1) == i1 + 1 {
        None
    } else {
        let whole = dec_value(s.subrange(i0, i1)).unwrap();
        let f1 = if i1 < s.len() && s[i1] == '.' {
            digits_end_at(s, i1 + 1)
        } else {
            i1
        };
        let taken: int = if f1 == i1 {
            0
        } else if f1 - (i1 + 1) > 9 {
            9
        } else {
            f1 - (i1 + 1)
        };
        let fv = if taken == 0 {
            0
        } else {
            dec_value(s.subrange(i1 + 1, i1 + 1 + taken)).unwrap()
        };
        let fscale = pow10(taken as nat);
        match spec_unit_multiplier(nonspace_from(s, f1)) {
            None => None,
            Some(mult) => {
                let total = whole * mult + (fv * mult) / fscale;
                if total > u64::MAX {
                    None
                } else {
                    Some(total)
                }
            },
        }
    }
}

/// The unit multipliers accepted after the number: bytes, kilo, mega,
/// giga, tera in powers of 1024; letters in either case, a trailing
/// `b` optional.
fn unit_multiplier(unit: &Vec<char>) -> (r: Option<u64>)
    ensures
        match r {
            Some(m) => spec_unit_multiplier(unit@) == Some(m as int) && 1 <= m <= 0x100_0000_0000,
            None => spec_unit_multiplier(unit@) is None,
        },
{
    if unit.len() == 0 {
        return Some(1);
    }
    let c0 = unit[0];
    let rest_ok = if unit.len() == 1 {
        true
    } else if unit.len() == 2 {
        let c1 = unit[1];
        c1 == 'b' || c1 == 'B'
    } else {
        false
    };
    if !rest_ok {
        return None;
    }
    if (c0 == 'b' || c0 == 'B') && unit.len() == 1 {
        Some(1)
    } else if c0 == 'k' || c0 == 'K' {
        Some(1024)
    } else if c0 == 'm' || c0 == 'M' {
        Some(1024 * 1024)
    } else if c0 == 'g' || c0 == 'G' {
        Some(1024 * 1024 * 1024)
    } else if c0 == 't' || c0 == 'T' {
        Some(1024u64 * 1024 * 1024 * 1024)
    } else {
        None
    }
}

proof fn lemma_pow10_vals()
    ensures
        pow10(18) == 0xDE0B6B3A7640000,
        pow10(19) == 0x8AC7230489E80000,
{
    assert(pow10(0) == 1);
    assert(pow10(1) == 10 * pow10(0));
    assert(pow10(2) == 10 * pow10(1));
    assert(pow10(3) == 10 * pow10(2));
    assert(pow10(4) == 10 * pow10(3));
    assert(pow10(5) == 10 * pow10(4));
    assert(pow10(6) == 10 * pow10(5));
    assert(pow10(7) == 10 * pow10(6));
    assert(pow10(8) == 10 * pow10(7));
    assert(pow10(9) == 10 * pow10(8));
    assert(pow10(10) == 10 * pow10(9));
    assert(pow10(11) == 10 * pow10(10));
    assert(pow10(12) == 10 * pow10(11));
    assert(pow10(13) == 10 * pow10(12));
    assert(pow10(14) == 10 * pow10(13));
    assert(pow10(15) == 10 * pow10(14));
    assert(pow10(16) == 10 * pow10(15));
    assert(pow10(17) == 10 * pow10(16));
    assert(pow10(18) == 10 * pow10(17));
    assert(pow10(19) == 10 * pow10(18));
}

/// Parse a human-readable byte count: optional spaces, a decimal
/// number of up to nineteen digits, an optional fraction of which the
/// first nine digits count, and an optional unit from bytes to
/// terabytes; the fraction's share of the unit rounds down.
pub fn parse_bytes(input: &str) -> (r: Option<u64>)
    ensures
        match r {
            Some(v) => spec_parse_bytes(input@) == Some(v as int),
            None => spec_parse_bytes(input@) is None,
        },
{
    let ghost s = input@;
    let n = input.unicode_len();
    let mut k: usize = 0;
    while k < n && input.get_char(k) == ' '
        invariant
            k <= n,
            n == s.len(),
            s == input@,
            skip_spaces(s, 0) == skip_spaces(s, k as int),
        decreases n - k,
    {
        k = k + 1;
    }
    let int_start = k;
    proof {
        assert(skip_spaces(s, int_start as int) == int_start as int);
        assert(skip_spaces(s, 0) == int_start as int);
    }
    while k < n && digit_value_exec(input.get_char(k)).is_some()
        invariant
            int_start <= k <= n,
            n == s.len(),
            s == input@,
            digits_end_at(s, int_start as int) == digits_end_at(s, k as int),
            forall|i: int| int_start <= i < k ==> digit_value(#[trigger] s[i]) is Some,
        decreases n - k,
    {
        k = k + 1;
    }
    let digits_end = k;
    proof {
        assert(digits_end_at(s, digits_end as int) == digits_end as int);
        assert(digits_end_at(s, int_start as int) == digits_end as int);
        lemma_pow10_vals();
        lemma_pow10_smalls();
        if digits_end > int_start && digits_end - int_start <= 19 {
            lemma_pow10_mono((digits_end - int_start) as nat, 19nat);
        }
    }
    if digits_end == int_start || digits_end - int_start > 19 {
        return None;
    }
    let mut value: u64 = 0;
    let mut j: usize = int_start;
    while j < digits_end
        invariant
            int_start <= j <= digits_end <= n,
            n == s.len(),
            s == input@,
            digits_end - int_start <= 19,
            forall|i: int| int_start <= i < digits_end ==> digit_value(#[trigger] s[i]) is Some,
            j > int_start ==> dec_value(s.subrange(int_start as int, j as int)) == Some(
                value as int,
            ),
            j == int_start ==> value == 0,
            value < pow10((j - int_start) as nat),
            pow10((digits_end - int_start) as nat) <= pow10(19),
            pow10(19) == 0x8AC7230489E80000,
        decreases digits_end - j,
    {
        let d = digit_value_exec(input.get_char(j)).unwrap();
        let ghost prefix = s.subrange(int_start as int, j as int);
        proof {
            lemma_pow10_mono((j - int_start) as nat, (digits_end - int_start - 1) as nat);
            assert(pow10((digits_end - int_start - 1) as nat) * 10 == pow10(
                (digits_end - int_start) as nat,
            ));
        }
        value = value * 10 + d;
        proof {
            let ext = s.subrange(int_start as int, j + 1 as int);
            assert(ext.drop_last() =~= prefix);
            assert(ext.last() == s[j as int]);
        }
        j = j + 1;
    }
    proof {
        assert(dec_value(s.subrange(int_start as int, digits_end as int)) == Some(value as int));
    }
    k = digits_end;
    let mut frac: u64 = 0;
    let mut frac_scale: u64 = 1;
    let ghost mut taken: int = 0;
    let ghost mut f1: int = digits_end as int;
    let ghost has_fraction = digits_end < n && s[digits_end as int] == '.';
    if k < n && input.get_char(k) == '.' {
        k = k + 1;
        let frac_start = k;
        while k < n && digit_value_exec(input.get_char(k)).is_some()
            invariant
                frac_start <= k <= n,
                n == s.len(),
                s == input@,
                frac_start == digits_end + 1,
                digits_end_at(s, frac_start as int) == digits_end_at(s, k as int),
                taken == (if k - frac_start > 9 {
                    9int
                } else {
                    (k - frac_start) as int
                }),
                frac_scale == pow10(taken as nat),
                taken == 0 ==> frac == 0,
                taken > 0 ==> dec_value(s.subrange(frac_start as int, frac_start + taken)) == Some(
                    frac as int,
                ),
                frac < frac_scale,
                frac_scale <= 0x3B9ACA00,
            decreases n - k,
        {
            let d = digit_value_exec(input.get_char(k)).unwrap();
            proof {
                lemma_pow10_smalls();
            }
            if frac_scale <= 0x1000_0000 {
                proof {
                    assert(taken <= 8) by {
                        if taken == 9 {
                            assert(pow10(9) == 0x3B9ACA00);
                        }
                    }
                    assert(taken == k - frac_start);
                }
                let ghost prefix = s.subrange(frac_start as int, frac_start + taken);
                frac = frac * 10 + d;
                frac_scale = frac_scale * 10;
                proof {
                    let ext = s.subrange(frac_start as int, frac_start + taken + 1);
                    if taken > 0 {
                        assert(ext.drop_last() =~= prefix);
                        assert(ext.last() == s[k as int]);
                    } else {
                        assert(ext.len() == 1);
                        assert(ext[0] == s[k as int]);
                    }
                    taken = taken + 1;
                }
            } else {
                proof {
                    assert(taken == 9) by {
                        if taken <= 8 {
                            lemma_pow10_mono(taken as nat, 8nat);
                            assert(pow10(8) == 0x5F5E100);
                        }
                    }
                }
            }
            k = k + 1;
        }
        if k == frac_start {
            proof {
                assert(digits_end_at(s, frac_start as int) == frac_start as int);
            }
            return None;
        }
        proof {
            f1 = k as int;
            assert(digits_end_at(s, frac_start as int) == k as int);
        }
    }
    proof {
        lemma_pow10_smalls();
        assert(f1 == (if has_fraction {
            digits_end_at(s, digits_end + 1)
        } else {
            digits_end as int
        }));
        assert(k as int == f1);
    }
    let ghost spec_taken: int = if f1 == digits_end as int {
        0
    } else if f1 - (digits_end + 1) > 9 {
        9
    } else {
        f1 - (digits_end + 1)
    };
    proof {
        assert(taken == spec_taken);
    }
    while k < n && input.get_char(k) == ' '
        invariant
            k <= n,
            n == s.len(),
            s == input@,
            nonspace_from(s, f1) == nonspace_from(s, k as int),
        decreases n - k,
    {
        k = k + 1;
    }
    let mut unit: Vec<char> = Vec::new();
    while k < n
        invariant
            k <= n,
            n == s.len(),
            s == input@,
            nonspace_from(s, f1) =~= unit@ + nonspace_from(s, k as int),
        decreases n - k,
    {
        let ghost pre = unit@;
        let c = input.get_char(k);
        if c != ' ' {
            unit.push(c);
            proof {
                assert(nonspace_from(s, k as int) =~= seq![s[k as int]] + nonspace_from(
                    s,
                    k + 1 as int,
                ));
                assert(unit@ + nonspace_from(s, k + 1 as int) =~= pre + nonspace_from(
                    s,
                    k as int,
                ));
            }
        }
        k = k + 1;
    }
    proof {
        assert(nonspace_from(s, n as int) =~= Seq::<char>::empty());
        assert(unit@ =~= nonspace_from(s, f1));
    }
    let mult = match unit_multiplier(&unit) {
        None => {
            return None;
        },
        Some(m) => m,
    };
    proof {
        lemma_pow10_smalls();
        assert(frac_scale == pow10(spec_taken as nat));
        if spec_taken > 0 {
            assert(dec_value(s.subrange(digits_end + 1, digits_end + 1 + spec_taken)) == Some(
                frac as int,
            ));
        }
    }
    if value > u64::MAX / mult {
        proof {
            lemma_mul_div_gt(value as int, mult as int, u64::MAX as int);
            assert((value as int) * (mult as int) + ((frac as int) * (mult as int)) / (
            frac_scale as int) > u64::MAX) by (nonlinear_arith)
                requires
                    (value as int) * (mult as int) > u64::MAX,
                    frac >= 0,
                    mult >= 1,
                    frac_scale >= 1,
            ;
        }
        return None;
    }
    proof {
        lemma_mul_div_le(value as int, mult as int, u64::MAX as int);
    }
    let whole = value * mult;
    let extra: u64 = if frac_scale > 1 {
        proof {
            assert((frac as int) * (mult as int) < (frac_scale as int) * (mult as int)) by (
            nonlinear_arith)
                requires
                    frac < frac_scale,
                    mult >= 1,
            ;
            vstd::arithmetic::div_mod::lemma_multiply_divide_lt(
                (frac as int) * (mult as int),
                frac_scale as int,
                mult as int,
            );
            assert((frac_scale as int) * (mult as int) == (mult as int) * (frac_scale as int)) by (
            nonlinear_arith);
            assert((frac as u128) * (mult as u128) <= 0xFFFFFFFFFFFFFFFFu128
                * 0xFFFFFFFFFFFFFFFFu128) by (nonlinear_arith)
                requires
                    frac as u128 <= 0xFFFFFFFFFFFFFFFFu128,
                    mult as u128 <= 0xFFFFFFFFFFFFFFFFu128,
            ;
        }
        let e = (frac as u128) * (mult as u128) / (frac_scale as u128);
        e as u64
    } else {
        0
    };
    proof {
        assert(extra as int == ((frac as int) * (mult as int)) / (frac_scale as int));
    }
    if whole > u64::MAX - extra {
        return None;
    }
    Some(whole + extra)
}

proof fn lemma_pow10_smalls()
    ensures
        pow10(0) == 1,
        pow10(1) == 10,
        pow10(2) == 100,
        pow10(3) == 1000,
        pow10(4) == 10000,
        pow10(5) == 100000,
        pow10(6) == 1000000,
        pow10(7) == 10000000,
        pow10(8) == 0x5F5E100,
        pow10(9) == 0x3B9ACA00,
{
    assert(pow10(0) == 1);
    assert(pow10(1) == 10 * pow10(0));
    assert(pow10(2) == 10 * pow10(1));
    assert(pow10(3) == 10 * pow10(2));
    assert(pow10(4) == 10 * pow10(3));
    assert(pow10(5) == 10 * pow10(4));
    assert(pow10(6) == 10 * pow10(5));
    assert(pow10(7) == 10 * pow10(6));
    assert(pow10(8) == 10 * pow10(7));
    assert(pow10(9) == 10 * pow10(8));
}

proof fn lemma_mul_div_gt(v: int, m: int, cap: int)
    requires
        m >= 1,
        v >= 0,
        cap >= 0,
        v > cap / m,
    ensures
        v * m > cap,
{
    vstd::arithmetic::div_mod::lemma_fundamental_div_mod(cap, m);
    assert(v * m >= (cap / m + 1) * m) by (nonlinear_arith)
        requires
            v >= cap / m + 1,
            m >= 1,
    ;
    assert((cap / m + 1) * m == (cap / m) * m + m) by (nonlinear_arith);
    assert(cap % m < m) by {
        vstd::arithmetic::div_mod::lemma_mod_bound(cap, m);
    }
}

proof fn lemma_mul_div_le(v: int, m: int, cap: int)
    requires
        m >= 1,
        v >= 0,
        cap >= 0,
        v <= cap / m,
    ensures
        v * m <= cap,
{
    vstd::arithmetic::div_mod::lemma_fundamental_div_mod(cap, m);
    assert(v * m <= (cap / m) * m) by (nonlinear_arith)
        requires
            v <= cap / m,
            m >= 1,
            v >= 0,
    ;
    assert(cap % m >= 0) by {
        vstd::arithmetic::div_mod::lemma_mod_bound(cap, m);
    }
}

proof fn lemma_pow10_pos(n: nat)
    ensures
        pow10(n) >= 1,
    decreases n,
{
    if n > 0 {
        lemma_pow10_pos((n - 1) as nat);
    }
}

/// Relies on std::collections::hash_map::DefaultHasher: instances made
/// with `new` hash equal input to equal output within one program, but
/// the value itself is the hasher's and may change between standard
/// library releases, so nothing is stated of it.
#[verifier::external_body]
pub fn hash_bytes(data: &Vec<u8>) -> u64 {
    let mut hasher = std::collections::hash_map::DefaultHasher::new();
    std::hash::Hash::hash(data.as_slice(), &mut hasher);
    std::hash::Hasher::finish(&hasher)
}

proof fn lemma_pow10_mono(a: nat, b: nat)
    requires
        a <= b,
    ensures
        pow10(a) <= pow10(b),
    decreases b,
{
    lemma_pow10_pos(a);
    if a < b {
        lemma_pow10_mono(a, (b - 1) as nat);
        lemma_pow10_pos((b - 1) as nat);
        assert(pow10(b) == 10 * pow10((b - 1) as nat));
    }
}

} // verus!
