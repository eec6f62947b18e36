//! Human-readable formatting of counts and sizes, and the reverse parse of
//! size strings, all in exact integer arithmetic.
//!
//! Rounding to a fixed number of decimals is round-half-to-even on the exact
//! rational value.  A size string's fraction is read to twenty digits —
//! beyond any precision the inputs carry.

use vstd::prelude::*;
use vstd::arithmetic::mul::lemma_mul_upper_bound;
use vstd::string::*;

use crate::text::{
    dec_u64, dec_val, digit_char, digit_str, digits_only, is_dec_digit, is_dec_digit_char,
    lemma_dec_val_nonneg, push_char, split_char, split_spec, str_equal, trim_spaces, trim_spec,
    u64_to_dec,
};

verus! {

// ---------------------------------------------------------------------------
// Powers
// ---------------------------------------------------------------------------
/// Powers of 1024 up to the petabyte.
pub open spec fn pow1024(e: int) -> int {
    if e <= 0 {
        1
    } else if e == 1 {
        1024
    } else if e == 2 {
        1048576
    } else if e == 3 {
        1073741824
    } else if e == 4 {
        1099511627776
    } else {
        1125899906842624
    }
}

/// Powers of ten up to twenty, the precision sizes are read with.
pub open spec fn pow10(k: int) -> int {
    if k <= 0 {
        1
    } else if k == 1 {
        10
    } else if k == 2 {
        100
    } else if k == 3 {
        1000
    } else if k == 4 {
        10000
    } else if k == 5 {
        100000
    } else if k == 6 {
        1000000
    } else if k == 7 {
        10000000
    } else if k == 8 {
        100000000
    } else if k == 9 {
        1000000000
    } else if k == 10 {
        10000000000
    } else if k == 11 {
        100000000000
    } else if k == 12 {
        1000000000000
    } else if k == 13 {
        10000000000000
    } else if k == 14 {
        100000000000000
    } else if k == 15 {
        1000000000000000
    } else if k == 16 {
        10000000000000000
    } else if k == 17 {
        100000000000000000
    } else if k == 18 {
        1000000000000000000
    } else if k == 19 {
        10000000000000000000
    } else {
        100000000000000000000
    }
}

/// Exec twin of [`pow10`] for exponents up to twenty.
fn pow10_u128(k: usize) -> (r: u128)
    requires
        k <= 20,
    ensures
        r as int == pow10(k as int),
{
    let mut acc: u128 = 1;
    let mut i: usize = 0;
    while i < k
        invariant
            0 <= i <= k <= 20,
            acc as int == pow10(i as int),
        decreases k - i,
    {
        acc = acc * 10;
        i = i + 1;
    }
    acc
}

// ---------------------------------------------------------------------------
// Rounding
// ---------------------------------------------------------------------------
/// The nearest integer to `num / den`, ties to even.
pub open spec fn round_half_even(num: int, den: int) -> int {
    let q = num / den;
    let rm = num % den;
    if 2 * rm > den || (2 * rm == den && q % 2 == 1) {
        q + 1
    } else {
        q
    }
}

/// Exec twin of [`round_half_even`].
fn round_div_even(num: u128, den: u128) -> (r: u128)
    requires
        1 <= den <= u64::MAX,
        num < u128::MAX,
    ensures
        r as int == round_half_even(num as int, den as int),
{
    let q = num / den;
    let rm = num % den;
    if 2 * rm > den || (2 * rm == den && q % 2 == 1) {
        q + 1
    } else {
        q
    }
}

// ---------------------------------------------------------------------------
// format_number
// ---------------------------------------------------------------------------
/// Digits grouped in threes from the right, a space between groups.
pub open spec fn group3(s: Seq<char>) -> Seq<char>
    decreases s.len(),
{
    if s.len() <= 3 {
        s
    } else {
        group3(s.take(s.len() - 3)) + seq![' '] + s.skip(s.len() - 3)
    }
}

/// Group a rendered number in threes.
fn group3_str(s: &str) -> (r: String)
    ensures
        r@ == group3(s@),
    decreases s@.len(),
{
    let n = s.unicode_len();
    if n <= 3 {
        s.to_owned()
    } else {
        let head = s.substring_char(0, n - 3);
        let tail = s.substring_char(n - 3, n);
        proof {
            assert(head@ =~= s@.take(s@.len() - 3));
            assert(tail@ =~= s@.skip(s@.len() - 3));
        }
        let mut r = group3_str(head);
        r.append(" ");
        r.append(tail);
        proof {
            reveal_strlit(" ");
            assert(" "@ =~= seq![' ']);
            assert(r@ =~= group3(s@));
        }
        r
    }
}

/// A number with its digits grouped in threes: `1234567` reads `1 234 567`.
pub fn format_number(num: u64) -> (r: String)
    ensures
        r@ == group3(dec_u64(num as int)),
{
    let rendered = u64_to_dec(num);
    group3_str(rendered.as_str())
}

// ---------------------------------------------------------------------------
// format_bytes
// ---------------------------------------------------------------------------
/// The unit a size is shown in.
pub open spec fn unit_str(e: int) -> Seq<char> {
    if e <= 0 {
        "B"@
    } else if e == 1 {
        "KB"@
    } else if e == 2 {
        "MB"@
    } else if e == 3 {
        "GB"@
    } else if e == 4 {
        "TB"@
    } else {
        "PB"@
    }
}

/// The unit exponent of a positive size: the largest power of 1024 at or
/// under it, capped at the petabyte.
pub open spec fn size_exp(bytes: int) -> int {
    if bytes >= pow1024(5) {
        5
    } else if bytes >= pow1024(4) {
        4
    } else if bytes >= pow1024(3) {
        3
    } else if bytes >= pow1024(2) {
        2
    } else if bytes >= pow1024(1) {
        1
    } else {
        0
    }
}

/// A scaled value with one decimal: `s` is the value times ten.
pub open spec fn render_1dec(s: int) -> Seq<char> {
    dec_u64(s / 10) + "."@ + seq![digit_char(s % 10)]
}

/// A scaled value with two decimals: `s` is the value times a hundred.
pub open spec fn render_2dec(s: int) -> Seq<char> {
    dec_u64(s / 100) + "."@ + seq![digit_char((s / 10) % 10), digit_char(s % 10)]
}

/// A byte count in the largest unit at or under it, with two decimals below
/// ten units, one below a hundred, and none above.
pub open spec fn format_bytes_spec(bytes: int) -> Seq<char> {
    if bytes == 0 {
        "0 B"@
    } else {
        let e = size_exp(bytes);
        let p = pow1024(e);
        if bytes >= 100 * p {
            dec_u64(round_half_even(bytes, p)) + " "@ + unit_str(e)
        } else if bytes >= 10 * p {
            render_1dec(round_half_even(10 * bytes, p)) + " "@ + unit_str(e)
        } else {
            render_2dec(round_half_even(100 * bytes, p)) + " "@ + unit_str(e)
        }
    }
}

/// Render a scaled value with two decimals.
fn render_2dec_str(s: u64) -> (r: String)
    ensures
        r@ == render_2dec(s as int),
{
    let mut out = u64_to_dec(s / 100);
    out.append(".");
    out.append(digit_str((s / 10) % 10));
    out.append(digit_str(s % 10));
    proof {
        assert(out@ =~= render_2dec(s as int));
    }
    out
}

/// Render a scaled value with one decimal.
fn render_1dec_str(s: u64) -> (r: String)
    ensures
        r@ == render_1dec(s as int),
{
    let mut out = u64_to_dec(s / 10);
    out.append(".");
    out.append(digit_str(s % 10));
    proof {
        assert(out@ =~= render_1dec(s as int));
    }
    out
}

/// The exec unit name.
fn unit_name(e: u32) -> (r: &'static str)
    ensures
        r@ == unit_str(e as int),
{
    if e == 0 {
        "B"
    } else if e == 1 {
        "KB"
    } else if e == 2 {
        "MB"
    } else if e == 3 {
        "GB"
    } else if e == 4 {
        "TB"
    } else {
        "PB"
    }
}

/// A byte count as text: `1536` reads `1.50 KB`.
pub fn format_bytes(bytes: u64) -> (r: String)
    ensures
        r@ == format_bytes_spec(bytes as int),
{
    if bytes == 0 {
        return "0 B".to_owned();
    }
    let (e, p): (u32, u64) = if bytes >= 1125899906842624 {
        (5, 1125899906842624)
    } else if bytes >= 1099511627776 {
        (4, 1099511627776)
    } else if bytes >= 1073741824 {
        (3, 1073741824)
    } else if bytes >= 1048576 {
        (2, 1048576)
    } else if bytes >= 1024 {
        (1, 1024)
    } else {
        (0, 1)
    };
    proof {
        assert(e as int == size_exp(bytes as int));
        assert(p as int == pow1024(e as int));
    }
    let wide = bytes as u128;
    let pw = p as u128;
    let mut out: String;
    if wide >= 100 * pw {
        let s = round_div_even(wide, pw);
        assert(s <= u64::MAX);
        out = u64_to_dec(s as u64);
    } else if wide >= 10 * pw {
        let s = round_div_even(10 * wide, pw);
        assert(s <= 1000);
        out = render_1dec_str(s as u64);
    } else {
        let s = round_div_even(100 * wide, pw);
        assert(s <= 1000);
        out = render_2dec_str(s as u64);
    }
    out.append(" ");
    out.append(unit_name(e));
    proof {
        assert(out@ =~= format_bytes_spec(bytes as int));
    }
    out
}

/// A byte count with a fixed two decimals in the largest unit at or under
/// it, up to the terabyte; whole bytes below a kilobyte.
pub open spec fn format_bytes_fixed2_spec(bytes: int) -> Seq<char> {
    if bytes >= pow1024(4) {
        render_2dec(round_half_even(100 * bytes, pow1024(4))) + " TB"@
    } else if bytes >= pow1024(3) {
        render_2dec(round_half_even(100 * bytes, pow1024(3))) + " GB"@
    } else if bytes >= pow1024(2) {
        render_2dec(round_half_even(100 * bytes, pow1024(2))) + " MB"@
    } else if bytes >= pow1024(1) {
        render_2dec(round_half_even(100 * bytes, pow1024(1))) + " KB"@
    } else {
        dec_u64(bytes) + " B"@
    }
}

/// A byte count as text with fixed two decimals: `1536` reads `1.50 KB`,
/// `512` reads `512 B`.
pub fn format_bytes_fixed2(bytes: u64) -> (r: String)
    ensures
        r@ == format_bytes_fixed2_spec(bytes as int),
{
    let wide = bytes as u128;
    let mut out: String;
    let unit: &'static str;
    if bytes >= 1099511627776 {
        let s = round_div_even(100 * wide, 1099511627776);
        assert(s <= u64::MAX);
        out = render_2dec_str(s as u64);
        unit = " TB";
    } else if bytes >= 1073741824 {
        let s = round_div_even(100 * wide, 1073741824);
        assert(s <= u64::MAX);
        out = render_2dec_str(s as u64);
        unit = " GB";
    } else if bytes >= 1048576 {
        let s = round_div_even(100 * wide, 1048576);
        assert(s <= u64::MAX);
        out = render_2dec_str(s as u64);
        unit = " MB";
    } else if bytes >= 1024 {
        let s = round_div_even(100 * wide, 1024);
        assert(s <= u64::MAX);
        out = render_2dec_str(s as u64);
        unit = " KB";
    } else {
        out = u64_to_dec(bytes);
        unit = " B";
    }
    out.append(unit);
    proof {
        assert(out@ =~= format_bytes_fixed2_spec(bytes as int));
    }
    out
}

// ---------------------------------------------------------------------------
// parse_size_to_bytes
// ---------------------------------------------------------------------------
/// The characters a size's numeric part is made of.
pub open spec fn is_num_char(c: char) -> bool {
    is_dec_digit(c) || c == '.'
}

/// The digits-and-point characters of a size string, in order.
pub open spec fn filter_num(s: Seq<char>) -> Seq<char>
    decreases s.len(),
{
    if s.len() == 0 {
        Seq::empty()
    } else {
        filter_num(s.drop_last()) + (if is_num_char(s.last()) {
            seq![s.last()]
        } else {
            Seq::empty()
        })
    }
}

/// The ASCII letters of a size string, lowered, in order: the unit.
pub open spec fn unit_lower(s: Seq<char>) -> Seq<char>
    decreases s.len(),
{
    if s.len() == 0 {
        Seq::empty()
    } else {
        unit_lower(s.drop_last()) + (if is_ascii_alpha(s.last()) {
            seq![lower_size_char(s.last())]
        } else {
            Seq::empty()
        })
    }
}

/// An ASCII letter.
pub open spec fn is_ascii_alpha(c: char) -> bool {
    (97 <= c as u32 <= 122) || (65 <= c as u32 <= 90)
}

/// The lowercase of the letters that can occur in a size unit; anything else
/// is left alone (and then matches no unit either way).
pub open spec fn lower_size_char(c: char) -> char {
    if c == 'B' {
        'b'
    } else if c == 'K' {
        'k'
    } else if c == 'M' {
        'm'
    } else if c == 'G' {
        'g'
    } else if c == 'T' {
        't'
    } else {
        c
    }
}

/// The multiplier a unit stands for; an unknown unit counts bytes.
pub open spec fn size_unit_multiplier(unit_lower: Seq<char>) -> int {
    if unit_lower == "b"@ {
        1
    } else if unit_lower == "kb"@ {
        1024
    } else if unit_lower == "mb"@ {
        1048576
    } else if unit_lower == "gb"@ {
        1073741824
    } else if unit_lower == "tb"@ {
        1099511627776
    } else {
        1
    }
}

/// A fraction's first twenty digits as a value out of `10^20`.
pub open spec fn frac20(f: Seq<char>) -> int {
    if f.len() >= 20 {
        dec_val(f.take(20))
    } else {
        dec_val(f) * pow10(20 - f.len())
    }
}

/// The numeric part of a size, scaled by `10^20`: either plain digits or
/// digits around one point; anything else counts as zero, as does an empty
/// numeric part.
pub open spec fn size_num_scaled(num: Seq<char>) -> int {
    let parts = split_spec(num, '.');
    if parts.len() == 1 && parts[0].len() > 0 && digits_only(parts[0]) {
        dec_val(parts[0]) * pow10(20)
    } else if parts.len() == 2 && parts[0].len() + parts[1].len() > 0 && digits_only(parts[0])
        && digits_only(parts[1]) {
        dec_val(parts[0]) * pow10(20) + frac20(parts[1])
    } else {
        0
    }
}

/// What parsing a size string yields: trim it; `-` and the empty string are
/// zero; otherwise read the digits-and-point characters as the number, the
/// ASCII letters (case-insensitively) as the unit, and take the floor of
/// their product, saturating at the largest representable count.
pub open spec fn parse_size_spec(s: Seq<char>) -> int {
    let t = trim_spec(s);
    if t.len() == 0 || t == "-"@ {
        0
    } else {
        let num = filter_num(t);
        let unit = unit_lower(t);
        let scaled = size_num_scaled(num);
        let mult = size_unit_multiplier(unit);
        let v = (scaled / pow10(20)) * mult + ((scaled % pow10(20)) * mult) / pow10(20);
        if v >= u64::MAX {
            u64::MAX as int
        } else {
            v
        }
    }
}

/// Exec twin of [`lower_size_char`].
fn lower_size(c: char) -> (r: char)
    ensures
        r == lower_size_char(c),
{
    if c == 'B' {
        'b'
    } else if c == 'K' {
        'k'
    } else if c == 'M' {
        'm'
    } else if c == 'G' {
        'g'
    } else if c == 'T' {
        't'
    } else {
        c
    }
}

/// Scan a digit string's value with saturation: `None` when a non-digit
/// occurs, otherwise the value and whether it overflowed the `u64` range.
fn scan_digits(s: &str) -> (r: Option<(u64, bool)>)
    ensures
        r is None <==> !digits_only(s@),
        r matches Some(p) ==> digits_only(s@) && (!p.1 ==> p.0 as int == dec_val(s@)) && (p.1
            ==> dec_val(s@) > u64::MAX),
{
    let n = s.unicode_len();
    let mut acc: u128 = 0;
    let mut over = false;
    let mut i: usize = 0;
    proof {
        assert(s@.take(0) =~= Seq::<char>::empty());
    }
    #[verifier::loop_isolation(false)]
    while i < n
        invariant
            0 <= i <= n,
            digits_only(s@.take(i as int)),
            !over ==> acc as int == dec_val(s@.take(i as int)) && acc <= u64::MAX,
            over ==> dec_val(s@.take(i as int)) > u64::MAX,
        decreases n - i,
    {
        let c = s.get_char(i);
        if !is_dec_digit_char(c) {
            proof {
                assert(s@.take(n as int)[i as int] == c);
                assert(s@.take(n as int) =~= s@);
            }
            return None;
        }
        let ghost pre = s@.take(i as int);
        let ghost pre1 = s@.take(i as int + 1);
        proof {
            assert(pre1.drop_last() =~= pre);
            assert(pre1.last() == c);
            assert forall|k: int| 0 <= k < pre1.len() implies is_dec_digit(#[trigger] pre1[k]) by {
                if k < pre.len() {
                    assert(pre1[k] == pre[k]);
                } else {
                    assert(pre1[k] == c);
                }
            }
            lemma_dec_val_nonneg(pre);
        }
        if !over {
            acc = acc * 10 + ((c as u32 - 48) as u128);
            if acc > u64::MAX as u128 {
                over = true;
            }
        } else {
            proof {
                assert(dec_val(pre1) == dec_val(pre) * 10 + (c as u32 - 48));
                assert(dec_val(pre) * 10 >= dec_val(pre)) by (nonlinear_arith)
                    requires
                        dec_val(pre) >= 0,
                ;
            }
        }
        i = i + 1;
    }
    proof {
        assert(s@.take(n as int) =~= s@);
    }
    Some((if over { u64::MAX } else { acc as u64 }, over))
}

/// Scan a fraction's first twenty digits: `None` when a non-digit occurs,
/// otherwise its value out of `10^20`.
fn scan_frac20(s: &str) -> (r: Option<u128>)
    ensures
        r is None <==> !digits_only(s@),
        r matches Some(f) ==> digits_only(s@) && f as int == frac20(s@) && (f as int) < pow10(20),
{
    let n = s.unicode_len();
    let mut acc: u128 = 0;
    let mut i: usize = 0;
    proof {
        assert(s@.take(0) =~= Seq::<char>::empty());
    }
    #[verifier::loop_isolation(false)]
    while i < n
        invariant
            0 <= i <= n,
            digits_only(s@.take(i as int)),
            i <= 20 ==> acc as int == dec_val(s@.take(i as int)) && (acc as int) < pow10(i as int),
            i > 20 ==> acc as int == dec_val(s@.take(20)) && (acc as int) < pow10(20),
        decreases n - i,
    {
        let c = s.get_char(i);
        if !is_dec_digit_char(c) {
            proof {
                assert(s@.take(n as int)[i as int] == c);
                assert(s@.take(n as int) =~= s@);
            }
            return None;
        }
        let ghost pre = s@.take(i as int);
        let ghost pre1 = s@.take(i as int + 1);
        proof {
            assert(pre1.drop_last() =~= pre);
            assert(pre1.last() == c);
            assert forall|k: int| 0 <= k < pre1.len() implies is_dec_digit(#[trigger] pre1[k]) by {
                if k < pre.len() {
                    assert(pre1[k] == pre[k]);
                } else {
                    assert(pre1[k] == c);
                }
            }
        }
        if i < 20 {
            acc = acc * 10 + ((c as u32 - 48) as u128);
        } else {
            proof {
                assert(s@.take(i as int + 1).take(20) =~= s@.take(20));
            }
        }
        i = i + 1;
    }
    proof {
        assert(s@.take(n as int) =~= s@);
        if n < 20 {
        } else {
            assert(s@.take(20) =~= s@.take(20));
        }
    }
    if n >= 20 {
        Some(acc)
    } else {
        let scale = pow10_u128((20 - n) as usize);
        proof {
            lemma_dec_val_nonneg(s@);
            lemma_mul_upper_bound(acc as int, pow10(n as int) - 1, scale as int, pow10(
                20 - n as int,
            ));
            assert(pow10(n as int) * pow10(20 - n as int) == pow10(20));
        }
        Some(acc * scale)
    }
}

/// Parse a size string such as `1.5mb` into bytes, rounding down; dashes,
/// empty strings and unreadable numbers count zero, an unknown unit counts
/// bytes, and a value beyond the largest representable count saturates.
pub fn parse_size_to_bytes(size: &str) -> (r: u64)
    ensures
        r as int == parse_size_spec(size@),
{
    let trimmed = trim_spaces(size);
    if trimmed.is_empty() || str_equal(trimmed, "-") {
        return 0;
    }
    let ghost t = trim_spec(size@);
    let n = trimmed.unicode_len();
    let mut num = String::new();
    let mut unit = String::new();
    let mut i: usize = 0;
    proof {
        assert(t.take(0) =~= Seq::<char>::empty());
        assert(num@ =~= filter_num(t.take(0)));
        assert(unit@ =~= unit_lower(t.take(0)));
    }
    #[verifier::loop_isolation(false)]
    while i < n
        invariant
            0 <= i <= n,
            num@ == filter_num(t.take(i as int)),
            unit@ == unit_lower(t.take(i as int)),
        decreases n - i,
    {
        let c = trimmed.get_char(i);
        let ghost pre = t.take(i as int);
        let ghost pre1 = t.take(i as int + 1);
        proof {
            assert(pre1.drop_last() =~= pre);
            assert(pre1.last() == c);
        }
        let u = c as u32;
        if is_dec_digit_char(c) || c == '.' {
            push_char(&mut num, c);
        }
        proof {
            if is_num_char(c) {
                assert(filter_num(pre1) =~= filter_num(pre).push(c));
            } else {
                assert(filter_num(pre1) =~= filter_num(pre));
            }
            if is_ascii_alpha(c) {
                assert(unit_lower(pre1) =~= unit_lower(pre).push(lower_size_char(c)));
            } else {
                assert(unit_lower(pre1) =~= unit_lower(pre));
            }
        }
        if (97 <= u && u <= 122) || (65 <= u && u <= 90) {
            push_char(&mut unit, lower_size(c));
        }
        i = i + 1;
    }
    proof {
        assert(t.take(n as int) =~= t);
    }
    let mult: u64 = if str_equal(unit.as_str(), "b") {
        1
    } else if str_equal(unit.as_str(), "kb") {
        1024
    } else if str_equal(unit.as_str(), "mb") {
        1048576
    } else if str_equal(unit.as_str(), "gb") {
        1073741824
    } else if str_equal(unit.as_str(), "tb") {
        1099511627776
    } else {
        1
    };
    proof {
        assert(mult as int == size_unit_multiplier(unit@));
    }
    let parts = split_char(num.as_str(), '.');
    let ghost spec_parts = split_spec(num@, '.');
    let mut int_sat: u64 = 0;
    let mut int_over = false;
    let mut frac: u128 = 0;
    let mut valid = false;
    if parts.len() == 1 {
        if !parts[0].as_str().is_empty() {
            match scan_digits(parts[0].as_str()) {
                Some((v, o)) => {
                    int_sat = v;
                    int_over = o;
                    valid = true;
                },
                None => {},
            }
        }
    } else if parts.len() == 2 {
        if !(parts[0].as_str().is_empty() && parts[1].as_str().is_empty()) {
            match scan_digits(parts[0].as_str()) {
                Some((v, o)) => {
                    match scan_frac20(parts[1].as_str()) {
                        Some(f) => {
                            int_sat = v;
                            int_over = o;
                            frac = f;
                            valid = true;
                        },
                        None => {},
                    }
                },
                None => {},
            }
        }
    }
    proof {
        assert(spec_parts[0] == parts@.map_values(|p: String| p@)[0]);
        if spec_parts.len() >= 2 {
            assert(spec_parts[1] == parts@.map_values(|p: String| p@)[1]);
        }
    }
    if !valid {
        proof {
            assert(size_num_scaled(num@) == 0);
        }
        return 0;
    }
    let p20 = pow10_u128(20);
    let ghost scaled = size_num_scaled(num@);
    if int_over {
        proof {
            lemma_size_overflow(num@, mult as int);
        }
        return u64::MAX;
    }
    proof {
        assert(scaled == int_sat * pow10(20) + frac);
        lemma_scaled_split(int_sat as int, frac as int, mult as int);
    }
    proof {
        lemma_mul_upper_bound(int_sat as int, u64::MAX as int, mult as int, 1099511627776);
        lemma_mul_upper_bound(frac as int, pow10(20) - 1, mult as int, 1099511627776);
    }
    let total: u128 = (int_sat as u128) * (mult as u128) + (frac * (mult as u128)) / p20;
    if total > u64::MAX as u128 {
        u64::MAX
    } else {
        total as u64
    }
}

/// When the integer part alone exceeds the representable range, the result
/// saturates whatever the fraction and the unit.
proof fn lemma_size_overflow(num: Seq<char>, mult: int)
    requires
        mult >= 1,
        size_num_scaled(num) / pow10(20) > u64::MAX,
    ensures
        (size_num_scaled(num) / pow10(20)) * mult + ((size_num_scaled(num) % pow10(20)) * mult)
            / pow10(20) >= u64::MAX,
{
    let i = size_num_scaled(num) / pow10(20);
    let f = size_num_scaled(num) % pow10(20);
    assert(i * mult >= i) by (nonlinear_arith)
        requires
            i >= 0,
            mult >= 1,
    ;
    assert(f * mult >= 0) by (nonlinear_arith)
        requires
            f >= 0,
            mult >= 0,
    ;
    assert((f * mult) / pow10(20) >= 0);
}

/// Splitting the scaled number at the twenty-digit point: the quotient is
/// the integer part, the remainder is the fraction.
proof fn lemma_scaled_split(i: int, f: int, mult: int)
    requires
        0 <= i,
        0 <= f < pow10(20),
    ensures
        (i * pow10(20) + f) / pow10(20) == i,
        (i * pow10(20) + f) % pow10(20) == f,
{
    let p = pow10(20);
    assert((i * p + f) / p == i && (i * p + f) % p == f) by (nonlinear_arith)
        requires
            0 <= i,
            0 <= f < p,
            p > 0,
    ;
}

} // verus!
