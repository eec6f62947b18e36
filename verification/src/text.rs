//! Small verified text utilities shared across the library: decimal
//! rendering and parsing, whitespace trimming, equality, splitting and
//! joining.  Everything is specified over `Seq<char>` views.

use vstd::prelude::*;
use vstd::string::*;

verus! {

// ---------------------------------------------------------------------------
// Characters
// ---------------------------------------------------------------------------
/// ASCII whitespace, the only kind the key file can contain.
pub open spec fn is_space(c: char) -> bool {
    c == ' ' || c == '\t' || c == '\n' || c == '\r'
}

/// Exec twin of [`is_space`].
pub fn is_space_char(c: char) -> (r: bool)
    ensures
        r == is_space(c),
{
    c == ' ' || c == '\t' || c == '\n' || c == '\r'
}

/// A decimal digit.
pub open spec fn is_dec_digit(c: char) -> bool {
    48 <= c as u32 <= 57
}

/// Exec twin of [`is_dec_digit`].
pub fn is_dec_digit_char(c: char) -> (r: bool)
    ensures
        r == is_dec_digit(c),
{
    let u = c as u32;
    48 <= u && u <= 57
}

/// The numeric value of a decimal digit character.
pub open spec fn dec_digit_val(c: char) -> int {
    c as u32 - 48
}

/// The character for a digit value below ten.
pub open spec fn digit_char(d: int) -> char {
    if d == 0 {
        '0'
    } else if d == 1 {
        '1'
    } else if d == 2 {
        '2'
    } else if d == 3 {
        '3'
    } else if d == 4 {
        '4'
    } else if d == 5 {
        '5'
    } else if d == 6 {
        '6'
    } else if d == 7 {
        '7'
    } else if d == 8 {
        '8'
    } else {
        '9'
    }
}

/// The one-character string for a digit value below ten.
pub fn digit_str(d: u64) -> (r: &'static str)
    requires
        d < 10,
    ensures
        r@ =~= seq![digit_char(d as int)],
{
    proof {
        reveal_strlit("0");
        reveal_strlit("1");
        reveal_strlit("2");
        reveal_strlit("3");
        reveal_strlit("4");
        reveal_strlit("5");
        reveal_strlit("6");
        reveal_strlit("7");
        reveal_strlit("8");
        reveal_strlit("9");
    }
    if d == 0 {
        "0"
    } else if d == 1 {
        "1"
    } else if d == 2 {
        "2"
    } else if d == 3 {
        "3"
    } else if d == 4 {
        "4"
    } else if d == 5 {
        "5"
    } else if d == 6 {
        "6"
    } else if d == 7 {
        "7"
    } else if d == 8 {
        "8"
    } else {
        "9"
    }
}

// ---------------------------------------------------------------------------
// Decimal rendering
// ---------------------------------------------------------------------------
/// The decimal digits of a nonnegative number, most significant first.
pub open spec fn dec_u64(n: int) -> Seq<char>
    decreases n,
{
    if n < 10 {
        seq![digit_char(n)]
    } else {
        dec_u64(n / 10).push(digit_char(n % 10))
    }
}

/// The decimal digits of a signed number, with a leading minus when negative.
pub open spec fn dec_i64(n: int) -> Seq<char> {
    if n < 0 {
        seq!['-'] + dec_u64(-n)
    } else {
        dec_u64(n)
    }
}

/// Render a number in decimal.
pub fn u64_to_dec(n: u64) -> (r: String)
    ensures
        r@ == dec_u64(n as int),
    decreases n,
{
    if n < 10 {
        let mut s = String::new();
        s.append(digit_str(n));
        s
    } else {
        let mut s = u64_to_dec(n / 10);
        s.append(digit_str(n % 10));
        proof {
            assert(s@ =~= dec_u64(n as int));
        }
        s
    }
}

/// Render a signed number in decimal.
pub fn i64_to_dec(n: i64) -> (r: String)
    ensures
        r@ == dec_i64(n as int),
{
    if n >= 0 {
        u64_to_dec(n as u64)
    } else {
        let wide: i128 = n as i128;
        assert(1 <= -wide <= u64::MAX);
        let mag: u64 = (-wide) as u64;
        assert(mag == -(n as int));
        let mut s = String::new();
        proof {
            reveal_strlit("-");
        }
        s.append("-");
        let rest = u64_to_dec(mag);
        s.append(rest.as_str());
        assert(s@ =~= dec_i64(n as int));
        s
    }
}

// ---------------------------------------------------------------------------
// Decimal parsing
// ---------------------------------------------------------------------------
/// True when every character is a decimal digit.
pub open spec fn digits_only(s: Seq<char>) -> bool {
    forall|i: int| 0 <= i < s.len() ==> is_dec_digit(#[trigger] s[i])
}

/// The value of a digit string, most significant first.
pub open spec fn dec_val(s: Seq<char>) -> int
    decreases s.len(),
{
    if s.len() == 0 {
        0
    } else {
        dec_val(s.drop_last()) * 10 + dec_digit_val(s.last())
    }
}

/// The value of a digit string is nonnegative.
pub proof fn lemma_dec_val_nonneg(s: Seq<char>)
    requires
        digits_only(s),
    ensures
        dec_val(s) >= 0,
    decreases s.len(),
{
    if s.len() > 0 {
        assert(digits_only(s.drop_last())) by {
            assert(forall|i: int|
                0 <= i < s.drop_last().len() ==> s.drop_last()[i] == #[trigger] s[i]);
        }
        lemma_dec_val_nonneg(s.drop_last());
    }
}

/// Extending a digit string never shrinks its value.
pub proof fn lemma_dec_val_take_le(s: Seq<char>, k: int)
    requires
        digits_only(s),
        0 <= k <= s.len(),
    ensures
        dec_val(s.take(k)) <= dec_val(s),
    decreases s.len() - k,
{
    if k < s.len() {
        lemma_dec_val_take_le(s, k + 1);
        assert(s.take(k + 1).drop_last() =~= s.take(k));
        assert(s.take(k + 1).last() == s[k]);
        assert(digits_only(s.take(k))) by {
            assert(forall|i: int| 0 <= i < k ==> s.take(k)[i] == #[trigger] s[i]);
        }
        lemma_dec_val_nonneg(s.take(k));
    } else {
        assert(s.take(k) =~= s);
    }
}

/// What parsing an unsigned decimal means: an optional leading `+`, then at
/// least one digit; the value without any width bound.
pub open spec fn parse_dec_spec(s: Seq<char>) -> Option<int> {
    let body = if s.len() > 0 && s[0] == '+' {
        s.drop_first()
    } else {
        s
    };
    if body.len() > 0 && digits_only(body) {
        Some(dec_val(body))
    } else {
        None
    }
}

/// What `u64` parsing returns: the decimal value when it exists and fits.
pub open spec fn parse_u64_spec(s: Seq<char>) -> Option<u64> {
    match parse_dec_spec(s) {
        Some(v) => if v <= u64::MAX {
            Some(v as u64)
        } else {
            None
        },
        None => None,
    }
}

/// What `u32` parsing returns: the decimal value when it exists and fits.
pub open spec fn parse_u32_spec(s: Seq<char>) -> Option<u32> {
    match parse_dec_spec(s) {
        Some(v) => if v <= u32::MAX {
            Some(v as u32)
        } else {
            None
        },
        None => None,
    }
}

/// Parse an unsigned decimal with an optional leading `+`, as `u64`.
#[verifier::loop_isolation(false)]
pub fn parse_u64(s: &str) -> (r: Option<u64>)
    ensures
        r == parse_u64_spec(s@),
{
    let n = s.unicode_len();
    let ghost body = if s@.len() > 0 && s@[0] == '+' {
        s@.drop_first()
    } else {
        s@
    };
    let start: usize = if n > 0 && s.get_char(0) == '+' {
        1
    } else {
        0
    };
    proof {
        assert(body =~= s@.subrange(start as int, n as int));
    }
    if start >= n {
        assert(body.len() == 0);
        return None;
    }
    let mut acc: u128 = 0;
    let mut j: usize = start;
    while j < n
        invariant
            start <= j <= n,
            start < n,
            n == s@.len(),
            body =~= s@.subrange(start as int, n as int),
            digits_only(body.take(j - start)),
            acc == dec_val(body.take(j - start)),
            acc <= u64::MAX,
        decreases n - j,
    {
        let c = s.get_char(j);
        proof {
            assert(body[j - start] == s@[j as int]);
        }
        if !is_dec_digit_char(c) {
            proof {
                assert(!digits_only(body));
                assert(parse_dec_spec(s@) is None);
            }
            return None;
        }
        let d: u128 = (c as u32 - 48) as u128;
        let ghost pre = body.take(j - start);
        let ghost pre1 = body.take(j - start + 1);
        proof {
            assert(pre1.drop_last() =~= pre);
            assert(pre1.last() == c);
            assert forall|k: int| 0 <= k < pre1.len() implies is_dec_digit(#[trigger] pre1[k]) by {
                if k < pre.len() {
                    assert(pre1[k] == pre[k]);
                } else {
                    assert(pre1[k] == c);
                }
            }
        }
        acc = acc * 10 + d;
        j = j + 1;
        if acc > u64::MAX as u128 {
            proof {
                if digits_only(body) {
                    lemma_dec_val_take_le(body, j - start);
                    assert(parse_dec_spec(s@) matches Some(v) && v > u64::MAX);
                } else {
                    assert(parse_dec_spec(s@) is None);
                }
            }
            return None;
        }
    }
    proof {
        assert(body.take(n - start) =~= body);
        assert(parse_dec_spec(s@) == Some(dec_val(body)));
    }
    Some(acc as u64)
}

/// Parse an unsigned decimal with an optional leading `+`, as `u32`.
pub fn parse_u32(s: &str) -> (r: Option<u32>)
    ensures
        r == parse_u32_spec(s@),
{
    proof {
        let sb = if s@.len() > 0 && s@[0] == '+' {
            s@.drop_first()
        } else {
            s@
        };
        if sb.len() > 0 && digits_only(sb) {
            lemma_dec_val_nonneg(sb);
        }
    }
    match parse_u64(s) {
        Some(v) => if v <= u32::MAX as u64 {
            Some(v as u32)
        } else {
            None
        },
        None => None,
    }
}

/// Parse as `u64`, defaulting to zero on any failure.
pub fn parse_u64_or_zero(s: &str) -> (r: u64)
    ensures
        r == match parse_u64_spec(s@) {
            Some(v) => v,
            None => 0u64,
        },
{
    match parse_u64(s) {
        Some(v) => v,
        None => 0,
    }
}

// ---------------------------------------------------------------------------
// Trimming
// ---------------------------------------------------------------------------
/// Drop leading whitespace.
pub open spec fn trim_front(s: Seq<char>) -> Seq<char>
    decreases s.len(),
{
    if s.len() > 0 && is_space(s[0]) {
        trim_front(s.drop_first())
    } else {
        s
    }
}

/// Drop trailing whitespace.
pub open spec fn trim_back(s: Seq<char>) -> Seq<char>
    decreases s.len(),
{
    if s.len() > 0 && is_space(s.last()) {
        trim_back(s.drop_last())
    } else {
        s
    }
}

/// Drop whitespace on both sides.
pub open spec fn trim_spec(s: Seq<char>) -> Seq<char> {
    trim_back(trim_front(s))
}

/// A string without whitespace trims to itself.
pub proof fn lemma_trim_no_space(s: Seq<char>)
    requires
        forall|i: int| 0 <= i < s.len() ==> !is_space(#[trigger] s[i]),
    ensures
        trim_spec(s) == s,
{
    assert(trim_front(s) == s);
    assert(trim_back(s) == s);
}

/// Trim ASCII whitespace from both ends.
pub fn trim_spaces(s: &str) -> (r: &str)
    ensures
        r@ == trim_spec(s@),
{
    let n = s.unicode_len();
    let mut start: usize = 0;
    proof {
        assert(s@.subrange(0, n as int) =~= s@);
    }
    while start < n && is_space_char(s.get_char(start))
        invariant
            0 <= start <= n,
            n == s@.len(),
            trim_front(s@) == trim_front(s@.subrange(start as int, n as int)),
        decreases n - start,
    {
        proof {
            assert(s@.subrange(start as int, n as int).drop_first() =~= s@.subrange(
                start as int + 1,
                n as int,
            ));
        }
        start = start + 1;
    }
    proof {
        let rest = s@.subrange(start as int, n as int);
        if start < n {
            assert(rest[0] == s@[start as int]);
            assert(trim_front(rest) == rest);
        } else {
            assert(rest =~= Seq::<char>::empty());
            assert(trim_front(rest) == rest);
        }
    }
    let mut end: usize = n;
    while end > start && is_space_char(s.get_char(end - 1))
        invariant
            start <= end <= n,
            n == s@.len(),
            trim_front(s@) == s@.subrange(start as int, n as int),
            trim_back(s@.subrange(start as int, n as int)) == trim_back(
                s@.subrange(start as int, end as int),
            ),
        decreases end,
    {
        proof {
            let cur = s@.subrange(start as int, end as int);
            assert(cur.last() == s@[end - 1]);
            assert(cur.drop_last() =~= s@.subrange(start as int, end as int - 1));
        }
        end = end - 1;
    }
    proof {
        let cur = s@.subrange(start as int, end as int);
        if end > start {
            assert(cur.last() == s@[end - 1]);
            assert(trim_back(cur) == cur);
        } else {
            assert(cur =~= Seq::<char>::empty());
            assert(trim_back(cur) == cur);
        }
    }
    s.substring_char(start, end)
}

// ---------------------------------------------------------------------------
// Equality
// ---------------------------------------------------------------------------
/// Character-for-character string equality.
pub fn str_equal(a: &str, b: &str) -> (r: bool)
    ensures
        r == (a@ == b@),
{
    let na = a.unicode_len();
    let nb = b.unicode_len();
    if na != nb {
        return false;
    }
    let mut i: usize = 0;
    while i < na
        invariant
            0 <= i <= na,
            na == a@.len(),
            na == b@.len(),
            forall|k: int| 0 <= k < i ==> a@[k] == b@[k],
        decreases na - i,
    {
        if a.get_char(i) != b.get_char(i) {
            return false;
        }
        i = i + 1;
    }
    proof {
        assert(a@ =~= b@);
    }
    true
}

// ---------------------------------------------------------------------------
// Splitting and joining
// ---------------------------------------------------------------------------
/// The first position of a character, if it occurs.
pub open spec fn first_occ(s: Seq<char>, c: char) -> Option<int>
    decreases s.len(),
{
    if s.len() == 0 {
        None
    } else if s[0] == c {
        Some(0)
    } else {
        match first_occ(s.drop_first(), c) {
            Some(i) => Some(i + 1),
            None => None,
        }
    }
}

/// A character that occurs nowhere has no first position.
pub proof fn lemma_first_occ_absent(s: Seq<char>, c: char)
    requires
        forall|i: int| 0 <= i < s.len() ==> s[i] != c,
    ensures
        first_occ(s, c) is None,
    decreases s.len(),
{
    if s.len() > 0 {
        assert(forall|i: int|
            0 <= i < s.drop_first().len() ==> s.drop_first()[i] == #[trigger] s[i + 1]);
        lemma_first_occ_absent(s.drop_first(), c);
    }
}

/// When the head holds no separator and the tail starts with one, the first
/// position is exactly the head's length.
pub proof fn lemma_first_occ_concat(a: Seq<char>, b: Seq<char>, c: char)
    requires
        forall|i: int| 0 <= i < a.len() ==> a[i] != c,
        b.len() > 0,
        b[0] == c,
    ensures
        first_occ(a + b, c) == Some(a.len() as int),
    decreases a.len(),
{
    if a.len() == 0 {
        assert(a + b =~= b);
    } else {
        assert((a + b).drop_first() =~= a.drop_first() + b);
        assert(forall|i: int|
            0 <= i < a.drop_first().len() ==> a.drop_first()[i] == #[trigger] a[i + 1]);
        lemma_first_occ_concat(a.drop_first(), b, c);
    }
}

/// What splitting on a separator yields: the (possibly empty) stretches
/// between its occurrences, never an empty list.  (A first position is
/// always in range; the guard on it only serves termination checking.)
pub open spec fn split_spec(s: Seq<char>, sep: char) -> Seq<Seq<char>>
    decreases s.len(),
{
    match first_occ(s, sep) {
        None => seq![s],
        Some(i) => if 0 <= i < s.len() {
            seq![s.take(i)] + split_spec(s.skip(i + 1), sep)
        } else {
            seq![s]
        },
    }
}

/// Split on a separator character.
pub fn split_char(s: &str, sep: char) -> (r: Vec<String>)
    ensures
        r@.map_values(|p: String| p@) == split_spec(s@, sep),
{
    let n = s.unicode_len();
    let mut done: Vec<String> = Vec::new();
    let mut cur = String::new();
    let mut i: usize = 0;
    proof {
        assert(s@.skip(0) =~= s@);
        assert(cur@ + s@.skip(0) =~= s@);
        assert(done@.map_values(|p: String| p@) =~= Seq::<Seq<char>>::empty());
    }
    while i < n
        invariant
            0 <= i <= n,
            n == s@.len(),
            forall|k: int| 0 <= k < cur@.len() ==> cur@[k] != sep,
            split_spec(s@, sep) =~= done@.map_values(|p: String| p@) + split_spec(
                cur@ + s@.skip(i as int),
                sep,
            ),
        decreases n - i,
    {
        let c = s.get_char(i);
        proof {
            assert(s@.skip(i as int)[0] == c);
            assert(s@.skip(i as int).drop_first() =~= s@.skip(i as int + 1));
        }
        if c == sep {
            proof {
                lemma_first_occ_concat(cur@, s@.skip(i as int), sep);
                assert((cur@ + s@.skip(i as int)).take(cur@.len() as int) =~= cur@);
                assert((cur@ + s@.skip(i as int)).skip(cur@.len() as int + 1) =~= s@.skip(
                    i as int + 1,
                ));
                assert((done@.push(cur)).map_values(|p: String| p@) =~= done@.map_values(
                    |p: String| p@,
                ).push(cur@));
            }
            done.push(cur);
            cur = String::new();
            proof {
                assert(cur@ + s@.skip(i as int + 1) =~= s@.skip(i as int + 1));
            }
        } else {
            let ghost old_cur = cur@;
            push_char(&mut cur, c);
            proof {
                assert(cur@ + s@.skip(i as int + 1) =~= old_cur + s@.skip(i as int));
            }
        }
        i = i + 1;
    }
    proof {
        assert(s@.skip(n as int) =~= Seq::<char>::empty());
        assert(cur@ + s@.skip(n as int) =~= cur@);
        lemma_first_occ_absent(cur@, sep);
        assert((done@.push(cur)).map_values(|p: String| p@) =~= done@.map_values(|p: String| p@)
            + seq![cur@]);
    }
    done.push(cur);
    done
}

/// Relies on `String::push` of std: appends one character.
#[verifier::external_body]
pub fn push_char(s: &mut String, c: char)
    ensures
        final(s)@ == old(s)@.push(c),
{
    s.push(c)
}

/// What joining with a separator yields.
pub open spec fn join_spec(parts: Seq<Seq<char>>, sep: Seq<char>) -> Seq<char>
    decreases parts.len(),
{
    if parts.len() == 0 {
        Seq::empty()
    } else if parts.len() == 1 {
        parts[0]
    } else {
        parts[0] + sep + join_spec(parts.drop_first(), sep)
    }
}

/// Join strings with a separator.
pub fn join_strings(parts: &Vec<String>, sep: &str) -> (r: String)
    ensures
        r@ == join_spec(parts@.map_values(|p: String| p@), sep@),
{
    let mut out = String::new();
    let n = parts.len();
    let mut i: usize = 0;
    proof {
        let views = parts@.map_values(|p: String| p@);
        assert(views.skip(0) =~= views);
        assert(out@ + join_spec(views, sep@) =~= join_spec(views, sep@));
    }
    while i < n
        invariant
            0 <= i <= n,
            n == parts@.len(),
            join_spec(parts@.map_values(|p: String| p@), sep@) =~= out@ + join_spec(
                parts@.map_values(|p: String| p@).skip(i as int),
                sep@,
            ),
        decreases n - i,
    {
        let ghost views = parts@.map_values(|p: String| p@);
        proof {
            assert(views.skip(i as int)[0] == views[i as int]);
            assert(views.skip(i as int).drop_first() =~= views.skip(i as int + 1));
        }
        out.append(parts[i].as_str());
        if i + 1 < n {
            out.append(sep);
            proof {
                assert(views.skip(i as int).len() >= 2);
            }
        } else {
            proof {
                assert(views.skip(i as int).len() == 1);
                assert(views.skip(i as int + 1) =~= Seq::<Seq<char>>::empty());
            }
        }
        i = i + 1;
    }
    proof {
        let views = parts@.map_values(|p: String| p@);
        assert(views.skip(n as int) =~= Seq::<Seq<char>>::empty());
    }
    out
}

} // verus!
