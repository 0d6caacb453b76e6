//! Character-level helpers: decimal rendering, zero padding, integer parsing
//! and substring search, each stated over `Seq<char>`.

use vstd::prelude::*;

verus! {

/// The ASCII digit for `d` (`d < 10`).
pub open spec fn digit_char(d: nat) -> char {
    if d == 0 { '0' }
    else if d == 1 { '1' }
    else if d == 2 { '2' }
    else if d == 3 { '3' }
    else if d == 4 { '4' }
    else if d == 5 { '5' }
    else if d == 6 { '6' }
    else if d == 7 { '7' }
    else if d == 8 { '8' }
    else { '9' }
}

/// Decimal representation of a natural number, without sign or leading zeros.
pub open spec fn decimal(n: nat) -> Seq<char>
    decreases n,
{
    if n < 10 {
        seq![digit_char(n)]
    } else {
        decimal(n / 10).push(digit_char(n % 10))
    }
}

/// `k` zero characters (none when `k <= 0`).
pub open spec fn zeros(k: int) -> Seq<char> {
    Seq::new(if k > 0 { k as nat } else { 0 }, |i: int| '0')
}

/// Signed decimal rendering padded with zeros after the sign to at least
/// `width` characters: what `format!("{:0w$}", n)` produces.
pub open spec fn zero_padded(n: int, width: int) -> Seq<char> {
    if n < 0 {
        let digits = decimal((-n) as nat);
        seq!['-'] + zeros(width - 1 - digits.len()) + digits
    } else {
        let digits = decimal(n as nat);
        zeros(width - digits.len()) + digits
    }
}

/// Signed decimal rendering without padding: what `format!("{}", n)` produces.
pub open spec fn signed_decimal(n: int) -> Seq<char> {
    if n < 0 { seq!['-'] + decimal((-n) as nat) } else { decimal(n as nat) }
}

pub open spec fn is_digit(c: char) -> bool {
    '0' <= c && c <= '9'
}

pub open spec fn all_digits(s: Seq<char>) -> bool {
    forall|i: int| 0 <= i < s.len() ==> is_digit(#[trigger] s[i])
}

pub open spec fn digit_value(c: char) -> nat {
    (c as int - '0' as int) as nat
}

/// The value of a string of decimal digits.
pub open spec fn digits_value(s: Seq<char>) -> nat
    decreases s.len(),
{
    if s.len() == 0 {
        0
    } else {
        digits_value(s.drop_last()) * 10 + digit_value(s.last())
    }
}

/// What `str::parse::<i32>` accepts: an optional `+` or `-`, then one or more
/// ASCII digits whose signed value fits in an `i32`.
pub open spec fn parse_i32(s: Seq<char>) -> Option<i32> {
    let neg = s.len() > 0 && s[0] == '-';
    let body = if s.len() > 0 && (s[0] == '-' || s[0] == '+') { s.drop_first() } else { s };
    if body.len() == 0 || !all_digits(body) {
        None
    } else {
        let v: int = if neg { -(digits_value(body) as int) } else { digits_value(body) as int };
        if i32::MIN <= v && v <= i32::MAX { Some(v as i32) } else { None }
    }
}

/// `needle` occurs in `hay` at some position.
pub open spec fn occurs_in(hay: Seq<char>, needle: Seq<char>) -> bool {
    exists|i: int| 0 <= i && i + needle.len() <= hay.len()
        && #[trigger] hay.subrange(i, i + needle.len()) == needle
}

/// `s` begins with `prefix`.
pub open spec fn starts_with(s: Seq<char>, prefix: Seq<char>) -> bool {
    prefix.len() <= s.len() && s.subrange(0, prefix.len() as int) == prefix
}

/// `s` ends with `suffix`.
pub open spec fn ends_with(s: Seq<char>, suffix: Seq<char>) -> bool {
    suffix.len() <= s.len() && s.subrange(s.len() - suffix.len(), s.len() as int) == suffix
}

/// The one-character string for a decimal digit.
fn digit_str(d: u64) -> (s: &'static str)
    requires
        d < 10,
    ensures
        s@ == seq![digit_char(d as nat)],
{
    if d == 0 {
        proof { reveal_strlit("0"); }
        "0"
    } else if d == 1 {
        proof { reveal_strlit("1"); }
        "1"
    } else if d == 2 {
        proof { reveal_strlit("2"); }
        "2"
    } else if d == 3 {
        proof { reveal_strlit("3"); }
        "3"
    } else if d == 4 {
        proof { reveal_strlit("4"); }
        "4"
    } else if d == 5 {
        proof { reveal_strlit("5"); }
        "5"
    } else if d == 6 {
        proof { reveal_strlit("6"); }
        "6"
    } else if d == 7 {
        proof { reveal_strlit("7"); }
        "7"
    } else if d == 8 {
        proof { reveal_strlit("8"); }
        "8"
    } else {
        proof { reveal_strlit("9"); }
        "9"
    }
}

/// Appends the decimal digits of `n` to `out`.
pub fn push_decimal(out: &mut String, n: u64)
    ensures
        final(out)@ == old(out)@ + decimal(n as nat),
    decreases n,
{
    if n < 10 {
        out.append(digit_str(n));
    } else {
        push_decimal(out, n / 10);
        out.append(digit_str(n % 10));
        proof {
            assert(decimal(n as nat) == decimal((n / 10) as nat).push(digit_char((n % 10) as nat)));
        }
    }
}

/// The decimal rendering of `n`: `n.to_string()`.
pub fn decimal_string(n: u64) -> (s: String)
    ensures
        s@ == decimal(n as nat),
{
    let mut s = String::new();
    push_decimal(&mut s, n);
    s
}

/// Appends `k` zero characters to `out`.
fn push_zeros(out: &mut String, k: u64)
    ensures
        final(out)@ == old(out)@ + zeros(k as int),
{
    let mut i: u64 = 0;
    while i < k
        invariant
            i <= k,
            out@ == old(out)@ + zeros(i as int),
        decreases k - i,
    {
        proof { reveal_strlit("0"); }
        out.append("0");
        i = i + 1;
        assert(out@ =~= old(out)@ + zeros(i as int));
    }
}

/// Appends the signed decimal rendering of `n`, zero-padded after the sign to
/// at least `width` characters, to `out`: `format!("{:0width$}", n)`.
pub fn push_zero_padded(out: &mut String, n: i64, width: u64)
    ensures
        final(out)@ == old(out)@ + zero_padded(n as int, width as int),
{
    let mag: u64 = if n < 0 { if n == i64::MIN { 9223372036854775808u64 } else { (-n) as u64 } } else { n as u64 };
    let digits = decimal_string(mag);
    let dl = digits.unicode_len();
    let ghost before = out@;
    if n < 0 {
        proof { reveal_strlit("-"); }
        out.append("-");
        let pad: u64 = if width > dl as u64 { width - 1 - dl as u64 } else { 0 };
        push_zeros(out, pad);
        out.append(digits.as_str());
        assert(zeros(pad as int) == zeros(width - 1 - decimal(mag as nat).len()));
        assert(out@ =~= before + zero_padded(n as int, width as int));
    } else {
        let pad: u64 = if width >= dl as u64 { width - dl as u64 } else { 0 };
        push_zeros(out, pad);
        out.append(digits.as_str());
        assert(zeros(pad as int) == zeros(width - decimal(mag as nat).len()));
        assert(out@ =~= before + zero_padded(n as int, width as int));
    }
}

/// The characters of `s`, in order.
pub fn str_chars(s: &str) -> (v: Vec<char>)
    ensures
        v@ == s@,
{
    let n = s.unicode_len();
    let mut v: Vec<char> = Vec::new();
    let mut i: usize = 0;
    while i < n
        invariant
            n == s@.len(),
            i <= n,
            v@ == s@.subrange(0, i as int),
        decreases n - i,
    {
        v.push(s.get_char(i));
        i = i + 1;
        assert(v@ =~= s@.subrange(0, i as int));
    }
    assert(v@ =~= s@);
    v
}

proof fn lemma_digits_value_prefix_mono(s: Seq<char>, k: int)
    requires
        0 <= k <= s.len(),
    ensures
        digits_value(s.subrange(0, k)) <= digits_value(s),
    decreases s.len() - k,
{
    if k < s.len() {
        lemma_digits_value_prefix_mono(s, k + 1);
        let p = s.subrange(0, k + 1);
        assert(p.drop_last() =~= s.subrange(0, k));
        assert(digits_value(p) == digits_value(s.subrange(0, k)) * 10 + digit_value(p.last()));
    } else {
        assert(s.subrange(0, k) =~= s);
    }
}

/// `str::parse::<i32>` on `s`, stated by [`parse_i32`].
pub fn parse_i32_str(s: &str) -> (r: Option<i32>)
    ensures
        r == parse_i32(s@),
{
    let cs = str_chars(s);
    let n = cs.len();
    let mut start: usize = 0;
    let mut neg = false;
    if n > 0 && (cs[0] == '-' || cs[0] == '+') {
        neg = cs[0] == '-';
        start = 1;
    }
    let ghost body = cs@.subrange(start as int, n as int);
    assert(body =~= (if s@.len() > 0 && (s@[0] == '-' || s@[0] == '+') { s@.drop_first() } else { s@ }));
    if start == n {
        return None;
    }
    let mut acc: u64 = 0;
    let mut i: usize = start;
    while i < n
        invariant
            cs@ == s@,
            n == cs@.len(),
            start <= i <= n,
            body == cs@.subrange(start as int, n as int),
            body == (if s@.len() > 0 && (s@[0] == '-' || s@[0] == '+') { s@.drop_first() } else { s@ }),
            neg == (s@.len() > 0 && s@[0] == '-'),
            all_digits(cs@.subrange(start as int, i as int)),
            acc == digits_value(cs@.subrange(start as int, i as int)),
            acc <= 2147483648,
        decreases n - i,
    {
        let c = cs[i];
        if !('0' <= c && c <= '9') {
            assert(body[i - start] == c);
            assert(!all_digits(body));
            return None;
        }
        let d: u64 = (c as u32 - 48) as u64;
        proof {
            let p = cs@.subrange(start as int, i + 1);
            assert(p.drop_last() =~= cs@.subrange(start as int, i as int));
            assert(p.last() == c);
            assert(all_digits(p)) by {
                assert forall|j: int| 0 <= j < p.len() implies is_digit(#[trigger] p[j]) by {
                    if j < p.len() - 1 {
                        assert(p[j] == cs@.subrange(start as int, i as int)[j]);
                    }
                }
            }
        }
        acc = acc * 10 + d;
        i = i + 1;
        if acc > 2147483648 {
            proof {
                assert(cs@.subrange(start as int, i as int) =~= body.subrange(0, i - start));
                if all_digits(body) {
                    lemma_digits_value_prefix_mono(body, i - start);
                }
            }
            return None;
        }
    }
    assert(cs@.subrange(start as int, n as int) =~= body);
    if neg {
        let v: i64 = -(acc as i64);
        if v < -2147483648 {
            None
        } else {
            Some(v as i32)
        }
    } else {
        if acc > 2147483647 {
            None
        } else {
            Some(acc as i32)
        }
    }
}

/// Whether `needle` occurs in `hay`: `hay.contains(needle)`.
pub fn contains_str(hay: &str, needle: &str) -> (r: bool)
    ensures
        r == occurs_in(hay@, needle@),
{
    let h = str_chars(hay);
    let nd = str_chars(needle);
    let hl = h.len();
    let nl = nd.len();
    if nl > hl {
        return false;
    }
    let mut i: usize = 0;
    while i <= hl - nl
        invariant
            h@ == hay@,
            nd@ == needle@,
            hl == h@.len(),
            nl == nd@.len(),
            nl <= hl,
            i <= hl - nl + 1,
            forall|j: int| 0 <= j < i ==> #[trigger] h@.subrange(j, j + nl) != nd@,
        decreases hl - nl + 1 - i,
    {
        let mut k: usize = 0;
        let mut same = true;
        while k < nl
            invariant
                hl == h@.len(),
                nl == nd@.len(),
                i + nl <= hl,
                k <= nl,
                same == (forall|m: int| 0 <= m < k ==> h@[i + m] == nd@[m]),
            decreases nl - k,
        {
            if h[i + k] != nd[k] {
                same = false;
            }
            k = k + 1;
        }
        if same {
            assert(h@.subrange(i as int, i + nl) =~= nd@);
            return true;
        }
        assert(h@.subrange(i as int, i + nl) != nd@) by {
            let m = choose|m: int| 0 <= m < nl && h@[i + m] != nd@[m];
            assert(h@.subrange(i as int, i + nl)[m] == h@[i + m]);
        }
        i = i + 1;
    }
    assert forall|j: int| 0 <= j && j + nl <= hl implies #[trigger] h@.subrange(j, j + nl) != nd@ by {
        assert(j < i);
    }
    false
}

/// Appends the signed decimal rendering of `n` to `out`: `format!("{}", n)`.
pub fn push_signed(out: &mut String, n: i64)
    ensures
        final(out)@ == old(out)@ + signed_decimal(n as int),
{
    push_zero_padded(out, n, 0);
    proof {
        if n < 0 {
            assert(zeros(0 - 1 - decimal((-n) as nat).len()) =~= Seq::<char>::empty());
            assert(zero_padded(n as int, 0) =~= signed_decimal(n as int));
        } else {
            assert(zeros(0 - decimal(n as nat).len()) =~= Seq::<char>::empty());
            assert(zero_padded(n as int, 0) =~= signed_decimal(n as int));
        }
    }
}

/// What `str::to_uppercase` returns for a string: its Unicode uppercase
/// mapping.
pub uninterp spec fn spec_uppercase(s: Seq<char>) -> Seq<char>;

/// Calls `str::to_uppercase`. Trusted: the result is [`spec_uppercase`] of the
/// argument, a function of the argument alone.
#[verifier::external_body]
pub(crate) fn to_uppercase(s: &str) -> (r: String)
    ensures
        r@ == spec_uppercase(s@),
{
    s.to_uppercase()
}

/// Whether `c` has the Unicode `White_Space` property, the set that
/// `char::is_whitespace` tests.
pub open spec fn is_unicode_whitespace(c: char) -> bool {
    ||| ('\u{9}' <= c && c <= '\u{d}')
    ||| c == ' '
    ||| c == '\u{85}'
    ||| c == '\u{a0}'
    ||| c == '\u{1680}'
    ||| ('\u{2000}' <= c && c <= '\u{200a}')
    ||| c == '\u{2028}'
    ||| c == '\u{2029}'
    ||| c == '\u{202f}'
    ||| c == '\u{205f}'
    ||| c == '\u{3000}'
}

/// `s` without its leading whitespace.
pub open spec fn trim_start(s: Seq<char>) -> Seq<char>
    decreases s.len(),
{
    if s.len() > 0 && is_unicode_whitespace(s[0]) { trim_start(s.drop_first()) } else { s }
}

/// `s` without its trailing whitespace.
pub open spec fn trim_end(s: Seq<char>) -> Seq<char>
    decreases s.len(),
{
    if s.len() > 0 && is_unicode_whitespace(s.last()) { trim_end(s.drop_last()) } else { s }
}

/// `s` without its leading and trailing whitespace: what `str::trim` returns.
pub open spec fn trimmed(s: Seq<char>) -> Seq<char> {
    trim_end(trim_start(s))
}

/// Whether `c` is whitespace: `c.is_whitespace()`.
pub fn is_whitespace_char(c: char) -> (b: bool)
    ensures
        b == is_unicode_whitespace(c),
{
    ('\u{9}' <= c && c <= '\u{d}') || c == ' ' || c == '\u{85}' || c == '\u{a0}' || c == '\u{1680}'
        || ('\u{2000}' <= c && c <= '\u{200a}') || c == '\u{2028}' || c == '\u{2029}'
        || c == '\u{202f}' || c == '\u{205f}' || c == '\u{3000}'
}

/// `s` without its leading and trailing whitespace: `s.trim()`.
pub fn trim_str(s: &str) -> (r: &str)
    ensures
        r@ == trimmed(s@),
{
    let cs = str_chars(s);
    let n = cs.len();
    let mut start: usize = 0;
    assert(s@.subrange(0, n as int) =~= s@);
    while start < n && is_whitespace_char(cs[start])
        invariant
            cs@ == s@,
            n == s@.len(),
            start <= n,
            trim_start(s@) == trim_start(s@.subrange(start as int, n as int)),
        decreases n - start,
    {
        assert(s@.subrange(start as int, n as int).drop_first() =~= s@.subrange(start + 1, n as int));
        start = start + 1;
    }
    assert(trim_start(s@) == s@.subrange(start as int, n as int));
    let mut end: usize = n;
    while end > start && is_whitespace_char(cs[end - 1])
        invariant
            cs@ == s@,
            n == s@.len(),
            start <= end <= n,
            trimmed(s@) == trim_end(s@.subrange(start as int, end as int)),
        decreases end - start,
    {
        assert(s@.subrange(start as int, end as int).drop_last() =~= s@.subrange(start as int, end - 1));
        end = end - 1;
    }
    s.substring_char(start, end)
}

/// Whether two strings are equal: `a == b`.
pub fn str_equals(a: &str, b: &str) -> (r: bool)
    ensures
        r == (a@ == b@),
{
    let x = str_chars(a);
    let y = str_chars(b);
    if x.len() != y.len() {
        return false;
    }
    let mut k: usize = 0;
    while k < x.len()
        invariant
            x@ == a@,
            y@ == b@,
            x@.len() == y@.len(),
            k <= x@.len(),
            forall|m: int| 0 <= m < k ==> x@[m] == y@[m],
        decreases x@.len() - k,
    {
        if x[k] != y[k] {
            return false;
        }
        k = k + 1;
    }
    assert(x@ =~= y@);
    true
}

proof fn lemma_digit_char(d: nat)
    requires
        d < 10,
    ensures
        is_digit(digit_char(d)),
        digit_value(digit_char(d)) == d,
{
    assert('0' as int == 48);
    assert('9' as int == 57);
    if d == 0 { assert('0' as int == 48); }
    else if d == 1 { assert('1' as int == 49); }
    else if d == 2 { assert('2' as int == 50); }
    else if d == 3 { assert('3' as int == 51); }
    else if d == 4 { assert('4' as int == 52); }
    else if d == 5 { assert('5' as int == 53); }
    else if d == 6 { assert('6' as int == 54); }
    else if d == 7 { assert('7' as int == 55); }
    else if d == 8 { assert('8' as int == 56); }
    else { assert('9' as int == 57); }
}

/// Reading back a decimal rendering gives the number.
pub proof fn lemma_decimal_digits(n: nat)
    ensures
        all_digits(decimal(n)),
        digits_value(decimal(n)) == n,
        decimal(n).len() >= 1,
    decreases n,
{
    if n < 10 {
        lemma_digit_char(n);
        assert(decimal(n) =~= seq![digit_char(n)]);
        assert(decimal(n).drop_last() =~= Seq::<char>::empty());
        assert(digits_value(Seq::<char>::empty()) == 0);
        assert(digits_value(decimal(n)) == digits_value(decimal(n).drop_last()) * 10 + digit_value(decimal(n).last()));
    } else {
        lemma_digit_char(n % 10);
        lemma_decimal_digits(n / 10);
        let d = decimal(n);
        assert(d.drop_last() =~= decimal(n / 10));
        assert(d.last() == digit_char(n % 10));
        assert(digits_value(d) == digits_value(decimal(n / 10)) * 10 + digit_value(d.last()));
        assert((n / 10) * 10 + n % 10 == n);
        assert(all_digits(d)) by {
            assert forall|i: int| 0 <= i < d.len() implies is_digit(#[trigger] d[i]) by {
                if i < d.len() - 1 {
                    assert(d[i] == decimal(n / 10)[i]);
                }
            }
        }
    }
}

/// Leading zeros do not change the value of a digit string.
pub proof fn lemma_leading_zeros(k: int, s: Seq<char>)
    requires
        all_digits(s),
    ensures
        all_digits(zeros(k) + s),
        digits_value(zeros(k) + s) == digits_value(s),
    decreases s.len(),
{
    let t = zeros(k) + s;
    assert(all_digits(t)) by {
        assert forall|i: int| 0 <= i < t.len() implies is_digit(#[trigger] t[i]) by {
            if i < zeros(k).len() {
                assert(t[i] == '0');
            } else {
                assert(t[i] == s[i - zeros(k).len()]);
            }
        }
    }
    if s.len() == 0 {
        assert(t =~= zeros(k));
        lemma_zeros_value(k);
    } else {
        assert(all_digits(s.drop_last()));
        lemma_leading_zeros(k, s.drop_last());
        assert(t.drop_last() =~= zeros(k) + s.drop_last());
        assert(t.last() == s.last());
    }
}

proof fn lemma_zeros_value(k: int)
    ensures
        digits_value(zeros(k)) == 0,
    decreases (if k > 0 { k } else { 0 }),
{
    if k > 0 {
        assert(zeros(k).drop_last() =~= zeros(k - 1));
        lemma_zeros_value(k - 1);
    } else {
        assert(zeros(k) =~= Seq::<char>::empty());
    }
}

/// A number rendered with zero padding parses back to itself.
pub proof fn lemma_zero_padded_parses(n: i32, width: int)
    ensures
        parse_i32(zero_padded(n as int, width)) == Some(n),
{
    if n < 0 {
        let m = (-(n as int)) as nat;
        lemma_decimal_digits(m);
        lemma_leading_zeros(width - 1 - decimal(m).len(), decimal(m));
        let s = zero_padded(n as int, width);
        let body = zeros(width - 1 - decimal(m).len()) + decimal(m);
        assert(s =~= seq!['-'] + body);
        assert(s[0] == '-');
        assert(s.drop_first() =~= body);
    } else {
        let m = n as nat;
        lemma_decimal_digits(m);
        lemma_leading_zeros(width - decimal(m).len(), decimal(m));
        let s = zero_padded(n as int, width);
        assert(s.len() > 0);
        assert(is_digit(s[0]));
        assert(s[0] != '-' && s[0] != '+');
    }
}

/// A zero-padded rendering has at least the width.
pub proof fn lemma_zero_padded_len(n: int, width: int)
    ensures
        zero_padded(n, width).len() >= width,
        zero_padded(n, width).len() >= 1,
{
    if n < 0 {
        lemma_decimal_digits((-n) as nat);
    } else {
        lemma_decimal_digits(n as nat);
    }
}

/// What `format!("{:?}", s)` gives for a string: the string in double quotes
/// with its special characters escaped.
pub uninterp spec fn spec_debug_str(s: Seq<char>) -> Seq<char>;

/// Formats a string with `Debug` (`format!("{:?}", s)`). Trusted: the result
/// is [`spec_debug_str`] of the argument, a function of the argument alone.
#[verifier::external_body]
pub(crate) fn debug_str(s: &str) -> (r: String)
    ensures
        r@ == spec_debug_str(s@),
{
    format!("{:?}", s)
}

} // verus!
