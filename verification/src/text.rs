//! Character-level building blocks shared by the metrics parser and the
//! connection-string builder: digit arithmetic, whitespace trimming and
//! field splitting, all specified over `Seq<char>`.

use vstd::prelude::*;

verus! {

/// ASCII whitespace, the only whitespace the remote protocol emits.
pub open spec fn is_space(c: char) -> bool {
    c == ' ' || c == '\t' || c == '\n' || c == '\r'
}

pub open spec fn is_digit(c: char) -> bool {
    '0' <= c && c <= '9'
}

/// Numeric value of one character; non-digits count as zero so that
/// `dec_val` is total and monotone in its prefixes.
pub open spec fn digit_val(c: char) -> int {
    if is_digit(c) {
        c as int - '0' as int
    } else {
        0
    }
}

pub open spec fn all_digits(s: Seq<char>) -> bool {
    forall|i: int| 0 <= i < s.len() ==> is_digit(s[i])
}

/// Base-10 value of a character sequence, most significant digit first.
pub open spec fn dec_val(s: Seq<char>) -> int
    decreases s.len(),
{
    if s.len() == 0 {
        0
    } else {
        dec_val(s.drop_last()) * 10 + digit_val(s.last())
    }
}

pub proof fn lemma_dec_val_nonneg(s: Seq<char>)
    ensures
        dec_val(s) >= 0,
    decreases s.len(),
{
    if s.len() > 0 {
        lemma_dec_val_nonneg(s.drop_last());
    }
}

/// Reading more digits never shrinks the value.
pub proof fn lemma_dec_val_prefix_le(s: Seq<char>, i: int)
    requires
        0 <= i <= s.len(),
    ensures
        dec_val(s.take(i)) <= dec_val(s),
    decreases s.len() - i,
{
    if i < s.len() {
        assert(s.take(i + 1).drop_last() =~= s.take(i));
        assert(s.take(i + 1).last() == s[i]);
        lemma_dec_val_nonneg(s.take(i));
        lemma_dec_val_prefix_le(s, i + 1);
    } else {
        assert(s.take(i) =~= s);
    }
}

/// Parses a non-empty all-digit string whose value is at most `max`;
/// returns `None` on an empty string, a non-digit, or a value above `max`.
pub fn parse_digits(s: &str, max: u64) -> (r: Option<u64>)
    ensures
        match r {
            Some(v) => s@.len() > 0 && all_digits(s@) && v == dec_val(s@) && v <= max,
            None => s@.len() == 0 || !all_digits(s@) || dec_val(s@) > max,
        },
{
    let n = s.unicode_len();
    if n == 0 {
        return None;
    }
    let mut acc: u64 = 0;
    let mut i: usize = 0;
    while i < n
        invariant
            0 < n == s@.len(),
            0 <= i <= n,
            all_digits(s@.take(i as int)),
            acc == dec_val(s@.take(i as int)),
            acc <= max,
        decreases n - i,
    {
        let c = s.get_char(i);
        proof {
            assert(s@.take(i + 1).drop_last() =~= s@.take(i as int));
            assert(s@.take(i + 1).last() == s@[i as int]);
        }
        if !(c >= '0' && c <= '9') {
            assert(!is_digit(s@[i as int]));
            return None;
        }
        let d: u64 = (c as u32 - '0' as u32) as u64;
        assert(d == digit_val(s@[i as int]));
        if d > max || acc > (max - d) / 10 {
            proof {
                assert(dec_val(s@.take(i + 1)) == acc * 10 + d);
                assert(acc * 10 + d > max);
                lemma_dec_val_prefix_le(s@, i + 1);
            }
            return None;
        }
        acc = acc * 10 + d;
        i = i + 1;
    }
    proof {
        assert(s@.take(n as int) =~= s@);
    }
    Some(acc)
}

pub fn char_is_space(c: char) -> (b: bool)
    ensures
        b == is_space(c),
{
    c == ' ' || c == '\t' || c == '\n' || c == '\r'
}

/// The input without leading whitespace.
pub open spec fn trim_start(s: Seq<char>) -> Seq<char>
    decreases s.len(),
{
    if s.len() > 0 && is_space(s[0]) {
        trim_start(s.drop_first())
    } else {
        s
    }
}

/// The input without trailing whitespace.
pub open spec fn trim_end(s: Seq<char>) -> Seq<char>
    decreases s.len(),
{
    if s.len() > 0 && is_space(s.last()) {
        trim_end(s.drop_last())
    } else {
        s
    }
}

/// The input without leading or trailing whitespace.
pub open spec fn trimmed(s: Seq<char>) -> Seq<char> {
    trim_end(trim_start(s))
}

proof fn lemma_trim_start_skip(s: Seq<char>, a: int)
    requires
        0 <= a <= s.len(),
        forall|j: int| 0 <= j < a ==> is_space(s[j]),
        a < s.len() ==> !is_space(s[a]),
    ensures
        trim_start(s) == s.skip(a),
    decreases a,
{
    if a == 0 {
        assert(s.skip(0) =~= s);
    } else {
        assert(is_space(s[0]));
        assert(s.drop_first() =~= s.skip(1));
        lemma_trim_start_skip(s.skip(1), a - 1);
        assert(s.skip(1).skip(a - 1) =~= s.skip(a));
    }
}

proof fn lemma_trim_end_take(s: Seq<char>, b: int)
    requires
        0 <= b <= s.len(),
        forall|j: int| b <= j < s.len() ==> is_space(s[j]),
        b > 0 ==> !is_space(s[b - 1]),
    ensures
        trim_end(s) == s.take(b),
    decreases s.len() - b,
{
    if b == s.len() {
        assert(s.take(b) =~= s);
    } else {
        assert(is_space(s.last()));
        assert(s.drop_last() =~= s.take(s.len() - 1));
        lemma_trim_end_take(s.take(s.len() - 1), b);
        assert(s.take(s.len() - 1).take(b) =~= s.take(b));
    }
}

/// Strips leading and trailing ASCII whitespace.
pub fn trim(s: &str) -> (r: &str)
    ensures
        r@ == trimmed(s@),
{
    let n = s.unicode_len();
    let mut a: usize = 0;
    loop
        invariant
            n == s@.len(),
            0 <= a <= n,
            forall|j: int| 0 <= j < a ==> is_space(s@[j]),
        ensures
            0 <= a <= n,
            forall|j: int| 0 <= j < a ==> is_space(s@[j]),
            a == n || !is_space(s@[a as int]),
        decreases n - a,
    {
        if a == n {
            break;
        }
        if !char_is_space(s.get_char(a)) {
            break;
        }
        a = a + 1;
    }
    let mut b: usize = n;
    loop
        invariant
            n == s@.len(),
            a <= b <= n,
            a == n || !is_space(s@[a as int]),
            forall|j: int| b <= j < n ==> is_space(s@[j]),
        ensures
            a <= b <= n,
            forall|j: int| b <= j < n ==> is_space(s@[j]),
            b == a || !is_space(s@[b - 1]),
        decreases b,
    {
        if b == a {
            break;
        }
        if !char_is_space(s.get_char(b - 1)) {
            break;
        }
        b = b - 1;
    }
    let r = s.substring_char(a, b);
    proof {
        lemma_trim_start_skip(s@, a as int);
        let t = s@.skip(a as int);
        assert(forall|j: int| b - a <= j < t.len() ==> is_space(#[trigger] t[j]));
        if b > a {
            assert(!is_space(t[b - a - 1]));
        }
        lemma_trim_end_take(t, b - a);
        assert(t.take(b - a) =~= s@.subrange(a as int, b as int));
    }
    r
}

/// Index of the first occurrence of `sep`, or the length if absent.
pub open spec fn find_in(s: Seq<char>, sep: char) -> int
    decreases s.len(),
{
    if s.len() == 0 {
        0
    } else if s[0] == sep {
        0
    } else {
        1 + find_in(s.drop_first(), sep)
    }
}

proof fn lemma_find_in_is(s: Seq<char>, sep: char, k: int)
    requires
        0 <= k <= s.len(),
        forall|j: int| 0 <= j < k ==> s[j] != sep,
        k < s.len() ==> s[k] == sep,
    ensures
        find_in(s, sep) == k,
    decreases k,
{
    if k > 0 {
        assert(s[0] != sep);
        assert(s.drop_first() =~= s.skip(1));
        lemma_find_in_is(s.skip(1), sep, k - 1);
    }
}

/// Fields of `s` cut at each occurrence of `sep`; always non-empty,
/// with one more field than there are separators.
pub open spec fn split_on(s: Seq<char>, sep: char) -> Seq<Seq<char>>
    decreases s.len(),
{
    let f = find_in(s, sep);
    if 0 <= f < s.len() {
        seq![s.take(f)] + split_on(s.skip(f + 1), sep)
    } else {
        seq![s]
    }
}

/// Cuts a string at each occurrence of `sep`, keeping empty fields.
pub fn split_str(s: &str, sep: char) -> (parts: Vec<String>)
    ensures
        parts@.len() == split_on(s@, sep).len(),
        forall|i: int| 0 <= i < parts@.len() ==> parts@[i]@ == split_on(s@, sep)[i],
{
    let n = s.unicode_len();
    let mut parts: Vec<String> = Vec::new();
    let ghost mut done: Seq<Seq<char>> = Seq::empty();
    let mut start: usize = 0;
    let mut j: usize = 0;
    proof {
        assert(s@.skip(0) =~= s@);
        assert(Seq::<Seq<char>>::empty() + split_on(s@, sep) =~= split_on(s@, sep));
    }
    loop
        invariant
            n == s@.len(),
            0 <= start <= j <= n,
            forall|k: int| start <= k < j ==> s@[k] != sep,
            done.len() == parts@.len(),
            forall|i: int| 0 <= i < done.len() ==> parts@[i]@ == done[i],
            split_on(s@, sep) == done + split_on(s@.skip(start as int), sep),
        ensures
            n == s@.len(),
            start <= j == n,
            forall|k: int| start <= k < n ==> s@[k] != sep,
            done.len() == parts@.len(),
            forall|i: int| 0 <= i < done.len() ==> parts@[i]@ == done[i],
            split_on(s@, sep) == done + split_on(s@.skip(start as int), sep),
        decreases n - j,
    {
        if j == n {
            break;
        }
        let c = s.get_char(j);
        if c == sep {
            let piece = s.substring_char(start, j).to_owned();
            parts.push(piece);
            proof {
                let u = s@.skip(start as int);
                assert(forall|jj: int|
                    0 <= jj < j - start ==> #[trigger] u[jj] == s@[start + jj] && u[jj] != sep);
                lemma_find_in_is(u, sep, j - start);
                assert(u.take(j - start) =~= s@.subrange(start as int, j as int));
                assert(u.skip(j - start + 1) =~= s@.skip(j + 1));
                assert(split_on(u, sep) == seq![s@.subrange(start as int, j as int)]
                    + split_on(s@.skip(j + 1), sep));
                done = done.push(s@.subrange(start as int, j as int));
                assert(done + split_on(s@.skip(j + 1), sep) =~= (done.drop_last()
                    + split_on(u, sep)));
            }
            start = j + 1;
        }
        j = j + 1;
    }
    let last = s.substring_char(start, n).to_owned();
    parts.push(last);
    proof {
        let u = s@.skip(start as int);
        assert(forall|jj: int|
            0 <= jj < u.len() ==> #[trigger] u[jj] == s@[start + jj] && u[jj] != sep);
        lemma_find_in_is(u, sep, u.len() as int);
        assert(split_on(u, sep) == seq![u]);
        assert(u =~= s@.subrange(start as int, n as int));
        done = done.push(u);
        assert(done =~= split_on(s@, sep));
    }
    parts
}

/// Index of the first whitespace character, or the length if absent.
pub open spec fn find_space(s: Seq<char>) -> int
    decreases s.len(),
{
    if s.len() == 0 {
        0
    } else if is_space(s[0]) {
        0
    } else {
        1 + find_space(s.drop_first())
    }
}

proof fn lemma_find_space_is(s: Seq<char>, k: int)
    requires
        0 <= k <= s.len(),
        forall|j: int| 0 <= j < k ==> !is_space(s[j]),
        k < s.len() ==> is_space(s[k]),
    ensures
        find_space(s) == k,
    decreases k,
{
    if k > 0 {
        assert(!is_space(s[0]));
        assert(s.drop_first() =~= s.skip(1));
        lemma_find_space_is(s.skip(1), k - 1);
    }
}

/// Maximal runs of non-whitespace characters, in order; whitespace
/// separates tokens and never appears in one.
pub open spec fn split_ws(s: Seq<char>) -> Seq<Seq<char>>
    decreases s.len(),
{
    if s.len() == 0 {
        Seq::empty()
    } else if is_space(s[0]) {
        split_ws(s.drop_first())
    } else {
        let f = find_space(s);
        if 0 < f < s.len() {
            seq![s.take(f)] + split_ws(s.skip(f))
        } else {
            seq![s]
        }
    }
}

/// Cuts a string into its whitespace-separated tokens.
pub fn split_whitespace_str(s: &str) -> (parts: Vec<String>)
    ensures
        parts@.len() == split_ws(s@).len(),
        forall|i: int| 0 <= i < parts@.len() ==> parts@[i]@ == split_ws(s@)[i],
{
    let n = s.unicode_len();
    let mut parts: Vec<String> = Vec::new();
    let ghost mut done: Seq<Seq<char>> = Seq::empty();
    let mut i: usize = 0;
    proof {
        assert(s@.skip(0) =~= s@);
        assert(Seq::<Seq<char>>::empty() + split_ws(s@) =~= split_ws(s@));
    }
    loop
        invariant
            n == s@.len(),
            0 <= i <= n,
            done.len() == parts@.len(),
            forall|k: int| 0 <= k < done.len() ==> parts@[k]@ == done[k],
            split_ws(s@) == done + split_ws(s@.skip(i as int)),
        ensures
            i == n,
            done.len() == parts@.len(),
            forall|k: int| 0 <= k < done.len() ==> parts@[k]@ == done[k],
            split_ws(s@) == done + split_ws(s@.skip(i as int)),
        decreases n - i,
    {
        if i == n {
            break;
        }
        if char_is_space(s.get_char(i)) {
            proof {
                let u = s@.skip(i as int);
                assert(u[0] == s@[i as int]);
                assert(u.drop_first() =~= s@.skip(i + 1));
            }
            i = i + 1;
        } else {
            let start = i;
            let mut j = i + 1;
            loop
                invariant
                    n == s@.len(),
                    0 <= start < j <= n,
                    forall|k: int| start <= k < j ==> !is_space(s@[k]),
                ensures
                    start < j <= n,
                    forall|k: int| start <= k < j ==> !is_space(s@[k]),
                    j == n || is_space(s@[j as int]),
                decreases n - j,
            {
                if j == n {
                    break;
                }
                if char_is_space(s.get_char(j)) {
                    break;
                }
                j = j + 1;
            }
            let piece = s.substring_char(start, j).to_owned();
            parts.push(piece);
            proof {
                let u = s@.skip(start as int);
                assert(forall|k: int|
                    0 <= k < u.len() ==> #[trigger] u[k] == s@[start + k]);
                lemma_find_space_is(u, j - start);
                assert(u.take(j - start) =~= s@.subrange(start as int, j as int));
                if j < n {
                    assert(u.skip(j - start) =~= s@.skip(j as int));
                    assert(split_ws(u) == seq![s@.subrange(start as int, j as int)]
                        + split_ws(s@.skip(j as int)));
                } else {
                    assert(u =~= s@.subrange(start as int, j as int));
                    assert(split_ws(u) == seq![s@.subrange(start as int, j as int)]);
                    assert(s@.skip(j as int) =~= Seq::<char>::empty());
                }
                done = done.push(s@.subrange(start as int, j as int));
                assert(done + split_ws(s@.skip(j as int)) =~= (done.drop_last() + split_ws(u)));
            }
            i = j;
        }
    }
    proof {
        assert(s@.skip(n as int) =~= Seq::<char>::empty());
        assert(done + split_ws(Seq::<char>::empty()) =~= done);
    }
    parts
}

/// Value in hundredths contributed by a fraction part, truncated after
/// two digits: `"5"` gives fifty, `"239"` gives twenty-three.
pub open spec fn frac_centi(s: Seq<char>) -> int {
    if s.len() == 0 {
        0
    } else if s.len() == 1 {
        digit_val(s[0]) * 10
    } else {
        digit_val(s[0]) * 10 + digit_val(s[1])
    }
}

/// Magnitude of an unsigned decimal numeral in hundredths: either all
/// digits, or digits on both sides of a single dot. `None` on any other
/// shape.
pub open spec fn centi_mag(s: Seq<char>) -> Option<int> {
    let f = find_in(s, '.');
    if 0 <= f < s.len() {
        let ip = s.take(f);
        let fp = s.skip(f + 1);
        if ip.len() > 0 && all_digits(ip) && fp.len() > 0 && all_digits(fp) {
            Some(dec_val(ip) * 100 + frac_centi(fp))
        } else {
            None
        }
    } else {
        if s.len() > 0 && all_digits(s) {
            Some(dec_val(s) * 100)
        } else {
            None
        }
    }
}

/// Signed decimal numeral in hundredths, with an optional leading sign.
pub open spec fn centi_val(s: Seq<char>) -> Option<int> {
    if s.len() > 0 && (s[0] == '-' || s[0] == '+') {
        match centi_mag(s.drop_first()) {
            Some(v) => Some(if s[0] == '-' { -v } else { v }),
            None => None,
        }
    } else {
        centi_mag(s)
    }
}

/// Whether a value in hundredths is representable as an `i64` by its
/// magnitude alone.
pub open spec fn centi_fits(v: int) -> bool {
    -0x7fff_ffff_ffff_ffff <= v <= 0x7fff_ffff_ffff_ffff
}

/// The tolerant reading of one numeric field: its value in hundredths,
/// or `default` when the field is not a numeral or does not fit.
pub open spec fn field_centi(s: Seq<char>, default: int) -> int {
    match centi_val(s) {
        Some(v) => if centi_fits(v) {
            v
        } else {
            default
        },
        None => default,
    }
}

proof fn lemma_frac_centi_range(s: Seq<char>)
    ensures
        0 <= frac_centi(s) <= 99,
{
}

/// Parses the fraction part of a numeral: its first two digits scaled
/// to hundredths.
fn parse_frac(s: &str) -> (r: Option<u64>)
    ensures
        match r {
            Some(v) => s@.len() > 0 && all_digits(s@) && v == frac_centi(s@),
            None => s@.len() == 0 || !all_digits(s@),
        },
{
    let n = s.unicode_len();
    if n == 0 {
        return None;
    }
    let mut i: usize = 0;
    loop
        invariant
            0 < n == s@.len(),
            0 <= i <= n,
            forall|j: int| 0 <= j < i ==> is_digit(s@[j]),
        ensures
            i == n,
            all_digits(s@),
        decreases n - i,
    {
        if i == n {
            break;
        }
        let c = s.get_char(i);
        if !(c >= '0' && c <= '9') {
            assert(!is_digit(s@[i as int]));
            return None;
        }
        i = i + 1;
    }
    let d0 = s.get_char(0);
    let v0: u64 = (d0 as u32 - '0' as u32) as u64;
    if n == 1 {
        Some(v0 * 10)
    } else {
        let d1 = s.get_char(1);
        let v1: u64 = (d1 as u32 - '0' as u32) as u64;
        Some(v0 * 10 + v1)
    }
}

/// Magnitude part of `parse_centi`; `None` both on a malformed numeral
/// and on one whose value in hundredths exceeds `i64::MAX`.
fn parse_centi_mag(s: &str) -> (r: Option<u64>)
    ensures
        match r {
            Some(m) => centi_mag(s@) == Some(m as int) && m <= 0x7fff_ffff_ffff_ffff,
            None => centi_mag(s@) is None || (centi_mag(s@) matches Some(v)
                && v > 0x7fff_ffff_ffff_ffff),
        },
{
    let n = s.unicode_len();
    let mut d: usize = 0;
    loop
        invariant
            n == s@.len(),
            0 <= d <= n,
            forall|j: int| 0 <= j < d ==> s@[j] != '.',
        ensures
            0 <= d <= n,
            forall|j: int| 0 <= j < d ==> s@[j] != '.',
            d == n || s@[d as int] == '.',
        decreases n - d,
    {
        if d == n {
            break;
        }
        if s.get_char(d) == '.' {
            break;
        }
        d = d + 1;
    }
    proof {
        lemma_find_in_is(s@, '.', d as int);
    }
    if d == n {
        match parse_digits(s, 92233720368547758u64) {
            Some(v) => Some(v * 100),
            None => None,
        }
    } else {
        let ip = s.substring_char(0, d);
        let fp = s.substring_char(d + 1, n);
        proof {
            assert(ip@ =~= s@.take(d as int));
            assert(fp@ =~= s@.skip(d + 1));
        }
        let ipo = parse_digits(ip, 92233720368547758u64);
        let fro = parse_frac(fp);
        proof {
            lemma_frac_centi_range(fp@);
            lemma_dec_val_nonneg(ip@);
        }
        match (ipo, fro) {
            (Some(a), Some(f)) => {
                let m = a * 100 + f;
                if m <= 0x7fff_ffff_ffff_ffffu64 {
                    Some(m)
                } else {
                    None
                }
            },
            _ => None,
        }
    }
}

/// Tolerant fixed-point field parser: the field's value in hundredths,
/// or `default` when it is not a decimal numeral that fits an `i64`.
pub fn parse_centi(s: &str, default: i64) -> (r: i64)
    ensures
        r == field_centi(s@, default as int),
{
    let n = s.unicode_len();
    let mut neg = false;
    let mut start: usize = 0;
    if n > 0 {
        let c0 = s.get_char(0);
        if c0 == '-' {
            neg = true;
            start = 1;
        } else if c0 == '+' {
            start = 1;
        }
    }
    let mag = s.substring_char(start, n);
    proof {
        if start == 1 {
            assert(mag@ =~= s@.drop_first());
        } else {
            assert(mag@ =~= s@);
        }
    }
    match parse_centi_mag(mag) {
        Some(m) => {
            if neg {
                -(m as i64)
            } else {
                m as i64
            }
        },
        None => default,
    }
}

/// The decimal digit `d` as a character.
pub open spec fn dec_digit_char(d: int) -> char {
    if d == 0 {
        '0'
    } else if d == 1 {
        '1'
    } else if d == 2 {
        '2'
    } else if d == 3 {
        '3'
    } else if d == 4 {
        '4'
    } else if d == 5 {
        '5'
    } else if d == 6 {
        '6'
    } else if d == 7 {
        '7'
    } else if d == 8 {
        '8'
    } else {
        '9'
    }
}

/// Decimal numeral of a non-negative integer, most significant digit
/// first.
pub open spec fn dec_str(n: int) -> Seq<char>
    decreases n,
{
    if n < 10 {
        seq![dec_digit_char(n)]
    } else {
        dec_str(n / 10).push(dec_digit_char(n % 10))
    }
}

/// One decimal digit as a string slice.
fn digit_str(d: u16) -> (r: &'static str)
    requires
        d < 10,
    ensures
        r@ == seq![dec_digit_char(d as int)],
{
    if d == 0 {
        proof { reveal_strlit("0"); }
        assert("0"@ =~= seq![dec_digit_char(0)]);
        "0"
    } else if d == 1 {
        proof { reveal_strlit("1"); }
        assert("1"@ =~= seq![dec_digit_char(1)]);
        "1"
    } else if d == 2 {
        proof { reveal_strlit("2"); }
        assert("2"@ =~= seq![dec_digit_char(2)]);
        "2"
    } else if d == 3 {
        proof { reveal_strlit("3"); }
        assert("3"@ =~= seq![dec_digit_char(3)]);
        "3"
    } else if d == 4 {
        proof { reveal_strlit("4"); }
        assert("4"@ =~= seq![dec_digit_char(4)]);
        "4"
    } else if d == 5 {
        proof { reveal_strlit("5"); }
        assert("5"@ =~= seq![dec_digit_char(5)]);
        "5"
    } else if d == 6 {
        proof { reveal_strlit("6"); }
        assert("6"@ =~= seq![dec_digit_char(6)]);
        "6"
    } else if d == 7 {
        proof { reveal_strlit("7"); }
        assert("7"@ =~= seq![dec_digit_char(7)]);
        "7"
    } else if d == 8 {
        proof { reveal_strlit("8"); }
        assert("8"@ =~= seq![dec_digit_char(8)]);
        "8"
    } else {
        proof { reveal_strlit("9"); }
        assert("9"@ =~= seq![dec_digit_char(9)]);
        "9"
    }
}

/// Appends the decimal numeral of `n` to `out`.
pub fn push_u16_decimal(out: &mut String, n: u16)
    ensures
        final(out)@ == old(out)@ + dec_str(n as int),
    decreases n,
{
    if n >= 10 {
        push_u16_decimal(out, n / 10);
    }
    let ds = digit_str(n % 10);
    out.append(ds);
    proof {
        if n < 10 {
            assert(old(out)@ + dec_str(n as int) =~= old(out)@ + ds@);
        } else {
            assert(dec_str(n as int) == dec_str(n as int / 10).push(dec_digit_char(n as int % 10)));
            assert(old(out)@ + dec_str(n as int) =~= (old(out)@ + dec_str(n as int / 10)) + ds@);
        }
    }
}

} // verus!
