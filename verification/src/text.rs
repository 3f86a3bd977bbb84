use vstd::prelude::*;

verus! {

/// Appends one character to a string.
///
/// Trusted: calls `String::push`, whose documentation says it appends the
/// given `char` to the end of the string.
#[verifier::external_body]
pub(crate) fn push_char(s: &mut String, c: char)
    ensures
        final(s)@ == old(s)@.push(c),
{
    s.push(c);
}

/// The characters of a string slice, in order.
pub fn to_chars(s: &str) -> (v: Vec<char>)
    ensures
        v@ == s@,
{
    let n = s.unicode_len();
    let mut v: Vec<char> = Vec::new();
    let mut i: usize = 0;
    while i < n
        invariant
            n == s@.len(),
            i <= n,
            v@ == s@.subrange(0, i as int),
        decreases n - i,
    {
        v.push(s.get_char(i));
        i = i + 1;
    }
    v
}

/// Builds a string out of a sequence of characters.
pub fn from_chars(v: &[char]) -> (s: String)
    ensures
        s@ == v@,
{
    let mut s = String::new();
    let mut i: usize = 0;
    while i < v.len()
        invariant
            i <= v@.len(),
            s@ == v@.subrange(0, i as int),
        decreases v@.len() - i,
    {
        push_char(&mut s, v[i]);
        i = i + 1;
    }
    s
}


/// `c` is an ASCII decimal digit.
pub open spec fn is_digit(c: char) -> bool {
    '0' <= c && c <= '9'
}

/// The numeric value of an ASCII decimal digit.
pub open spec fn digit_value(c: char) -> nat {
    (c as int - '0' as int) as nat
}

/// The character that writes the decimal digit `d` (0 to 9).
pub open spec fn digit_char(d: nat) -> char {
    (d + '0' as int) as char
}

/// Every character of `s` is an ASCII decimal digit.
pub open spec fn all_digits(s: Seq<char>) -> bool {
    forall|i: int| 0 <= i < s.len() ==> is_digit(#[trigger] s[i])
}

/// The number written by a sequence of decimal digits (most significant first).
pub open spec fn digits_value(s: Seq<char>) -> nat
    decreases s.len(),
{
    if s.len() == 0 {
        0
    } else {
        digits_value(s.drop_last()) * 10 + digit_value(s.last())
    }
}

/// What `u64::from_str` (that is, `str::parse::<u64>`) gives for a string: an optional
/// leading `+`, then one or more ASCII digits whose value fits in a `u64`.
pub open spec fn spec_parse_u64(s: Seq<char>) -> Option<u64> {
    let body = if s.len() > 0 && s[0] == '+' { s.drop_first() } else { s };
    if body.len() > 0 && all_digits(body) && digits_value(body) <= u64::MAX {
        Some(digits_value(body) as u64)
    } else {
        None
    }
}

proof fn lemma_digits_value_mono(s: Seq<char>, k: int)
    requires
        0 <= k <= s.len(),
        all_digits(s),
    ensures
        digits_value(s.subrange(0, k)) <= digits_value(s),
    decreases s.len() - k,
{
    if k < s.len() {
        let t = s.subrange(0, k + 1);
        assert(t.drop_last() =~= s.subrange(0, k));
        lemma_digits_value_mono(s, k + 1);
    } else {
        assert(s.subrange(0, k) =~= s);
    }
}

/// Parses the characters `s[start..end]` as a `u64` in the way of `str::parse::<u64>`.
pub fn parse_u64_range(s: &[char], start: usize, end: usize) -> (r: Option<u64>)
    requires
        start <= end <= s@.len(),
    ensures
        r == spec_parse_u64(s@.subrange(start as int, end as int)),
{
    let ghost whole = s@.subrange(start as int, end as int);
    let mut i = start;
    if i < end && s[i] == '+' {
        i = i + 1;
    }
    let ghost body = s@.subrange(i as int, end as int);
    assert(body =~= (if whole.len() > 0 && whole[0] == '+' { whole.drop_first() } else { whole }));
    if i == end {
        return None;
    }
    let first = i;
    let mut v: u64 = 0;
    assert(spec_parse_u64(whole) == (if all_digits(body) && digits_value(body) <= u64::MAX {
        Some(digits_value(body) as u64)
    } else {
        None
    }));
    while i < end
        invariant
            first <= i <= end <= s@.len(),
            body == s@.subrange(first as int, end as int),
            whole == s@.subrange(start as int, end as int),
            spec_parse_u64(whole) == (if all_digits(body) && digits_value(body) <= u64::MAX {
                Some(digits_value(body) as u64)
            } else {
                None
            }),
            all_digits(s@.subrange(first as int, i as int)),
            v as nat == digits_value(s@.subrange(first as int, i as int)),
        decreases end - i,
    {
        let c = s[i];
        proof {
            let pre = s@.subrange(first as int, i as int);
            let next = s@.subrange(first as int, i + 1);
            assert(next.drop_last() =~= pre);
            assert(next.last() == c);
        }
        if !('0' <= c && c <= '9') {
            proof {
                assert(body[i - first] == c);
                assert(!is_digit(body[i - first]));
                assert(!all_digits(body));
            }
            return None;
        }
        let d = (c as u32 - '0' as u32) as u64;
        if v > (u64::MAX - d) / 10 {
            proof {
                let next = s@.subrange(first as int, i + 1);
                assert(digits_value(next) == v * 10 + d);
                assert(v * 10 + d > u64::MAX) by (nonlinear_arith)
                    requires
                        v > (u64::MAX - d) / 10,
                        d <= 9,
                ;
                if all_digits(body) {
                    lemma_digits_value_mono(body, i + 1 - first);
                    assert(body.subrange(0, i + 1 - first) =~= next);
                    assert(digits_value(body) > u64::MAX);
                }
            }
            return None;
        }
        v = v * 10 + d;
        i = i + 1;
    }
    proof {
        assert(s@.subrange(first as int, i as int) =~= body);
    }
    Some(v)
}

/// The decimal writing of `n`, without leading zeros (`0` is written `"0"`).
pub open spec fn decimal(n: nat) -> Seq<char>
    decreases n,
{
    if n < 10 {
        seq![digit_char(n)]
    } else {
        decimal(n / 10).push(digit_char(n % 10))
    }
}

/// The decimal writing of `n` (as `n.to_string()` gives it).
pub fn u64_to_chars(n: u64) -> (v: Vec<char>)
    ensures
        v@ == decimal(n as nat),
    decreases n,
{
    if n < 10 {
        let mut v: Vec<char> = Vec::new();
        v.push(((n as u8) + 48) as char);
        v
    } else {
        let mut v = u64_to_chars(n / 10);
        v.push((((n % 10) as u8) + 48) as char);
        v
    }
}

/// The decimal writing of `n`, as a string.
pub fn u64_to_string(n: u64) -> (s: String)
    ensures
        s@ == decimal(n as nat),
{
    let v = u64_to_chars(n);
    from_chars(v.as_slice())
}

pub proof fn lemma_decimal_len(n: nat)
    ensures
        decimal(n).len() >= 1,
        n < 10 <==> decimal(n).len() == 1,
    decreases n,
{
    if n >= 10 {
        lemma_decimal_len(n / 10);
    }
}

/// A number written with at least two digits, as `format!("{:02}", n)` writes it.
pub open spec fn two_digits(n: nat) -> Seq<char> {
    if n < 10 {
        seq!['0'] + decimal(n)
    } else {
        decimal(n)
    }
}

/// Appends `two_digits(n)` to `out`.
pub fn push_two_digits(out: &mut Vec<char>, n: u64)
    ensures
        final(out)@ == old(out)@ + two_digits(n as nat),
{
    if n < 10 {
        out.push('0');
    }
    let d = u64_to_chars(n);
    let mut i: usize = 0;
    let ghost start = out@;
    while i < d.len()
        invariant
            i <= d@.len(),
            d@ == decimal(n as nat),
            start == old(out)@ + (if n < 10 { seq!['0'] } else { Seq::<char>::empty() }),
            out@ == start + d@.subrange(0, i as int),
        decreases d@.len() - i,
    {
        out.push(d[i]);
        i = i + 1;
    }
    assert(d@.subrange(0, d@.len() as int) =~= d@);
    assert(out@ =~= old(out)@ + two_digits(n as nat));
}

/// `c` is a white-space character in the sense of `char::is_whitespace`
/// (the Unicode `White_Space` property).
pub open spec fn is_white(c: char) -> bool {
    ||| ('\u{9}' <= c && c <= '\u{d}')
    ||| c == ' '
    ||| c == '\u{85}'
    ||| c == '\u{a0}'
    ||| c == '\u{1680}'
    ||| ('\u{2000}' <= c && c <= '\u{200a}')
    ||| c == '\u{2028}'
    ||| c == '\u{2029}'
    ||| c == '\u{202f}'
    ||| c == '\u{205f}'
    ||| c == '\u{3000}'
}

/// Executable form of `is_white`.
pub fn char_is_white(c: char) -> (b: bool)
    ensures
        b == is_white(c),
{
    ('\u{9}' <= c && c <= '\u{d}') || c == ' ' || c == '\u{85}' || c == '\u{a0}' || c
        == '\u{1680}' || ('\u{2000}' <= c && c <= '\u{200a}') || c == '\u{2028}' || c
        == '\u{2029}' || c == '\u{202f}' || c == '\u{205f}' || c == '\u{3000}'
}

/// `s` without its leading white space (as `str::trim_start`).
pub open spec fn trim_start(s: Seq<char>) -> Seq<char>
    decreases s.len(),
{
    if s.len() > 0 && is_white(s[0]) {
        trim_start(s.drop_first())
    } else {
        s
    }
}

/// `s` without its trailing white space (as `str::trim_end`).
pub open spec fn trim_end(s: Seq<char>) -> Seq<char>
    decreases s.len(),
{
    if s.len() > 0 && is_white(s.last()) {
        trim_end(s.drop_last())
    } else {
        s
    }
}

/// `s` without leading and trailing white space (as `str::trim`).
pub open spec fn trim(s: Seq<char>) -> Seq<char> {
    trim_end(trim_start(s))
}

/// The bounds `(lo, hi)` such that `s[lo..hi]` is `trim(s)`.
pub fn trim_bounds(s: &[char]) -> (r: (usize, usize))
    ensures
        r.0 <= r.1 <= s@.len(),
        s@.subrange(r.0 as int, r.1 as int) == trim(s@),
{
    let n = s.len();
    let mut lo: usize = 0;
    assert(s@.subrange(0, n as int) =~= s@);
    while lo < n && char_is_white(s[lo])
        invariant
            lo <= n == s@.len(),
            trim_start(s@.subrange(lo as int, n as int)) == trim_start(s@),
        decreases n - lo,
    {
        assert(s@.subrange(lo as int, n as int).drop_first() =~= s@.subrange(lo + 1, n as int));
        lo = lo + 1;
    }
    assert(s@.subrange(0, n as int) =~= s@);
    assert(trim_start(s@) == s@.subrange(lo as int, n as int));
    let mut hi: usize = n;
    while hi > lo && char_is_white(s[hi - 1])
        invariant
            lo <= hi <= n == s@.len(),
            trim_end(s@.subrange(lo as int, hi as int)) == trim(s@),
        decreases hi,
    {
        assert(s@.subrange(lo as int, hi as int).drop_last() =~= s@.subrange(lo as int, hi - 1));
        hi = hi - 1;
    }
    (lo, hi)
}

/// `i` is the first position of `c` in `s`.
pub open spec fn is_first_index(s: Seq<char>, c: char, i: int) -> bool {
    &&& 0 <= i < s.len()
    &&& s[i] == c
    &&& forall|j: int| 0 <= j < i ==> s[j] != c
}

/// The first position of `c` in `s`, if `c` occurs in it.
pub open spec fn index_of(s: Seq<char>, c: char) -> Option<int> {
    if exists|i: int| is_first_index(s, c, i) {
        Some(choose|i: int| is_first_index(s, c, i))
    } else {
        None
    }
}

/// What `str::split_once(c)` gives: the parts before and after the first `c`.
pub open spec fn split_once(s: Seq<char>, c: char) -> Option<(Seq<char>, Seq<char>)> {
    match index_of(s, c) {
        Some(i) => Some((s.take(i), s.skip(i + 1))),
        None => None,
    }
}

/// The first position of `c` in `s[lo..hi]`, counted from `lo`.
pub fn find_char(s: &[char], lo: usize, hi: usize, c: char) -> (r: Option<usize>)
    requires
        lo <= hi <= s@.len(),
    ensures
        r matches Some(k) ==> lo + k < hi && index_of(s@.subrange(lo as int, hi as int), c)
            == Some(k as int),
        r is None ==> index_of(s@.subrange(lo as int, hi as int), c) is None,
        r is None <==> !s@.subrange(lo as int, hi as int).contains(c),
{
    let ghost t = s@.subrange(lo as int, hi as int);
    let mut i = lo;
    while i < hi
        invariant
            lo <= i <= hi <= s@.len(),
            t == s@.subrange(lo as int, hi as int),
            forall|j: int| 0 <= j < i - lo ==> t[j] != c,
        decreases hi - i,
    {
        if s[i] == c {
            proof {
                let k = (i - lo) as int;
                assert(is_first_index(t, c, k));
                let w = choose|x: int| is_first_index(t, c, x);
                assert(w == k) by {
                    if w < k {
                        assert(t[w] != c);
                    } else if w > k {
                        assert(t[k] != c);
                    }
                }
                assert(t.contains(c)) by {
                    assert(t[k] == c);
                }
            }
            return Some(i - lo);
        }
        i = i + 1;
    }
    proof {
        assert(!(exists|x: int| is_first_index(t, c, x)));
        assert(!t.contains(c));
    }
    None
}

/// Appends the characters of `s` to `out`.
pub fn push_str(out: &mut Vec<char>, s: &str)
    ensures
        final(out)@ == old(out)@ + s@,
{
    let n = s.unicode_len();
    let mut i: usize = 0;
    while i < n
        invariant
            n == s@.len(),
            i <= n,
            out@ == old(out)@ + s@.subrange(0, i as int),
        decreases n - i,
    {
        out.push(s.get_char(i));
        i = i + 1;
    }
    assert(s@.subrange(0, n as int) =~= s@);
}

/// Appends the characters of `s` to `out`.
pub fn push_chars(out: &mut Vec<char>, s: &[char])
    ensures
        final(out)@ == old(out)@ + s@,
{
    let mut i: usize = 0;
    while i < s.len()
        invariant
            i <= s@.len(),
            out@ == old(out)@ + s@.subrange(0, i as int),
        decreases s@.len() - i,
    {
        out.push(s[i]);
        i = i + 1;
    }
    assert(s@.subrange(0, s@.len() as int) =~= s@);
}

/// Whether `v[lo..hi]` begins with the characters of `p`.
pub fn starts_with_at(v: &[char], lo: usize, hi: usize, p: &str) -> (b: bool)
    requires
        lo <= hi <= v@.len(),
    ensures
        b == (hi - lo >= p@.len() && v@.subrange(lo as int, lo + p@.len()) == p@),
{
    let n = p.unicode_len();
    if hi - lo < n {
        return false;
    }
    let mut i: usize = 0;
    while i < n
        invariant
            n == p@.len(),
            i <= n,
            lo + n <= hi <= v@.len(),
            forall|j: int| 0 <= j < i ==> v@[lo + j] == p@[j],
        decreases n - i,
    {
        if v[lo + i] != p.get_char(i) {
            proof {
                assert(v@.subrange(lo as int, lo + n)[i as int] != p@[i as int]);
            }
            return false;
        }
        i = i + 1;
    }
    assert(v@.subrange(lo as int, lo + n) =~= p@);
    true
}

/// Whether two character sequences are equal.
pub fn chars_eq(a: &[char], b: &[char]) -> (r: bool)
    ensures
        r == (a@ == b@),
{
    if a.len() != b.len() {
        return false;
    }
    let mut i: usize = 0;
    while i < a.len()
        invariant
            i <= a@.len() == b@.len(),
            forall|j: int| 0 <= j < i ==> a@[j] == b@[j],
        decreases a@.len() - i,
    {
        if a[i] != b[i] {
            return false;
        }
        i = i + 1;
    }
    assert(a@ =~= b@);
    true
}

/// Whether two strings are equal.
pub fn str_eq(a: &str, b: &str) -> (r: bool)
    ensures
        r == (a@ == b@),
{
    let x = to_chars(a);
    let y = to_chars(b);
    chars_eq(x.as_slice(), y.as_slice())
}

/// The ASCII lower-case form of a character (other characters unchanged).
pub open spec fn ascii_lower(c: char) -> char {
    if 'A' <= c && c <= 'Z' {
        ((c as int) + 32) as char
    } else {
        c
    }
}

/// `a` and `b` are equal up to ASCII case (as `str::eq_ignore_ascii_case`).
pub open spec fn eq_ignore_ascii_case(a: Seq<char>, b: Seq<char>) -> bool {
    &&& a.len() == b.len()
    &&& forall|i: int| 0 <= i < a.len() ==> ascii_lower(#[trigger] a[i]) == ascii_lower(b[i])
}

fn char_ascii_lower(c: char) -> (r: char)
    ensures
        r == ascii_lower(c),
{
    if 'A' <= c && c <= 'Z' {
        ((c as u32) + 32) as u8 as char
    } else {
        c
    }
}

/// Executable form of `eq_ignore_ascii_case`.
pub fn str_eq_ignore_ascii_case(a: &str, b: &str) -> (r: bool)
    ensures
        r == eq_ignore_ascii_case(a@, b@),
{
    let x = to_chars(a);
    let y = to_chars(b);
    if x.len() != y.len() {
        return false;
    }
    let mut i: usize = 0;
    while i < x.len()
        invariant
            x@ == a@,
            y@ == b@,
            i <= x@.len() == y@.len(),
            forall|j: int| 0 <= j < i ==> ascii_lower(#[trigger] x@[j]) == ascii_lower(y@[j]),
        decreases x@.len() - i,
    {
        if char_ascii_lower(x[i]) != char_ascii_lower(y[i]) {
            return false;
        }
        i = i + 1;
    }
    true
}

pub proof fn lemma_index_of_bounds(s: Seq<char>, c: char)
    ensures
        index_of(s, c) matches Some(i) ==> is_first_index(s, c, i),
{
}

/// The pieces of `s` between the occurrences of `c` (as `str::split(c)` gives
/// them): always at least one piece, possibly empty ones.
pub open spec fn split_all(s: Seq<char>, c: char) -> Seq<Seq<char>>
    decreases s.len(),
{
    match index_of(s, c) {
        Some(i) => if 0 <= i < s.len() {
            seq![s.take(i)] + split_all(s.skip(i + 1), c)
        } else {
            seq![s]
        },
        None => seq![s],
    }
}

/// `s[b.0..b.1]` is `piece`, with `lo <= b.0 <= b.1 <= hi`.
pub open spec fn bounds_match(s: Seq<char>, lo: int, hi: int, b: (usize, usize), piece: Seq<char>) -> bool {
    &&& lo <= b.0 <= b.1 <= hi
    &&& s.subrange(b.0 as int, b.1 as int) == piece
}

/// The bounds of the pieces of `s[lo..hi]` between occurrences of `c`: piece `k`
/// is `s[r[k].0..r[k].1]`.
pub fn split_bounds(s: &[char], lo: usize, hi: usize, c: char) -> (r: Vec<(usize, usize)>)
    requires
        lo <= hi <= s@.len(),
    ensures
        r@.len() == split_all(s@.subrange(lo as int, hi as int), c).len(),
        forall|k: int|
            0 <= k < r@.len() ==> bounds_match(
                s@,
                lo as int,
                hi as int,
                #[trigger] r@[k],
                split_all(s@.subrange(lo as int, hi as int), c)[k],
            ),
{
    let ghost whole = split_all(s@.subrange(lo as int, hi as int), c);
    let mut r: Vec<(usize, usize)> = Vec::new();
    let mut start = lo;
    loop
        invariant
            lo <= start <= hi <= s@.len(),
            whole == split_all(s@.subrange(lo as int, hi as int), c),
            r@.len() + split_all(s@.subrange(start as int, hi as int), c).len() == whole.len(),
            forall|k: int|
                0 <= k < r@.len() ==> bounds_match(s@, lo as int, hi as int, #[trigger] r@[k], whole[k]),
            forall|k: int|
                0 <= k < split_all(s@.subrange(start as int, hi as int), c).len() ==> whole[r@.len()
                    + k] == #[trigger] split_all(s@.subrange(start as int, hi as int), c)[k],
        decreases hi - start,
    {
        let ghost rest = s@.subrange(start as int, hi as int);
        let ghost prev = r@;
        match find_char(s, start, hi, c) {
            None => {
                proof {
                    assert(split_all(rest, c) == seq![rest]);
                    assert(whole[r@.len() as int] == split_all(rest, c)[0]);
                }
                r.push((start, hi));
                proof {
                    assert forall|k: int| 0 <= k < r@.len() implies bounds_match(
                        s@,
                        lo as int,
                        hi as int,
                        #[trigger] r@[k],
                        whole[k],
                    ) by {
                        if k < prev.len() {
                            assert(r@[k] == prev[k]);
                        }
                    }
                }
                return r;
            },
            Some(k) => {
                let mid = start + k;
                let ghost tail = split_all(rest.skip(k + 1), c);
                proof {
                    lemma_index_of_bounds(rest, c);
                    assert(split_all(rest, c) == seq![rest.take(k as int)] + tail);
                    assert(rest.take(k as int) =~= s@.subrange(start as int, mid as int));
                    assert(rest.skip(k + 1) =~= s@.subrange(mid + 1, hi as int));
                    assert(whole[r@.len() as int] == split_all(rest, c)[0]);
                }
                r.push((start, mid));
                proof {
                    assert forall|q: int| 0 <= q < r@.len() implies bounds_match(
                        s@,
                        lo as int,
                        hi as int,
                        #[trigger] r@[q],
                        whole[q],
                    ) by {
                        if q < prev.len() {
                            assert(r@[q] == prev[q]);
                        }
                    }
                    assert forall|j: int| 0 <= j < tail.len() implies whole[r@.len() + j]
                        == #[trigger] tail[j] by {
                        assert(split_all(rest, c)[j + 1] == tail[j]);
                    }
                }
                start = mid + 1;
            },
        }
    }
}


/// The view of an optional string.
pub open spec fn opt_view(o: Option<String>) -> Option<Seq<char>> {
    match o {
        Some(s) => Some(s@),
        None => None,
    }
}

/// `s` without leading and trailing white space.
pub fn trim_string(s: &str) -> (r: String)
    ensures
        r@ == trim(s@),
{
    let v = to_chars(s);
    let (lo, hi) = trim_bounds(v.as_slice());
    let mut out: Vec<char> = Vec::new();
    let mut i = lo;
    while i < hi
        invariant
            lo <= i <= hi <= v@.len(),
            out@ == v@.subrange(lo as int, i as int),
        decreases hi - i,
    {
        out.push(v[i]);
        i = i + 1;
    }
    from_chars(out.as_slice())
}

/// The trimmed text, kept only when something is left of it.
pub open spec fn trimmed_nonempty(o: Option<Seq<char>>) -> Option<Seq<char>> {
    match o {
        Some(t) => if trim(t).len() > 0 {
            Some(trim(t))
        } else {
            None
        },
        None => None,
    }
}

/// Trims an optional text and drops it when nothing is left.
pub fn trim_nonempty(o: Option<String>) -> (r: Option<String>)
    ensures
        opt_view(r) == trimmed_nonempty(opt_view(o)),
{
    match o {
        Some(t) => {
            let t2 = trim_string(t.as_str());
            if t2.unicode_len() > 0 {
                Some(t2)
            } else {
                None
            }
        },
        None => None,
    }
}

/// The concatenation of two strings.
pub fn concat(a: &str, b: &str) -> (r: String)
    ensures
        r@ == a@ + b@,
{
    let mut v = to_chars(a);
    push_str(&mut v, b);
    from_chars(v.as_slice())
}

/// Whether `s` ends with the character `c`.
pub fn ends_with_char(s: &str, c: char) -> (b: bool)
    ensures
        b == (s@.len() > 0 && s@.last() == c),
{
    let n = s.unicode_len();
    n > 0 && s.get_char(n - 1) == c
}

/// Whether `s` begins with `p`.
pub fn starts_with(s: &str, p: &str) -> (b: bool)
    ensures
        b == (s@.len() >= p@.len() && s@.subrange(0, p@.len() as int) == p@),
{
    let v = to_chars(s);
    starts_with_at(v.as_slice(), 0, v.len(), p)
}

/// The views of a list of strings.
pub open spec fn strings_view(v: Seq<String>) -> Seq<Seq<char>> {
    v.map_values(|s: String| s@)
}

/// A copy of an optional string.
pub fn clone_opt(o: &Option<String>) -> (r: Option<String>)
    ensures
        r == *o,
{
    match o {
        Some(s) => Some(s.clone()),
        None => None,
    }
}

/// The characters `v[lo..hi]` as a string.
pub fn substring(v: &[char], lo: usize, hi: usize) -> (r: String)
    requires
        lo <= hi <= v@.len(),
    ensures
        r@ == v@.subrange(lo as int, hi as int),
{
    let mut out: Vec<char> = Vec::new();
    let mut i = lo;
    while i < hi
        invariant
            lo <= i <= hi <= v@.len(),
            out@ == v@.subrange(lo as int, i as int),
        decreases hi - i,
    {
        out.push(v[i]);
        i = i + 1;
    }
    from_chars(out.as_slice())
}

/// The pieces of `s` between the occurrences of `c`, as `str::split` gives them.
pub fn split_string(s: &str, c: char) -> (r: Vec<String>)
    ensures
        strings_view(r@) == split_all(s@, c),
{
    let v = to_chars(s);
    let bounds = split_bounds(v.as_slice(), 0, v.len(), c);
    assert(v@.subrange(0, v@.len() as int) =~= v@);
    let ghost pieces = split_all(v@, c);
    let mut r: Vec<String> = Vec::new();
    let mut i: usize = 0;
    while i < bounds.len()
        invariant
            i <= bounds@.len() == pieces.len(),
            pieces == split_all(v@, c),
            forall|k: int|
                0 <= k < bounds@.len() ==> bounds_match(v@, 0, v@.len() as int, #[trigger] bounds@[k], pieces[k]),
            strings_view(r@) == pieces.take(i as int),
        decreases bounds@.len() - i,
    {
        let (lo, hi) = bounds[i];
        assert(bounds_match(v@, 0, v@.len() as int, bounds@[i as int], pieces[i as int]));
        let piece = substring(v.as_slice(), lo, hi);
        let ghost before = r@;
        r.push(piece);
        proof {
            assert(strings_view(r@) =~= strings_view(before).push(piece@));
            assert(pieces.take(i + 1) =~= pieces.take(i as int).push(pieces[i as int]));
        }
        i = i + 1;
    }
    assert(pieces.take(i as int) =~= pieces);
    r
}

/// The pieces of a comma-separated list that hold more than white space, as
/// they stand.
pub open spec fn nonblank(pieces: Seq<Seq<char>>) -> Seq<Seq<char>> {
    pieces.filter(|p: Seq<char>| trim(p).len() > 0)
}

/// The pieces of `s` between commas that hold more than white space.
pub fn nonblank_pieces(s: &str) -> (r: Vec<String>)
    ensures
        strings_view(r@) == nonblank(split_all(s@, ',')),
{
    let pieces = split_string(s, ',');
    let ghost all = strings_view(pieces@);
    let mut r: Vec<String> = Vec::new();
    let mut i: usize = 0;
    while i < pieces.len()
        invariant
            i <= pieces@.len(),
            all == strings_view(pieces@),
            strings_view(r@) == nonblank(all.take(i as int)),
        decreases pieces@.len() - i,
    {
        let t = trim_string(pieces[i].as_str());
        let ghost before = r@;
        proof {
            assert(all.take(i + 1) =~= all.take(i as int).push(all[i as int]));
            all.take(i as int).lemma_filter_push(all[i as int], |p: Seq<char>| trim(p).len() > 0);
        }
        if t.unicode_len() > 0 {
            r.push(pieces[i].clone());
            proof {
                assert(strings_view(r@) =~= strings_view(before).push(pieces@[i as int]@));
            }
        }
        i = i + 1;
    }
    assert(all.take(i as int) =~= all);
    r
}

/// `s` with each occurrence of `pat` replaced by `rep`, from left to right
/// and without overlaps, as `str::replace` does.
pub open spec fn replace_all(s: Seq<char>, pat: Seq<char>, rep: Seq<char>) -> Seq<char>
    recommends
        pat.len() > 0,
    decreases s.len(),
{
    if s.len() == 0 || pat.len() == 0 {
        s
    } else if s.len() >= pat.len() && s.take(pat.len() as int) == pat {
        rep + replace_all(s.skip(pat.len() as int), pat, rep)
    } else {
        seq![s[0]] + replace_all(s.drop_first(), pat, rep)
    }
}

/// `s` with each occurrence of the non-empty `pat` replaced by `rep`.
pub fn replace_str(s: &str, pat: &str, rep: &str) -> (r: String)
    requires
        pat@.len() > 0,
    ensures
        r@ == replace_all(s@, pat@, rep@),
{
    let v = to_chars(s);
    let n = v.len();
    let m = pat.unicode_len();
    let mut out: Vec<char> = Vec::new();
    let mut i: usize = 0;
    assert(v@.subrange(0, n as int) =~= v@);
    while i < n
        invariant
            i <= n == v@.len(),
            m == pat@.len() > 0,
            out@ + replace_all(v@.subrange(i as int, n as int), pat@, rep@) == replace_all(v@, pat@, rep@),
        decreases n - i,
    {
        let ghost rest = v@.subrange(i as int, n as int);
        let ghost before = out@;
        if starts_with_at(v.as_slice(), i, n, pat) {
            assert(rest.take(m as int) =~= v@.subrange(i as int, i + m));
            assert(rest.skip(m as int) =~= v@.subrange(i + m, n as int));
            push_str(&mut out, rep);
            assert(before + (rep@ + replace_all(rest.skip(m as int), pat@, rep@)) =~= out@ + replace_all(rest.skip(m as int), pat@, rep@));
            i = i + m;
        } else {
            assert(rest.len() >= m ==> rest.take(m as int) =~= v@.subrange(i as int, i + m));
            assert(rest.drop_first() =~= v@.subrange(i + 1, n as int));
            out.push(v[i]);
            assert(before + (seq![rest[0]] + replace_all(rest.drop_first(), pat@, rep@)) =~= out@ + replace_all(rest.drop_first(), pat@, rep@));
            i = i + 1;
        }
    }
    assert(out@ + replace_all(Seq::<char>::empty(), pat@, rep@) =~= out@);
    from_chars(out.as_slice())
}

/// `s` padded on the left with `0` to at least `width` characters.
pub open spec fn pad_zeros(s: Seq<char>, width: nat) -> Seq<char> {
    if s.len() >= width {
        s
    } else {
        Seq::new((width - s.len()) as nat, |i: int| '0') + s
    }
}

/// Appends `s` padded on the left with `0` to at least two characters.
pub fn push_padded2(out: &mut Vec<char>, s: &str)
    ensures
        final(out)@ == old(out)@ + pad_zeros(s@, 2),
{
    let n = s.unicode_len();
    if n == 0 {
        out.push('0');
        out.push('0');
        assert(Seq::new(2, |i: int| '0') + s@ =~= seq!['0', '0']);
        assert(old(out)@ + seq!['0'] + seq!['0'] =~= old(out)@ + pad_zeros(s@, 2));
    } else if n == 1 {
        out.push('0');
        push_str(out, s);
        assert(Seq::new(1, |i: int| '0') =~= seq!['0']);
        assert(old(out)@ + seq!['0'] + s@ =~= old(out)@ + pad_zeros(s@, 2));
    } else {
        push_str(out, s);
    }
}

/// The decimal writing of a number is made of digits and reads back as the
/// number.
pub proof fn lemma_decimal_digits(n: nat)
    ensures
        all_digits(decimal(n)),
        digits_value(decimal(n)) == n,
        decimal(n).len() >= 1,
    decreases n,
{
    if n < 10 {
        let s = decimal(n);
        assert(s == seq![digit_char(n)]);
        assert(s.drop_last() =~= Seq::<char>::empty());
        assert(digit_value(digit_char(n)) == n);
        assert(digits_value(Seq::<char>::empty()) == 0);
        assert(digits_value(s) == digits_value(s.drop_last()) * 10 + digit_value(s.last()));
    } else {
        lemma_decimal_digits(n / 10);
        let s = decimal(n);
        assert(s.drop_last() =~= decimal(n / 10));
        assert(digit_value(digit_char(n % 10)) == n % 10);
        assert(s.last() == digit_char(n % 10));
        assert(digits_value(s) == digits_value(s.drop_last()) * 10 + digit_value(s.last()));
        assert((n / 10) * 10 + n % 10 == n) by (nonlinear_arith);
        assert forall|i: int| 0 <= i < s.len() implies is_digit(#[trigger] s[i]) by {
            if i < s.len() - 1 {
                assert(s[i] == decimal(n / 10)[i]);
            }
        }
    }
}

/// A number written with at least two digits reads back as the number.
pub proof fn lemma_two_digits_parse(n: nat)
    requires
        n <= u64::MAX,
    ensures
        spec_parse_u64(two_digits(n)) == Some(n as u64),
        forall|i: int| 0 <= i < two_digits(n).len() ==> #[trigger] two_digits(n)[i] != ':',
{
    lemma_decimal_digits(n);
    let t = two_digits(n);
    if n < 10 {
        let d = decimal(n);
        assert(d.len() == 1) by {
            lemma_decimal_len(n);
        }
        assert(t.drop_last() =~= seq!['0']);
        assert(seq!['0'].drop_last() =~= Seq::<char>::empty());
        assert(t.last() == d[0]);
        assert(digits_value(d) == digits_value(d.drop_last()) * 10 + digit_value(d.last()));
        assert(d.drop_last() =~= Seq::<char>::empty());
        assert(digits_value(Seq::<char>::empty()) == 0);
        assert(digits_value(seq!['0']) == digits_value(seq!['0'].drop_last()) * 10 + digit_value('0'));
        assert(digits_value(t) == digits_value(t.drop_last()) * 10 + digit_value(t.last()));
        assert(digits_value(t) == n);
        assert forall|i: int| 0 <= i < t.len() implies is_digit(#[trigger] t[i]) by {
            if i == 1 {
                assert(t[1] == d[0]);
            }
        }
    }
    assert(is_digit(t[0]));
    assert(t[0] != '+');
}

/// `x` holds no `c`.
pub open spec fn free_of(x: Seq<char>, c: char) -> bool {
    forall|i: int| 0 <= i < x.len() ==> #[trigger] x[i] != c
}

/// A character has at most one first position in a text.
pub proof fn lemma_first_index_unique(s: Seq<char>, c: char, i: int, j: int)
    requires
        is_first_index(s, c, i),
        is_first_index(s, c, j),
    ensures
        i == j,
{
}

/// Splitting at `c` a text that starts with a piece free of `c` and then `c`
/// gives that piece, then the pieces of the rest.
pub proof fn lemma_split_piece(x: Seq<char>, c: char, rest: Seq<char>)
    requires
        free_of(x, c),
    ensures
        split_all(x + seq![c] + rest, c) == seq![x] + split_all(rest, c),
{
    let s = x + seq![c] + rest;
    let k = x.len() as int;
    assert(is_first_index(s, c, k));
    let i = choose|i: int| is_first_index(s, c, i);
    lemma_first_index_unique(s, c, i, k);
    assert(index_of(s, c) == Some(k));
    assert(s.take(k) =~= x);
    assert(s.skip(k + 1) =~= rest);
}

/// A text free of `c` is a single piece.
pub proof fn lemma_split_single(x: Seq<char>, c: char)
    requires
        free_of(x, c),
    ensures
        split_all(x, c) == seq![x],
{
    assert(!(exists|i: int| is_first_index(x, c, i)));
}

/// A number written in decimal reads back, with `str::parse::<u64>`, as itself.
pub proof fn lemma_parse_decimal(x: u64)
    ensures
        spec_parse_u64(decimal(x as nat)) == Some(x),
        all_digits(decimal(x as nat)),
{
    lemma_decimal_digits(x as nat);
    assert(is_digit(decimal(x as nat)[0]));
}

} // verus!
