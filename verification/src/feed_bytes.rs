//! Which feed bytes the library hands to feed-rs. feed-rs reads every
//! `itunes:duration` text and every media `start`, `end` and `time` attribute
//! with a regular expression whose `\d` matches any Unicode decimal digit,
//! then unwraps `str::parse::<u64>` on each run of digits and multiplies the
//! hours by 3600 unchecked. A run of a non-ASCII digit, or of more digits than
//! that arithmetic allows, makes the parse panic. The bytes admitted here
//! cannot hold such a run anywhere, whatever element it stands in.
use vstd::prelude::*;

verus! {

/// The longest run of ASCII digits admitted: a number of hours of that many
/// digits, times 3600, still fits in a `u64`.
pub const MAX_DIGIT_RUN: usize = 15;

/// An ASCII decimal digit.
pub open spec fn is_ascii_digit(c: u8) -> bool {
    0x30 <= c <= 0x39
}

/// An ASCII hexadecimal digit.
pub open spec fn is_hex_digit(c: u8) -> bool {
    is_ascii_digit(c) || (0x41 <= c <= 0x46) || (0x61 <= c <= 0x66)
}

/// The code point ranges of the Unicode decimal digits (`\d` of the `regex`
/// crate, general category `Nd`), ASCII digits first.
pub open spec fn decimal_digit_ranges() -> Seq<(u32, u32)> {
    seq![
        (0x30u32, 0x39u32),
        (0x660u32, 0x669u32),
        (0x6F0u32, 0x6F9u32),
        (0x7C0u32, 0x7C9u32),
        (0x966u32, 0x96Fu32),
        (0x9E6u32, 0x9EFu32),
        (0xA66u32, 0xA6Fu32),
        (0xAE6u32, 0xAEFu32),
        (0xB66u32, 0xB6Fu32),
        (0xBE6u32, 0xBEFu32),
        (0xC66u32, 0xC6Fu32),
        (0xCE6u32, 0xCEFu32),
        (0xD66u32, 0xD6Fu32),
        (0xDE6u32, 0xDEFu32),
        (0xE50u32, 0xE59u32),
        (0xED0u32, 0xED9u32),
        (0xF20u32, 0xF29u32),
        (0x1040u32, 0x1049u32),
        (0x1090u32, 0x1099u32),
        (0x17E0u32, 0x17E9u32),
        (0x1810u32, 0x1819u32),
        (0x1946u32, 0x194Fu32),
        (0x19D0u32, 0x19D9u32),
        (0x1A80u32, 0x1A89u32),
        (0x1A90u32, 0x1A99u32),
        (0x1B50u32, 0x1B59u32),
        (0x1BB0u32, 0x1BB9u32),
        (0x1C40u32, 0x1C49u32),
        (0x1C50u32, 0x1C59u32),
        (0xA620u32, 0xA629u32),
        (0xA8D0u32, 0xA8D9u32),
        (0xA900u32, 0xA909u32),
        (0xA9D0u32, 0xA9D9u32),
        (0xA9F0u32, 0xA9F9u32),
        (0xAA50u32, 0xAA59u32),
        (0xABF0u32, 0xABF9u32),
        (0xFF10u32, 0xFF19u32),
        (0x104A0u32, 0x104A9u32),
        (0x10D30u32, 0x10D39u32),
        (0x10D40u32, 0x10D49u32),
        (0x11066u32, 0x1106Fu32),
        (0x110F0u32, 0x110F9u32),
        (0x11136u32, 0x1113Fu32),
        (0x111D0u32, 0x111D9u32),
        (0x112F0u32, 0x112F9u32),
        (0x11450u32, 0x11459u32),
        (0x114D0u32, 0x114D9u32),
        (0x11650u32, 0x11659u32),
        (0x116C0u32, 0x116C9u32),
        (0x116D0u32, 0x116E3u32),
        (0x11730u32, 0x11739u32),
        (0x118E0u32, 0x118E9u32),
        (0x11950u32, 0x11959u32),
        (0x11BF0u32, 0x11BF9u32),
        (0x11C50u32, 0x11C59u32),
        (0x11D50u32, 0x11D59u32),
        (0x11DA0u32, 0x11DA9u32),
        (0x11F50u32, 0x11F59u32),
        (0x16130u32, 0x16139u32),
        (0x16A60u32, 0x16A69u32),
        (0x16AC0u32, 0x16AC9u32),
        (0x16B50u32, 0x16B59u32),
        (0x16D70u32, 0x16D79u32),
        (0x1CCF0u32, 0x1CCF9u32),
        (0x1D7CEu32, 0x1D7FFu32),
        (0x1E140u32, 0x1E149u32),
        (0x1E2F0u32, 0x1E2F9u32),
        (0x1E4F0u32, 0x1E4F9u32),
        (0x1E5F1u32, 0x1E5FAu32),
        (0x1E950u32, 0x1E959u32),
        (0x1FBF0u32, 0x1FBF9u32),
    ]
}

/// A code point that `\d` matches.
pub open spec fn is_decimal_digit_cp(cp: int) -> bool {
    exists|k: int| 0 <= k < decimal_digit_ranges().len() && decimal_digit_ranges()[k].0 <= cp <= #[trigger] decimal_digit_ranges()[k].1
}

/// `b` holds `t` at `i`.
pub open spec fn bytes_at(b: Seq<u8>, i: int, t: Seq<u8>) -> bool {
    0 <= i && i + t.len() <= b.len() && b.subrange(i, i + t.len()) == t
}

/// An ASCII letter in lower case.
pub open spec fn ascii_lower(c: u8) -> u8 {
    if 0x41 <= c <= 0x5A {
        (c + 32) as u8
    } else {
        c
    }
}

/// `b` holds `w` (in lower case) at `i`, in any ASCII case.
pub open spec fn word_at_ignore_case(b: Seq<u8>, i: int, w: Seq<u8>) -> bool {
    0 <= i && i + w.len() <= b.len() && forall|k: int| 0 <= k < w.len() ==> ascii_lower(#[trigger] b[i + k]) == w[k]
}

/// The bytes of `encoding`.
pub open spec fn encoding_word() -> Seq<u8> {
    seq![101u8, 110u8, 99u8, 111u8, 100u8, 105u8, 110u8, 103u8]
}

/// What may follow `encoding`: `="UTF-8"` or `="ISO-8859-1"`, in upper or
/// lower case, with either quote.
pub open spec fn encoding_values() -> Seq<Seq<u8>> {
    seq![
        seq![61u8, 34u8, 85u8, 84u8, 70u8, 45u8, 56u8, 34u8],
        seq![61u8, 39u8, 85u8, 84u8, 70u8, 45u8, 56u8, 39u8],
        seq![61u8, 34u8, 117u8, 116u8, 102u8, 45u8, 56u8, 34u8],
        seq![61u8, 39u8, 117u8, 116u8, 102u8, 45u8, 56u8, 39u8],
        seq![61u8, 34u8, 73u8, 83u8, 79u8, 45u8, 56u8, 56u8, 53u8, 57u8, 45u8, 49u8, 34u8],
        seq![61u8, 39u8, 73u8, 83u8, 79u8, 45u8, 56u8, 56u8, 53u8, 57u8, 45u8, 49u8, 39u8],
        seq![61u8, 34u8, 105u8, 115u8, 111u8, 45u8, 56u8, 56u8, 53u8, 57u8, 45u8, 49u8, 34u8],
        seq![61u8, 39u8, 105u8, 115u8, 111u8, 45u8, 56u8, 56u8, 53u8, 57u8, 45u8, 49u8, 39u8],
    ]
}

/// The bytes of `<!`, which open a comment, a CDATA section or a declaration.
pub open spec fn markup_open() -> Seq<u8> {
    seq![60u8, 33u8]
}

/// The bytes of `<?`, which open a processing instruction.
pub open spec fn pi_open() -> Seq<u8> {
    seq![60u8, 63u8]
}

/// The bytes of `]]>`, which close a CDATA section.
pub open spec fn cdata_close() -> Seq<u8> {
    seq![93u8, 93u8, 62u8]
}

/// The bytes of `&#`.
pub open spec fn char_ref_open() -> Seq<u8> {
    seq![38u8, 35u8]
}

/// An occurrence of `encoding` at `i` names UTF-8 or ISO-8859-1 right after
/// it, so the text is read as UTF-8 or as windows-1252 (which has no digit
/// beyond ASCII).
pub open spec fn encoding_ok_at(b: Seq<u8>, i: int) -> bool {
    word_at_ignore_case(b, i, encoding_word()) ==> exists|k: int| 0 <= k < encoding_values().len() && #[trigger] bytes_at(b, i + 8, encoding_values()[k])
}

/// A digit at `i` is not continued, after a comment, processing instruction
/// or CDATA boundary (which feed-rs joins text across), by another digit.
pub open spec fn join_ok_at(b: Seq<u8>, i: int) -> bool {
    is_ascii_digit(b[i]) ==> {
        &&& !bytes_at(b, i + 1, markup_open())
        &&& !bytes_at(b, i + 1, pi_open())
        &&& bytes_at(b, i + 1, cdata_close()) ==> {
            &&& !(i + 4 < b.len() && is_ascii_digit(b[i + 4]))
            &&& !bytes_at(b, i + 4, markup_open())
            &&& !bytes_at(b, i + 4, pi_open())
        }
    }
}

/// No run of more than `MAX_DIGIT_RUN` ASCII digits starts at `i`.
pub open spec fn run_ok_at(b: Seq<u8>, i: int) -> bool {
    !(i + MAX_DIGIT_RUN + 1 <= b.len() && forall|k: int| 0 <= k <= MAX_DIGIT_RUN ==> is_ascii_digit(#[trigger] b[i + k]))
}

/// A digit of a character reference: hexadecimal or decimal.
pub open spec fn is_ref_digit(c: u8, hex: bool) -> bool {
    if hex {
        is_hex_digit(c)
    } else {
        is_ascii_digit(c)
    }
}

/// The value of a hexadecimal or decimal digit (0 for any other byte).
pub open spec fn ref_digit_value(c: u8) -> int {
    if is_ascii_digit(c) {
        c - 0x30
    } else if 0x41 <= c <= 0x46 {
        c - 0x41 + 10
    } else if 0x61 <= c <= 0x66 {
        c - 0x61 + 10
    } else {
        0
    }
}

/// The value of the digit at `j` (0 past the end).
pub open spec fn digit_value_at(b: Seq<u8>, j: int) -> int {
    if 0 <= j < b.len() {
        ref_digit_value(b[j])
    } else {
        0
    }
}

/// How many reference digits follow `s`, at most `cap`.
pub open spec fn ref_run(b: Seq<u8>, s: int, hex: bool, cap: nat) -> nat
    decreases cap,
{
    if cap == 0 || s < 0 || s >= b.len() || !is_ref_digit(b[s], hex) {
        0
    } else {
        1 + ref_run(b, s + 1, hex, (cap - 1) as nat)
    }
}

/// The number the `n` reference digits from `s` write.
pub open spec fn ref_value(b: Seq<u8>, s: int, n: nat, hex: bool) -> int
    decreases n,
{
    if n == 0 {
        0
    } else {
        ref_value(b, s, (n - 1) as nat, hex) * (if hex { 16int } else { 10int }) + digit_value_at(b, s + n - 1)
    }
}

/// Where the digits of a character reference at `i` start, and whether they
/// are hexadecimal.
pub open spec fn ref_start(b: Seq<u8>, i: int) -> (int, bool) {
    if i + 2 < b.len() && (b[i + 2] == 0x78u8 || b[i + 2] == 0x58u8) {
        (i + 3, true)
    } else {
        (i + 2, false)
    }
}

/// A character reference at `i` has at most six digits and does not write a
/// decimal digit.
pub open spec fn ref_ok_at(b: Seq<u8>, i: int) -> bool {
    bytes_at(b, i, char_ref_open()) ==> {
        let (s, hex) = ref_start(b, i);
        let n = ref_run(b, s, hex, 7);
        n <= 6 && !is_decimal_digit_cp(ref_value(b, s, n, hex))
    }
}

/// A UTF-8 continuation byte.
pub open spec fn is_continuation(c: u8) -> bool {
    0x80 <= c <= 0xBF
}

/// The code point a well-formed UTF-8 sequence at `i` writes is no decimal
/// digit (a malformed one is read as U+FFFD).
pub open spec fn utf8_ok_at(b: Seq<u8>, i: int) -> bool {
    let c = b[i];
    if 0xC0 <= c <= 0xDF && i + 1 < b.len() && is_continuation(b[i + 1]) {
        !is_decimal_digit_cp((c - 0xC0) * 64 + (b[i + 1] - 0x80))
    } else if 0xE0 <= c <= 0xEF && i + 2 < b.len() && is_continuation(b[i + 1]) && is_continuation(b[i + 2]) {
        !is_decimal_digit_cp((c - 0xE0) * 4096 + (b[i + 1] - 0x80) * 64 + (b[i + 2] - 0x80))
    } else if 0xF0 <= c <= 0xF7 && i + 3 < b.len() && is_continuation(b[i + 1]) && is_continuation(b[i + 2])
        && is_continuation(b[i + 3]) {
        !is_decimal_digit_cp((c - 0xF0) * 262144 + (b[i + 1] - 0x80) * 4096 + (b[i + 2] - 0x80) * 64 + (b[i + 3] - 0x80))
    } else {
        true
    }
}

/// Everything required of the byte at `i`.
pub open spec fn byte_ok_at(b: Seq<u8>, i: int) -> bool {
    &&& b[i] != 0
    &&& encoding_ok_at(b, i)
    &&& join_ok_at(b, i)
    &&& run_ok_at(b, i)
    &&& ref_ok_at(b, i)
    &&& utf8_ok_at(b, i)
}

/// Bytes that feed-rs reads without panicking on a duration: no UTF-16 byte
/// order mark and no zero byte (so the text is not read as UTF-16), no
/// encoding but UTF-8 or ISO-8859-1 declared, no run of more than
/// `MAX_DIGIT_RUN` ASCII digits (nor digits joined across a comment,
/// processing instruction or CDATA boundary), no character reference that
/// writes a digit, and no non-ASCII decimal digit.
pub open spec fn feed_bytes_admitted(b: Seq<u8>) -> bool {
    &&& !(b.len() >= 2 && b[0] == 0xFEu8 && b[1] == 0xFFu8)
    &&& !(b.len() >= 2 && b[0] == 0xFFu8 && b[1] == 0xFEu8)
    &&& forall|i: int| 0 <= i < b.len() ==> #[trigger] byte_ok_at(b, i)
}


/// `b` holds `t` at `i`.
fn bytes_eq_at(b: &[u8], i: usize, t: &Vec<u8>) -> (r: bool)
    ensures
        r == bytes_at(b@, i as int, t@),
{
    if i > b.len() || t.len() > b.len() - i {
        return false;
    }
    let mut k: usize = 0;
    while k < t.len()
        invariant
            i + t@.len() <= b@.len(),
            b@.len() == b.len(),
            k <= t@.len(),
            forall|j: int| 0 <= j < k ==> b@[i + j] == t@[j],
        decreases t@.len() - k,
    {
        if b[i + k] != t[k] {
            assert(b@.subrange(i as int, i + t@.len())[k as int] != t@[k as int]);
            return false;
        }
        k = k + 1;
    }
    assert(b@.subrange(i as int, i + t@.len()) =~= t@);
    true
}

/// `b` holds `w` at `i`, in any ASCII case.
fn word_ignore_case_at(b: &[u8], i: usize, w: &Vec<u8>) -> (r: bool)
    ensures
        r == word_at_ignore_case(b@, i as int, w@),
{
    if i > b.len() || w.len() > b.len() - i {
        return false;
    }
    let mut k: usize = 0;
    while k < w.len()
        invariant
            i + w@.len() <= b@.len(),
            b@.len() == b.len(),
            k <= w@.len(),
            forall|j: int| 0 <= j < k ==> ascii_lower(#[trigger] b@[i + j]) == w@[j],
        decreases w@.len() - k,
    {
        let c = b[i + k];
        let lower: u8 = if 0x41 <= c && c <= 0x5A { c + 32 } else { c };
        if lower != w[k] {
            return false;
        }
        k = k + 1;
    }
    true
}

/// Whether `\d` matches the code point `cp`.
fn is_decimal_digit_code(cp: u32) -> (r: bool)
    ensures
        r == is_decimal_digit_cp(cp as int),
{
    let r = vec![
        (0x30u32, 0x39u32),
        (0x660u32, 0x669u32),
        (0x6F0u32, 0x6F9u32),
        (0x7C0u32, 0x7C9u32),
        (0x966u32, 0x96Fu32),
        (0x9E6u32, 0x9EFu32),
        (0xA66u32, 0xA6Fu32),
        (0xAE6u32, 0xAEFu32),
        (0xB66u32, 0xB6Fu32),
        (0xBE6u32, 0xBEFu32),
        (0xC66u32, 0xC6Fu32),
        (0xCE6u32, 0xCEFu32),
        (0xD66u32, 0xD6Fu32),
        (0xDE6u32, 0xDEFu32),
        (0xE50u32, 0xE59u32),
        (0xED0u32, 0xED9u32),
        (0xF20u32, 0xF29u32),
        (0x1040u32, 0x1049u32),
        (0x1090u32, 0x1099u32),
        (0x17E0u32, 0x17E9u32),
        (0x1810u32, 0x1819u32),
        (0x1946u32, 0x194Fu32),
        (0x19D0u32, 0x19D9u32),
        (0x1A80u32, 0x1A89u32),
        (0x1A90u32, 0x1A99u32),
        (0x1B50u32, 0x1B59u32),
        (0x1BB0u32, 0x1BB9u32),
        (0x1C40u32, 0x1C49u32),
        (0x1C50u32, 0x1C59u32),
        (0xA620u32, 0xA629u32),
        (0xA8D0u32, 0xA8D9u32),
        (0xA900u32, 0xA909u32),
        (0xA9D0u32, 0xA9D9u32),
        (0xA9F0u32, 0xA9F9u32),
        (0xAA50u32, 0xAA59u32),
        (0xABF0u32, 0xABF9u32),
        (0xFF10u32, 0xFF19u32),
        (0x104A0u32, 0x104A9u32),
        (0x10D30u32, 0x10D39u32),
        (0x10D40u32, 0x10D49u32),
        (0x11066u32, 0x1106Fu32),
        (0x110F0u32, 0x110F9u32),
        (0x11136u32, 0x1113Fu32),
        (0x111D0u32, 0x111D9u32),
        (0x112F0u32, 0x112F9u32),
        (0x11450u32, 0x11459u32),
        (0x114D0u32, 0x114D9u32),
        (0x11650u32, 0x11659u32),
        (0x116C0u32, 0x116C9u32),
        (0x116D0u32, 0x116E3u32),
        (0x11730u32, 0x11739u32),
        (0x118E0u32, 0x118E9u32),
        (0x11950u32, 0x11959u32),
        (0x11BF0u32, 0x11BF9u32),
        (0x11C50u32, 0x11C59u32),
        (0x11D50u32, 0x11D59u32),
        (0x11DA0u32, 0x11DA9u32),
        (0x11F50u32, 0x11F59u32),
        (0x16130u32, 0x16139u32),
        (0x16A60u32, 0x16A69u32),
        (0x16AC0u32, 0x16AC9u32),
        (0x16B50u32, 0x16B59u32),
        (0x16D70u32, 0x16D79u32),
        (0x1CCF0u32, 0x1CCF9u32),
        (0x1D7CEu32, 0x1D7FFu32),
        (0x1E140u32, 0x1E149u32),
        (0x1E2F0u32, 0x1E2F9u32),
        (0x1E4F0u32, 0x1E4F9u32),
        (0x1E5F1u32, 0x1E5FAu32),
        (0x1E950u32, 0x1E959u32),
        (0x1FBF0u32, 0x1FBF9u32),
    ];
    assert(r@ =~= decimal_digit_ranges());
    let mut k: usize = 0;
    while k < r.len()
        invariant
            r@ == decimal_digit_ranges(),
            k <= r@.len(),
            forall|j: int| 0 <= j < k ==> !(decimal_digit_ranges()[j].0 <= cp <= #[trigger] decimal_digit_ranges()[j].1),
        decreases r@.len() - k,
    {
        let (lo, hi) = r[k];
        if lo <= cp && cp <= hi {
            assert(decimal_digit_ranges()[k as int].0 <= cp <= decimal_digit_ranges()[k as int].1);
            return true;
        }
        k = k + 1;
    }
    false
}

/// The bytes of `encoding`.
fn encoding_word_bytes() -> (r: Vec<u8>)
    ensures
        r@ == encoding_word(),
{
    let r = vec![101u8, 110u8, 99u8, 111u8, 100u8, 105u8, 110u8, 103u8];
    assert(r@ =~= encoding_word());
    r
}

/// What may follow `encoding`.
fn encoding_value_bytes() -> (r: Vec<Vec<u8>>)
    ensures
        r@.len() == encoding_values().len(),
        forall|k: int| 0 <= k < r@.len() ==> (#[trigger] r@[k])@ == encoding_values()[k],
{
    let r = vec![
        vec![61u8, 34u8, 85u8, 84u8, 70u8, 45u8, 56u8, 34u8],
        vec![61u8, 39u8, 85u8, 84u8, 70u8, 45u8, 56u8, 39u8],
        vec![61u8, 34u8, 117u8, 116u8, 102u8, 45u8, 56u8, 34u8],
        vec![61u8, 39u8, 117u8, 116u8, 102u8, 45u8, 56u8, 39u8],
        vec![61u8, 34u8, 73u8, 83u8, 79u8, 45u8, 56u8, 56u8, 53u8, 57u8, 45u8, 49u8, 34u8],
        vec![61u8, 39u8, 73u8, 83u8, 79u8, 45u8, 56u8, 56u8, 53u8, 57u8, 45u8, 49u8, 39u8],
        vec![61u8, 34u8, 105u8, 115u8, 111u8, 45u8, 56u8, 56u8, 53u8, 57u8, 45u8, 49u8, 34u8],
        vec![61u8, 39u8, 105u8, 115u8, 111u8, 45u8, 56u8, 56u8, 53u8, 57u8, 45u8, 49u8, 39u8],
    ];
    assert(r@[0]@ =~= encoding_values()[0]);
    assert(r@[1]@ =~= encoding_values()[1]);
    assert(r@[2]@ =~= encoding_values()[2]);
    assert(r@[3]@ =~= encoding_values()[3]);
    assert(r@[4]@ =~= encoding_values()[4]);
    assert(r@[5]@ =~= encoding_values()[5]);
    assert(r@[6]@ =~= encoding_values()[6]);
    assert(r@[7]@ =~= encoding_values()[7]);
    r
}

/// Whether an occurrence of `encoding` at `i` names an admitted encoding.
fn encoding_ok(b: &[u8], i: usize, word: &Vec<u8>, values: &Vec<Vec<u8>>) -> (r: bool)
    requires
        word@ == encoding_word(),
        values@.len() == encoding_values().len(),
        forall|k: int| 0 <= k < values@.len() ==> (#[trigger] values@[k])@ == encoding_values()[k],
    ensures
        r == encoding_ok_at(b@, i as int),
{
    if !word_ignore_case_at(b, i, word) {
        return true;
    }
    assert(b@.len() == b.len());
    let mut k: usize = 0;
    while k < values.len()
        invariant
            values@.len() == encoding_values().len(),
            forall|q: int| 0 <= q < values@.len() ==> (#[trigger] values@[q])@ == encoding_values()[q],
            k <= values@.len(),
            i + 8 <= b@.len(),
            b@.len() == b.len(),
            forall|q: int| 0 <= q < k ==> !bytes_at(b@, i + 8, #[trigger] encoding_values()[q]),
        decreases values@.len() - k,
    {
        if bytes_eq_at(b, i + 8, &values[k]) {
            assert(bytes_at(b@, i + 8, encoding_values()[k as int]));
            return true;
        }
        k = k + 1;
    }
    false
}

/// `b` holds `<!` (or `<?`, with `question`) at `j`.
fn markup_at(b: &[u8], j: usize, question: bool) -> (r: bool)
    ensures
        r == bytes_at(b@, j as int, if question { pi_open() } else { markup_open() }),
{
    let t = if question { vec![60u8, 63u8] } else { vec![60u8, 33u8] };
    assert(t@ =~= (if question { pi_open() } else { markup_open() }));
    bytes_eq_at(b, j, &t)
}

/// Whether the byte at `i` is a digit not joined to another one across markup.
fn join_ok(b: &[u8], i: usize) -> (r: bool)
    requires
        i < b@.len(),
    ensures
        r == join_ok_at(b@, i as int),
{
    if !(0x30 <= b[i] && b[i] <= 0x39) {
        return true;
    }
    let j = i + 1;
    if markup_at(b, j, false) || markup_at(b, j, true) {
        return false;
    }
    let close = vec![93u8, 93u8, 62u8];
    assert(close@ =~= cdata_close());
    if !bytes_eq_at(b, j, &close) {
        return true;
    }
    let after = i + 4;
    if after < b.len() && 0x30 <= b[after] && b[after] <= 0x39 {
        return false;
    }
    !(markup_at(b, after, false) || markup_at(b, after, true))
}

/// Whether no run of more than `MAX_DIGIT_RUN` digits starts at `i`.
fn run_ok(b: &[u8], i: usize) -> (r: bool)
    requires
        i < b@.len(),
    ensures
        r == run_ok_at(b@, i as int),
{
    if b.len() - i < MAX_DIGIT_RUN + 1 {
        return true;
    }
    let mut k: usize = 0;
    while k <= MAX_DIGIT_RUN
        invariant
            i + MAX_DIGIT_RUN + 1 <= b@.len(),
            b@.len() == b.len(),
            k <= MAX_DIGIT_RUN + 1,
            forall|j: int| 0 <= j < k ==> is_ascii_digit(#[trigger] b@[i + j]),
        decreases MAX_DIGIT_RUN + 1 - k,
    {
        if !(0x30 <= b[i + k] && b[i + k] <= 0x39) {
            return true;
        }
        k = k + 1;
    }
    false
}

/// Whether `c` is a digit of a reference.
fn ref_digit(c: u8, hex: bool) -> (r: bool)
    ensures
        r == is_ref_digit(c, hex),
{
    let dec = 0x30 <= c && c <= 0x39;
    if hex {
        dec || (0x41 <= c && c <= 0x46) || (0x61 <= c && c <= 0x66)
    } else {
        dec
    }
}

/// How many reference digits follow `s`, at most `cap`.
fn ref_run_len(b: &[u8], s: usize, hex: bool, cap: usize) -> (r: usize)
    ensures
        r == ref_run(b@, s as int, hex, cap as nat),
        r <= cap,
    decreases cap,
{
    if cap == 0 || s >= b.len() || !ref_digit(b[s], hex) {
        0
    } else {
        1 + ref_run_len(b, s + 1, hex, cap - 1)
    }
}

/// The number written by the `n` reference digits from `s`.
fn ref_number(b: &[u8], s: usize, n: usize, hexadecimal: bool) -> (r: u32)
    requires
        n <= 6,
    ensures
        r == ref_value(b@, s as int, n as nat, hexadecimal),
{
    let mut v: u32 = 0;
    let mut p: u32 = 1;
    let mut k: usize = 0;
    while k < n
        invariant
            n <= 6,
            b@.len() == b.len(),
            k <= n,
            v == ref_value(b@, s as int, k as nat, hexadecimal),
            v < p,
            (k == 0 ==> p == 1) && (k == 1 ==> p == 16) && (k == 2 ==> p == 256) && (k == 3 ==> p == 4096)
                && (k == 4 ==> p == 65536) && (k == 5 ==> p == 1048576) && (k == 6 ==> p == 16777216),
        decreases n - k,
    {
        let d: u32 = if s < b.len() && k < b.len() - s {
            let c = b[s + k];
            if 0x30 <= c && c <= 0x39 {
                (c - 0x30) as u32
            } else if 0x41 <= c && c <= 0x46 {
                (c - 0x41 + 10) as u32
            } else if 0x61 <= c && c <= 0x66 {
                (c - 0x61 + 10) as u32
            } else {
                0
            }
        } else {
            0
        };
        assert(d == digit_value_at(b@, s + k) && d < 16);
        let base: u32 = if hexadecimal { 16 } else { 10 };
        assert(v * base + d < p * 16) by (nonlinear_arith)
            requires
                v < p,
                base <= 16,
                d < 16,
        ;
        v = v * base + d;
        p = p * 16;
        k = k + 1;
    }
    v
}

/// Whether a character reference at `i` is admitted.
fn ref_ok(b: &[u8], i: usize) -> (r: bool)
    requires
        i < b@.len(),
    ensures
        r == ref_ok_at(b@, i as int),
{
    let open = vec![38u8, 35u8];
    assert(open@ =~= char_ref_open());
    if !bytes_eq_at(b, i, &open) {
        return true;
    }
    assert(i + 2 <= b@.len() && b@.len() == b.len());
    let (s, hex) = if i + 2 < b.len() && (b[i + 2] == 0x78u8 || b[i + 2] == 0x58u8) {
        (i + 3, true)
    } else {
        (i + 2, false)
    };
    assert(ref_start(b@, i as int) == (s as int, hex));
    let n = ref_run_len(b, s, hex, 7);
    if n > 6 {
        return false;
    }
    let v = ref_number(b, s, n, hex);
    !is_decimal_digit_code(v)
}

/// Whether a UTF-8 sequence at `i` writes no decimal digit.
fn utf8_ok(b: &[u8], i: usize) -> (r: bool)
    requires
        i < b@.len(),
    ensures
        r == utf8_ok_at(b@, i as int),
{
    let c = b[i];
    let n = b.len();
    if 0xC0 <= c && c <= 0xDF && n - i > 1 && 0x80 <= b[i + 1] && b[i + 1] <= 0xBF {
        let cp: u32 = (c - 0xC0) as u32 * 64 + (b[i + 1] - 0x80) as u32;
        !is_decimal_digit_code(cp)
    } else if 0xE0 <= c && c <= 0xEF && n - i > 2 && 0x80 <= b[i + 1] && b[i + 1] <= 0xBF && 0x80 <= b[i + 2]
        && b[i + 2] <= 0xBF {
        let cp: u32 = (c - 0xE0) as u32 * 4096 + (b[i + 1] - 0x80) as u32 * 64 + (b[i + 2] - 0x80) as u32;
        !is_decimal_digit_code(cp)
    } else if 0xF0 <= c && c <= 0xF7 && n - i > 3 && 0x80 <= b[i + 1] && b[i + 1] <= 0xBF && 0x80 <= b[i + 2]
        && b[i + 2] <= 0xBF && 0x80 <= b[i + 3] && b[i + 3] <= 0xBF {
        let cp: u32 = (c - 0xF0) as u32 * 262144 + (b[i + 1] - 0x80) as u32 * 4096 + (b[i + 2] - 0x80) as u32 * 64
            + (b[i + 3] - 0x80) as u32;
        !is_decimal_digit_code(cp)
    } else {
        true
    }
}

/// Whether feed-rs may be handed these bytes: see `feed_bytes_admitted`.
pub fn admitted_feed_bytes(b: &[u8]) -> (r: bool)
    ensures
        r == feed_bytes_admitted(b@),
{
    if b.len() >= 2 && ((b[0] == 0xFE && b[1] == 0xFF) || (b[0] == 0xFF && b[1] == 0xFE)) {
        return false;
    }
    let word = encoding_word_bytes();
    let values = encoding_value_bytes();
    let mut i: usize = 0;
    while i < b.len()
        invariant
            i <= b@.len(),
            word@ == encoding_word(),
            values@.len() == encoding_values().len(),
            forall|k: int| 0 <= k < values@.len() ==> (#[trigger] values@[k])@ == encoding_values()[k],
            forall|j: int| 0 <= j < i ==> #[trigger] byte_ok_at(b@, j),
        decreases b@.len() - i,
    {
        let ok = b[i] != 0 && encoding_ok(b, i, &word, &values) && join_ok(b, i) && run_ok(b, i) && ref_ok(b, i)
            && utf8_ok(b, i);
        if !ok {
            assert(!byte_ok_at(b@, i as int));
            return false;
        }
        i = i + 1;
    }
    true
}

} // verus!
