//! Text helpers: line-ending normalization, trimming, UTF-16 conversion and
//! decimal rendering.

use vstd::prelude::*;
use vstd::utf8::is_scalar;

verus! {

/// Whether `c` has the Unicode `White_Space` property, the set of characters
/// for which `char::is_whitespace` holds.
pub open spec fn is_white_space(c: char) -> bool {
    let v = c as u32;
    ||| 0x9 <= v <= 0xD
    ||| v == 0x20
    ||| v == 0x85
    ||| v == 0xA0
    ||| v == 0x1680
    ||| 0x2000 <= v <= 0x200A
    ||| v == 0x2028
    ||| v == 0x2029
    ||| v == 0x202F
    ||| v == 0x205F
    ||| v == 0x3000
}

/// Executable test for the Unicode `White_Space` property.
pub fn white_space(c: char) -> (r: bool)
    ensures
        r == is_white_space(c),
{
    let v = c as u32;
    (0x9 <= v && v <= 0xD) || v == 0x20 || v == 0x85 || v == 0xA0 || v == 0x1680 || (0x2000 <= v
        && v <= 0x200A) || v == 0x2028 || v == 0x2029 || v == 0x202F || v == 0x205F || v == 0x3000
}

/// `s` with every `"\r\n"` and then every remaining `'\r'` replaced by `'\n'`.
pub open spec fn unify_newlines(s: Seq<char>) -> Seq<char>
    decreases s.len(),
{
    if s.len() == 0 {
        seq![]
    } else if s[0] == '\r' && s.len() >= 2 && s[1] == '\n' {
        seq!['\n'] + unify_newlines(s.skip(2))
    } else if s[0] == '\r' {
        seq!['\n'] + unify_newlines(s.skip(1))
    } else {
        seq![s[0]] + unify_newlines(s.skip(1))
    }
}

/// `s` without its leading white space.
pub open spec fn trim_start(s: Seq<char>) -> Seq<char>
    decreases s.len(),
{
    if s.len() > 0 && is_white_space(s[0]) {
        trim_start(s.skip(1))
    } else {
        s
    }
}

/// `s` without its trailing white space.
pub open spec fn trim_end(s: Seq<char>) -> Seq<char>
    decreases s.len(),
{
    if s.len() > 0 && is_white_space(s.last()) {
        trim_end(s.drop_last())
    } else {
        s
    }
}

/// `s` without leading and trailing white space.
pub open spec fn trim(s: Seq<char>) -> Seq<char> {
    trim_end(trim_start(s))
}

/// The normalized form of a text: unified line endings, then trimmed.
pub open spec fn normalized(s: Seq<char>) -> Seq<char> {
    trim(unify_newlines(s))
}

/// `String::push`: appends `c` to the end of `s`, as the standard library
/// documents it.
#[verifier::external_body]
fn push_char(s: &mut String, c: char)
    ensures
        final(s)@ == old(s)@.push(c),
{
    s.push(c);
}

/// Collects the characters of `text`.
pub fn chars_of(text: &str) -> (r: Vec<char>)
    ensures
        r@ == text@,
{
    let mut out: Vec<char> = Vec::new();
    for c in it: text.chars()
        invariant
            out@ == it.seq().take(it.index() as int),
            it.seq() == text@,
    {
        out.push(c);
    }
    out
}

/// Builds a `String` from characters.
pub fn string_of(chars: &Vec<char>) -> (r: String)
    ensures
        r@ == chars@,
{
    let mut s = String::new();
    let mut i: usize = 0;
    while i < chars.len()
        invariant
            i <= chars.len(),
            s@ == chars@.take(i as int),
        decreases chars.len() - i,
    {
        push_char(&mut s, chars[i]);
        i = i + 1;
        assert(s@ =~= chars@.take(i as int));
    }
    assert(chars@.take(i as int) =~= chars@);
    s
}

/// The characters of `s` with line endings unified.
fn unify_newlines_exec(s: &Vec<char>) -> (r: Vec<char>)
    ensures
        r@ == unify_newlines(s@),
{
    let mut out: Vec<char> = Vec::new();
    let mut i: usize = 0;
    assert(s@.skip(0) =~= s@);
    while i < s.len()
        invariant
            i <= s.len(),
            unify_newlines(s@) == out@ + unify_newlines(s@.skip(i as int)),
        decreases s.len() - i,
    {
        let rest = Ghost(s@.skip(i as int));
        let c = s[i];
        if c == '\r' && i + 1 < s.len() && s[i + 1] == '\n' {
            out.push('\n');
            assert(rest@.skip(2) =~= s@.skip(i + 2));
            i = i + 2;
        } else if c == '\r' {
            out.push('\n');
            assert(rest@.skip(1) =~= s@.skip(i + 1));
            i = i + 1;
        } else {
            out.push(c);
            assert(rest@.skip(1) =~= s@.skip(i + 1));
            i = i + 1;
        }
    }
    assert(s@.skip(i as int) =~= seq![]);
    assert(out@ + seq![] =~= out@);
    out
}

/// The characters of `s` without leading and trailing white space.
fn trim_exec(s: &Vec<char>) -> (r: Vec<char>)
    ensures
        r@ == trim(s@),
{
    let mut start: usize = 0;
    assert(s@.skip(0) =~= s@);
    while start < s.len() && white_space(s[start])
        invariant
            start <= s.len(),
            trim_start(s@) == trim_start(s@.skip(start as int)),
        decreases s.len() - start,
    {
        assert(s@.skip(start as int).skip(1) =~= s@.skip(start + 1));
        start = start + 1;
    }
    let ghost t = s@.skip(start as int);
    assert(trim_start(s@) == t);
    let mut end: usize = s.len();
    assert(t.take((end - start) as int) =~= t);
    while end > start && white_space(s[end - 1])
        invariant
            start <= end <= s.len(),
            t == s@.skip(start as int),
            trim_end(t) == trim_end(t.take((end - start) as int)),
        decreases end,
    {
        assert(t.take((end - start) as int).drop_last() =~= t.take((end - 1 - start) as int));
        end = end - 1;
    }
    let mut out: Vec<char> = Vec::new();
    let mut k: usize = start;
    while k < end
        invariant
            start <= k <= end <= s.len(),
            out@ =~= s@.subrange(start as int, k as int),
        decreases end - k,
    {
        out.push(s[k]);
        k = k + 1;
    }
    assert(out@ =~= t.take((end - start) as int));
    out
}

/// Normalizes a text as it is shown in a dialog: converts `"\r\n"` and lone
/// `'\r'` line endings to `'\n'`, then trims leading and trailing white space.
pub fn normalize_text(text: &str) -> (r: String)
    ensures
        r@ == normalized(text@),
{
    let chars = chars_of(text);
    let unified = unify_newlines_exec(&chars);
    let trimmed = trim_exec(&unified);
    string_of(&trimmed)
}


/// Whether `u` is a UTF-16 high (leading) surrogate.
pub open spec fn is_high_surrogate(u: u16) -> bool {
    0xD800 <= u <= 0xDBFF
}

/// Whether `u` is a UTF-16 low (trailing) surrogate.
pub open spec fn is_low_surrogate(u: u16) -> bool {
    0xDC00 <= u <= 0xDFFF
}

/// The code point that a surrogate pair stands for.
pub open spec fn pair_value(hi: u16, lo: u16) -> u32 {
    (0x10000 + (hi - 0xD800) * 0x400 + (lo - 0xDC00)) as u32
}

/// The UTF-16 code units of one character.
pub open spec fn utf16_of_char(c: char) -> Seq<u16> {
    let v = c as u32;
    if v < 0x10000 {
        seq![v as u16]
    } else {
        seq![(0xD800 + (v - 0x10000) / 0x400) as u16, (0xDC00 + (v - 0x10000) % 0x400) as u16]
    }
}

/// The UTF-16 encoding of a character sequence.
pub open spec fn encode_utf16(s: Seq<char>) -> Seq<u16>
    decreases s.len(),
{
    if s.len() == 0 {
        seq![]
    } else {
        utf16_of_char(s[0]) + encode_utf16(s.skip(1))
    }
}

/// The NUL-terminated UTF-16 form of a text, as Windows API calls take it.
pub open spec fn wide(s: Seq<char>) -> Seq<u16> {
    encode_utf16(s) + seq![0u16]
}

/// Lossy UTF-16 decoding: each well-formed unit or surrogate pair becomes its
/// character, each unpaired surrogate becomes U+FFFD.
pub open spec fn decode_utf16_lossy(s: Seq<u16>) -> Seq<char>
    decreases s.len(),
{
    if s.len() == 0 {
        seq![]
    } else if !is_high_surrogate(s[0]) && !is_low_surrogate(s[0]) {
        seq![s[0] as char] + decode_utf16_lossy(s.skip(1))
    } else if is_high_surrogate(s[0]) && s.len() >= 2 && is_low_surrogate(s[1]) {
        seq![pair_value(s[0], s[1]) as char] + decode_utf16_lossy(s.skip(2))
    } else {
        seq!['\u{FFFD}'] + decode_utf16_lossy(s.skip(1))
    }
}

/// The code units of `s` before its first NUL unit (all of `s` if it has none).
pub open spec fn until_nul(s: Seq<u16>) -> Seq<u16>
    decreases s.len(),
{
    if s.len() == 0 || s[0] == 0 {
        seq![]
    } else {
        seq![s[0]] + until_nul(s.skip(1))
    }
}

/// `char::from_u32`: the character with the given scalar value, or `None` when
/// `v` is a surrogate or above U+10FFFF, as the standard library documents it.
#[verifier::external_body]
fn char_from_u32(v: u32) -> (r: Option<char>)
    ensures
        is_scalar(v) ==> r == Some(v as char),
        !is_scalar(v) ==> r is None,
{
    char::from_u32(v)
}

/// Appends the UTF-16 code units of `c` to `out`.
fn push_utf16(out: &mut Vec<u16>, c: char)
    ensures
        final(out)@ == old(out)@ + utf16_of_char(c),
{
    let v = c as u32;
    proof {
        broadcast use vstd::utf8::char_is_scalar;
        assert(is_scalar(c as u32));
    }
    if v < 0x10000 {
        out.push(v as u16);
    } else {
        let w = v - 0x10000;
        out.push((0xD800 + w / 0x400) as u16);
        out.push((0xDC00 + w % 0x400) as u16);
    }
    assert(final(out)@ =~= old(out)@ + utf16_of_char(c));
}

/// The UTF-16 code units of `chars`, followed by a NUL unit.
pub fn wide_of_chars(chars: &Vec<char>) -> (r: Vec<u16>)
    ensures
        r@ == wide(chars@),
{
    let mut out: Vec<u16> = Vec::new();
    let mut i: usize = 0;
    assert(chars@.skip(0) =~= chars@);
    while i < chars.len()
        invariant
            i <= chars.len(),
            encode_utf16(chars@) == out@ + encode_utf16(chars@.skip(i as int)),
        decreases chars.len() - i,
    {
        assert(chars@.skip(i as int).skip(1) =~= chars@.skip(i + 1));
        push_utf16(&mut out, chars[i]);
        i = i + 1;
        assert(encode_utf16(chars@) =~= out@ + encode_utf16(chars@.skip(i as int)));
    }
    assert(chars@.skip(i as int) =~= seq![]);
    assert(out@ + seq![] =~= out@);
    out.push(0);
    out
}

/// Converts a text to a NUL-terminated UTF-16 vector for the Windows API.
pub fn to_wide(text: &str) -> (r: Vec<u16>)
    ensures
        r@ == wide(text@),
{
    let chars = chars_of(text);
    wide_of_chars(&chars)
}

/// Decodes UTF-16 code units up to the first NUL unit, replacing unpaired
/// surrogates with U+FFFD.
pub fn decode_wide(units: &[u16]) -> (r: String)
    ensures
        r@ == decode_utf16_lossy(until_nul(units@)),
{
    let mut len: usize = 0;
    assert(units@.skip(0) =~= units@);
    assert(units@.take(0) + until_nul(units@) =~= until_nul(units@));
    while len < units.len() && units[len] != 0
        invariant
            len <= units.len(),
            until_nul(units@) == units@.take(len as int) + until_nul(units@.skip(len as int)),
            forall|k: int| 0 <= k < len ==> units@[k] != 0,
        decreases units.len() - len,
    {
        assert(units@.skip(len as int).skip(1) =~= units@.skip(len + 1));
        assert(units@.take(len + 1) =~= units@.take(len as int) + seq![units@[len as int]]);
        len = len + 1;
    }
    let ghost body = units@.take(len as int);
    assert(until_nul(units@.skip(len as int)) =~= seq![]);
    assert(until_nul(units@) =~= body);
    let mut out = String::new();
    let mut i: usize = 0;
    assert(body.skip(0) =~= body);
    while i < len
        invariant
            i <= len <= units.len(),
            body == units@.take(len as int),
            decode_utf16_lossy(body) == out@ + decode_utf16_lossy(body.skip(i as int)),
        decreases len - i,
    {
        let u = units[i];
        assert(body.skip(i as int)[0] == u);
        if u < 0xD800 || u > 0xDFFF {
            let c = char_from_u32(u as u32);
            assert(is_scalar(u as u32));
            push_char(&mut out, c.unwrap());
            assert(body.skip(i as int).skip(1) =~= body.skip(i + 1));
            i = i + 1;
        } else if u <= 0xDBFF && i + 1 < len && units[i + 1] >= 0xDC00 && units[i + 1] <= 0xDFFF {
            let lo = units[i + 1];
            assert(body.skip(i as int)[1] == lo);
            let v: u32 = 0x10000 + ((u - 0xD800) as u32) * 0x400 + ((lo - 0xDC00) as u32);
            assert(v == pair_value(u, lo));
            assert(is_scalar(v));
            let c = char_from_u32(v);
            push_char(&mut out, c.unwrap());
            assert(body.skip(i as int).skip(2) =~= body.skip(i + 2));
            i = i + 2;
        } else {
            push_char(&mut out, '\u{FFFD}');
            assert(body.skip(i as int).skip(1) =~= body.skip(i + 1));
            i = i + 1;
        }
        assert(decode_utf16_lossy(body) =~= out@ + decode_utf16_lossy(body.skip(i as int)));
    }
    assert(body.skip(i as int) =~= seq![]);
    assert(out@ + seq![] =~= out@);
    out
}


proof fn lemma_decode_char_then(c: char, rest: Seq<u16>)
    ensures
        decode_utf16_lossy(utf16_of_char(c) + rest) == seq![c] + decode_utf16_lossy(rest),
{
    broadcast use vstd::utf8::char_is_scalar, vstd::utf8::char_u32_cast;

    let v = c as u32;
    let s = utf16_of_char(c) + rest;
    assert(is_scalar(v));
    if v < 0x10000 {
        assert(s[0] == v as u16);
        assert(s.skip(1) =~= rest);
        assert((v as u16) as char == c);
    } else {
        let w = v - 0x10000;
        let hi = (0xD800 + w / 0x400) as u16;
        let lo = (0xDC00 + w % 0x400) as u16;
        assert(s[0] == hi && s[1] == lo);
        assert(w / 0x400 * 0x400 + w % 0x400 == w);
        assert(pair_value(hi, lo) == v);
        assert(s.skip(2) =~= rest);
    }
}

proof fn lemma_char_value(c: char)
    ensures
        is_scalar(c as u32),
        (c as u32 == 0) <==> (c == '\0'),
{
    broadcast use vstd::utf8::char_is_scalar, vstd::utf8::char_u32_cast;

    let v = c as u32;
    let z = '\0' as u32;
    assert((v as char) == c);
    assert((z as char) == '\0');
}

/// Decoding the UTF-16 encoding of any text gives the text back.
pub proof fn lemma_decode_encode(s: Seq<char>)
    ensures
        decode_utf16_lossy(encode_utf16(s)) == s,
    decreases s.len(),
{
    if s.len() > 0 {
        lemma_decode_encode(s.skip(1));
        lemma_decode_char_then(s[0], encode_utf16(s.skip(1)));
        assert(seq![s[0]] + s.skip(1) =~= s);
    }
}

/// The UTF-16 encoding of a text without NUL characters holds no NUL unit, so
/// the first NUL of its wide form is the terminator.
pub proof fn lemma_until_nul_wide(s: Seq<char>)
    requires
        !s.contains('\0'),
    ensures
        until_nul(wide(s)) == encode_utf16(s),
    decreases s.len(),
{
    if s.len() == 0 {
        assert(wide(s) =~= seq![0u16]);
    } else {
        let c = s[0];
        assert(c != '\0') by {
            assert(s[0] == c);
        }
        assert(!s.skip(1).contains('\0')) by {
            if s.skip(1).contains('\0') {
                let k = choose|k: int| 0 <= k < s.skip(1).len() && s.skip(1)[k] == '\0';
                assert(s[k + 1] == '\0');
            }
        }
        lemma_until_nul_wide(s.skip(1));
        let head = utf16_of_char(c);
        let tail = wide(s.skip(1));
        assert(wide(s) =~= head + tail);
        let v = c as u32;
        lemma_char_value(c);
        if v < 0x10000 {
            assert((head + tail)[0] == v as u16);
            assert((head + tail).skip(1) =~= tail);
            assert(encode_utf16(s) =~= head + encode_utf16(s.skip(1)));
        } else {
            let x = head + tail;
            let w = v - 0x10000;
            assert(w / 0x400 <= 0x3FF);
            assert(x[0] == (0xD800 + w / 0x400) as u16);
            assert(x[1] == (0xDC00 + w % 0x400) as u16);
            assert(x[0] != 0 && x[1] != 0);
            assert(x.skip(1).skip(1) =~= tail);
            assert(x.skip(1)[0] == x[1]);
            assert(until_nul(x.skip(1)) =~= seq![x[1]] + until_nul(tail));
            assert(encode_utf16(s) =~= head + encode_utf16(s.skip(1)));
            assert(until_nul(x) =~= seq![x[0]] + (seq![x[1]] + encode_utf16(s.skip(1))));
        }
    }
}

/// A text without NUL characters survives the trip to its wide form and back.
pub proof fn lemma_wide_round_trip(s: Seq<char>)
    requires
        !s.contains('\0'),
    ensures
        decode_utf16_lossy(until_nul(wide(s))) == s,
{
    lemma_until_nul_wide(s);
    lemma_decode_encode(s);
}


proof fn lemma_unify_no_cr(s: Seq<char>)
    ensures
        !unify_newlines(s).contains('\r'),
    decreases s.len(),
{
    if s.len() > 0 {
        let rest = if s[0] == '\r' && s.len() >= 2 && s[1] == '\n' {
            s.skip(2)
        } else {
            s.skip(1)
        };
        lemma_unify_no_cr(rest);
        let head = if s[0] == '\r' {
            '\n'
        } else {
            s[0]
        };
        let u = unify_newlines(s);
        assert(u =~= seq![head] + unify_newlines(rest));
        if u.contains('\r') {
            let k = choose|k: int| 0 <= k < u.len() && u[k] == '\r';
            if k > 0 {
                assert(unify_newlines(rest)[k - 1] == '\r');
            }
        }
    }
}

proof fn lemma_unify_identity(s: Seq<char>)
    requires
        !s.contains('\r'),
    ensures
        unify_newlines(s) == s,
    decreases s.len(),
{
    if s.len() > 0 {
        assert(s[0] != '\r') by {
            assert(s[0] == s[0]);
        }
        assert(!s.skip(1).contains('\r')) by {
            if s.skip(1).contains('\r') {
                let k = choose|k: int| 0 <= k < s.skip(1).len() && s.skip(1)[k] == '\r';
                assert(s[k + 1] == '\r');
            }
        }
        lemma_unify_identity(s.skip(1));
        assert(seq![s[0]] + s.skip(1) =~= s);
    }
}

proof fn lemma_trim_start_suffix(s: Seq<char>)
    ensures
        trim_start(s).len() <= s.len(),
        trim_start(s) == s.skip(s.len() - trim_start(s).len()),
        trim_start(s).len() == 0 || !is_white_space(trim_start(s)[0]),
    decreases s.len(),
{
    if s.len() > 0 && is_white_space(s[0]) {
        lemma_trim_start_suffix(s.skip(1));
        assert(s.skip(1).skip(s.len() - 1 - trim_start(s).len()) =~= s.skip(
            s.len() - trim_start(s).len(),
        ));
    } else {
        assert(s.skip(0) =~= s);
    }
}

proof fn lemma_trim_end_prefix(s: Seq<char>)
    ensures
        trim_end(s).len() <= s.len(),
        trim_end(s) == s.take(trim_end(s).len() as int),
        trim_end(s).len() == 0 || !is_white_space(trim_end(s).last()),
    decreases s.len(),
{
    if s.len() > 0 && is_white_space(s.last()) {
        lemma_trim_end_prefix(s.drop_last());
        assert(s.drop_last().take(trim_end(s).len() as int) =~= s.take(trim_end(s).len() as int));
    } else {
        assert(s.take(s.len() as int) =~= s);
    }
}

/// A trimmed text is a contiguous piece of the original that neither starts
/// nor ends with white space.
pub proof fn lemma_trim_shape(s: Seq<char>)
    ensures
        exists|i: int, j: int| 0 <= i <= j <= s.len() && trim(s) == s.subrange(i, j),
        trim(s).len() == 0 || (!is_white_space(trim(s)[0]) && !is_white_space(trim(s).last())),
{
    lemma_trim_start_suffix(s);
    let t = trim_start(s);
    lemma_trim_end_prefix(t);
    let i = s.len() - t.len();
    let j = i + trim_end(t).len();
    assert(trim(s) =~= s.subrange(i, j));
    if trim(s).len() > 0 {
        assert(trim(s)[0] == t[0]);
    }
}

proof fn lemma_trim_trimmed(s: Seq<char>)
    requires
        s.len() == 0 || (!is_white_space(s[0]) && !is_white_space(s.last())),
    ensures
        trim(s) == s,
{
}

/// Normalized text holds no carriage return and has no white space at either
/// end.
pub proof fn lemma_normalized_shape(s: Seq<char>)
    ensures
        !normalized(s).contains('\r'),
        normalized(s).len() == 0 || (!is_white_space(normalized(s)[0]) && !is_white_space(
            normalized(s).last(),
        )),
{
    let u = unify_newlines(s);
    lemma_unify_no_cr(s);
    lemma_trim_shape(u);
    let n = normalized(s);
    if n.contains('\r') {
        let (i, j) = choose|i: int, j: int| 0 <= i <= j <= u.len() && trim(u) == u.subrange(i, j);
        let k = choose|k: int| 0 <= k < n.len() && n[k] == '\r';
        assert(u[i + k] == '\r');
    }
}

/// Normalizing an already normalized text changes nothing.
pub proof fn lemma_normalize_idempotent(s: Seq<char>)
    ensures
        normalized(normalized(s)) == normalized(s),
{
    let n = normalized(s);
    lemma_normalized_shape(s);
    lemma_unify_identity(n);
    lemma_trim_trimmed(n);
}


/// The ASCII digit for `d` (for `d < 10`).
pub open spec fn digit_char(d: nat) -> char {
    (d + 48) as char
}

/// The decimal representation of `n`, without leading zeros.
pub open spec fn decimal(n: nat) -> Seq<char>
    decreases n,
{
    if n < 10 {
        seq![digit_char(n)]
    } else {
        decimal(n / 10).push(digit_char(n % 10))
    }
}

/// Appends the decimal representation of `n` to `out`.
pub fn push_decimal(out: &mut Vec<char>, n: u128)
    ensures
        final(out)@ == old(out)@ + decimal(n as nat),
    decreases n,
{
    if n >= 10 {
        push_decimal(out, n / 10);
    }
    let d = (n % 10) as u8;
    out.push((d + 48) as char);
    assert(final(out)@ =~= old(out)@ + decimal(n as nat));
}


proof fn lemma_decimal_len(n: nat)
    ensures
        decimal(n).len() >= 1,
        n >= 10 ==> decimal(n).len() >= 2,
    decreases n,
{
    if n >= 10 {
        lemma_decimal_len(n / 10);
    }
}

proof fn lemma_digit_char_injective(a: nat, b: nat)
    requires
        a < 10,
        b < 10,
        digit_char(a) == digit_char(b),
    ensures
        a == b,
{
    assert(digit_char(a) as u32 == a + 48);
    assert(digit_char(b) as u32 == b + 48);
}

/// Different numbers have different decimal representations.
pub proof fn lemma_decimal_injective(a: nat, b: nat)
    requires
        decimal(a) == decimal(b),
    ensures
        a == b,
    decreases a,
{
    lemma_decimal_len(a);
    lemma_decimal_len(b);
    if a < 10 && b < 10 {
        assert(decimal(a)[0] == digit_char(a));
        assert(decimal(b)[0] == digit_char(b));
        lemma_digit_char_injective(a, b);
    } else if a >= 10 && b >= 10 {
        let da = decimal(a);
        let db = decimal(b);
        assert(da.last() == digit_char(a % 10));
        assert(db.last() == digit_char(b % 10));
        assert(da.last() == db.last());
        assert(digit_char(a % 10) == digit_char(b % 10));
        lemma_digit_char_injective(a % 10, b % 10);
        assert(da.drop_last() =~= decimal(a / 10));
        assert(db.drop_last() =~= decimal(b / 10));
        lemma_decimal_injective(a / 10, b / 10);
    } else {
        assert(decimal(a).len() != decimal(b).len());
    }
}


/// Within ASCII and Latin-1, exactly tab, line feed, vertical tab, form
/// feed, carriage return, space, NEL (U+0085) and no-break space (U+00A0) are
/// white space: no letter, digit, punctuation mark or symbol is. Above
/// U+3000 nothing is.
pub proof fn lemma_white_space_classes(c: char)
    ensures
        (c as u32) < 0x100 ==> (is_white_space(c) <==> (0x9 <= (c as u32) <= 0xD || c as u32
            == 0x20 || c as u32 == 0x85 || c as u32 == 0xA0)),
        0x21 <= (c as u32) <= 0x7E ==> !is_white_space(c),
        (c as u32) > 0x3000 ==> !is_white_space(c),
{
}

proof fn lemma_unify_ends(s: Seq<char>)
    ensures
        s.len() > 0 && s[0] != '\r' ==> unify_newlines(s).len() > 0 && unify_newlines(s)[0] == s[0],
        s.len() > 0 && s.last() != '\r' ==> unify_newlines(s).len() > 0 && unify_newlines(
            s,
        ).last() == s.last(),
    decreases s.len(),
{
    if s.len() > 0 {
        let two = s[0] == '\r' && s.len() >= 2 && s[1] == '\n';
        let rest = if two {
            s.skip(2)
        } else {
            s.skip(1)
        };
        lemma_unify_ends(rest);
        let head: char = if s[0] == '\r' {
            '\n'
        } else {
            s[0]
        };
        assert(unify_newlines(s) =~= seq![head] + unify_newlines(rest));
        if rest.len() > 0 {
            assert(rest.last() == s.last());
        } else if two {
            assert(s.len() == 2);
        } else {
            assert(s.len() == 1);
        }
    }
}

proof fn lemma_trim_start_keeps_last(t: Seq<char>)
    requires
        t.len() > 0,
        !is_white_space(t.last()),
    ensures
        trim_start(t).len() > 0,
        trim_start(t).last() == t.last(),
    decreases t.len(),
{
    if is_white_space(t[0]) {
        assert(t.len() > 1);
        assert(t.skip(1).last() == t.last());
        lemma_trim_start_keeps_last(t.skip(1));
    }
}

proof fn lemma_trim_end_keeps_first(t: Seq<char>)
    requires
        t.len() > 0,
        !is_white_space(t[0]),
    ensures
        trim_end(t).len() > 0,
        trim_end(t)[0] == t[0],
    decreases t.len(),
{
    if is_white_space(t.last()) {
        assert(t.len() > 1);
        assert(t.drop_last()[0] == t[0]);
        lemma_trim_end_keeps_first(t.drop_last());
    }
}

/// Normalizing keeps a text's first and last characters when they are
/// neither white space nor a carriage return; in particular text ending in
/// punctuation such as '!' or '.' keeps it.
pub proof fn lemma_normalize_keeps_visible_ends(s: Seq<char>)
    ensures
        s.len() > 0 && !is_white_space(s.last()) && s.last() != '\r' ==> normalized(s).len() > 0
            && normalized(s).last() == s.last(),
        s.len() > 0 && !is_white_space(s[0]) && s[0] != '\r' ==> normalized(s).len() > 0
            && normalized(s)[0] == s[0],
{
    lemma_unify_ends(s);
    let u = unify_newlines(s);
    if s.len() > 0 && !is_white_space(s.last()) && s.last() != '\r' {
        lemma_trim_start_keeps_last(u);
    }
    if s.len() > 0 && !is_white_space(s[0]) && s[0] != '\r' {
        assert(trim_start(u) == u);
        lemma_trim_end_keeps_first(u);
    }
}


proof fn lemma_trim_start_drops_white(s: Seq<char>)
    ensures
        trim_start(s).len() <= s.len(),
        forall|k: int| 0 <= k < s.len() - trim_start(s).len() ==> is_white_space(#[trigger] s[k]),
    decreases s.len(),
{
    if s.len() > 0 && is_white_space(s[0]) {
        lemma_trim_start_drops_white(s.skip(1));
        assert forall|k: int| 0 <= k < s.len() - trim_start(s).len() implies is_white_space(
            #[trigger] s[k],
        ) by {
            if k > 0 {
                assert(s[k] == s.skip(1)[k - 1]);
            }
        }
    }
}

proof fn lemma_trim_end_drops_white(s: Seq<char>)
    ensures
        trim_end(s).len() <= s.len(),
        forall|k: int| trim_end(s).len() <= k < s.len() ==> is_white_space(#[trigger] s[k]),
    decreases s.len(),
{
    if s.len() > 0 && is_white_space(s.last()) {
        lemma_trim_end_drops_white(s.drop_last());
        assert forall|k: int| trim_end(s).len() <= k < s.len() implies is_white_space(
            #[trigger] s[k],
        ) by {
            if k < s.len() - 1 {
                assert(s[k] == s.drop_last()[k]);
            }
        }
    }
}

/// Trimming removes white space only: the trimmed text is the piece of the
/// original between a prefix and a suffix made wholly of white space, and it
/// neither starts nor ends with white space itself.
pub proof fn lemma_trim_removes_only_white_space(s: Seq<char>)
    ensures
        exists|i: int, j: int|
            {
                &&& 0 <= i <= j <= s.len()
                &&& trim(s) == s.subrange(i, j)
                &&& forall|k: int| 0 <= k < i ==> is_white_space(#[trigger] s[k])
                &&& forall|k: int| j <= k < s.len() ==> is_white_space(#[trigger] s[k])
            },
        trim(s).len() == 0 || (!is_white_space(trim(s)[0]) && !is_white_space(trim(s).last())),
{
    lemma_trim_shape(s);
    lemma_trim_start_suffix(s);
    lemma_trim_start_drops_white(s);
    let t = trim_start(s);
    lemma_trim_end_prefix(t);
    lemma_trim_end_drops_white(t);
    let i = s.len() - t.len();
    let j = i + trim_end(t).len();
    assert(trim(s) =~= s.subrange(i, j));
    assert forall|k: int| j <= k < s.len() implies is_white_space(#[trigger] s[k]) by {
        assert(s[k] == t[k - i]);
    }
}

/// The positional value of a string of decimal digits.
pub open spec fn digits_value(d: Seq<char>) -> int
    decreases d.len(),
{
    if d.len() == 0 {
        0
    } else {
        digits_value(d.drop_last()) * 10 + (d.last() as int - 48)
    }
}

/// The decimal representation of a number is made of the digits '0' to '9'
/// and reads back as that number, with no leading zero.
pub proof fn lemma_decimal_value(n: nat)
    ensures
        forall|k: int| 0 <= k < decimal(n).len() ==> 48 <= (#[trigger] decimal(n)[k]) as u32 <= 57,
        digits_value(decimal(n)) == n,
        decimal(n).len() > 1 ==> decimal(n)[0] != '0',
    decreases n,
{
    lemma_decimal_len(n);
    if n >= 10 {
        lemma_decimal_value(n / 10);
        lemma_decimal_len(n / 10);
        let d = decimal(n);
        assert(d.drop_last() =~= decimal(n / 10));
        assert(d[0] == decimal(n / 10)[0]);
        assert(d.last() == digit_char(n % 10));
        assert(digit_char(n % 10) as int == n % 10 + 48);
        assert(digits_value(d) == digits_value(decimal(n / 10)) * 10 + (n % 10));
        assert((n / 10) * 10 + n % 10 == n);
        assert forall|k: int| 0 <= k < d.len() implies 48 <= (#[trigger] d[k]) as u32 <= 57 by {
            if k < d.len() - 1 {
                assert(d[k] == decimal(n / 10)[k]);
            }
        }
    } else {
        assert(decimal(n)[0] == digit_char(n));
        assert(digit_char(n) as int == n + 48);
        assert(decimal(n).drop_last() =~= seq![]);
        assert(digits_value(decimal(n)) == digits_value(decimal(n).drop_last()) * 10 + (
        decimal(n).last() as int - 48));
    }
}

/// UTF-16 encodes a character below U+10000 as its own code point, and any
/// other character as a high surrogate followed by a low surrogate that
/// together carry the code point minus 0x10000.
pub proof fn lemma_utf16_units(c: char)
    ensures
        (c as u32) < 0x10000 ==> utf16_of_char(c) == seq![(c as u32) as u16],
        (c as u32) >= 0x10000 ==> {
            let u = utf16_of_char(c);
            &&& u.len() == 2
            &&& 0xD800 <= u[0] <= 0xDBFF
            &&& 0xDC00 <= u[1] <= 0xDFFF
            &&& (u[0] - 0xD800) * 0x400 + (u[1] - 0xDC00) + 0x10000 == c as u32
        },
{
    lemma_char_value(c);
    let v = c as u32;
    if v >= 0x10000 {
        let w = v - 0x10000;
        assert(w / 0x400 <= 0x3FF);
        assert(w / 0x400 * 0x400 + w % 0x400 == w);
    }
}

} // verus!
