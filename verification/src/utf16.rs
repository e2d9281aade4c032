//! UTF-16 text as the registry stores it: encoding of strings into code
//! units, and lossy decoding of code units back into strings.
use vstd::prelude::*;

verus! {

/// True for a code unit in the high-surrogate range.
pub open spec fn is_high_surrogate(u: u16) -> bool {
    0xD800 <= u <= 0xDBFF
}

/// True for a code unit in the low-surrogate range.
pub open spec fn is_low_surrogate(u: u16) -> bool {
    0xDC00 <= u <= 0xDFFF
}

/// The scalar value that a surrogate pair stands for.
pub open spec fn pair_scalar(hi: u16, lo: u16) -> u32 {
    (0x10000 + (hi - 0xD800) * 0x400 + (lo - 0xDC00)) as u32
}

/// The UTF-16 code units of one character: one unit below U+10000,
/// a surrogate pair above.
pub open spec fn char_units(c: char) -> Seq<u16> {
    let v = c as u32;
    if v < 0x10000 {
        seq![v as u16]
    } else {
        seq![(0xD800 + (v - 0x10000) / 0x400) as u16, (0xDC00 + (v - 0x10000) % 0x400) as u16]
    }
}

/// The UTF-16 encoding of a character sequence.
pub open spec fn utf16_encode(s: Seq<char>) -> Seq<u16>
    decreases s.len(),
{
    if s.len() == 0 {
        Seq::empty()
    } else {
        char_units(s[0]) + utf16_encode(s.drop_first())
    }
}

/// Lossy UTF-16 decoding: a well-formed surrogate pair gives one
/// character, an unpaired surrogate gives U+FFFD, any other unit gives
/// the character with that value.
pub open spec fn utf16_decode(units: Seq<u16>) -> Seq<char>
    decreases units.len(),
{
    if units.len() == 0 {
        Seq::empty()
    } else if units.len() >= 2 && is_high_surrogate(units[0]) && is_low_surrogate(units[1]) {
        seq![pair_scalar(units[0], units[1]) as char] + utf16_decode(units.skip(2))
    } else if is_high_surrogate(units[0]) || is_low_surrogate(units[0]) {
        seq!['\u{FFFD}'] + utf16_decode(units.skip(1))
    } else {
        seq![(units[0] as u32) as char] + utf16_decode(units.skip(1))
    }
}

/// The data of a registry string value: the encoded text and a
/// terminating zero unit.
pub open spec fn reg_sz(s: Seq<char>) -> Seq<u16> {
    utf16_encode(s).push(0u16)
}

/// Decoding what was encoded gives the characters back, whatever follows
/// them.
pub proof fn lemma_decode_encode_prefix(s: Seq<char>, t: Seq<u16>)
    ensures
        utf16_decode(utf16_encode(s) + t) == s + utf16_decode(t),
    decreases s.len(),
{
    if s.len() == 0 {
        assert(utf16_encode(s) + t =~= t);
        assert(s + utf16_decode(t) =~= utf16_decode(t));
    } else {
        let c = s[0];
        let rest = s.drop_first();
        let v = c as u32;
        vstd::utf8::char_is_scalar(c);
        vstd::utf8::char_u32_cast(c, v);
        let tail = utf16_encode(rest) + t;
        let x = utf16_encode(s) + t;
        assert(x =~= char_units(c) + tail);
        lemma_decode_encode_prefix(rest, t);
        if v < 0x10000 {
            assert(x[0] == v as u16);
            assert(x.skip(1) =~= tail);
            assert(((x[0] as u32) as char) == c);
        } else {
            let hi = (0xD800 + (v - 0x10000) / 0x400) as u16;
            let lo = (0xDC00 + (v - 0x10000) % 0x400) as u16;
            assert(x[0] == hi);
            assert(x[1] == lo);
            assert(is_high_surrogate(hi));
            assert(is_low_surrogate(lo));
            assert(pair_scalar(hi, lo) == v);
            assert(x.skip(2) =~= tail);
        }
        assert(s =~= seq![c] + rest);
        assert(utf16_decode(x) =~= s + utf16_decode(t));
    }
}

/// Decoding the data of a registry string value gives its text back,
/// followed by the NUL character of the terminating zero unit.
pub proof fn lemma_decode_reg_sz(s: Seq<char>)
    ensures
        utf16_decode(reg_sz(s)) == s.push('\0'),
{
    lemma_decode_encode_prefix(s, seq![0u16]);
    assert(reg_sz(s) =~= utf16_encode(s) + seq![0u16]);
    assert(seq![0u16].skip(1) =~= Seq::<u16>::empty());
    assert(utf16_decode(Seq::<u16>::empty()) =~= Seq::<char>::empty());
    assert(((0u16 as u32) as char) == '\0');
    assert(utf16_decode(seq![0u16]) =~= seq!['\0']);
    assert(s + seq!['\0'] =~= s.push('\0'));
}

/// `char::from_u32`: the character whose scalar value is `v`, or `None`
/// where `v` is a surrogate or above U+10FFFF (as its documentation says).
#[verifier::external_body]
fn char_from_u32(v: u32) -> (r: Option<char>)
    ensures
        r == (if vstd::utf8::is_scalar(v) {
            Some(v as char)
        } else {
            None
        }),
{
    char::from_u32(v)
}

/// `String::push`: appends one character to the end of the string.
#[verifier::external_body]
pub(crate) fn push_char(s: &mut String, c: char)
    ensures
        final(s)@ == old(s)@.push(c),
{
    s.push(c)
}

proof fn lemma_encode_append(s: Seq<char>, c: char)
    ensures
        utf16_encode(s.push(c)) == utf16_encode(s) + char_units(c),
    decreases s.len(),
{
    if s.len() == 0 {
        assert(s.push(c).drop_first() =~= Seq::<char>::empty());
        assert(utf16_encode(Seq::<char>::empty()) =~= Seq::<u16>::empty());
        assert(utf16_encode(s.push(c)) =~= char_units(c));
        assert(utf16_encode(s) + char_units(c) =~= char_units(c));
    } else {
        lemma_encode_append(s.drop_first(), c);
        assert(s.push(c).drop_first() =~= s.drop_first().push(c));
        assert(utf16_encode(s.push(c)) =~= char_units(s[0]) + (utf16_encode(s.drop_first()) + char_units(c)));
    }
}

/// Encodes a string into UTF-16 code units.
pub fn encode_utf16(s: &str) -> (r: Vec<u16>)
    ensures
        r@ == utf16_encode(s@),
{
    let mut out: Vec<u16> = Vec::new();
    let ghost mut done: Seq<char> = Seq::empty();
    for c in it: s.chars()
        invariant
            it.seq() == s@,
            done == s@.take(it.index() as int),
            out@ == utf16_encode(done),
    {
        proof {
            vstd::utf8::char_is_scalar(c);
            lemma_encode_append(done, c);
        }
        let v: u32 = c as u32;
        if v < 0x10000 {
            out.push(v as u16);
        } else {
            let w: u32 = v - 0x10000;
            out.push((0xD800 + w / 0x400) as u16);
            out.push((0xDC00 + w % 0x400) as u16);
        }
        proof {
            assert(s@.take(it.index() as int + 1) =~= done.push(c));
            done = done.push(c);
            assert(out@ =~= utf16_encode(done));
        }
    }
    proof {
        assert(done =~= s@);
    }
    out
}

/// Encodes a string as registry string data: its UTF-16 units followed by
/// a zero unit.
pub fn reg_sz_data(s: &str) -> (r: Vec<u16>)
    ensures
        r@ == reg_sz(s@),
{
    let mut out = encode_utf16(s);
    out.push(0u16);
    out
}

/// Decodes `units` lossily into a string.
pub fn decode_utf16_lossy(units: &[u16]) -> (r: String)
    ensures
        r@ == utf16_decode(units@),
{
    let n = units.len();
    let mut out = String::new();
    let mut i: usize = 0;
    proof {
        assert(units@.skip(0) =~= units@);
    }
    while i < n
        invariant
            n == units@.len(),
            i <= n,
            utf16_decode(units@) == out@ + utf16_decode(units@.skip(i as int)),
        decreases n - i,
    {
        let ghost rest = units@.skip(i as int);
        let u = units[i];
        if 0xD800 <= u && u <= 0xDBFF && i + 1 < n && 0xDC00 <= units[i + 1] && units[i + 1]
            <= 0xDFFF {
            let lo = units[i + 1];
            let v: u32 = 0x10000 + (u as u32 - 0xD800) * 0x400 + (lo as u32 - 0xDC00);
            let c = match char_from_u32(v) {
                Some(c) => c,
                None => '\u{FFFD}',
            };
            proof {
                assert(v == pair_scalar(u, lo));
                assert(rest.skip(2) =~= units@.skip(i + 2));
            }
            push_char(&mut out, c);
            i = i + 2;
        } else if 0xD800 <= u && u <= 0xDFFF {
            proof {
                assert(rest.skip(1) =~= units@.skip(i + 1));
            }
            push_char(&mut out, '\u{FFFD}');
            i = i + 1;
        } else {
            let c = match char_from_u32(u as u32) {
                Some(c) => c,
                None => '\u{FFFD}',
            };
            proof {
                assert(rest.skip(1) =~= units@.skip(i + 1));
            }
            push_char(&mut out, c);
            i = i + 1;
        }
    }
    proof {
        assert(units@.skip(n as int) =~= Seq::<u16>::empty());
    }
    out
}

/// The text of a registry string value as read into `buf`, of which the
/// query filled `data_len` bytes: the first `data_len / 2` units, decoded
/// lossily.
pub fn reg_sz_text(buf: &[u16], data_len: u32) -> (r: String)
    requires
        data_len / 2 <= buf@.len(),
    ensures
        r@ == utf16_decode(buf@.take(data_len as int / 2)),
{
    let end: usize = (data_len / 2) as usize;
    let part = vstd::slice::slice_subrange(buf, 0, end);
    proof {
        assert(part@ =~= buf@.take(data_len as int / 2));
    }
    decode_utf16_lossy(part)
}

/// The text of the first `count` units of `buf`, decoded lossily, as a
/// subkey's name is read.
pub fn units_text(buf: &[u16], count: u32) -> (r: String)
    requires
        count <= buf@.len(),
    ensures
        r@ == utf16_decode(buf@.take(count as int)),
{
    let part = vstd::slice::slice_subrange(buf, 0, count as usize);
    proof {
        assert(part@ =~= buf@.take(count as int));
    }
    decode_utf16_lossy(part)
}

} // verus!
