//! UTF-16 text as it crosses the local channel: encoding of strings, the
//! little-endian framing of messages, lossy decoding and the trimming of NUL padding.
use vstd::prelude::*;

verus! {

/// The UTF-16 code units of one character.
pub open spec fn utf16_of_char(c: char) -> Seq<u16> {
    let v = c as u32;
    if v < 0x10000 {
        seq![v as u16]
    } else {
        let w: u32 = (v - 0x10000) as u32;
        seq![(0xD800 + (w >> 10u32)) as u16, (0xDC00 + (w & 0x3FFu32)) as u16]
    }
}

/// The UTF-16 encoding of a character sequence.
pub open spec fn utf16_encode(cs: Seq<char>) -> Seq<u16>
    decreases cs.len(),
{
    if cs.len() == 0 {
        Seq::empty()
    } else {
        utf16_of_char(cs[0]) + utf16_encode(cs.drop_first())
    }
}

/// A NUL-terminated wide string: the UTF-16 units followed by a zero unit.
pub open spec fn wide_of(cs: Seq<char>) -> Seq<u16> {
    utf16_encode(cs).push(0u16)
}

pub open spec fn is_high_surrogate(u: u16) -> bool {
    0xD800 <= u <= 0xDBFF
}

pub open spec fn is_low_surrogate(u: u16) -> bool {
    0xDC00 <= u <= 0xDFFF
}

/// The unit that stands for an invalid code unit after lossy decoding.
pub const REPLACEMENT_UNIT: u16 = 0xFFFD;

/// Lossy UTF-16 decoding, stated on code units: a well-formed surrogate pair
/// is kept, every unpaired surrogate becomes the replacement character.
pub open spec fn lossy_units(u: Seq<u16>) -> Seq<u16>
    decreases u.len(),
{
    if u.len() == 0 {
        Seq::empty()
    } else if u.len() >= 2 && is_high_surrogate(u[0]) && is_low_surrogate(u[1]) {
        seq![u[0], u[1]] + lossy_units(u.subrange(2, u.len() as int))
    } else if is_high_surrogate(u[0]) || is_low_surrogate(u[0]) {
        seq![REPLACEMENT_UNIT] + lossy_units(u.drop_first())
    } else {
        seq![u[0]] + lossy_units(u.drop_first())
    }
}

/// Drops the NUL units at the back.
pub open spec fn trim_trailing_nul(u: Seq<u16>) -> Seq<u16>
    decreases u.len(),
{
    if u.len() > 0 && u.last() == 0 {
        trim_trailing_nul(u.drop_last())
    } else {
        u
    }
}

/// The bytes of a unit sequence, low byte first.
pub open spec fn le_bytes(u: Seq<u16>) -> Seq<u8> {
    Seq::new(
        2 * u.len(),
        |j: int|
            if j % 2 == 0 {
                (u[j / 2] % 256) as u8
            } else {
                (u[j / 2] / 256) as u8
            },
    )
}

/// The units held by a byte sequence read low byte first; an odd last byte
/// is ignored.
pub open spec fn units_of_le(b: Seq<u8>) -> Seq<u16> {
    Seq::new(b.len() / 2, |i: int| (b[2 * i] + 256 * b[2 * i + 1]) as u16)
}

/// What the receiving side makes of one message: its units, lossily
/// decoded, with the trailing NUL padding removed.
pub open spec fn decode_message_spec(b: Seq<u8>) -> Seq<u16> {
    trim_trailing_nul(lossy_units(units_of_le(b)))
}

/// The most UTF-16 units a field may have on the channel; a message is at
/// most this many units.
pub const MAX_FIELD_UNITS: usize = 256;

/// The units sent for a field: its UTF-16 units, NUL-terminated when the
/// terminator still fits in a message.
pub open spec fn message_units(cs: Seq<char>) -> Seq<u16> {
    if utf16_encode(cs).len() < MAX_FIELD_UNITS {
        wide_of(cs)
    } else {
        utf16_encode(cs)
    }
}

/// Relies on `str::encode_utf16`: it yields the UTF-16 code units of the
/// string, one or two per character.
#[verifier::external_body]
fn encode_utf16_units(s: &str) -> (r: Vec<u16>)
    ensures
        r@ == utf16_encode(s@),
{
    s.encode_utf16().collect()
}

/// The string as a NUL-terminated UTF-16 vector, as Win32 wide-string
/// parameters expect it.
pub fn to_wide_vec(s: &str) -> (r: Vec<u16>)
    ensures
        r@ == wide_of(s@),
{
    let mut r = encode_utf16_units(s);
    r.push(0u16);
    r
}

/// The bytes of a unit vector, low byte first.
pub fn units_to_le_bytes(u: &Vec<u16>) -> (r: Vec<u8>)
    ensures
        r@ == le_bytes(u@),
{
    let mut r: Vec<u8> = Vec::new();
    let mut i: usize = 0;
    while i < u.len()
        invariant
            i <= u@.len(),
            r@.len() == 2 * i,
            forall|j: int| 0 <= j < 2 * i ==> r@[j] == le_bytes(u@)[j],
        decreases u@.len() - i,
    {
        let x = u[i];
        r.push((x % 256) as u8);
        r.push((x / 256) as u8);
        i = i + 1;
    }
    assert(r@ =~= le_bytes(u@));
    r
}

/// The units held by a byte vector read low byte first.
pub fn le_bytes_to_units(b: &Vec<u8>) -> (r: Vec<u16>)
    ensures
        r@ == units_of_le(b@),
{
    let mut r: Vec<u16> = Vec::new();
    let m: usize = b.len();
    let n: usize = m / 2;
    let mut i: usize = 0;
    while i < n
        invariant
            m == b@.len(),
            n == m / 2,
            2 * n <= m,
            i <= n,
            r@.len() == i,
            forall|j: int| 0 <= j < i ==> r@[j] == units_of_le(b@)[j],
        decreases n - i,
    {
        let lo = b[2 * i] as u16;
        let hi = b[2 * i + 1] as u16;
        r.push(lo + 256 * hi);
        i = i + 1;
    }
    assert(r@ =~= units_of_le(b@));
    r
}

/// Replaces every unpaired surrogate by the replacement character and keeps
/// everything else.
pub fn lossy_normalize(u: &Vec<u16>) -> (r: Vec<u16>)
    ensures
        r@ == lossy_units(u@),
{
    let n = u.len();
    let mut r: Vec<u16> = Vec::new();
    let mut i: usize = 0;
    assert(u@.subrange(0, n as int) =~= u@);
    assert(r@ + lossy_units(u@) =~= lossy_units(u@));
    while i < n
        invariant
            n == u@.len(),
            i <= n,
            lossy_units(u@) == r@ + lossy_units(u@.subrange(i as int, n as int)),
        decreases n - i,
    {
        let ghost rest = u@.subrange(i as int, n as int);
        let x = u[i];
        if i + 1 < n && 0xD800 <= x && x <= 0xDBFF && 0xDC00 <= u[i + 1] && u[i + 1] <= 0xDFFF {
            assert(rest.subrange(2, rest.len() as int) =~= u@.subrange(i + 2, n as int));
            r.push(x);
            r.push(u[i + 1]);
            proof {
                assert(seq![rest[0], rest[1]] =~= seq![x, u@[i + 1]]);
                assert(r@ + lossy_units(u@.subrange(i + 2, n as int)) =~= (r@.subrange(0, r@.len() - 2) + seq![x, u@[i + 1]]) + lossy_units(u@.subrange(i + 2, n as int)));
            }
            i = i + 2;
        } else {
            assert(rest.drop_first() =~= u@.subrange(i + 1, n as int));
            if 0xD800 <= x && x <= 0xDFFF {
                r.push(REPLACEMENT_UNIT);
            } else {
                r.push(x);
            }
            i = i + 1;
        }
    }
    assert(u@.subrange(n as int, n as int) =~= Seq::<u16>::empty());
    assert(r@ + Seq::<u16>::empty() =~= r@);
    r
}

proof fn lemma_trim_trailing_to(u: Seq<u16>, k: int)
    requires
        0 <= k <= u.len(),
        forall|j: int| k <= j < u.len() ==> u[j] == 0,
    ensures
        trim_trailing_nul(u) == trim_trailing_nul(u.subrange(0, k)),
    decreases u.len() - k,
{
    if k < u.len() {
        lemma_trim_trailing_to(u.drop_last(), k);
        assert(u.drop_last().subrange(0, k) =~= u.subrange(0, k));
    } else {
        assert(u.subrange(0, k) =~= u);
    }
}

/// Removes the NUL units at the back.
pub fn trim_trailing_nul_units(u: &Vec<u16>) -> (r: Vec<u16>)
    ensures
        r@ == trim_trailing_nul(u@),
{
    let n = u.len();
    let mut end: usize = n;
    while end > 0 && u[end - 1] == 0
        invariant
            n == u@.len(),
            end <= n,
            forall|j: int| end <= j < n ==> u@[j] == 0,
        decreases end,
    {
        end = end - 1;
    }
    let mut r: Vec<u16> = Vec::new();
    let mut i: usize = 0;
    while i < end
        invariant
            i <= end <= n,
            n == u@.len(),
            r@ =~= u@.subrange(0, i as int),
        decreases end - i,
    {
        r.push(u[i]);
        i = i + 1;
    }
    proof {
        lemma_trim_trailing_to(u@, end as int);
        assert(trim_trailing_nul(r@) == r@);
    }
    r
}

/// Decodes one received message: units read low byte first, unpaired
/// surrogates replaced, trailing NUL padding removed.
pub fn decode_message(b: &Vec<u8>) -> (r: Vec<u16>)
    ensures
        r@ == decode_message_spec(b@),
{
    let units = le_bytes_to_units(b);
    let text = lossy_normalize(&units);
    trim_trailing_nul_units(&text)
}

/// Encodes one outgoing message: the string's UTF-16 units, terminated by
/// a NUL when it fits, low byte first.
pub fn encode_message(s: &str) -> (r: Vec<u8>)
    ensures
        r@ == le_bytes(message_units(s@)),
{
    let mut w = encode_utf16_units(s);
    if w.len() < MAX_FIELD_UNITS {
        w.push(0u16);
    }
    units_to_le_bytes(&w)
}

proof fn lemma_surrogate_bits(w: u32)
    requires
        w < 0x100000,
    ensures
        (w >> 10u32) < 0x400,
        (w & 0x3FFu32) < 0x400,
{
    assert((w >> 10u32) < 0x400) by (bit_vector)
        requires
            w < 0x100000,
    ;
    assert((w & 0x3FFu32) < 0x400) by (bit_vector);
}

/// The units of one character: a single unit outside the surrogate range,
/// or a high surrogate followed by a low one; never NUL unless the character
/// is NUL.
proof fn lemma_char_units(c: char)
    ensures
        (c as u32) >= 0x10000 ==> utf16_of_char(c).len() == 2 && is_high_surrogate(
            utf16_of_char(c)[0],
        ) && is_low_surrogate(utf16_of_char(c)[1]),
        (c as u32) >= 0x10000 ==> utf16_of_char(c)[0] != 0 && utf16_of_char(c)[1] != 0,
        (c as u32) < 0x10000 ==> utf16_of_char(c).len() == 1 && !is_high_surrogate(
            utf16_of_char(c)[0],
        ) && !is_low_surrogate(utf16_of_char(c)[0]),
        (c as u32) < 0x10000 && c != '\0' ==> utf16_of_char(c)[0] != 0,
{
    let v = c as u32;
    vstd::utf8::char_is_scalar(c);
    if v >= 0x10000 {
        lemma_surrogate_bits((v - 0x10000) as u32);
    } else {
        vstd::utf8::char_u32_cast(c, v);
        vstd::utf8::char_u32_cast('\0', '\0' as u32);
    }
}

proof fn lemma_lossy_prefix(cs: Seq<char>, t: Seq<u16>)
    ensures
        lossy_units(utf16_encode(cs) + t) == utf16_encode(cs) + lossy_units(t),
    decreases cs.len(),
{
    if cs.len() > 0 {
        let c = cs[0];
        let rest = utf16_encode(cs.drop_first());
        let u = utf16_encode(cs) + t;
        lemma_char_units(c);
        lemma_lossy_prefix(cs.drop_first(), t);
        if (c as u32) >= 0x10000 {
            assert(u.subrange(2, u.len() as int) =~= rest + t);
            assert(utf16_encode(cs) + lossy_units(t) =~= seq![u[0], u[1]] + (rest
                + lossy_units(t)));
        } else {
            assert(u.drop_first() =~= rest + t);
            assert(utf16_encode(cs) + lossy_units(t) =~= seq![u[0]] + (rest + lossy_units(t)));
        }
    } else {
        assert(utf16_encode(cs) + t =~= t);
        assert(utf16_encode(cs) + lossy_units(t) =~= lossy_units(t));
    }
}

proof fn lemma_no_nul_units(cs: Seq<char>)
    requires
        forall|i: int| 0 <= i < cs.len() ==> cs[i] != '\0',
    ensures
        forall|j: int| 0 <= j < utf16_encode(cs).len() ==> utf16_encode(cs)[j] != 0,
    decreases cs.len(),
{
    if cs.len() > 0 {
        lemma_char_units(cs[0]);
        lemma_no_nul_units(cs.drop_first());
        let a = utf16_of_char(cs[0]);
        let b = utf16_encode(cs.drop_first());
        assert forall|j: int| 0 <= j < utf16_encode(cs).len() implies utf16_encode(cs)[j] != 0 by {
            if j >= a.len() {
                assert(utf16_encode(cs)[j] == b[j - a.len()]);
            }
        }
    }
}

proof fn lemma_le_round_trip(u: Seq<u16>)
    ensures
        units_of_le(le_bytes(u)) == u,
{
    let b = le_bytes(u);
    assert forall|i: int| 0 <= i < u.len() implies units_of_le(b)[i] == u[i] by {
        assert((2 * i) / 2 == i);
        assert((2 * i + 1) / 2 == i);
        assert((2 * i) % 2 == 0);
        assert((2 * i + 1) % 2 == 1);
        let x = u[i];
        assert((x % 256) + 256 * (x / 256) == x) by (nonlinear_arith);
    }
    assert(units_of_le(b) =~= u);
}

/// The message for a field without NUL characters and of at most
/// `MAX_FIELD_UNITS` units fits in `2 * MAX_FIELD_UNITS` bytes and decodes
/// to exactly that field's UTF-16 units: nothing is replaced and only the
/// terminator, if any, is trimmed.
pub proof fn lemma_message_round_trip(cs: Seq<char>)
    requires
        forall|i: int| 0 <= i < cs.len() ==> cs[i] != '\0',
        utf16_encode(cs).len() <= MAX_FIELD_UNITS,
    ensures
        decode_message_spec(le_bytes(message_units(cs))) == utf16_encode(cs),
        le_bytes(message_units(cs)).len() <= 2 * MAX_FIELD_UNITS,
{
    let e = utf16_encode(cs);
    let w = message_units(cs);
    lemma_le_round_trip(w);
    lemma_no_nul_units(cs);
    if e.len() < MAX_FIELD_UNITS {
        lemma_lossy_prefix(cs, seq![0u16]);
        assert(e + seq![0u16] =~= w);
        assert(lossy_units(seq![0u16]) =~= seq![0u16]) by {
            reveal_with_fuel(lossy_units, 2);
            assert(seq![0u16].drop_first() =~= Seq::<u16>::empty());
        }
        assert(w.drop_last() =~= e);
    } else {
        lemma_lossy_prefix(cs, Seq::<u16>::empty());
        assert(e + Seq::<u16>::empty() =~= e);
        assert(lossy_units(Seq::<u16>::empty()) =~= Seq::<u16>::empty());
    }
    assert(trim_trailing_nul(e) == e);
}

} // verus!
