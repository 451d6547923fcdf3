use vstd::prelude::*;
use vstd::utf8::{decode_utf8, valid_utf8};

use crate::codes::{CameraMode, ImgType};

verus! {

/// A native boolean: exactly 1 is true, any other value is false.
pub open spec fn spec_flag(v: i32) -> bool {
    v == 1
}

/// Reads a native boolean, where exactly 1 means true.
pub fn flag_from_native(v: i32) -> (r: bool)
    ensures
        r == spec_flag(v),
{
    v == 1
}

/// The native boolean for `b`.
pub fn flag_to_native(b: bool) -> (r: i32)
    ensures
        r == (if b { 1i32 } else { 0i32 }),
        spec_flag(r) == b,
{
    if b {
        1
    } else {
        0
    }
}

/// The elements of `s` before the first `sentinel`; all of `s` if there is none.
pub open spec fn terminated<T>(s: Seq<T>, sentinel: T) -> Seq<T>
    decreases s.len(),
{
    if s.len() == 0 || s[0] == sentinel {
        Seq::empty()
    } else {
        seq![s[0]] + terminated(s.drop_first(), sentinel)
    }
}

/// The sequence read from a sentinel-terminated array holds exactly the
/// elements before the first sentinel, in their order, and is empty when the
/// array starts with the sentinel.
pub proof fn lemma_terminated<T>(s: Seq<T>, sentinel: T)
    ensures
        terminated(s, sentinel).len() <= s.len(),
        terminated(s, sentinel) == s.take(terminated(s, sentinel).len() as int),
        forall|i: int|
            0 <= i < terminated(s, sentinel).len() ==> #[trigger] terminated(s, sentinel)[i]
                != sentinel,
        terminated(s, sentinel).len() < s.len() ==> s[terminated(s, sentinel).len() as int]
            == sentinel,
        s.len() > 0 && s[0] == sentinel ==> terminated(s, sentinel).len() == 0,
    decreases s.len(),
{
    if s.len() == 0 || s[0] == sentinel {
        assert(s.take(0) =~= Seq::<T>::empty());
    } else {
        let rest = s.drop_first();
        lemma_terminated(rest, sentinel);
        let p = terminated(s, sentinel);
        let q = terminated(rest, sentinel);
        assert(p == seq![s[0]] + q);
        assert(s.take(p.len() as int) =~= seq![s[0]] + rest.take(q.len() as int));
        assert forall|i: int| 0 <= i < p.len() implies #[trigger] p[i] != sentinel by {
            if i > 0 {
                assert(p[i] == q[i - 1]);
            }
        }
        if p.len() < s.len() {
            assert(s[p.len() as int] == rest[q.len() as int]);
        }
    }
}

/// Reads a sentinel-terminated native array: the elements before the first
/// `sentinel`, in order.
pub fn take_until_sentinel(values: &[i32], sentinel: i32) -> (r: Vec<i32>)
    ensures
        r@ == terminated(values@, sentinel),
{
    let mut out: Vec<i32> = Vec::new();
    let mut i: usize = 0;
    assert(values@.skip(0) == values@);
    while i < values.len()
        invariant
            i <= values@.len(),
            terminated(values@, sentinel) == out@ + terminated(values@.skip(i as int), sentinel),
        decreases values@.len() - i,
    {
        let v = values[i];
        assert(values@.skip(i as int).drop_first() == values@.skip(i + 1));
        if v == sentinel {
            assert(terminated(values@.skip(i as int), sentinel) == Seq::<i32>::empty());
            assert(out@ + Seq::<i32>::empty() == out@);
            return out;
        }
        assert(terminated(values@.skip(i as int), sentinel) == seq![v] + terminated(
            values@.skip(i + 1),
            sentinel,
        ));
        out.push(v);
        assert(out@ + terminated(values@.skip(i + 1), sentinel) == (out@.drop_last() + seq![v])
            + terminated(values@.skip(i + 1), sentinel));
        i = i + 1;
    }
    assert(values@.skip(i as int) == Seq::<i32>::empty());
    assert(out@ + Seq::<i32>::empty() == out@);
    out
}

/// The bytes of a fixed-size native text buffer up to its first NUL, or all
/// of them if it has none.
pub fn bytes_until_nul(bytes: &[u8]) -> (r: Vec<u8>)
    ensures
        r@ == terminated(bytes@, 0u8),
{
    let mut out: Vec<u8> = Vec::new();
    let mut i: usize = 0;
    assert(bytes@.skip(0) == bytes@);
    while i < bytes.len()
        invariant
            i <= bytes@.len(),
            terminated(bytes@, 0u8) == out@ + terminated(bytes@.skip(i as int), 0u8),
        decreases bytes@.len() - i,
    {
        let b = bytes[i];
        assert(bytes@.skip(i as int).drop_first() == bytes@.skip(i + 1));
        if b == 0 {
            assert(terminated(bytes@.skip(i as int), 0u8) == Seq::<u8>::empty());
            assert(out@ + Seq::<u8>::empty() == out@);
            return out;
        }
        assert(terminated(bytes@.skip(i as int), 0u8) == seq![b] + terminated(
            bytes@.skip(i + 1),
            0u8,
        ));
        out.push(b);
        assert(out@ + terminated(bytes@.skip(i + 1), 0u8) == (out@.drop_last() + seq![b])
            + terminated(bytes@.skip(i + 1), 0u8));
        i = i + 1;
    }
    assert(bytes@.skip(i as int) == Seq::<u8>::empty());
    assert(out@ + Seq::<u8>::empty() == out@);
    out
}

/// What `String::from_utf8_lossy` makes of a byte sequence.
pub uninterp spec fn utf8_lossy(bytes: Seq<u8>) -> Seq<char>;

/// Relies on `String::from_utf8_lossy`: its result depends on the bytes alone,
/// valid UTF-8 is decoded unchanged, and invalid sequences become U+FFFD
/// instead of failing.
#[verifier::external_body]
fn decode_lossy(bytes: &[u8]) -> (r: String)
    ensures
        r@ == utf8_lossy(bytes@),
        valid_utf8(bytes@) ==> r@ == decode_utf8(bytes@),
{
    String::from_utf8_lossy(bytes).into_owned()
}

/// The text held in a native text buffer: its bytes up to the first NUL
/// (the whole buffer if there is none), decoded as UTF-8 without failing.
pub open spec fn spec_native_text(bytes: Seq<u8>) -> Seq<char> {
    utf8_lossy(terminated(bytes, 0u8))
}

/// Reads the text of a fixed-size native buffer. Never fails: bytes that are
/// not valid UTF-8 become replacement characters.
pub fn text_from_native(bytes: &[u8]) -> (r: String)
    ensures
        r@ == spec_native_text(bytes@),
        valid_utf8(terminated(bytes@, 0u8)) ==> r@ == decode_utf8(terminated(bytes@, 0u8)),
{
    let text = bytes_until_nul(bytes);
    decode_lossy(text.as_slice())
}

/// The lowercase hex digit for a value below 16.
pub open spec fn hex_digit(v: u8) -> char {
    if v < 10 {
        (('0' as u8) + v) as char
    } else {
        (('a' as u8) + (v - 10)) as char
    }
}

/// Two lowercase hex digits for each byte, high half first.
pub open spec fn hex_lower(bytes: Seq<u8>) -> Seq<char>
    decreases bytes.len(),
{
    if bytes.len() == 0 {
        Seq::empty()
    } else {
        seq![hex_digit(bytes[0] / 16), hex_digit(bytes[0] % 16)] + hex_lower(bytes.drop_first())
    }
}

/// Relies on `hex::encode`: each byte becomes two lowercase hex digits, high
/// half first, in the order of the bytes.
#[verifier::external_body]
fn encode_hex(bytes: &[u8]) -> (r: String)
    ensures
        r@ == hex_lower(bytes@),
{
    hex::encode(bytes)
}

/// A serial number rendered as lowercase hex, two digits per byte.
pub fn serial_text(sn: &[u8; 8]) -> (r: String)
    ensures
        r@ == hex_lower(sn@),
        r@.len() == 16,
{
    proof {
        lemma_hex_len(sn@);
    }
    encode_hex(sn.as_slice())
}

proof fn lemma_hex_len(bytes: Seq<u8>)
    ensures
        hex_lower(bytes).len() == 2 * bytes.len(),
    decreases bytes.len(),
{
    if bytes.len() > 0 {
        lemma_hex_len(bytes.drop_first());
    }
}

/// Supported binning factors: the entries before the first 0, each positive.
/// `None` if one of them is negative, which the ABI does not allow.
pub fn decode_bins(values: &[i32]) -> (r: Option<Vec<u32>>)
    ensures
        r is Some <==> (forall|i: int|
            0 <= i < terminated(values@, 0i32).len() ==> #[trigger] terminated(values@, 0i32)[i]
                > 0),
        r matches Some(v) ==> v@ == terminated(values@, 0i32).map_values(|c: i32| c as u32),
{
    let prefix = take_until_sentinel(values, 0);
    proof {
        lemma_terminated(values@, 0i32);
    }
    let mut out: Vec<u32> = Vec::new();
    let mut i: usize = 0;
    while i < prefix.len()
        invariant
            i <= prefix@.len(),
            prefix@ == terminated(values@, 0i32),
            forall|j: int| 0 <= j < prefix@.len() ==> #[trigger] prefix@[j] != 0,
            forall|j: int| 0 <= j < i ==> #[trigger] prefix@[j] > 0,
            out@ == prefix@.take(i as int).map_values(|c: i32| c as u32),
        decreases prefix@.len() - i,
    {
        let c = prefix[i];
        if c < 0 {
            return None;
        }
        out.push(c as u32);
        assert(prefix@.take(i + 1) == prefix@.take(i as int).push(c));
        assert(out@ =~= prefix@.take(i + 1).map_values(|c: i32| c as u32));
        i = i + 1;
    }
    assert(prefix@.take(i as int) == prefix@);
    Some(out)
}

/// Supported video formats: the entries before the first -1, each read as an
/// `ImgType`. `None` if one of them is outside the ABI's range.
pub fn decode_video_formats(values: &[i32]) -> (r: Option<Vec<ImgType>>)
    ensures
        r is Some <==> (forall|i: int|
            0 <= i < terminated(values@, -1i32).len() ==> ImgType::spec_from_code(
                #[trigger] terminated(values@, -1i32)[i],
            ) is Some),
        r matches Some(v) ==> v@ == terminated(values@, -1i32).map_values(
            |c: i32| ImgType::spec_from_code(c)->0,
        ),
{
    let prefix = take_until_sentinel(values, -1);
    let mut out: Vec<ImgType> = Vec::new();
    let mut i: usize = 0;
    while i < prefix.len()
        invariant
            i <= prefix@.len(),
            prefix@ == terminated(values@, -1i32),
            forall|j: int| 0 <= j < i ==> ImgType::spec_from_code(#[trigger] prefix@[j]) is Some,
            out@ == prefix@.take(i as int).map_values(|c: i32| ImgType::spec_from_code(c)->0),
        decreases prefix@.len() - i,
    {
        let c = prefix[i];
        match ImgType::from_code(c) {
            None => {
                return None;
            },
            Some(t) => {
                out.push(t);
            },
        }
        assert(prefix@.take(i + 1) == prefix@.take(i as int).push(c));
        assert(out@ =~= prefix@.take(i + 1).map_values(|c: i32| ImgType::spec_from_code(c)->0));
        i = i + 1;
    }
    assert(prefix@.take(i as int) == prefix@);
    Some(out)
}

/// Supported camera modes: the entries before the first -1, each read as a
/// `CameraMode`. `None` if one of them is outside the ABI's range.
pub fn decode_camera_modes(values: &[i32]) -> (r: Option<Vec<CameraMode>>)
    ensures
        r is Some <==> (forall|i: int|
            0 <= i < terminated(values@, -1i32).len() ==> CameraMode::spec_from_code(
                #[trigger] terminated(values@, -1i32)[i],
            ) is Some),
        r matches Some(v) ==> v@ == terminated(values@, -1i32).map_values(
            |c: i32| CameraMode::spec_from_code(c)->0,
        ),
{
    let prefix = take_until_sentinel(values, -1);
    let mut out: Vec<CameraMode> = Vec::new();
    let mut i: usize = 0;
    while i < prefix.len()
        invariant
            i <= prefix@.len(),
            prefix@ == terminated(values@, -1i32),
            forall|j: int|
                0 <= j < i ==> CameraMode::spec_from_code(#[trigger] prefix@[j]) is Some,
            out@ == prefix@.take(i as int).map_values(|c: i32| CameraMode::spec_from_code(c)->0),
        decreases prefix@.len() - i,
    {
        let c = prefix[i];
        match CameraMode::from_code(c) {
            None => {
                return None;
            },
            Some(m) => {
                out.push(m);
            },
        }
        assert(prefix@.take(i + 1) == prefix@.take(i as int).push(c));
        assert(out@ =~= prefix@.take(i + 1).map_values(
            |c: i32| CameraMode::spec_from_code(c)->0,
        ));
        i = i + 1;
    }
    assert(prefix@.take(i as int) == prefix@);
    Some(out)
}

} // verus!
