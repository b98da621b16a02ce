use vstd::prelude::*;
use vstd::utf8::{decode_utf8, valid_utf8};
use vstd::string::StringSliceAdditionalSpecFns;

verus! {

/// The most controllers the runtime reports at once; a buffer handed to it
/// for the connected controllers must hold this many handles.
pub const STEAM_INPUT_MAX_COUNT: usize = 16;

/// The most physical origins the runtime reports for one action.
pub const STEAM_INPUT_MAX_ORIGINS: usize = 8;

/// How many entries of a buffer of `capacity` entries hold data, when the
/// runtime says it wrote `native_count`: a negative count means none, and
/// no count reaches past the buffer.
pub open spec fn written_count_of(native_count: i32, capacity: usize) -> usize {
    if native_count <= 0 {
        0
    } else if native_count as int >= capacity as int {
        capacity
    } else {
        native_count as usize
    }
}

/// Counts the entries of a buffer of `capacity` entries that the runtime
/// filled, given the count it returned.
pub fn written_count(native_count: i32, capacity: usize) -> (r: usize)
    ensures
        r == written_count_of(native_count, capacity),
        r <= capacity,
{
    if native_count <= 0 {
        0
    } else if native_count as usize >= capacity {
        capacity
    } else {
        native_count as usize
    }
}

/// Whether a buffer of `len` handles can take every connected controller.
pub fn can_hold_all_controllers(len: usize) -> (r: bool)
    ensures
        r == (len >= STEAM_INPUT_MAX_COUNT),
{
    len >= STEAM_INPUT_MAX_COUNT
}

/// A zeroed buffer with room for the most controllers the runtime reports.
pub fn controller_buffer() -> (r: Vec<u64>)
    ensures
        r@.len() == STEAM_INPUT_MAX_COUNT,
        forall|i: int| 0 <= i < r@.len() ==> r@[i] == 0,
{
    let mut r: Vec<u64> = Vec::new();
    let mut i: usize = 0;
    while i < STEAM_INPUT_MAX_COUNT
        invariant
            i <= STEAM_INPUT_MAX_COUNT,
            r@.len() == i,
            forall|j: int| 0 <= j < r@.len() ==> r@[j] == 0,
        decreases STEAM_INPUT_MAX_COUNT - i,
    {
        r.push(0);
        i = i + 1;
    }
    r
}

/// The entries of a buffer that the runtime has filled, given the count it
/// returned: the filled prefix, and nothing after it.
pub fn filled_prefix<T>(buf: Vec<T>, native_count: i32) -> (r: Vec<T>)
    ensures
        r@ == buf@.take(written_count_of(native_count, buf@.len() as usize) as int),
{
    let count = written_count(native_count, buf.len());
    let mut r = buf;
    r.truncate(count);
    r
}

/// The handles of the connected controllers, from a buffer with room for
/// all of them that the runtime has filled, and the count it returned.
pub fn connected_controllers(handles: Vec<u64>, native_count: i32) -> (r: Vec<u64>)
    requires
        handles@.len() >= STEAM_INPUT_MAX_COUNT,
    ensures
        r@ == handles@.take(written_count_of(native_count, handles@.len() as usize) as int),
        r@.len() <= handles@.len(),
{
    filled_prefix(handles, native_count)
}

/// The bytes of `s` followed by a terminating zero, or `None` where `s`
/// holds a zero byte of its own and so cannot cross as a C string.
pub fn nul_terminated(s: &str) -> (r: Option<Vec<u8>>)
    ensures
        r is None <==> s.spec_bytes().contains(0u8),
        r matches Some(v) ==> v@ == s.spec_bytes().push(0u8),
{
    let bytes = s.as_bytes();
    let mut out: Vec<u8> = Vec::new();
    let mut i: usize = 0;
    while i < bytes.len()
        invariant
            bytes@ == s.spec_bytes(),
            i <= bytes@.len(),
            out@ == bytes@.take(i as int),
            !out@.contains(0u8),
        decreases bytes@.len() - i,
    {
        if bytes[i] == 0 {
            assert(bytes@[i as int] == 0u8);
            return None;
        }
        out.push(bytes[i]);
        assert(out@ == bytes@.take(i + 1));
        i = i + 1;
    }
    assert(out@ == bytes@);
    out.push(0);
    Some(out)
}

/// What lossy UTF-8 decoding makes of a byte sequence: each invalid sequence
/// becomes U+FFFD, everything else is decoded as it stands.
pub uninterp spec fn lossy_utf8(b: Seq<u8>) -> Seq<char>;

/// Relies on `String::from_utf8_lossy`: it always returns a string, which is
/// the plain decoding wherever the bytes are valid UTF-8.
#[verifier::external_body]
fn decode_lossy(b: &[u8]) -> (r: String)
    ensures
        r@ == lossy_utf8(b@),
        valid_utf8(b@) ==> r@ == decode_utf8(b@),
{
    String::from_utf8_lossy(b).into_owned()
}

/// An owned copy of text that the runtime hands out (a glyph path, an origin
/// label), given its bytes before the terminator. It never fails: invalid
/// UTF-8 is replaced, not reported.
pub fn string_from_native(bytes: &[u8]) -> (r: String)
    ensures
        r@ == lossy_utf8(bytes@),
        valid_utf8(bytes@) ==> r@ == decode_utf8(bytes@),
{
    decode_lossy(bytes)
}

} // verus!
