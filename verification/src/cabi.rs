//! Conversions at the C boundary of the backend: truth values, counts, the
//! status of the thread-count setter, and the two-call protocol by which the
//! backend hands out strings (ask for the length, then fill a buffer that ends
//! in a NUL byte).
use vstd::prelude::*;
use vstd::string::StringSliceAdditionalSpecFns;
use vstd::utf8::{decode_utf8, encode_utf8, encode_utf8_decode_utf8, encode_utf8_valid_utf8, valid_utf8};

verus! {

/// The C integer that stands for a truth value: 1 for true, 0 for false.
pub open spec fn c_bool_value(b: bool) -> int {
    if b { 1 } else { 0 }
}

/// How a C integer is read as a truth value: everything but 0 is true.
pub open spec fn c_truth(v: int) -> bool {
    v != 0
}

/// Whether some byte is NUL.
pub open spec fn has_nul(bytes: Seq<u8>) -> bool {
    exists|i: int| 0 <= i < bytes.len() && bytes[i] == 0
}

/// Where the first NUL byte of a buffer stands, or the buffer's length if it
/// holds none.
pub open spec fn nul_index(buf: Seq<u8>) -> int {
    if exists|i: int| 0 <= i < buf.len() && buf[i] == 0 {
        choose|i: int| 0 <= i < buf.len() && buf[i] == 0 && forall|j: int| 0 <= j < i ==> buf[j] != 0
    } else {
        buf.len() as int
    }
}

/// The bytes of a NUL-terminated C string held in a buffer: all bytes before
/// the first NUL, or the whole buffer if it holds none.
pub open spec fn c_str_bytes(buf: Seq<u8>) -> Seq<u8> {
    buf.take(nul_index(buf))
}

/// Every byte is ASCII.
pub open spec fn all_ascii(bytes: Seq<u8>) -> bool {
    forall|i: int| 0 <= i < bytes.len() ==> bytes[i] < 128
}

/// ASCII bytes read as characters, one each.
pub open spec fn ascii_chars(bytes: Seq<u8>) -> Seq<char> {
    bytes.map_values(|b: u8| b as char)
}

/// The text that `String::from_utf8_lossy` makes of a byte sequence.
pub uninterp spec fn utf8_lossy_chars(bytes: Seq<u8>) -> Seq<char>;

/// Decodes bytes as UTF-8 with `String::from_utf8_lossy` (std), replacing
/// every invalid sequence with U+FFFD. The contract names the result and
/// states what std's documentation makes plain: valid UTF-8 (ASCII among it)
/// comes out as the text it encodes, and since a NUL character only arises
/// from a NUL byte and the replacement character is not NUL, bytes without
/// NUL give text without NUL. Where replacement characters go in invalid
/// input is left to the name.
#[verifier::external_body]
fn utf8_lossy(bytes: &[u8]) -> (s: String)
    ensures
        s@ == utf8_lossy_chars(bytes@),
        valid_utf8(bytes@) ==> s@ == decode_utf8(bytes@),
        all_ascii(bytes@) ==> s@ == ascii_chars(bytes@),
        !has_nul(bytes@) ==> forall|i: int| 0 <= i < s@.len() ==> s@[i] != '\0',
{
    String::from_utf8_lossy(bytes).into_owned()
}

/// The C integer for a truth value.
pub fn c_bool(b: bool) -> (v: i32)
    ensures
        v as int == c_bool_value(b),
{
    if b {
        1
    } else {
        0
    }
}

/// Reads a C integer as a truth value.
pub fn from_c_bool(v: i32) -> (b: bool)
    ensures
        b == c_truth(v as int),
{
    v != 0
}

/// A length handed to the backend as a C `int`: the low 32 bits of `n`, read
/// as a signed integer.
pub fn c_count(n: usize) -> (c: i32)
    ensures
        c == n as i32,
{
    n as i32
}

/// The outcome of setting the number of threads: the backend returns 0 on
/// success and anything else when it refuses the value.
pub fn thread_setting_result(ret: i32) -> (r: Result<(), ()>)
    ensures
        r is Ok <==> ret == 0,
        r == (if ret == 0 { Ok::<(), ()>(()) } else { Err::<(), ()>(()) }),
{
    if ret == 0 {
        Ok(())
    } else {
        Err(())
    }
}

/// The size of the buffer to hand the backend for a string whose length it
/// reported as `needed`: one byte more than that, for the terminating NUL, or
/// 0 when the backend reports no text (then no second call is made and the
/// string is empty).
pub fn string_buffer_len(needed: i32) -> (len: i32)
    requires
        needed < i32::MAX,
    ensures
        needed <= 0 ==> len == 0,
        needed > 0 ==> len == needed + 1,
{
    if needed <= 0 {
        0
    } else {
        needed + 1
    }
}

/// The bytes of the C string at the start of a buffer: everything before the
/// first NUL byte.
pub fn c_str_prefix(buf: &[u8]) -> (r: Vec<u8>)
    ensures
        r@ == c_str_bytes(buf@),
        !has_nul(r@),
{
    let mut r: Vec<u8> = Vec::new();
    let mut i: usize = 0;
    while i < buf.len() && buf[i] != 0
        invariant
            i <= buf.len(),
            r@ == buf@.take(i as int),
            forall|j: int| 0 <= j < i ==> buf@[j] != 0,
        decreases buf.len() - i,
    {
        r.push(buf[i]);
        i = i + 1;
        assert(r@ =~= buf@.take(i as int));
    }
    proof {
        lemma_nul_index_at(buf@, i as int);
    }
    r
}

/// If the bytes before `i` are all nonzero and `i` is the end of the buffer or
/// holds a NUL, then `i` is where the C string ends.
proof fn lemma_nul_index_at(buf: Seq<u8>, i: int)
    requires
        0 <= i <= buf.len(),
        forall|j: int| 0 <= j < i ==> buf[j] != 0,
        i < buf.len() ==> buf[i] == 0,
    ensures
        nul_index(buf) == i,
{
    if i < buf.len() {
        assert(buf[i] == 0);
        let k = choose|k: int| 0 <= k < buf.len() && buf[k] == 0 && forall|j: int| 0 <= j < k ==> buf[j] != 0;
        assert(0 <= k < buf.len() && buf[k] == 0 && forall|j: int| 0 <= j < k ==> buf[j] != 0);
        if k < i {
            assert(buf[k] != 0);
        }
        if k > i {
            assert(buf[i] != 0);
        }
    } else {
        assert(!exists|k: int| 0 <= k < buf.len() && buf[k] == 0);
    }
}

/// The string that a buffer filled by the backend holds: its bytes up to the
/// first NUL, decoded as UTF-8 with invalid sequences replaced.
pub fn decode_c_buffer(buf: &[u8]) -> (s: String)
    ensures
        s@ == utf8_lossy_chars(c_str_bytes(buf@)),
        valid_utf8(c_str_bytes(buf@)) ==> s@ == decode_utf8(c_str_bytes(buf@)),
        all_ascii(c_str_bytes(buf@)) ==> s@ == ascii_chars(c_str_bytes(buf@)),
        forall|i: int| 0 <= i < s@.len() ==> s@[i] != '\0',
{
    let bytes = c_str_prefix(buf);
    utf8_lossy(bytes.as_slice())
}

/// The NUL-terminated bytes under which a Rust string is handed to the
/// backend (as `CString::new` builds them): the string's UTF-8 bytes followed
/// by one NUL, or `None` when the string itself holds a NUL byte, which such
/// a C string cannot carry.
pub fn c_string_bytes(s: &str) -> (r: Option<Vec<u8>>)
    ensures
        r is None <==> has_nul(s.spec_bytes()),
        r matches Some(b) ==> b@ == s.spec_bytes().push(0u8),
{
    let bytes = s.as_bytes();
    let mut out: Vec<u8> = Vec::new();
    let mut i: usize = 0;
    while i < bytes.len()
        invariant
            bytes@ == s.spec_bytes(),
            i <= bytes@.len(),
            out@ == bytes@.take(i as int),
            forall|j: int| 0 <= j < i ==> bytes@[j] != 0,
        decreases bytes.len() - i,
    {
        if bytes[i] == 0 {
            return None;
        }
        out.push(bytes[i]);
        i = i + 1;
        assert(out@ =~= bytes@.take(i as int));
    }
    out.push(0u8);
    assert(bytes@.take(i as int) =~= bytes@);
    Some(out)
}

/// Splits a list of pairs into the list of first and the list of second
/// components, in the same order.
pub fn split_pairs<A: Copy, B: Copy>(pairs: &[(A, B)]) -> (r: (Vec<A>, Vec<B>))
    ensures
        r.0@.len() == pairs@.len(),
        r.1@.len() == pairs@.len(),
        forall|i: int| 0 <= i < pairs@.len() ==> r.0@[i] == pairs@[i].0 && r.1@[i] == pairs@[i].1,
{
    let mut firsts: Vec<A> = Vec::new();
    let mut seconds: Vec<B> = Vec::new();
    let mut i: usize = 0;
    while i < pairs.len()
        invariant
            i <= pairs@.len(),
            firsts@.len() == i,
            seconds@.len() == i,
            forall|k: int| 0 <= k < i ==> firsts@[k] == pairs@[k].0 && seconds@[k] == pairs@[k].1,
        decreases pairs.len() - i,
    {
        let (a, b) = pairs[i];
        firsts.push(a);
        seconds.push(b);
        i = i + 1;
    }
    (firsts, seconds)
}

/// Writing a truth value as a C integer and reading it back gives the same
/// truth value, and the integer is 0 or 1.
pub proof fn lemma_c_bool_round_trip(b: bool)
    ensures
        c_truth(c_bool_value(b)) == b,
        c_bool_value(b) == 0 || c_bool_value(b) == 1,
{
}

/// A string written into a buffer and terminated by NUL is read back as
/// itself, whatever follows the terminator.
pub proof fn lemma_terminated_text_read_back(text: Seq<u8>, rest: Seq<u8>)
    requires
        forall|i: int| 0 <= i < text.len() ==> text[i] != 0,
    ensures
        c_str_bytes(text + seq![0u8] + rest) == text,
{
    let buf = text + seq![0u8] + rest;
    assert(buf[text.len() as int] == 0);
    assert forall|j: int| 0 <= j < text.len() implies buf[j] != 0 by {
        assert(buf[j] == text[j]);
    }
    lemma_nul_index_at(buf, text.len() as int);
    assert(buf.take(text.len() as int) =~= text);
}

/// Reading back the bytes that a string is handed over as gives the string's
/// bytes again.
pub proof fn lemma_c_string_read_back(text: Seq<u8>)
    requires
        !has_nul(text),
    ensures
        c_str_bytes(text.push(0u8)) == text,
{
    assert forall|i: int| 0 <= i < text.len() implies text[i] != 0 by {
        if text[i] == 0 {
            assert(has_nul(text));
        }
    }
    lemma_terminated_text_read_back(text, Seq::<u8>::empty());
    assert(text + seq![0u8] + Seq::<u8>::empty() =~= text.push(0u8));
}

/// A string handed to the backend with `c_string_bytes` and read back with
/// `decode_c_buffer` is the same text: its bytes are valid UTF-8 and decode to
/// the string's characters.
pub proof fn lemma_name_read_back(text: Seq<char>)
    requires
        !has_nul(encode_utf8(text)),
    ensures
        valid_utf8(c_str_bytes(encode_utf8(text).push(0u8))),
        decode_utf8(c_str_bytes(encode_utf8(text).push(0u8))) == text,
{
    lemma_c_string_read_back(encode_utf8(text));
    encode_utf8_valid_utf8(text);
    encode_utf8_decode_utf8(text);
}

} // verus!
