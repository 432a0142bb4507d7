use vstd::prelude::*;
use vstd::utf8::{decode_utf8, valid_utf8};

verus! {

/// The bytes of `s` before its first NUL byte (all of `s` if it has none).
pub open spec fn spec_until_nul(s: Seq<u8>) -> Seq<u8>
    decreases s.len(),
{
    if s.len() == 0 || s[0] == 0 {
        Seq::empty()
    } else {
        seq![s[0]] + spec_until_nul(s.drop_first())
    }
}

/// The C string of a buffer holds no NUL byte and is how the buffer begins.
pub proof fn lemma_until_nul_shape(s: Seq<u8>)
    ensures
        spec_until_nul(s).len() <= s.len(),
        spec_until_nul(s) == s.take(spec_until_nul(s).len() as int),
        forall|k: int| 0 <= k < spec_until_nul(s).len() ==> #[trigger] spec_until_nul(s)[k] != 0,
    decreases s.len(),
{
    if s.len() > 0 && s[0] != 0 {
        lemma_until_nul_shape(s.drop_first());
        let r = spec_until_nul(s);
        assert(r == seq![s[0]] + spec_until_nul(s.drop_first()));
        assert(r =~= s.take(r.len() as int));
        assert forall|k: int| 0 <= k < r.len() implies #[trigger] r[k] != 0 by {
            if k > 0 {
                assert(r[k] == spec_until_nul(s.drop_first())[k - 1]);
            }
        }
    } else {
        assert(s.take(0) =~= Seq::<u8>::empty());
    }
}

/// What `String::from_utf8_lossy` makes of `bytes`.
pub uninterp spec fn utf8_lossy(bytes: Seq<u8>) -> Seq<char>;

/// `String::from_utf8_lossy(bytes)`, owned.
///
/// Trusted: the result is named `utf8_lossy(bytes)`, and for valid UTF-8 it is the decoded
/// text, as the documentation says (only invalid sequences are replaced, with U+FFFD). So the
/// result holds a NUL character only where the bytes hold a 0 byte: U+0000 is encoded by the
/// byte 0 alone, and a replacement is U+FFFD. Beyond that, what it gives for invalid input is
/// left unstated.
#[verifier::external_body]
pub fn decode_lossy(bytes: &[u8]) -> (s: String)
    ensures
        s@ == utf8_lossy(bytes@),
        valid_utf8(bytes@) ==> s@ == decode_utf8(bytes@),
        (forall|i: int| 0 <= i < bytes@.len() ==> bytes@[i] != 0) ==> (forall|k: int|
            0 <= k < s@.len() ==> s@[k] != '\0'),
{
    String::from_utf8_lossy(bytes).into_owned()
}

/// `std::str::from_utf8(bytes)`, owned: the text if `bytes` is valid UTF-8.
///
/// Trusted: succeeds exactly on valid UTF-8 (as vstd's `valid_utf8` defines it), and then
/// gives the decoded characters.
#[verifier::external_body]
pub fn decode_utf8_strict(bytes: &[u8]) -> (r: Option<String>)
    ensures
        r is Some <==> valid_utf8(bytes@),
        r matches Some(s) ==> s@ == decode_utf8(bytes@),
{
    match std::str::from_utf8(bytes) {
        Ok(s) => Some(s.to_string()),
        Err(_) => None,
    }
}

/// The bytes of `buf` before its first NUL byte: the C string that a fixed-size buffer holds.
pub fn until_nul(buf: &[u8]) -> (r: Vec<u8>)
    ensures
        r@ == spec_until_nul(buf@),
{
    let mut end: usize = 0;
    while end < buf.len() && buf[end] != 0
        invariant
            end <= buf@.len(),
            forall|k: int| 0 <= k < end ==> buf@[k] != 0,
        decreases buf@.len() - end,
    {
        end = end + 1;
    }
    let mut r: Vec<u8> = Vec::new();
    let mut i: usize = 0;
    while i < end
        invariant
            i <= end <= buf@.len(),
            r@ == buf@.subrange(0, i as int),
        decreases end - i,
    {
        r.push(buf[i]);
        i = i + 1;
        assert(r@ =~= buf@.subrange(0, i as int));
    }
    proof {
        lemma_until_nul(buf@, end as int);
    }
    r
}

proof fn lemma_until_nul(s: Seq<u8>, m: int)
    requires
        0 <= m <= s.len(),
        forall|k: int| 0 <= k < m ==> s[k] != 0,
        m == s.len() || s[m] == 0,
    ensures
        spec_until_nul(s) == s.subrange(0, m),
    decreases m,
{
    if m > 0 {
        lemma_until_nul(s.drop_first(), m - 1);
        assert(s.subrange(0, m) =~= seq![s[0]] + s.drop_first().subrange(0, m - 1));
    } else {
        assert(s.subrange(0, 0) =~= Seq::<u8>::empty());
    }
}

/// The text of C string bytes, or `fallback` when they are not valid UTF-8 (as
/// `CStr::to_str().unwrap_or(fallback)` gives it).
pub fn utf8_or(bytes: &[u8], fallback: &str) -> (s: String)
    ensures
        valid_utf8(bytes@) ==> s@ == decode_utf8(bytes@),
        !valid_utf8(bytes@) ==> s@ == fallback@,
{
    match decode_utf8_strict(bytes) {
        Some(s) => s,
        None => String::from_str(fallback),
    }
}

/// The text of a NUL-terminated description buffer, with invalid UTF-8 replaced
/// (`Thread::stop_description`).
pub fn stop_description_text(buf: &[u8]) -> (s: String)
    ensures
        s@ == utf8_lossy(spec_until_nul(buf@)),
        forall|k: int| 0 <= k < s@.len() ==> s@[k] != '\0',
{
    let bytes = until_nul(buf);
    proof {
        lemma_until_nul_shape(buf@);
    }
    decode_lossy(bytes.as_slice())
}

/// The text of a program's output bytes, with invalid UTF-8 replaced.
pub fn output_text(bytes: &[u8]) -> (s: String)
    ensures
        s@ == utf8_lossy(bytes@),
{
    decode_lossy(bytes)
}

/// The source location of a frame from the path buffer and line that LLDB filled in
/// (`Frame::source_location`): `None` when the path is empty or the line is 0.
pub fn source_location_from(buf: &[u8], line: u32) -> (r: Option<(String, u32)>)
    ensures
        r is None <==> (utf8_lossy(spec_until_nul(buf@)).len() == 0 || line == 0),
        r matches Some(loc) ==> loc.0@ == utf8_lossy(spec_until_nul(buf@)) && loc.1 == line,
{
    let bytes = until_nul(buf);
    let path = decode_lossy(bytes.as_slice());
    if path.as_str().is_empty() || line == 0 {
        None
    } else {
        Some((path, line))
    }
}

} // verus!
