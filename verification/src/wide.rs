use vstd::prelude::*;

use crate::text::chars_of;

verus! {

/// The UTF-16 code units of `c`: one unit below U+10000, otherwise a surrogate pair.
pub open spec fn utf16_of_char(c: char) -> Seq<u16> {
    let v = c as u32;
    if v < 0x10000 {
        seq![v as u16]
    } else {
        let w = (v - 0x10000) as int;
        seq![(0xd800 + w / 0x400) as u16, (0xdc00 + w % 0x400) as u16]
    }
}

/// The UTF-16 encoding of `s`.
pub open spec fn utf16(s: Seq<char>) -> Seq<u16>
    decreases s.len(),
{
    if s.len() == 0 {
        Seq::empty()
    } else {
        utf16(s.drop_last()) + utf16_of_char(s.last())
    }
}

/// `path` as a NUL-terminated UTF-16 string, the form `SetDllDirectoryW` takes
/// (`set_lldb_dll_dir` hands this to Windows).
pub fn dll_directory_wide(path: &str) -> (w: Vec<u16>)
    ensures
        w@ == utf16(path@).push(0u16),
{
    let v = chars_of(path);
    let mut w: Vec<u16> = Vec::new();
    let mut i: usize = 0;
    assert(v@.take(0) =~= Seq::<char>::empty());
    while i < v.len()
        invariant
            v@ == path@,
            i <= v@.len(),
            w@ == utf16(v@.take(i as int)),
        decreases v@.len() - i,
    {
        let c = v[i];
        let u = c as u32;
        assert(v@.take(i + 1).drop_last() =~= v@.take(i as int));
        assert(v@.take(i + 1).last() == c);
        if u < 0x10000 {
            w.push(u as u16);
        } else {
            let x = u - 0x10000;
            w.push((0xd800 + x / 0x400) as u16);
            w.push((0xdc00 + x % 0x400) as u16);
        }
        assert(w@ =~= utf16(v@.take(i as int)) + utf16_of_char(c));
        i = i + 1;
    }
    assert(v@.take(v@.len() as int) =~= v@);
    w.push(0);
    w
}

} // verus!
