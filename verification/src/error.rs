use vstd::prelude::*;
use vstd::utf8::{decode_utf8, valid_utf8};

use crate::ctext::utf8_or;
use crate::text::push_char;

verus! {

/// A handle to LLDB's `SBError`: the outcome of an LLDB operation.
///
/// The handle is the address of the LLDB object; `0` is the null handle.
#[derive(Debug)]
pub struct Error {
    raw: usize,
}

/// The decimal digit `d` (0 to 9) as a character.
pub open spec fn digit_char(d: nat) -> char {
    (48 + d) as char
}

/// The decimal representation of `n`, without leading zeros.
pub open spec fn decimal(n: nat) -> Seq<char>
    decreases n,
{
    if n < 10 {
        seq![digit_char(n)]
    } else {
        decimal(n / 10).push(digit_char(n % 10))
    }
}

/// The number that the decimal digits `s` stand for.
pub open spec fn decimal_value(s: Seq<char>) -> nat
    decreases s.len(),
{
    if s.len() == 0 {
        0
    } else {
        decimal_value(s.drop_last()) * 10 + ((s.last() as u32 - 48) as nat)
    }
}

/// The text for an error without a message.
pub open spec fn code_text(code: u32) -> Seq<char> {
    "LLDB error (code "@ + decimal(code as nat) + ")"@
}

/// How an error displays: its message, or its code when it has none.
pub open spec fn spec_describe(message: Option<Seq<char>>, code: u32) -> Seq<char> {
    match message {
        Some(m) => m,
        None => code_text(code),
    }
}

/// Appends the decimal representation of `n` to `s`.
pub fn push_decimal(s: &mut String, n: u32)
    ensures
        final(s)@ == old(s)@ + decimal(n as nat),
    decreases n,
{
    if n >= 10 {
        push_decimal(s, n / 10);
    }
    let d = (n % 10) as u8;
    let c = (48u8 + d) as char;
    assert(c == digit_char((n % 10) as nat));
    push_char(s, c);
    assert(final(s)@ =~= old(s)@ + decimal(n as nat));
}

/// Reading the decimal representation of `n` gives `n` back.
pub proof fn lemma_decimal_roundtrip(n: nat)
    ensures
        decimal_value(decimal(n)) == n,
        decimal(n).len() > 0,
    decreases n,
{
    assert(digit_char(n % 10) as u32 == 48 + n % 10);
    if n >= 10 {
        lemma_decimal_roundtrip(n / 10);
        assert(decimal(n).drop_last() =~= decimal(n / 10));
        assert(decimal(n).last() == digit_char(n % 10));
        assert(n == (n / 10) * 10 + n % 10);
        assert(decimal_value(decimal(n)) == decimal_value(decimal(n / 10)) * 10 + n % 10);
    } else {
        assert(seq![digit_char(n)].drop_last() =~= Seq::<char>::empty());
        assert(decimal_value(Seq::<char>::empty()) == 0);
        assert(decimal_value(decimal(n)) == 0 * 10 + n % 10);
    }
}

impl Error {
    /// The address this handle holds.
    pub closed spec fn handle(&self) -> usize {
        self.raw
    }

    /// Wraps the address of an `SBError`; `None` for the null handle.
    pub fn from_raw(raw: usize) -> (r: Option<Error>)
        ensures
            r is None <==> raw == 0,
            r matches Some(e) ==> e.handle() == raw,
    {
        if raw == 0 {
            None
        } else {
            Some(Error { raw })
        }
    }

    /// Wraps the address of a freshly created `SBError`.
    pub fn from_created(raw: usize) -> (e: Error)
        ensures
            e.handle() == raw,
    {
        Error { raw }
    }

    /// The error an LLDB operation returned, or, when it returned the null handle, a fresh
    /// (successful) error made by `create`: a null returned error counts as success
    /// (`Process::resume`, `stop`, `kill`, `detach`, `Value::error`).
    pub fn returned_or<F: FnOnce() -> usize>(raw: usize, create: F) -> (e: Error)
        requires
            raw == 0 ==> call_requires(create, ()),
        ensures
            raw != 0 ==> e.handle() == raw,
            raw == 0 ==> call_ensures(create, (), e.handle()),
    {
        if raw == 0 {
            Error { raw: create() }
        } else {
            Error { raw }
        }
    }

    /// The address this handle holds.
    pub fn as_raw(&self) -> (raw: usize)
        ensures
            raw == self.handle(),
    {
        self.raw
    }

    /// The message of an error from the bytes of LLDB's C string: `None` when LLDB gave none,
    /// `<invalid utf8>` when the bytes are not UTF-8.
    pub fn message_text(bytes: Option<&[u8]>) -> (r: Option<String>)
        ensures
            bytes is None ==> r is None,
            bytes matches Some(b) ==> r matches Some(s) && (valid_utf8(b@) ==> s@ == decode_utf8(
                b@,
            )) && (!valid_utf8(b@) ==> s@ == "<invalid utf8>"@),
    {
        match bytes {
            None => None,
            Some(b) => Some(utf8_or(b, "<invalid utf8>")),
        }
    }

    /// How an error displays: its message, or `LLDB error (code N)` when it has none.
    pub fn describe(message: Option<&str>, code: u32) -> (s: String)
        ensures
            s@ == spec_describe(
                match message {
                    Some(m) => Some(m@),
                    None => None,
                },
                code,
            ),
    {
        match message {
            Some(m) => String::from_str(m),
            None => {
                let mut s = String::from_str("LLDB error (code ");
                push_decimal(&mut s, code);
                s.append(")");
                s
            },
        }
    }

    /// How an error shows in debug output: `lldb::Error(` and its display text and `)`.
    pub fn debug_text(message: Option<&str>, code: u32) -> (s: String)
        ensures
            s@ == "lldb::Error("@ + spec_describe(
                match message {
                    Some(m) => Some(m@),
                    None => None,
                },
                code,
            ) + ")"@,
    {
        let mut s = String::from_str("lldb::Error(");
        let d = Self::describe(message, code);
        s.append(d.as_str());
        s.append(")");
        s
    }
}

} // verus!
