use vstd::prelude::*;

use vstd::utf8::{decode_utf8, valid_utf8};

use crate::ctext::utf8_or;
use crate::error::Error;

verus! {

/// A handle to LLDB's `SBDebugger`: a debugger session. Not thread-safe.
///
/// The handle is the address of the LLDB object; `0` is the null handle.
#[derive(Debug)]
pub struct Debugger {
    raw: usize,
}

impl Debugger {
    /// The address this handle holds.
    pub closed spec fn handle(&self) -> usize {
        self.raw
    }

    /// Wraps the address of an LLDB object.
    pub fn from_raw(raw: usize) -> (h: Self)
        ensures
            h.handle() == raw,
    {
        Debugger { raw }
    }

    /// The address this handle holds.
    pub fn as_raw(&self) -> (raw: usize)
        ensures
            raw == self.handle(),
    {
        self.raw
    }
}

/// A handle to LLDB's `SBTarget`: a debug target (an executable and its modules).
///
/// The handle is the address of the LLDB object; `0` is the null handle.
#[derive(Debug)]
pub struct Target {
    raw: usize,
}

impl Target {
    /// The address this handle holds.
    pub closed spec fn handle(&self) -> usize {
        self.raw
    }

    /// Wraps the address of an LLDB object.
    pub fn from_raw(raw: usize) -> (h: Self)
        ensures
            h.handle() == raw,
    {
        Target { raw }
    }

    /// The address this handle holds.
    pub fn as_raw(&self) -> (raw: usize)
        ensures
            raw == self.handle(),
    {
        self.raw
    }
}

/// A handle to LLDB's `SBProcess`: a live process being debugged.
///
/// The handle is the address of the LLDB object; `0` is the null handle.
#[derive(Debug)]
pub struct Process {
    raw: usize,
}

impl Process {
    /// The address this handle holds.
    pub closed spec fn handle(&self) -> usize {
        self.raw
    }

    /// Wraps the address of an LLDB object.
    pub fn from_raw(raw: usize) -> (h: Self)
        ensures
            h.handle() == raw,
    {
        Process { raw }
    }

    /// The address this handle holds.
    pub fn as_raw(&self) -> (raw: usize)
        ensures
            raw == self.handle(),
    {
        self.raw
    }
}

/// A handle to LLDB's `SBThread`: a thread of a debugged process.
///
/// The handle is the address of the LLDB object; `0` is the null handle.
#[derive(Debug)]
pub struct Thread {
    raw: usize,
}

impl Thread {
    /// The address this handle holds.
    pub closed spec fn handle(&self) -> usize {
        self.raw
    }

    /// Wraps the address of an LLDB object.
    pub fn from_raw(raw: usize) -> (h: Self)
        ensures
            h.handle() == raw,
    {
        Thread { raw }
    }

    /// The address this handle holds.
    pub fn as_raw(&self) -> (raw: usize)
        ensures
            raw == self.handle(),
    {
        self.raw
    }
}

/// A handle to LLDB's `SBFrame`: a stack frame of a thread.
///
/// The handle is the address of the LLDB object; `0` is the null handle.
#[derive(Debug)]
pub struct Frame {
    raw: usize,
}

impl Frame {
    /// The address this handle holds.
    pub closed spec fn handle(&self) -> usize {
        self.raw
    }

    /// Wraps the address of an LLDB object.
    pub fn from_raw(raw: usize) -> (h: Self)
        ensures
            h.handle() == raw,
    {
        Frame { raw }
    }

    /// The address this handle holds.
    pub fn as_raw(&self) -> (raw: usize)
        ensures
            raw == self.handle(),
    {
        self.raw
    }
}

/// A handle to LLDB's `SBBreakpoint`: a breakpoint of a target.
///
/// The handle is the address of the LLDB object; `0` is the null handle.
#[derive(Debug)]
pub struct Breakpoint {
    raw: usize,
}

impl Breakpoint {
    /// The address this handle holds.
    pub closed spec fn handle(&self) -> usize {
        self.raw
    }

    /// Wraps the address of an LLDB object.
    pub fn from_raw(raw: usize) -> (h: Self)
        ensures
            h.handle() == raw,
    {
        Breakpoint { raw }
    }

    /// The address this handle holds.
    pub fn as_raw(&self) -> (raw: usize)
        ensures
            raw == self.handle(),
    {
        self.raw
    }
}

/// A handle to LLDB's `SBValue`: a variable, register or expression result.
///
/// The handle is the address of the LLDB object; `0` is the null handle.
#[derive(Debug)]
pub struct Value {
    raw: usize,
}

impl Value {
    /// The address this handle holds.
    pub closed spec fn handle(&self) -> usize {
        self.raw
    }

    /// Wraps the address of an LLDB object.
    pub fn from_raw(raw: usize) -> (h: Self)
        ensures
            h.handle() == raw,
    {
        Value { raw }
    }

    /// The address this handle holds.
    pub fn as_raw(&self) -> (raw: usize)
        ensures
            raw == self.handle(),
    {
        self.raw
    }
}

/// A handle to LLDB's `SBEvent`: an event delivered to a listener.
///
/// The handle is the address of the LLDB object; `0` is the null handle.
#[derive(Debug)]
pub struct Event {
    raw: usize,
}

impl Event {
    /// The address this handle holds.
    pub closed spec fn handle(&self) -> usize {
        self.raw
    }

    /// Wraps the address of an LLDB object.
    pub fn from_raw(raw: usize) -> (h: Self)
        ensures
            h.handle() == raw,
    {
        Event { raw }
    }

    /// The address this handle holds.
    pub fn as_raw(&self) -> (raw: usize)
        ensures
            raw == self.handle(),
    {
        self.raw
    }
}

/// A handle to LLDB's `SBListener`: receives events from broadcasters.
///
/// The handle is the address of the LLDB object; `0` is the null handle.
#[derive(Debug)]
pub struct Listener {
    raw: usize,
}

impl Debugger {
    /// The output of an LLDB command from the bytes of the C string LLDB returned: empty when
    /// LLDB returned none or the bytes are not UTF-8 (`Debugger::handle_command`).
    pub fn command_text(bytes: Option<&[u8]>) -> (s: String)
        ensures
            bytes is None ==> s@ == Seq::<char>::empty(),
            bytes matches Some(b) ==> (valid_utf8(b@) ==> s@ == decode_utf8(b@)) && (!valid_utf8(
                b@,
            ) ==> s@ == Seq::<char>::empty()),
    {
        match bytes {
            None => String::new(),
            Some(b) => {
                let s = utf8_or(b, "");
                proof {
                    reveal_strlit("");
                }
                s
            },
        }
    }
}

/// A C string argument for LLDB, or `None` when it is empty and LLDB is to choose
/// (the target triple and platform of `Debugger::create_target`).
pub fn c_arg_or_null(s: &str) -> (r: Option<&str>)
    ensures
        r is None <==> s@.len() == 0,
        r matches Some(t) ==> t@ == s@,
{
    if s.is_empty() {
        None
    } else {
        Some(s)
    }
}

impl Target {
    /// Whether a launch hands LLDB an environment block: only when some variables are given;
    /// otherwise the null block lets the process inherit the environment (`Target::launch`).
    pub fn passes_environment(count: usize) -> (b: bool)
        ensures
            b == (count > 0),
    {
        count > 0
    }
}

/// The outcome of looking up a thread.
pub enum ThreadLookup {
    /// LLDB returned the null handle.
    Null,
    /// LLDB returned a thread that it reports not valid; it is still to be freed.
    Invalid(Thread),
    /// A valid thread.
    Valid(Thread),
}

impl Thread {
    /// Classifies the thread handle LLDB returned, asking `is_valid` about it only when it is
    /// not null (`Process::thread_at`, `thread_by_id`, `selected_thread`).
    pub fn lookup<F: Fn(usize) -> bool>(raw: usize, is_valid: F) -> (r: ThreadLookup)
        requires
            raw != 0 ==> call_requires(is_valid, (raw,)),
        ensures
            r is Null <==> raw == 0,
            r matches ThreadLookup::Valid(t) ==> t.handle() == raw && call_ensures(
                is_valid,
                (raw,),
                true,
            ),
            r matches ThreadLookup::Invalid(t) ==> t.handle() == raw && call_ensures(
                is_valid,
                (raw,),
                false,
            ),
    {
        if raw == 0 {
            ThreadLookup::Null
        } else if is_valid(raw) {
            ThreadLookup::Valid(Thread::from_raw(raw))
        } else {
            ThreadLookup::Invalid(Thread::from_raw(raw))
        }
    }
}

impl Listener {
    /// The address this handle holds.
    pub closed spec fn handle(&self) -> usize {
        self.raw
    }

    /// Wraps the address of an LLDB object.
    pub fn from_raw(raw: usize) -> (h: Self)
        ensures
            h.handle() == raw,
    {
        Listener { raw }
    }

    /// The address this handle holds.
    pub fn as_raw(&self) -> (raw: usize)
        ensures
            raw == self.handle(),
    {
        self.raw
    }
}

/// A handle to LLDB's `SBBroadcaster`: sends events to subscribed listeners.
///
/// The handle is the address of the LLDB object; `0` is the null handle.
#[derive(Debug)]
pub struct Broadcaster {
    raw: usize,
}

impl Broadcaster {
    /// The address this handle holds.
    pub closed spec fn handle(&self) -> usize {
        self.raw
    }

    /// Wraps the address of an LLDB object.
    pub fn from_raw(raw: usize) -> (h: Self)
        ensures
            h.handle() == raw,
    {
        Broadcaster { raw }
    }

    /// The address this handle holds.
    pub fn as_raw(&self) -> (raw: usize)
        ensures
            raw == self.handle(),
    {
        self.raw
    }
}

impl Debugger {
    /// LLDB's version text from the bytes of its C string: `<unknown>` when LLDB gave none,
    /// `<invalid utf8>` when the bytes are not UTF-8.
    pub fn version_text(bytes: Option<&[u8]>) -> (s: String)
        ensures
            bytes is None ==> s@ == "<unknown>"@,
            bytes matches Some(b) ==> (valid_utf8(b@) ==> s@ == decode_utf8(b@)) && (!valid_utf8(
                b@,
            ) ==> s@ == "<invalid utf8>"@),
    {
        match bytes {
            None => String::from_str("<unknown>"),
            Some(b) => utf8_or(b, "<invalid utf8>"),
        }
    }
}

impl Listener {
    /// The outcome of waiting for an event (`Listener::wait_for_event`): the event when LLDB
    /// reported one and filled in a non-null handle, `None` on timeout.
    pub fn event_from_wait(got: bool, raw: usize) -> (r: Option<Event>)
        ensures
            r is Some <==> (got && raw != 0),
            r matches Some(e) ==> e.handle() == raw,
    {
        if got && raw != 0 {
            Some(Event::from_raw(raw))
        } else {
            None
        }
    }
}

/// `Some(wrap(raw))` for a non-null handle and `None` for the null handle: how every lookup
/// that LLDB may answer with null becomes an `Option`.
pub fn non_null<T, F: Fn(usize) -> T>(raw: usize, wrap: F) -> (r: Option<T>)
    requires
        raw != 0 ==> call_requires(wrap, (raw,)),
    ensures
        r is None <==> raw == 0,
        r matches Some(t) ==> call_ensures(wrap, (raw,), t),
{
    if raw == 0 {
        None
    } else {
        Some(wrap(raw))
    }
}

/// `Ok(value)` unless the error reports a failure, then `Err(err)`.
pub fn checked<T>(value: T, err: Error, failed: bool) -> (r: Result<T, Error>)
    ensures
        failed ==> r == Err::<T, Error>(err),
        !failed ==> r == Ok::<T, Error>(value),
{
    if failed {
        Err(err)
    } else {
        Ok(value)
    }
}

/// The outcome of an LLDB call that returns a handle and reports into `err`: `Err(err)` when
/// the handle is null or the error reports a failure, `Ok(wrap(raw))` otherwise.
pub fn call_result<T, F: Fn(usize) -> T>(raw: usize, err: Error, failed: bool, wrap: F) -> (r:
    Result<T, Error>)
    requires
        raw != 0 && !failed ==> call_requires(wrap, (raw,)),
    ensures
        r is Err <==> (raw == 0 || failed),
        r matches Err(e) ==> e == err,
        r matches Ok(t) ==> call_ensures(wrap, (raw,), t),
{
    if raw == 0 || failed {
        Err(err)
    } else {
        Ok(wrap(raw))
    }
}

/// The non-null entries of `s`, in order.
pub open spec fn non_null_handles(s: Seq<usize>) -> Seq<usize>
    decreases s.len(),
{
    if s.len() == 0 {
        Seq::empty()
    } else if s.last() != 0 {
        non_null_handles(s.drop_last()).push(s.last())
    } else {
        non_null_handles(s.drop_last())
    }
}

/// Collecting drops exactly the null entries: every entry kept is non-null, and every
/// non-null entry is kept.
pub proof fn lemma_non_null_handles(s: Seq<usize>)
    ensures
        forall|k: int| 0 <= k < non_null_handles(s).len() ==> #[trigger] non_null_handles(s)[k]
            != 0,
        forall|k: int| 0 <= k < s.len() && s[k] != 0 ==> non_null_handles(s).contains(s[k]),
    decreases s.len(),
{
    if s.len() > 0 {
        let init = s.drop_last();
        lemma_non_null_handles(init);
        assert forall|k: int| 0 <= k < s.len() && s[k] != 0 implies non_null_handles(s).contains(
            s[k],
        ) by {
            if k < s.len() - 1 {
                assert(s[k] == init[k]);
                let j = choose|j: int| 0 <= j < non_null_handles(init).len() && non_null_handles(init)[j] == init[k];
                assert(non_null_handles(s)[j] == s[k]);
            } else {
                assert(non_null_handles(s).last() == s[k]);
            }
        }
    }
}

/// Collecting keeps the order of the input: the result is `s` with its null entries filtered
/// out.
pub proof fn lemma_non_null_handles_is_filter(s: Seq<usize>)
    ensures
        non_null_handles(s) == s.filter(|h: usize| h != 0),
{
    lemma_non_null_handles_filter_by(s, |h: usize| h != 0);
}

/// `non_null_handles` is filtering by any predicate that holds exactly of the non-null handles.
proof fn lemma_non_null_handles_filter_by(s: Seq<usize>, p: spec_fn(usize) -> bool)
    requires
        forall|h: usize| #[trigger] p(h) == (h != 0),
    ensures
        non_null_handles(s) == s.filter(p),
    decreases s.len(),
{
    reveal(Seq::filter);
    if s.len() > 0 {
        lemma_non_null_handles_filter_by(s.drop_last(), p);
    }
}

/// Collecting a concatenation collects each part in turn: nothing is reordered across or
/// within the parts.
pub proof fn lemma_non_null_handles_append(s: Seq<usize>, t: Seq<usize>)
    ensures
        non_null_handles(s + t) == non_null_handles(s) + non_null_handles(t),
{
    let p = |h: usize| h != 0;
    lemma_non_null_handles_is_filter(s + t);
    lemma_non_null_handles_is_filter(s);
    lemma_non_null_handles_is_filter(t);
    Seq::filter_distributes_over_add(s, t, p);
}

/// A single handle is kept when it is non-null and dropped when it is null.
pub proof fn lemma_non_null_handles_single(h: usize)
    ensures
        h != 0 ==> non_null_handles(seq![h]) == seq![h],
        h == 0 ==> non_null_handles(seq![h]) == Seq::<usize>::empty(),
{
    let one = seq![h];
    assert(one.drop_last() =~= Seq::<usize>::empty());
    assert(non_null_handles(Seq::<usize>::empty()) == Seq::<usize>::empty());
    assert(one.last() == h);
    assert(Seq::<usize>::empty().push(h) =~= one);
}

/// The addresses that the values `v` hold.
pub open spec fn value_handles(v: Seq<Value>) -> Seq<usize> {
    v.map_values(|x: Value| x.handle())
}

impl Value {
    /// The values among the first `n` handles that LLDB wrote into `ptrs`, skipping null ones
    /// (`Frame::variables`).
    pub fn collect_present(ptrs: &[usize], n: usize) -> (r: Vec<Value>)
        ensures
            value_handles(r@) == non_null_handles(
                ptrs@.take(if n < ptrs@.len() { n as int } else { ptrs@.len() as int }),
            ),
            value_handles(r@) == ptrs@.take(
                if n < ptrs@.len() { n as int } else { ptrs@.len() as int },
            ).filter(|h: usize| h != 0),
    {
        let end = if n < ptrs.len() {
            n
        } else {
            ptrs.len()
        };
        let mut r: Vec<Value> = Vec::new();
        let mut i: usize = 0;
        while i < end
            invariant
                end <= ptrs@.len(),
                end == (if n < ptrs@.len() { n as int } else { ptrs@.len() as int }),
                i <= end,
                value_handles(r@) == non_null_handles(ptrs@.take(i as int)),
            decreases end - i,
        {
            assert(ptrs@.take(i + 1).drop_last() =~= ptrs@.take(i as int));
            let ghost before = r@;
            if ptrs[i] != 0 {
                r.push(Value::from_raw(ptrs[i]));
                assert(value_handles(r@) =~= value_handles(before).push(ptrs@[i as int]));
            }
            i = i + 1;
        }
        proof {
            lemma_non_null_handles_is_filter(ptrs@.take(end as int));
        }
        r
    }
}

} // verus!
