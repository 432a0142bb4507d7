use lldb_safe::error::push_decimal;
use lldb_safe::handles::{c_arg_or_null, call_result, checked, non_null, ThreadLookup};
use lldb_safe::{Breakpoint, Broadcaster, Debugger, Error, Event, Frame, Listener, Process, Target, Thread, Value};

#[test]
fn error_without_message_displays_its_code() {
    assert_eq!(Error::describe(None, 0), "LLDB error (code 0)");
    assert_eq!(Error::describe(None, 5), "LLDB error (code 5)");
    assert_eq!(Error::describe(None, u32::MAX), "LLDB error (code 4294967295)");
}

#[test]
fn error_with_message_displays_the_message() {
    assert_eq!(Error::describe(Some("process exited"), 7), "process exited");
    assert_eq!(Error::describe(Some(""), 7), "");
}

#[test]
fn error_debug_text_wraps_the_display_text() {
    assert_eq!(Error::debug_text(Some("boom"), 1), "lldb::Error(boom)");
    assert_eq!(Error::debug_text(None, 42), "lldb::Error(LLDB error (code 42))");
}

#[test]
fn decimal_digits_match_to_string() {
    for n in [0u32, 1, 9, 10, 99, 100, 1000, 65535, 1234567, u32::MAX] {
        let mut s = String::from("#");
        push_decimal(&mut s, n);
        assert_eq!(s, format!("#{}", n));
    }
}

#[test]
fn error_from_raw_rejects_null() {
    assert!(Error::from_raw(0).is_none());
    let e = Error::from_raw(0x1000).unwrap();
    assert_eq!(e.as_raw(), 0x1000);
    assert_eq!(Error::from_created(0x2000).as_raw(), 0x2000);
}

#[test]
fn handles_keep_their_address() {
    assert_eq!(Debugger::from_raw(1).as_raw(), 1);
    assert_eq!(Target::from_raw(2).as_raw(), 2);
    assert_eq!(Process::from_raw(3).as_raw(), 3);
    assert_eq!(Thread::from_raw(4).as_raw(), 4);
    assert_eq!(Frame::from_raw(5).as_raw(), 5);
    assert_eq!(Breakpoint::from_raw(6).as_raw(), 6);
    assert_eq!(Value::from_raw(7).as_raw(), 7);
    assert_eq!(Event::from_raw(8).as_raw(), 8);
    assert_eq!(Listener::from_raw(9).as_raw(), 9);
    assert_eq!(Broadcaster::from_raw(usize::MAX).as_raw(), usize::MAX);
}

#[test]
fn non_null_turns_null_into_none() {
    assert!(non_null(0, Target::from_raw).is_none());
    assert_eq!(non_null(0x40, Target::from_raw).unwrap().as_raw(), 0x40);
}

#[test]
fn call_result_fails_on_null_or_reported_failure() {
    let ok = call_result(0x10, Error::from_created(0x99), false, Process::from_raw);
    assert_eq!(ok.unwrap().as_raw(), 0x10);
    let null = call_result(0, Error::from_created(0x99), false, Process::from_raw);
    assert_eq!(null.err().unwrap().as_raw(), 0x99);
    let failed = call_result(0x10, Error::from_created(0x98), true, Process::from_raw);
    assert_eq!(failed.err().unwrap().as_raw(), 0x98);
}

#[test]
fn checked_reports_failure() {
    assert_eq!(checked(17usize, Error::from_created(1), false).unwrap(), 17);
    assert_eq!(checked((), Error::from_created(3), true).err().unwrap().as_raw(), 3);
}

#[test]
fn collect_present_skips_null_and_stops_at_n() {
    let ptrs = [0x10usize, 0, 0x30, 0x40, 0, 0x60];
    let all: Vec<usize> = Value::collect_present(&ptrs, 6).iter().map(|v| v.as_raw()).collect();
    assert_eq!(all, vec![0x10, 0x30, 0x40, 0x60]);
    let some: Vec<usize> = Value::collect_present(&ptrs, 3).iter().map(|v| v.as_raw()).collect();
    assert_eq!(some, vec![0x10, 0x30]);
    let over: Vec<usize> = Value::collect_present(&ptrs, 256).iter().map(|v| v.as_raw()).collect();
    assert_eq!(over, vec![0x10, 0x30, 0x40, 0x60]);
    assert!(Value::collect_present(&ptrs, 0).is_empty());
}

#[test]
fn waiting_gives_an_event_only_when_one_arrived() {
    assert_eq!(Listener::event_from_wait(true, 0x77).unwrap().as_raw(), 0x77);
    assert!(Listener::event_from_wait(true, 0).is_none());
    assert!(Listener::event_from_wait(false, 0x77).is_none());
}

#[test]
fn returned_error_keeps_a_non_null_one() {
    let mut created = 0;
    let e = Error::returned_or(0x500, || {
        created += 1;
        0x600
    });
    assert_eq!(e.as_raw(), 0x500);
    assert_eq!(created, 0);
}

#[test]
fn null_returned_error_is_replaced_by_a_fresh_one() {
    let e = Error::returned_or(0, || 0x600);
    assert_eq!(e.as_raw(), 0x600);
}

#[test]
fn thread_lookup_asks_validity_only_of_non_null_handles() {
    let asked = std::cell::Cell::new(0);
    let is_valid = |r: usize| {
        asked.set(asked.get() + 1);
        r != 0xdead
    };
    assert!(matches!(Thread::lookup(0, &is_valid), ThreadLookup::Null));
    assert_eq!(asked.get(), 0);
    match Thread::lookup(0x10, &is_valid) {
        ThreadLookup::Valid(t) => assert_eq!(t.as_raw(), 0x10),
        _ => panic!("expected a valid thread"),
    }
    match Thread::lookup(0xdead, &is_valid) {
        ThreadLookup::Invalid(t) => assert_eq!(t.as_raw(), 0xdead),
        _ => panic!("expected an invalid thread"),
    }
    assert_eq!(asked.get(), 2);
}

#[test]
fn empty_c_arguments_become_null() {
    assert_eq!(c_arg_or_null(""), None);
    assert_eq!(c_arg_or_null("x86_64-pc-windows-msvc"), Some("x86_64-pc-windows-msvc"));
    assert!(!Target::passes_environment(0));
    assert!(Target::passes_environment(2));
}

#[test]
fn command_text_of_the_debugger() {
    assert_eq!(Debugger::command_text(None), "");
    assert_eq!(Debugger::command_text(Some(b"image list\n")), "image list\n");
    assert_eq!(Debugger::command_text(Some(&[0xff, 0xfe])), "");
}
