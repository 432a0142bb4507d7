use lldb_safe::ctext::{decode_lossy, output_text, source_location_from, stop_description_text, until_nul, utf8_or};
use lldb_safe::{Debugger, Error};

#[test]
fn until_nul_stops_at_the_first_nul() {
    assert_eq!(until_nul(b"abc\0def\0"), b"abc".to_vec());
    assert_eq!(until_nul(b"\0abc"), Vec::<u8>::new());
    assert_eq!(until_nul(b"no nul"), b"no nul".to_vec());
    assert_eq!(until_nul(b""), Vec::<u8>::new());
}

#[test]
fn stop_description_reads_the_c_string_in_the_buffer() {
    let mut buf = vec![0u8; 1024];
    buf[..10].copy_from_slice(b"breakpoint");
    buf[11] = b'x';
    assert_eq!(stop_description_text(&buf), "breakpoint");
    assert_eq!(stop_description_text(&[0u8; 16]), "");
}

#[test]
fn stop_description_replaces_invalid_utf8() {
    let buf = [b'a', 0xff, b'b', 0];
    assert_eq!(stop_description_text(&buf), "a\u{fffd}b");
}

#[test]
fn lossy_decoding_keeps_valid_utf8() {
    assert_eq!(decode_lossy("héllo".as_bytes()), "héllo");
    assert_eq!(decode_lossy(&[0xe2, 0x82]), "\u{fffd}");
}

#[test]
fn source_location_needs_a_path_and_a_line() {
    let mut buf = vec![0u8; 64];
    buf[..7].copy_from_slice(b"main.rs");
    assert_eq!(source_location_from(&buf, 12), Some(("main.rs".to_string(), 12)));
    assert_eq!(source_location_from(&buf, 0), None);
    assert_eq!(source_location_from(&[0u8; 8], 12), None);
}

#[test]
fn utf8_or_falls_back_on_invalid_bytes() {
    assert_eq!(utf8_or(b"x86_64-pc-windows-msvc", ""), "x86_64-pc-windows-msvc");
    assert_eq!(utf8_or(&[0xc3, 0x28], ""), "");
    assert_eq!(utf8_or(&[0xed, 0xa0, 0x80], "?"), "?");
}

#[test]
fn version_text_of_the_debugger() {
    assert_eq!(Debugger::version_text(None), "<unknown>");
    assert_eq!(
        Debugger::version_text(Some(b"lldb version 19.1.7")),
        "lldb version 19.1.7"
    );
    assert_eq!(Debugger::version_text(Some(&[0xff])), "<invalid utf8>");
}

#[test]
fn error_message_text() {
    assert_eq!(Error::message_text(None), None);
    assert_eq!(Error::message_text(Some(b"not found")), Some("not found".to_string()));
    assert_eq!(Error::message_text(Some(&[0x80])), Some("<invalid utf8>".to_string()));
}

#[test]
fn stop_description_never_holds_a_nul() {
    let buf = [b'x', 0xc0, 0x80, b'y', 0, b'z'];
    let text = stop_description_text(&buf);
    assert_eq!(text, "x\u{fffd}\u{fffd}y");
    assert!(!text.contains('\0'));
}

#[test]
fn output_text_replaces_invalid_utf8() {
    assert_eq!(output_text(b"/usr/lib/llvm-19\n"), "/usr/lib/llvm-19\n");
    assert_eq!(output_text(&[b'a', 0xff]), "a\u{fffd}");
}
