use lldb_safe::{dll_directory_wide, parse_reg_value, version_from_output};

#[test]
fn reg_value_from_typical_reg_query_output() {
    let out = "\r\nHKEY_LOCAL_MACHINE\\SOFTWARE\\LLVM\\LLVM\r\n    InstallDir    REG_SZ    C:\\Program Files\\LLVM\r\n\r\n";
    assert_eq!(parse_reg_value(out), Some("C:\\Program Files\\LLVM".to_string()));
}

#[test]
fn reg_value_absent_when_no_install_dir_line() {
    assert_eq!(parse_reg_value(""), None);
    assert_eq!(parse_reg_value("ERROR: The system was unable to find the specified registry key or value.\r\n"), None);
    assert_eq!(parse_reg_value("    Version    REG_SZ    19.1.7\r\n"), None);
}

#[test]
fn reg_value_needs_a_four_space_gap_and_a_value() {
    // No run of four spaces at all.
    assert_eq!(parse_reg_value("InstallDir REG_SZ C:\\LLVM"), None);
    // Only the name is left once the line is trimmed.
    assert_eq!(parse_reg_value("    InstallDir    \t\r\n"), None);
    // The line is trimmed before the last gap is looked for, so an empty value leaves the type.
    assert_eq!(parse_reg_value("    InstallDir    REG_SZ    \t\r\n"), Some("REG_SZ".to_string()));
}

#[test]
fn reg_value_takes_the_first_line_that_names_a_directory() {
    let out = "InstallDir    \nInstallDir    REG_SZ    D:\\Tools\\LLVM\nInstallDir    REG_SZ    E:\\Other\n";
    assert_eq!(parse_reg_value(out), Some("D:\\Tools\\LLVM".to_string()));
}

#[test]
fn reg_value_splits_at_the_last_gap() {
    // A path that itself holds four spaces is cut at the last run, as `rfind` does.
    let out = "    InstallDir    REG_SZ    C:\\My    Tools\\LLVM";
    assert_eq!(parse_reg_value(out), Some("Tools\\LLVM".to_string()));
}

#[test]
fn reg_value_trims_unicode_white_space() {
    let out = "\u{3000}InstallDir    REG_SZ    C:\\LLVM\u{a0}\u{2003}";
    assert_eq!(parse_reg_value(out), Some("C:\\LLVM".to_string()));
}

#[test]
fn version_from_lldb_version_line() {
    assert_eq!(version_from_output("lldb version 19.1.7\n"), Some("19.1.7".to_string()));
    assert_eq!(
        version_from_output("lldb version 19.1.7 (https://github.com/llvm/llvm-project.git revision cd708029e0b2869e80abe31ddb175f7c35361f90)\n  clang revision cd708029e0b2869e80abe31ddb175f7c35361f90\n"),
        Some("19.1.7".to_string())
    );
}

#[test]
fn version_word_must_begin_with_a_digit() {
    assert_eq!(version_from_output("lldb-1900.0.0"), None);
    assert_eq!(version_from_output("lldb-1900.0.0 is 7up"), Some("7up".to_string()));
    assert_eq!(version_from_output("\t\n 42"), Some("42".to_string()));
}

#[test]
fn version_absent_from_empty_or_wordless_output() {
    assert_eq!(version_from_output(""), None);
    assert_eq!(version_from_output("   \n\t "), None);
    assert_eq!(version_from_output("no version here"), None);
}

#[test]
fn version_words_split_on_unicode_white_space() {
    assert_eq!(version_from_output("v\u{2009}19.1.7\u{2009}x"), Some("19.1.7".to_string()));
}

#[test]
fn wide_dll_directory_is_nul_terminated_utf16() {
    let path = "C:\\Program Files\\LLVM\\bin";
    let mut expected: Vec<u16> = path.encode_utf16().collect();
    expected.push(0);
    assert_eq!(dll_directory_wide(path), expected);
    assert_eq!(dll_directory_wide(""), vec![0u16]);
}

#[test]
fn wide_dll_directory_encodes_surrogate_pairs() {
    let path = "D:\\\u{1F600}\\é";
    let mut expected: Vec<u16> = path.encode_utf16().collect();
    expected.push(0);
    assert_eq!(dll_directory_wide(path), expected);
    assert_eq!(dll_directory_wide("\u{1F600}"), vec![0xd83d, 0xde00, 0]);
}
