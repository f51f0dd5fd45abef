use bevy_wasm_pack::report::{
    creating_dist_dir, file_size, file_size_of, generating_package, relocation_failed, Diagnostic,
    Severity,
};

fn info(text: &str) -> Diagnostic {
    Diagnostic { severity: Severity::Info, text: text.to_string() }
}

#[test]
fn run_opens_with_the_package() {
    assert_eq!(generating_package("app"), info("Generating package: app..."));
}

#[test]
fn formatted_size_is_shown_as_given() {
    assert_eq!(file_size("12 parsecs"), info("File size: 12 parsecs"));
}

#[test]
fn small_size_is_shown_in_bytes() {
    assert_eq!(file_size_of(0), info("File size: 0 B"));
    assert_eq!(file_size_of(1023), info("File size: 1023 B"));
}

#[test]
fn large_size_is_shown_in_binary_units() {
    assert_eq!(file_size_of(1024), info("File size: 1.0 KiB"));
    assert_eq!(file_size_of(1536), info("File size: 1.5 KiB"));
    assert_eq!(file_size_of(5 * 1024 * 1024), info("File size: 5.0 MiB"));
    assert_eq!(file_size_of(u64::MAX), info("File size: 16.0 EiB"));
}

#[test]
fn directory_creation_is_announced() {
    assert_eq!(creating_dist_dir("/ws/dist/app"), info("Creating dist dir: /ws/dist/app"));
}

#[test]
fn failed_relocation_is_an_error_line() {
    let expected = Diagnostic { severity: Severity::Error, text: "Error renaming: denied".to_string() };
    assert_eq!(relocation_failed("denied"), expected);
}
