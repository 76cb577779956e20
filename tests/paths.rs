use file_or_stdio::sentinel::{
    input_mode, is_stdio_path, output_mode, resolve_input, resolve_output, OpenMode, Target,
};

#[test]
fn dash_is_the_standard_stream() {
    assert!(is_stdio_path("-"));
    assert_eq!(resolve_input("-"), Target::Standard);
    assert_eq!(resolve_output("-"), Target::Standard);
}

#[test]
fn other_paths_are_files() {
    for p in ["", "--", "a-b", "-x", "./-", "- ", " -", "\u{2014}", "test_file.txt"] {
        assert!(!is_stdio_path(p), "{:?}", p);
        assert_eq!(resolve_input(p), Target::File(input_mode()));
        assert_eq!(resolve_output(p), Target::File(output_mode()));
    }
}

#[test]
fn input_opens_existing_file_for_reading() {
    assert_eq!(
        input_mode(),
        OpenMode { read: true, write: false, create: false, truncate: false, append: false }
    );
}

#[test]
fn output_creates_or_truncates_never_appends() {
    let m = output_mode();
    assert!(m.write && m.create && m.truncate);
    assert!(!m.append && !m.read);
    assert_eq!(resolve_output("test_write_file.txt"), Target::File(m));
}
