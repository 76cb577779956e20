use file_or_stdio::reader::{ReadAction, ReadAll, ReadEvent, ReadFailure};

/// Drives a whole-stream read over `src`, `chunk` bytes at a time.
fn drive(src: &[u8], chunk: usize) -> (ReadAll, ReadAction) {
    let mut r = ReadAll::new();
    let mut pos = 0;
    let mut buf = vec![0u8; chunk];
    loop {
        match r.action() {
            ReadAction::Read => {
                let n = std::cmp::min(chunk, src.len() - pos);
                buf[..n].copy_from_slice(&src[pos..pos + n]);
                pos += n;
                r.on_event(ReadEvent::Filled(n), &buf);
            }
            act => return (r, act),
        }
    }
}

#[test]
fn reads_whole_text() {
    let content = "Test read file content";
    let (r, act) = drive(content.as_bytes(), 4);
    assert_eq!(act, ReadAction::Finished);
    assert_eq!(r.into_text(), Some(content.to_string()));
}

#[test]
fn reads_multibyte_text_split_across_reads() {
    let content = "h\u{e9}llo \u{2014} w\u{f6}rld";
    let (r, _) = drive(content.as_bytes(), 3);
    assert_eq!(r.into_text(), Some(content.to_string()));
}

#[test]
fn reads_empty_and_large_input() {
    let (r, act) = drive(&[], 16);
    assert_eq!(act, ReadAction::Finished);
    assert_eq!(r.into_text(), Some(String::new()));
    let big: Vec<u8> = (0..70_000u32).map(|i| b'a' + (i % 26) as u8).collect();
    let (r, _) = drive(&big, 8192);
    assert_eq!(r.into_bytes(), big);
}

#[test]
fn invalid_text_is_refused() {
    let (r, _) = drive(&[0x66, 0xff, 0x6f], 2);
    assert_eq!(r.into_text(), None);
}

#[test]
fn interrupted_read_is_retried_and_errors_stop() {
    let mut r = ReadAll::new();
    assert_eq!(r.on_event(ReadEvent::Filled(2), b"ab"), ReadAction::Read);
    assert_eq!(r.on_event(ReadEvent::Interrupted, b"zz"), ReadAction::Read);
    assert_eq!(r.on_event(ReadEvent::Filled(1), b"cz"), ReadAction::Read);
    assert_eq!(r.on_event(ReadEvent::Error, b""), ReadAction::Fail(ReadFailure::Io));
    assert_eq!(r.on_event(ReadEvent::Filled(1), b"d"), ReadAction::Fail(ReadFailure::Io));
    assert_eq!(r.into_bytes(), b"abc".to_vec());
}

#[test]
fn overlong_read_count_fails() {
    let mut r = ReadAll::new();
    assert_eq!(r.on_event(ReadEvent::Filled(3), b"ab"), ReadAction::Fail(ReadFailure::Overrun));
    assert_eq!(r.into_bytes(), Vec::<u8>::new());
}
