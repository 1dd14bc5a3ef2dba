use cofer::podman::container::{
    collect_output, env_lines, stop_timeout, ExecResult, OutputBuffer, OutputChunk,
};

#[test]
fn variables_become_lines() {
    let pairs = vec![
        ("TEST_VAR".to_string(), "test_value".to_string()),
        ("EMPTY".to_string(), String::new()),
        ("A=B".to_string(), "c".to_string()),
    ];
    assert_eq!(env_lines(&pairs), vec!["TEST_VAR=test_value", "EMPTY=", "A=B=c"]);
    assert!(env_lines(&Vec::new()).is_empty());
}

#[test]
fn the_stop_timeout_defaults_to_ten_seconds() {
    assert_eq!(stop_timeout(None), 10);
    assert_eq!(stop_timeout(Some(5)), 5);
    assert_eq!(stop_timeout(Some(0)), 0);
}

#[test]
fn output_is_gathered_by_stream_up_to_the_first_failure() {
    let chunks = vec![
        OutputChunk::StdOut(b"he".to_vec()),
        OutputChunk::StdErr(b"warn".to_vec()),
        OutputChunk::Other,
        OutputChunk::StdOut(b"llo".to_vec()),
        OutputChunk::Failed,
        OutputChunk::StdOut(b" lost".to_vec()),
        OutputChunk::StdErr(b" lost".to_vec()),
    ];
    assert_eq!(collect_output(&chunks), (b"hello".to_vec(), b"warn".to_vec()));
    assert_eq!(collect_output(&Vec::new()), (Vec::new(), Vec::new()));
    assert_eq!(collect_output(&vec![OutputChunk::Failed]), (Vec::new(), Vec::new()));
}

#[test]
fn the_buffer_takes_chunks_one_by_one() {
    let mut buffer = OutputBuffer::new();
    assert!(buffer.accept(&OutputChunk::StdOut(b"a".to_vec())));
    assert!(buffer.accept(&OutputChunk::StdErr(b"b".to_vec())));
    assert!(buffer.accept(&OutputChunk::Other));
    assert!(!buffer.accept(&OutputChunk::Failed));
    assert!(buffer.accept(&OutputChunk::StdOut(b"c".to_vec())));
    assert_eq!(buffer.stdout, b"ac".to_vec());
    assert_eq!(buffer.stderr, b"b".to_vec());
}

#[test]
fn output_bytes_become_text() {
    let result = ExecResult::from_output(Some(0), &b"hello\n".to_vec(), &vec![b'o', 0xff, b'k']);
    assert_eq!(
        result,
        ExecResult {
            exit_code: Some(0),
            stdout: "hello\n".to_string(),
            stderr: "o\u{fffd}k".to_string()
        }
    );
    let from_chunks = ExecResult::from_chunks(
        None,
        &vec![OutputChunk::StdOut("grüß".as_bytes().to_vec()), OutputChunk::StdErr(b"e".to_vec())],
    );
    assert_eq!(
        from_chunks,
        ExecResult { exit_code: None, stdout: "grüß".to_string(), stderr: "e".to_string() }
    );
    assert_eq!(from_chunks.clone(), from_chunks);
}
