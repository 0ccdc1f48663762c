use quantum_exegol::output::{capture_output, OutputChunk, OutputStream};

fn chunk(stream: OutputStream, text: &str) -> OutputChunk {
    OutputChunk { stream, text: text.to_string() }
}

#[test]
fn captures_stdout_and_stderr_in_order() {
    let chunks = vec![
        chunk(OutputStream::StdOut, "line 1\n"),
        chunk(OutputStream::StdIn, "typed\n"),
        chunk(OutputStream::StdErr, "warn\n"),
        chunk(OutputStream::Console, "tty\n"),
        chunk(OutputStream::StdOut, "line 2\n"),
    ];
    assert_eq!(capture_output(&chunks), "line 1\nwarn\nline 2\n");
}

#[test]
fn captures_nothing_from_empty_output() {
    assert_eq!(capture_output(&Vec::new()), "");
    assert_eq!(capture_output(&vec![chunk(OutputStream::Console, "x")]), "");
}
