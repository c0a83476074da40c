use local_sent_bridge::lines::LineAssembler;

fn collect_lines(chunks: &[&[u8]]) -> Vec<Vec<u8>> {
    let mut assembler = LineAssembler::new();
    let mut lines: Vec<Vec<u8>> = Vec::new();
    for chunk in chunks {
        lines.extend(assembler.push_chunk(chunk));
    }
    let tail = assembler.flush();
    if !tail.is_empty() {
        lines.push(tail);
    }
    lines
}

#[test]
fn single_chunk_lf_lines() {
    let lines = collect_lines(&[b"alpha\nbeta\ngamma\n"]);
    assert_eq!(lines, vec![b"alpha".to_vec(), b"beta".to_vec(), b"gamma".to_vec()]);
}

#[test]
fn unterminated_tail_is_flushed_once() {
    let lines = collect_lines(&[b"alpha\nbet"]);
    assert_eq!(lines, vec![b"alpha".to_vec(), b"bet".to_vec()]);
}

#[test]
fn chunk_size_does_not_change_lines() {
    let stream: &[u8] = b"first line\nsecond\r\nthird\rfourth with no end";
    let whole = collect_lines(&[stream]);
    let mut split_all: Vec<Vec<u8>> = Vec::new();
    // every single-byte chunking must agree with the whole-stream result
    let one_byte: Vec<&[u8]> = stream.chunks(1).collect();
    split_all.extend(collect_lines(&one_byte));
    assert_eq!(whole, split_all);
    for cut in 0..=stream.len() {
        let halves = collect_lines(&[&stream[..cut], &stream[cut..]]);
        assert_eq!(whole, halves, "split at {cut} changed the lines");
    }
}

#[test]
fn terminator_on_chunk_boundary() {
    let a = collect_lines(&[b"abc\n", b"def"]);
    let b = collect_lines(&[b"abc", b"\ndef"]);
    assert_eq!(a, b);
    assert_eq!(a, vec![b"abc".to_vec(), b"def".to_vec()]);
}

#[test]
fn crlf_yields_empty_line_between() {
    // CR and LF each end a line; the empty in-between line is preserved here
    // and dropped later by the router, not by the assembler.
    let lines = {
        let mut assembler = LineAssembler::new();
        let got = assembler.push_chunk(b"one\r\ntwo\n");
        assert!(assembler.flush().is_empty());
        got
    };
    assert_eq!(lines, vec![b"one".to_vec(), b"".to_vec(), b"two".to_vec()]);
}

#[test]
fn empty_stream_produces_nothing() {
    let lines = collect_lines(&[b""]);
    assert!(lines.is_empty());
}
