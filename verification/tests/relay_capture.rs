use cmd_sandbox::outcome::{render_outcome, CommandOutcome};
use cmd_sandbox::relay::{stdin_forward_continues, HostRead, StreamCapture};

#[test]
fn capture_accumulates_chunks_in_order() {
    let mut capture = StreamCapture::new();
    assert_eq!(capture.len(), 0);
    capture.absorb_chunk(b"hello", 5);
    capture.absorb_chunk(b"world!!", 3);
    assert_eq!(capture.len(), 8);
    assert_eq!(capture.into_bytes(), b"hellowor".to_vec());
}

#[test]
fn capture_takes_only_the_read_length() {
    let mut capture = StreamCapture::new();
    let buffer = [b'a', b'b', b'c', b'd'];
    capture.absorb_chunk(&buffer, 0);
    assert_eq!(capture.len(), 0);
    capture.absorb_chunk(&buffer, 2);
    assert_eq!(capture.into_bytes(), vec![b'a', b'b']);
}

#[test]
fn captured_streams_round_trip_into_the_result() {
    let mut out = StreamCapture::new();
    let mut err = StreamCapture::new();
    out.absorb_chunk(b"known-out-bytes", 15);
    err.absorb_chunk(b"known-err-bytes", 15);
    let outcome = CommandOutcome::Finished {
        stdout: out.into_bytes(),
        stderr: err.into_bytes(),
        code: Some(0),
    };
    let text = render_outcome(&outcome);
    let out_at = text.find("known-out-bytes").expect("stdout payload present");
    let err_at = text.find("known-err-bytes").expect("stderr payload present");
    assert!(out_at < err_at, "stdout text must precede stderr text");
}

#[test]
fn stdin_forwarder_stops_at_end_of_input() {
    assert!(stdin_forward_continues(&HostRead::Chunk { len: 4 }, true));
    assert!(!stdin_forward_continues(&HostRead::Chunk { len: 4 }, false));
    assert!(!stdin_forward_continues(&HostRead::EndOfInput, true));
    assert!(!stdin_forward_continues(&HostRead::Failed, true));
}
