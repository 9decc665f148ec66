use t10_detector::exchange::{
    find_line_feed, send_and_receive_serial_message, Exchange, ExchangeStep, PortEvent,
    PortRequest,
};
use t10_detector::probe::{
    judge, send_serial_command, Probe, ProbeOutcome, ProbeResult, ProbeStep, BAUD_RATE,
    DEFAULT_TIMEOUT_MS,
};
use t10_detector::protocol::{
    decode_reply, frame_query, is_positive_reply, IoErrorKind, ProbeError,
};

/// Steps a probe through the events of a simulated port. Gives the result, if
/// the probe came to one, and the requests that the probe made on the way.
fn run_probe(probe: Probe, events: Vec<PortEvent>) -> (Option<ProbeResult>, Vec<PortRequest>) {
    let mut probe = probe;
    let mut requests: Vec<PortRequest> = Vec::new();
    for event in events {
        requests.push(probe.request());
        match send_serial_command(probe, event) {
            ProbeStep::Pending { probe: next } => probe = next,
            ProbeStep::Done { result } => return (Some(result), requests),
        }
    }
    requests.push(probe.request());
    (None, requests)
}

fn received(bytes: &[u8]) -> PortEvent {
    PortEvent::Received { bytes: bytes.to_vec() }
}

fn failed(kind: IoErrorKind, message: &str) -> PortEvent {
    PortEvent::Failed { kind, message: message.to_string() }
}

fn result_of(port_name: &str, outcome: ProbeOutcome) -> Option<ProbeResult> {
    Some(ProbeResult { port_name: port_name.to_string(), outcome })
}

#[test]
fn frame_is_query_then_carriage_return_and_line_feed() {
    assert_eq!(frame_query("m ver"), b"m ver\r\n".to_vec());
    assert_eq!(frame_query("h 3"), b"h 3\r\n".to_vec());
    assert_eq!(frame_query(""), b"\r\n".to_vec());
    assert_eq!(frame_query("\u{e9}"), vec![0xc3, 0xa9, 13, 10]);
}

#[test]
fn probe_returns_trimmed_reply_without_terminator() {
    let probe = Probe::new("/dev/cu.usbserial-0001", "m ver", 1000);
    let (result, requests) = run_probe(
        probe,
        vec![PortEvent::Opened, PortEvent::Wrote { count: 7 }, received(b"OK 1.2.3\r\n")],
    );
    assert_eq!(
        requests,
        vec![
            PortRequest::Open {
                port_name: "/dev/cu.usbserial-0001".to_string(),
                baud_rate: 115200,
                timeout_ms: 1000,
            },
            PortRequest::Write { bytes: b"m ver\r\n".to_vec() },
            PortRequest::Read,
        ]
    );
    assert_eq!(
        result,
        result_of(
            "/dev/cu.usbserial-0001",
            ProbeOutcome::Matched { reply: "OK 1.2.3".to_string() }
        )
    );
}

#[test]
fn probe_of_silent_port_is_no_device() {
    let probe = Probe::new("/dev/cu.usbserial-0001", "m ver", 1000);
    let (result, _) =
        run_probe(probe, vec![PortEvent::Opened, PortEvent::Wrote { count: 7 }, received(b"")]);
    assert_eq!(
        result,
        result_of("/dev/cu.usbserial-0001", ProbeOutcome::Failed { error: ProbeError::NoDevice })
    );
}

#[test]
fn probe_without_answer_times_out() {
    let probe = Probe::new("/dev/cu.usbserial-0001", "m ver", 3000);
    let (result, _) = run_probe(
        probe,
        vec![
            PortEvent::Opened,
            PortEvent::Wrote { count: 7 },
            failed(IoErrorKind::TimedOut, "Operation timed out"),
        ],
    );
    assert_eq!(
        result,
        result_of("/dev/cu.usbserial-0001", ProbeOutcome::Failed { error: ProbeError::Timeout })
    );
}

#[test]
fn probe_with_unfinished_line_times_out() {
    let probe = Probe::new("/dev/cu.usbserial-0001", "m ver", 1000);
    let (result, _) = run_probe(
        probe,
        vec![
            PortEvent::Opened,
            PortEvent::Wrote { count: 7 },
            received(b"OK 1."),
            failed(IoErrorKind::TimedOut, "Operation timed out"),
        ],
    );
    assert_eq!(
        result,
        result_of("/dev/cu.usbserial-0001", ProbeOutcome::Failed { error: ProbeError::Timeout })
    );
}

#[test]
fn probe_with_malformed_bytes_is_decode_error() {
    let probe = Probe::new("/dev/cu.usbserial-0001", "m ver", 1000);
    let (result, _) = run_probe(
        probe,
        vec![PortEvent::Opened, PortEvent::Wrote { count: 7 }, received(&[0xff, 0xfe, 0x80, b'\n'])],
    );
    assert_eq!(
        result,
        result_of("/dev/cu.usbserial-0001", ProbeOutcome::Failed { error: ProbeError::Decode })
    );
}

#[test]
fn probe_of_port_that_does_not_open_is_open_error() {
    let probe = Probe::new("/dev/nowhere", "m ver", 1000);
    let (result, requests) = run_probe(
        probe,
        vec![PortEvent::OpenFailed { message: "No such file or directory".to_string() }],
    );
    assert_eq!(requests.len(), 1);
    assert_eq!(
        result,
        result_of(
            "/dev/nowhere",
            ProbeOutcome::Failed {
                error: ProbeError::Open { message: "No such file or directory".to_string() },
            }
        )
    );
}

#[test]
fn probe_opens_at_fixed_speed_with_given_timeout() {
    assert_eq!(BAUD_RATE, 115200);
    assert_eq!(DEFAULT_TIMEOUT_MS, 1000);
    let probe = Probe::new("COM3", "h v", DEFAULT_TIMEOUT_MS);
    assert_eq!(
        probe.request(),
        PortRequest::Open { port_name: "COM3".to_string(), baud_rate: 115200, timeout_ms: 1000 }
    );
    let probe = Probe::new("COM3", "h v", 3000);
    assert_eq!(
        probe.request(),
        PortRequest::Open { port_name: "COM3".to_string(), baud_rate: 115200, timeout_ms: 3000 }
    );
}

#[test]
fn probe_with_negative_reply_is_no_match() {
    let probe = Probe::new("/dev/cu.usbmodem1", "m ver", 1000);
    let (result, _) = run_probe(
        probe,
        vec![PortEvent::Opened, PortEvent::Wrote { count: 7 }, received(b"Error: unknown command\r\n")],
    );
    assert_eq!(
        result,
        result_of(
            "/dev/cu.usbmodem1",
            ProbeOutcome::NoMatch { reply: "Error: unknown command".to_string() }
        )
    );
}

#[test]
fn read_failure_is_io_error_with_kind_and_message() {
    let probe = Probe::new("/dev/cu.usbmodem1", "m ver", 1000);
    let (result, _) = run_probe(
        probe,
        vec![
            PortEvent::Opened,
            PortEvent::Wrote { count: 7 },
            failed(IoErrorKind::BrokenPipe, "Broken pipe"),
        ],
    );
    assert_eq!(
        result,
        result_of(
            "/dev/cu.usbmodem1",
            ProbeOutcome::Failed {
                error: ProbeError::Io {
                    kind: IoErrorKind::BrokenPipe,
                    message: "Error during read operation: Broken pipe".to_string(),
                },
            }
        )
    );
}

#[test]
fn write_failure_is_io_error_with_kind_and_message() {
    let probe = Probe::new("/dev/cu.usbmodem1", "m ver", 1000);
    let (result, requests) = run_probe(
        probe,
        vec![PortEvent::Opened, failed(IoErrorKind::PermissionDenied, "Permission denied")],
    );
    assert_eq!(requests.len(), 2);
    assert_eq!(
        result,
        result_of(
            "/dev/cu.usbmodem1",
            ProbeOutcome::Failed {
                error: ProbeError::Io {
                    kind: IoErrorKind::PermissionDenied,
                    message: "Permission denied".to_string(),
                },
            }
        )
    );
}

#[test]
fn write_that_times_out_is_io_error() {
    let probe = Probe::new("/dev/cu.usbmodem1", "m ver", 1000);
    let (result, _) = run_probe(
        probe,
        vec![PortEvent::Opened, failed(IoErrorKind::TimedOut, "Operation timed out")],
    );
    assert_eq!(
        result,
        result_of(
            "/dev/cu.usbmodem1",
            ProbeOutcome::Failed {
                error: ProbeError::Io {
                    kind: IoErrorKind::TimedOut,
                    message: "Operation timed out".to_string(),
                },
            }
        )
    );
}

#[test]
fn write_that_takes_nothing_ends_the_exchange() {
    let exchange = Exchange::new("m ver");
    match send_and_receive_serial_message(exchange, PortEvent::Wrote { count: 0 }) {
        ExchangeStep::Done { reply } => assert_eq!(
            reply,
            Err(ProbeError::Io {
                kind: IoErrorKind::WriteZero,
                message: "failed to write whole buffer".to_string(),
            })
        ),
        ExchangeStep::Pending { .. } => panic!("the exchange went on"),
    }
}

#[test]
fn query_is_written_in_full_before_the_first_read() {
    let probe = Probe::new("/dev/cu.usbmodem1", "m ver", 1000);
    let (result, requests) = run_probe(
        probe,
        vec![
            PortEvent::Opened,
            PortEvent::Wrote { count: 2 },
            PortEvent::Wrote { count: 4 },
            PortEvent::Wrote { count: 1 },
            received(b"1.2.3\n"),
        ],
    );
    assert_eq!(
        requests[1..],
        [
            PortRequest::Write { bytes: b"m ver\r\n".to_vec() },
            PortRequest::Write { bytes: b"ver\r\n".to_vec() },
            PortRequest::Write { bytes: b"\n".to_vec() },
            PortRequest::Read,
        ]
    );
    assert_eq!(
        result,
        result_of("/dev/cu.usbmodem1", ProbeOutcome::Matched { reply: "1.2.3".to_string() })
    );
}

#[test]
fn write_count_beyond_the_frame_counts_as_all() {
    let exchange = Exchange::new("m ver");
    match send_and_receive_serial_message(exchange, PortEvent::Wrote { count: usize::MAX }) {
        ExchangeStep::Pending { exchange } => assert_eq!(exchange.request(), PortRequest::Read),
        ExchangeStep::Done { .. } => panic!("the exchange is over"),
    }
}

#[test]
fn reply_is_gathered_over_several_reads() {
    let probe = Probe::new("/dev/cu.usbmodem1", "m ver", 1000);
    let (result, requests) = run_probe(
        probe,
        vec![
            PortEvent::Opened,
            PortEvent::Wrote { count: 7 },
            received(b"  O"),
            received(b"K 1"),
            received(b".2.3 \r"),
            received(b"\n"),
        ],
    );
    assert_eq!(requests.len(), 6);
    assert_eq!(
        requests[2..],
        [PortRequest::Read, PortRequest::Read, PortRequest::Read, PortRequest::Read]
    );
    assert_eq!(
        result,
        result_of("/dev/cu.usbmodem1", ProbeOutcome::Matched { reply: "OK 1.2.3".to_string() })
    );
}

#[test]
fn reply_is_cut_at_the_first_line_feed() {
    let probe = Probe::new("/dev/cu.usbmodem1", "m ver", 1000);
    let (result, _) = run_probe(
        probe,
        vec![PortEvent::Opened, PortEvent::Wrote { count: 7 }, received(b"1.2\n3.4\nError\n")],
    );
    assert_eq!(
        result,
        result_of("/dev/cu.usbmodem1", ProbeOutcome::Matched { reply: "1.2".to_string() })
    );
}

#[test]
fn echoed_query_line_is_taken_for_the_reply() {
    let probe = Probe::new("/dev/cu.usbmodem1", "m ver", 1000);
    let (result, _) = run_probe(
        probe,
        vec![
            PortEvent::Opened,
            PortEvent::Wrote { count: 7 },
            received(b"m ver\r\n"),
            received(b"OK 1.2.3\r\n"),
        ],
    );
    assert_eq!(
        result,
        result_of("/dev/cu.usbmodem1", ProbeOutcome::Matched { reply: "m ver".to_string() })
    );
}

#[test]
fn stream_that_ends_in_mid_line_gives_what_came() {
    let probe = Probe::new("/dev/cu.usbmodem1", "m ver", 1000);
    let (result, _) = run_probe(
        probe,
        vec![PortEvent::Opened, PortEvent::Wrote { count: 7 }, received(b" 1.2"), received(b"")],
    );
    assert_eq!(
        result,
        result_of("/dev/cu.usbmodem1", ProbeOutcome::Matched { reply: "1.2".to_string() })
    );
}

#[test]
fn interrupted_calls_are_made_again() {
    let probe = Probe::new("/dev/cu.usbmodem1", "m ver", 1000);
    let (result, requests) = run_probe(
        probe,
        vec![
            PortEvent::Opened,
            failed(IoErrorKind::Interrupted, "Interrupted system call"),
            PortEvent::Wrote { count: 7 },
            failed(IoErrorKind::Interrupted, "Interrupted system call"),
            received(b"1.2.3\n"),
        ],
    );
    assert_eq!(
        requests[1..],
        [
            PortRequest::Write { bytes: b"m ver\r\n".to_vec() },
            PortRequest::Write { bytes: b"m ver\r\n".to_vec() },
            PortRequest::Read,
            PortRequest::Read,
        ]
    );
    assert_eq!(
        result,
        result_of("/dev/cu.usbmodem1", ProbeOutcome::Matched { reply: "1.2.3".to_string() })
    );
}

#[test]
fn events_that_answer_no_request_change_nothing() {
    let probe = Probe::new("/dev/cu.usbmodem1", "m ver", 1000);
    let (result, requests) = run_probe(
        probe,
        vec![
            received(b"1.2.3\n"),
            PortEvent::Wrote { count: 7 },
            PortEvent::Opened,
            received(b"1.2.3\n"),
            PortEvent::Opened,
            PortEvent::Wrote { count: 7 },
            PortEvent::Wrote { count: 7 },
            PortEvent::OpenFailed { message: "late".to_string() },
        ],
    );
    assert_eq!(result, None);
    let open = PortRequest::Open {
        port_name: "/dev/cu.usbmodem1".to_string(),
        baud_rate: 115200,
        timeout_ms: 1000,
    };
    let write = PortRequest::Write { bytes: b"m ver\r\n".to_vec() };
    assert_eq!(
        requests,
        vec![
            open,
            PortRequest::Open {
                port_name: "/dev/cu.usbmodem1".to_string(),
                baud_rate: 115200,
                timeout_ms: 1000,
            },
            PortRequest::Open {
                port_name: "/dev/cu.usbmodem1".to_string(),
                baud_rate: 115200,
                timeout_ms: 1000,
            },
            write,
            PortRequest::Write { bytes: b"m ver\r\n".to_vec() },
            PortRequest::Write { bytes: b"m ver\r\n".to_vec() },
            PortRequest::Read,
            PortRequest::Read,
            PortRequest::Read,
        ]
    );
}

#[test]
fn first_line_feed_is_found() {
    assert_eq!(find_line_feed(&b"".to_vec()), None);
    assert_eq!(find_line_feed(&b"abc\r".to_vec()), None);
    assert_eq!(find_line_feed(&b"\n".to_vec()), Some(0));
    assert_eq!(find_line_feed(&b"ab\ncd\n".to_vec()), Some(2));
}

#[test]
fn decoded_reply_loses_terminator_and_white_space() {
    assert_eq!(decode_reply(b"OK 1.2.3\r\n".to_vec()), Ok("OK 1.2.3".to_string()));
    assert_eq!(decode_reply(b"\t 1.2.3 \n".to_vec()), Ok("1.2.3".to_string()));
    assert_eq!(decode_reply(b"1 2  3".to_vec()), Ok("1 2  3".to_string()));
    assert_eq!(decode_reply(b"\n".to_vec()), Ok(String::new()));
    assert_eq!(decode_reply(b" \r\n".to_vec()), Ok(String::new()));
    assert_eq!(decode_reply(b"ab\n\n".to_vec()), Ok("ab".to_string()));
}

#[test]
fn decoded_reply_loses_unicode_white_space() {
    let line = "\u{a0}\u{2003}v\u{e9}rsion 2\u{3000}\u{85}\n".as_bytes().to_vec();
    assert_eq!(decode_reply(line), Ok("v\u{e9}rsion 2".to_string()));
    let kept = "\u{200b}x\u{200b}\n".as_bytes().to_vec();
    assert_eq!(decode_reply(kept), Ok("\u{200b}x\u{200b}".to_string()));
}

#[test]
fn decoded_reply_of_nothing_is_no_device() {
    assert_eq!(decode_reply(Vec::new()), Err(ProbeError::NoDevice));
}

#[test]
fn decoded_reply_of_malformed_bytes_is_decode_error() {
    assert_eq!(decode_reply(vec![0xff, b'\n']), Err(ProbeError::Decode));
    assert_eq!(decode_reply(vec![b'O', b'K', 0xc3, b'\n']), Err(ProbeError::Decode));
    assert_eq!(decode_reply(vec![0xed, 0xa0, 0x80]), Err(ProbeError::Decode));
    assert_eq!(decode_reply(vec![0xc0, 0x80, b'\n']), Err(ProbeError::Decode));
}

#[test]
fn reply_is_positive_without_the_word_error() {
    assert!(is_positive_reply("OK 1.2.3"));
    assert!(is_positive_reply(""));
    assert!(is_positive_reply("error"));
    assert!(is_positive_reply("ERROR"));
    assert!(is_positive_reply("Erro r"));
    assert!(is_positive_reply("failure: unknown command"));
    assert!(!is_positive_reply("Error"));
    assert!(!is_positive_reply("Error: unknown command"));
    assert!(!is_positive_reply("Fatal Error 7"));
    assert!(!is_positive_reply("noErrors"));
}

#[test]
fn judged_reply_is_match_or_no_match() {
    assert_eq!(
        judge(Ok("2.10.4".to_string())),
        ProbeOutcome::Matched { reply: "2.10.4".to_string() }
    );
    assert_eq!(
        judge(Ok("Error 42".to_string())),
        ProbeOutcome::NoMatch { reply: "Error 42".to_string() }
    );
    assert_eq!(judge(Err(ProbeError::Timeout)), ProbeOutcome::Failed { error: ProbeError::Timeout });
}

#[test]
fn errors_describe_themselves() {
    assert_eq!(
        ProbeError::Open { message: "Device or resource busy".to_string() }.describe(),
        "Device or resource busy"
    );
    assert_eq!(ProbeError::NoDevice.describe(), "Connection closed or device sent no data.");
    assert_eq!(ProbeError::Timeout.describe(), "Read operation timed out.");
    assert_eq!(
        ProbeError::Io { kind: IoErrorKind::Other, message: "Input/output error".to_string() }
            .describe(),
        "Input/output error"
    );
    assert_eq!(ProbeError::Decode.describe(), "Response data was not valid UTF-8.");
}

#[test]
fn response_text_is_reply_or_error_behind_the_word_error() {
    assert_eq!(ProbeOutcome::Matched { reply: "1.2.3".to_string() }.response(), "1.2.3");
    assert_eq!(ProbeOutcome::NoMatch { reply: "Error 1".to_string() }.response(), "Error 1");
    assert_eq!(
        ProbeOutcome::Failed { error: ProbeError::NoDevice }.response(),
        "Error: Connection closed or device sent no data."
    );
    assert_eq!(
        ProbeOutcome::Failed { error: ProbeError::Timeout }.response(),
        "Error: Read operation timed out."
    );
}

#[test]
fn response_text_of_failure_is_never_positive() {
    let failures = vec![
        ProbeError::Open { message: "busy".to_string() },
        ProbeError::NoDevice,
        ProbeError::Timeout,
        ProbeError::Io { kind: IoErrorKind::Other, message: String::new() },
        ProbeError::Decode,
    ];
    for error in failures {
        let text = ProbeOutcome::Failed { error }.response();
        assert!(!is_positive_reply(&text));
    }
}
