use auto_conn::{Builder, Connection, Phase, Rewind, Step, UpgradeableConnection, Version, Versions};
use std::time::Duration;

#[derive(Clone, Debug, PartialEq)]
struct TestExecutor;

const PREFACE: &[u8] = b"PRI * HTTP/2.0\r\n\r\nSM\r\n\r\n";

fn drain_all(io: &mut Rewind, cap: usize) -> Vec<u8> {
    let mut out = Vec::new();
    while let Some(chunk) = io.read_buffered(cap) {
        out.extend_from_slice(&chunk);
    }
    out
}

fn feed(conn: &mut Connection, input: &[u8], chunk: usize) -> Step {
    let mut pos = 0;
    loop {
        let n = chunk.min(conn.read_capacity()).min(input.len() - pos);
        let step = conn.on_read(&input[pos..pos + n]);
        pos += n;
        match step {
            Step::Pending => continue,
            other => return other,
        }
    }
}

#[test]
fn configuration() {
    // One liner.
    Builder::new(TestExecutor)
        .http1()
        .keep_alive(true)
        .http2()
        .keep_alive_interval(None);

    // Using variable.
    let mut builder = Builder::new(TestExecutor);

    builder.http1().keep_alive(true);
    builder.http2().keep_alive_interval(None);

    assert_eq!(builder.http1.keep_alive, Some(true));
    assert_eq!(builder.http2.keep_alive_interval, Some(None));
}

#[test]
fn h2_preface_selects_modern_engine() {
    let mut input = PREFACE.to_vec();
    input.extend_from_slice(&[0, 0, 0, 4, 0, 0, 0, 0, 0]);
    let mut conn = Connection::new(Versions::all());
    assert_eq!(conn.state(), Phase::Detecting);
    assert_eq!(conn.read_capacity(), 24);
    match conn.on_read(&input[..24]) {
        Step::Serve { version, mut io } => {
            assert_eq!(version, Version::H2);
            assert_eq!(drain_all(&mut io, 1024), PREFACE.to_vec());
        }
        _ => panic!("expected an engine to be served"),
    }
    assert_eq!(conn.state(), Phase::Running(Version::H2));
}

#[test]
fn h2_preface_one_byte_at_a_time() {
    let mut conn = Connection::new(Versions::all());
    match feed(&mut conn, PREFACE, 1) {
        Step::Serve { version, mut io } => {
            assert_eq!(version, Version::H2);
            assert_eq!(drain_all(&mut io, 3), PREFACE[..14].to_vec());
        }
        _ => panic!("expected an engine to be served"),
    }
    assert_eq!(conn.state(), Phase::Running(Version::H2));
}

#[test]
fn h1_request_selects_legacy_engine() {
    let input = b"GET / HTTP/1.1\r\n\r\n";
    let mut conn = Connection::new(Versions::all());
    match conn.on_read(input) {
        Step::Serve { version, mut io } => {
            assert_eq!(version, Version::H1);
            assert_eq!(drain_all(&mut io, 4), input.to_vec());
        }
        _ => panic!("expected an engine to be served"),
    }
    assert_eq!(conn.state(), Phase::Running(Version::H1));
}

#[test]
fn divergence_keeps_bytes_read() {
    let input = b"PRI * XTTP/2.0\r\n";
    let mut conn = Connection::new(Versions::all());
    match feed(&mut conn, input, 2) {
        Step::Serve { version, mut io } => {
            assert_eq!(version, Version::H1);
            assert_eq!(drain_all(&mut io, 100), b"PRI * XT".to_vec());
        }
        _ => panic!("expected an engine to be served"),
    }
}

#[test]
fn short_close_is_h1() {
    let mut conn = Connection::new(Versions::all());
    assert!(matches!(conn.on_read(b"PRI * HT"), Step::Pending));
    assert_eq!(conn.read_capacity(), 16);
    match conn.on_read(b"") {
        Step::Serve { version, mut io } => {
            assert_eq!(version, Version::H1);
            assert_eq!(drain_all(&mut io, 5), b"PRI * HT".to_vec());
        }
        _ => panic!("expected an engine to be served"),
    }
}

#[test]
fn empty_connection_is_h1() {
    let mut conn = UpgradeableConnection::new(Versions::all());
    match conn.on_read(b"") {
        Step::Serve { version, mut io } => {
            assert_eq!(version, Version::H1);
            assert!(io.read_buffered(10).is_none());
        }
        _ => panic!("expected an engine to be served"),
    }
    assert_eq!(conn.state(), Phase::Running(Version::H1));
}

#[test]
fn unsupported_h1_fails() {
    let mut conn = Connection::new(Versions { http1: false, http2: true });
    match conn.on_read(b"GET / HTTP/1.1\r\n\r\n") {
        Step::Failed(err) => {
            assert_eq!(err.version, Version::H1);
            assert_eq!(err.message(), "HTTP/1 is not supported");
        }
        _ => panic!("expected the connection to fail"),
    }
    assert_eq!(conn.state(), Phase::Done);
    assert_eq!(conn.graceful_shutdown(), None);
}

#[test]
fn unsupported_h2_fails() {
    let mut conn = UpgradeableConnection::new(Versions { http1: true, http2: false });
    match conn.on_read(&PREFACE[..20]) {
        Step::Failed(err) => {
            assert_eq!(err.version, Version::H2);
            assert_eq!(err.message(), "HTTP/2 is not supported");
        }
        _ => panic!("expected the connection to fail"),
    }
    assert_eq!(conn.state(), Phase::Done);
}

#[test]
fn version_unsupported_names_generation() {
    assert_eq!(Version::H1.unsupported().message(), "HTTP/1 is not supported");
    assert_eq!(Version::H2.unsupported().message(), "HTTP/2 is not supported");
}

#[test]
fn graceful_shutdown_twice() {
    let mut conn = Connection::new(Versions::all());
    assert_eq!(conn.graceful_shutdown(), None);
    assert_eq!(conn.graceful_shutdown(), None);
    assert_eq!(conn.state(), Phase::Detecting);
    let _ = conn.on_read(PREFACE);
    assert_eq!(conn.graceful_shutdown(), Some(Version::H2));
    assert_eq!(conn.graceful_shutdown(), Some(Version::H2));
    assert_eq!(conn.state(), Phase::Running(Version::H2));
    conn.complete();
    assert_eq!(conn.graceful_shutdown(), None);
    assert_eq!(conn.state(), Phase::Done);
}

#[test]
fn upgradeable_graceful_shutdown_twice() {
    let mut conn = UpgradeableConnection::new(Versions::all());
    assert_eq!(conn.graceful_shutdown(), None);
    let _ = conn.on_read(b"GET /");
    assert_eq!(conn.graceful_shutdown(), Some(Version::H1));
    assert_eq!(conn.graceful_shutdown(), Some(Version::H1));
    assert_eq!(conn.state(), Phase::Running(Version::H1));
}

#[test]
fn rewind_replays_in_order() {
    let mut io = Rewind::new_buffered(b"hello world".to_vec());
    assert_eq!(io.read_buffered(4), Some(b"hell".to_vec()));
    assert_eq!(io.read_buffered(4), Some(b"o wo".to_vec()));
    assert_eq!(io.read_buffered(40), Some(b"rld".to_vec()));
    assert_eq!(io.read_buffered(40), None);
    assert_eq!(io.read_buffered(40), None);
}

#[test]
fn rewind_round_trip_across_hand_off() {
    // Sniffing takes the first read; the engine's reads see it again, then
    // the rest of the stream from the transport.
    let wire = b"GET /index.html HTTP/1.1\r\nHost: a\r\n\r\n";
    let mut conn = Connection::new(Versions::all());
    let first = 10;
    let mut io = match conn.on_read(&wire[..first]) {
        Step::Serve { io, .. } => io,
        _ => panic!("expected an engine to be served"),
    };
    let mut seen = Vec::new();
    let mut live = first;
    loop {
        match io.read_buffered(3) {
            Some(chunk) => seen.extend_from_slice(&chunk),
            None => {
                if live == wire.len() {
                    break;
                }
                let n = 7.min(wire.len() - live);
                seen.extend_from_slice(&wire[live..live + n]);
                live += n;
            }
        }
    }
    assert_eq!(seen, wire.to_vec());
}

#[test]
fn empty_rewind_goes_to_transport() {
    let mut io = Rewind::new();
    assert_eq!(io.read_buffered(8), None);
}

#[test]
fn http1_options_are_recorded() {
    let mut builder = Builder::new(TestExecutor);
    builder
        .http1()
        .half_close(true)
        .title_case_headers(true)
        .preserve_header_case(true)
        .header_read_timeout(Duration::from_secs(5))
        .writev(false)
        .max_buf_size(8192)
        .pipeline_flush(true);
    let h1 = &builder.http1;
    assert_eq!(h1.half_close, Some(true));
    assert_eq!(h1.keep_alive, None);
    assert_eq!(h1.title_case_headers, Some(true));
    assert_eq!(h1.preserve_header_case, Some(true));
    assert_eq!(h1.header_read_timeout, Some(Duration::from_secs(5)));
    assert_eq!(h1.writev, Some(false));
    assert_eq!(h1.max_buf_size, Some(8192));
    assert_eq!(h1.pipeline_flush, Some(true));
    assert_eq!(builder.http2.max_frame_size, None);
    assert_eq!(builder.executor, TestExecutor);
}

#[test]
fn http2_options_are_recorded() {
    let mut builder = Builder::new(TestExecutor);
    builder
        .http2()
        .max_frame_size(Some(32768))
        .max_frame_size(None)
        .max_concurrent_streams(None)
        .keep_alive_interval(Some(Duration::from_secs(10)))
        .keep_alive_timeout(Duration::from_secs(3))
        .max_send_buf_size(1 << 20)
        .enable_connect_protocol()
        .max_header_list_size(4096);
    let h2 = &builder.http2;
    assert_eq!(h2.max_frame_size, Some(32768));
    assert_eq!(h2.max_concurrent_streams, Some(None));
    assert_eq!(h2.keep_alive_interval, Some(Some(Duration::from_secs(10))));
    assert_eq!(h2.keep_alive_timeout, Some(Duration::from_secs(3)));
    assert_eq!(h2.max_send_buf_size, Some(1 << 20));
    assert!(h2.enable_connect_protocol);
    assert_eq!(h2.max_header_list_size, Some(4096));
    assert_eq!(builder.http1.keep_alive, None);
}

#[test]
fn adaptive_window_overrides_window_sizes() {
    let mut builder = Builder::new(TestExecutor);
    builder
        .http2()
        .initial_stream_window_size(Some(1000))
        .initial_connection_window_size(Some(2000));
    assert_eq!(builder.http2.initial_stream_window_size, Some(1000));
    assert_eq!(builder.http2.initial_connection_window_size, Some(2000));
    assert_eq!(builder.http2.adaptive_window, Some(false));
    builder.http2().adaptive_window(true);
    assert_eq!(builder.http2.adaptive_window, Some(true));
    assert_eq!(builder.http2.initial_stream_window_size, Some(65_535));
    assert_eq!(builder.http2.initial_connection_window_size, Some(65_535));
    builder.http2().initial_stream_window_size(None);
    assert_eq!(builder.http2.adaptive_window, Some(true));
    builder.http2().initial_stream_window_size(Some(500));
    assert_eq!(builder.http2.adaptive_window, Some(false));
    assert_eq!(builder.http2.initial_stream_window_size, Some(500));
    assert_eq!(builder.http2.initial_connection_window_size, Some(65_535));
}

#[test]
fn adaptive_window_off_again_keeps_spec_windows() {
    let mut builder = Builder::new(TestExecutor);
    builder.http2().adaptive_window(true).adaptive_window(false);
    assert_eq!(builder.http2.adaptive_window, Some(false));
    assert_eq!(builder.http2.initial_stream_window_size, Some(65_535));
    assert_eq!(builder.http2.initial_connection_window_size, Some(65_535));
}

#[test]
fn switching_scopes_keeps_both() {
    let mut builder = Builder::new(TestExecutor);
    builder.http2().max_header_list_size(1).http1().keep_alive(false);
    assert_eq!(builder.http2.max_header_list_size, Some(1));
    assert_eq!(builder.http1.keep_alive, Some(false));
}

/// Feeds `wire` to a detector in reads of the given sizes, then reads what the
/// engine would see: the replay first, then the rest of `wire` from the
/// transport. Returns the generation and the bytes seen.
fn sniff_and_replay(
    mut on_read: impl FnMut(&[u8]) -> Step,
    wire: &[u8],
    sizes: &[usize],
) -> (Version, Vec<u8>) {
    let mut pos = 0;
    let mut sizes = sizes.iter().cycle();
    let (version, mut io) = loop {
        let n = (*sizes.next().unwrap()).min(wire.len() - pos);
        let step = on_read(&wire[pos..pos + n]);
        pos += n;
        match step {
            Step::Pending => continue,
            Step::Serve { version, io } => break (version, io),
            Step::Failed(_) => panic!("expected an engine to be served"),
        }
    };
    let mut seen = Vec::new();
    while let Some(chunk) = io.read_buffered(5) {
        seen.extend_from_slice(&chunk);
    }
    seen.extend_from_slice(&wire[pos..]);
    (version, seen)
}

fn preface_and_frames() -> Vec<u8> {
    let mut wire = PREFACE.to_vec();
    // An empty SETTINGS frame, then a PING.
    wire.extend_from_slice(&[0, 0, 0, 4, 0, 0, 0, 0, 0]);
    wire.extend_from_slice(&[0, 0, 8, 6, 0, 0, 0, 0, 0, 1, 2, 3, 4, 5, 6, 7, 8]);
    wire
}

#[test]
fn h2_preface_and_frames_over_several_reads() {
    let wire = preface_and_frames();
    for sizes in [&[1usize][..], &[3, 7], &[13, 2], &[24]] {
        let mut conn = Connection::new(Versions::all());
        let (version, seen) = sniff_and_replay(|d| conn.on_read(d), &wire, sizes);
        assert_eq!(version, Version::H2);
        assert_eq!(seen, wire);
        assert_eq!(conn.state(), Phase::Running(Version::H2));
    }
}

#[test]
fn upgradeable_h2_preface_and_frames_over_several_reads() {
    let wire = preface_and_frames();
    for sizes in [&[1usize][..], &[5, 1], &[14], &[20]] {
        let mut conn = UpgradeableConnection::new(Versions::all());
        let (version, seen) = sniff_and_replay(|d| conn.on_read(d), &wire, sizes);
        assert_eq!(version, Version::H2);
        assert_eq!(seen, wire);
        assert_eq!(conn.state(), Phase::Running(Version::H2));
    }
}

#[test]
fn h1_request_over_several_reads() {
    let wire = b"GET / HTTP/1.1\r\nHost: example\r\n\r\n".to_vec();
    for sizes in [&[1usize][..], &[4, 9], &[24]] {
        let mut conn = UpgradeableConnection::new(Versions::all());
        let (version, seen) = sniff_and_replay(|d| conn.on_read(d), &wire, sizes);
        assert_eq!(version, Version::H1);
        assert_eq!(seen, wire);
        assert_eq!(conn.state(), Phase::Running(Version::H1));
    }
}
