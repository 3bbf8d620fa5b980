use echo_core::connection::Connection;
use echo_core::connection::run_script;
use echo_core::events::Action;
use echo_core::events::CHUNK_SIZE;
use echo_core::events::ConnState;
use echo_core::events::Event;
use echo_core::events::ReadEvent;
use echo_core::events::TickOutcome;
use echo_core::accumulator::accum_step;

fn expect_write(a: Action) -> Vec<u8> {
    match a {
        Action::Write(buf) => buf,
        _ => panic!("expected a write action"),
    }
}

fn written(actions: Vec<Action>) -> Vec<Vec<u8>> {
    let mut out = Vec::new();
    for a in actions {
        if let Action::Write(buf) = a {
            out.push(buf);
        }
    }
    out
}

#[test]
fn hello_is_echoed_then_close_completes() {
    let mut conn = Connection::new();
    let payload = b"hello".to_vec();
    let echo = expect_write(conn.on_read(ReadEvent::Data(payload.clone())));
    assert_eq!(echo, payload);
    assert!(matches!(conn.on_write_result(true), Action::Read));
    assert!(matches!(conn.on_read(ReadEvent::WouldBlock), Action::Pending));
    assert_eq!(conn.state(), ConnState::Active);
    let a = conn.on_read(ReadEvent::Closed);
    assert!(matches!(a, Action::Complete));
    assert_eq!(conn.state(), ConnState::Done);
}

#[test]
fn burst_over_chunk_size_is_one_write() {
    let mut conn = Connection::new();
    let first = vec![b'x'; CHUNK_SIZE];
    let second = vec![b'y'; 10];
    assert!(matches!(conn.on_read(ReadEvent::Data(first.clone())), Action::Read));
    let echo = expect_write(conn.on_read(ReadEvent::Data(second.clone())));
    assert_eq!(echo.len(), CHUNK_SIZE + 10);
    let mut expected = first;
    expected.extend(second);
    assert_eq!(echo, expected);
}

#[test]
fn boundary_chunk_then_would_block_is_one_write() {
    let mut conn = Connection::new();
    let chunk = vec![b'a'; CHUNK_SIZE];
    assert!(matches!(conn.on_read(ReadEvent::Data(chunk.clone())), Action::Read));
    let echo = expect_write(conn.on_read(ReadEvent::WouldBlock));
    assert_eq!(echo, chunk);
}

#[test]
fn would_block_with_nothing_gathered_is_no_data() {
    let mut buf: Vec<u8> = Vec::new();
    let out = accum_step(&mut buf, ReadEvent::WouldBlock);
    assert!(matches!(out, Some(TickOutcome::NoDataAvailable)));
    assert!(buf.is_empty());
}

#[test]
fn would_block_on_fresh_connection_is_pending_not_complete() {
    let mut conn = Connection::new();
    let a = conn.on_read(ReadEvent::WouldBlock);
    assert!(matches!(a, Action::Pending));
    assert_eq!(conn.state(), ConnState::Active);
}

#[test]
fn closed_with_nothing_gathered_completes() {
    let mut buf: Vec<u8> = Vec::new();
    let out = accum_step(&mut buf, ReadEvent::Closed);
    assert!(matches!(out, Some(TickOutcome::Closed)));
    let mut conn = Connection::new();
    let a = conn.on_read(ReadEvent::Closed);
    assert!(matches!(a, Action::Complete));
    assert_eq!(conn.state(), ConnState::Done);
}

#[test]
fn close_after_data_echoes_first_then_completes() {
    let mut conn = Connection::new();
    let chunk = vec![b'z'; CHUNK_SIZE];
    assert!(matches!(conn.on_read(ReadEvent::Data(chunk.clone())), Action::Read));
    let echo = expect_write(conn.on_read(ReadEvent::Closed));
    assert_eq!(echo, chunk);
    assert_eq!(conn.state(), ConnState::Active);
    assert!(matches!(conn.on_write_result(true), Action::Read));
    assert!(matches!(conn.on_read(ReadEvent::Closed), Action::Complete));
    assert_eq!(conn.state(), ConnState::Done);
}

#[test]
fn io_error_with_nothing_gathered_completes() {
    let mut conn = Connection::new();
    let a = conn.on_read(ReadEvent::IoError);
    assert!(matches!(a, Action::Complete));
    assert_eq!(conn.state(), ConnState::Done);
}

#[test]
fn io_error_after_data_still_echoes() {
    let mut conn = Connection::new();
    let chunk = vec![b'q'; CHUNK_SIZE];
    assert!(matches!(conn.on_read(ReadEvent::Data(chunk.clone())), Action::Read));
    let echo = expect_write(conn.on_read(ReadEvent::IoError));
    assert_eq!(echo, chunk);
}

#[test]
fn short_read_ends_pass_immediately() {
    let mut buf: Vec<u8> = Vec::new();
    let out = accum_step(&mut buf, ReadEvent::Data(vec![1, 2, 3]));
    match out {
        Some(TickOutcome::Data(msg)) => assert_eq!(msg, vec![1, 2, 3]),
        _ => panic!("expected a data outcome"),
    }
    assert!(buf.is_empty());
}

#[test]
fn full_chunk_keeps_the_pass_going() {
    let mut buf: Vec<u8> = Vec::new();
    let out = accum_step(&mut buf, ReadEvent::Data(vec![5; CHUNK_SIZE]));
    assert!(out.is_none());
    assert_eq!(buf.len(), CHUNK_SIZE);
    let out = accum_step(&mut buf, ReadEvent::Data(vec![6; CHUNK_SIZE]));
    assert!(out.is_none());
    assert_eq!(buf.len(), 2 * CHUNK_SIZE);
}

#[test]
fn failed_write_is_fatal() {
    let mut conn = Connection::new();
    let _ = expect_write(conn.on_read(ReadEvent::Data(b"abc".to_vec())));
    let a = conn.on_write_result(false);
    assert!(matches!(a, Action::Fatal));
    assert_eq!(conn.state(), ConnState::Done);
}

#[test]
fn two_payloads_give_two_echoes_in_order() {
    let mut conn = Connection::new();
    let script = vec![
        Event::Read(ReadEvent::Data(b"first".to_vec())),
        Event::WriteOk,
        Event::Read(ReadEvent::Data(b"second".to_vec())),
        Event::WriteOk,
    ];
    let echoes = written(run_script(&mut conn, script));
    assert_eq!(echoes.len(), 2);
    assert_eq!(echoes[0], b"first".to_vec());
    assert_eq!(echoes[1], b"second".to_vec());
    assert_eq!(conn.state(), ConnState::Active);
}

#[test]
fn chunking_does_not_change_the_echoed_payload() {
    let payload: Vec<u8> = (0..2058u32).map(|i| (i % 251) as u8).collect();

    let mut one_burst = Connection::new();
    let script = vec![
        Event::Read(ReadEvent::Data(payload[..CHUNK_SIZE].to_vec())),
        Event::Read(ReadEvent::Data(payload[CHUNK_SIZE..2 * CHUNK_SIZE].to_vec())),
        Event::Read(ReadEvent::Data(payload[2 * CHUNK_SIZE..].to_vec())),
        Event::WriteOk,
        Event::Read(ReadEvent::WouldBlock),
    ];
    let echoes = written(run_script(&mut one_burst, script));
    let flat: Vec<u8> = echoes.into_iter().flatten().collect();
    assert_eq!(flat, payload);

    let mut two_ticks = Connection::new();
    let script = vec![
        Event::Read(ReadEvent::Data(payload[..CHUNK_SIZE].to_vec())),
        Event::Read(ReadEvent::Data(payload[CHUNK_SIZE..CHUNK_SIZE + 30].to_vec())),
        Event::WriteOk,
        Event::Read(ReadEvent::WouldBlock),
        Event::Read(ReadEvent::Data(payload[CHUNK_SIZE + 30..].to_vec())),
        Event::WriteOk,
        Event::Read(ReadEvent::Closed),
    ];
    let echoes = written(run_script(&mut two_ticks, script));
    let flat: Vec<u8> = echoes.into_iter().flatten().collect();
    assert_eq!(flat, payload);
    assert_eq!(two_ticks.state(), ConnState::Done);
}

#[test]
fn run_script_reports_pending_at_tick_end() {
    let mut conn = Connection::new();
    let script = vec![
        Event::Read(ReadEvent::Data(b"ping".to_vec())),
        Event::WriteOk,
        Event::Read(ReadEvent::WouldBlock),
    ];
    let actions = run_script(&mut conn, script);
    assert_eq!(actions.len(), 3);
    assert!(matches!(actions[0], Action::Write(_)));
    assert!(matches!(actions[1], Action::Read));
    assert!(matches!(actions[2], Action::Pending));
}
