use barmd::codec::{decode_request, CoordinateResponse};
use barmd::protocol::{next_action, Action, Event};

fn frame_bytes(x: f64, y: f64, z: f64) -> Vec<u8> {
    let mut v = Vec::new();
    v.extend_from_slice(&x.to_le_bytes());
    v.extend_from_slice(&y.to_le_bytes());
    v.extend_from_slice(&z.to_le_bytes());
    v
}

#[test]
fn opened_connection_reads() {
    assert!(matches!(next_action(&Event::Opened), Action::Read));
}

#[test]
fn full_frame_is_solved() {
    let bytes = frame_bytes(6.0, 0.0, 6.0);
    match next_action(&Event::Received(bytes.clone())) {
        Action::Solve(frame) => {
            assert_eq!(Some(frame), decode_request(&bytes));
            assert_eq!(frame.x, 6.0f64.to_bits());
            assert_eq!(frame.y, 0.0f64.to_bits());
            assert_eq!(frame.z, 6.0f64.to_bits());
        }
        other => panic!("unexpected action {other:?}"),
    }
}

#[test]
fn short_frame_keeps_reading() {
    assert!(matches!(next_action(&Event::Received(vec![0u8; 10])), Action::Read));
    assert!(matches!(next_action(&Event::Received(Vec::new())), Action::Read));
}

#[test]
fn solved_request_sends_angles() {
    let r = CoordinateResponse::from((90u8, 90u8, 0u16));
    match next_action(&Event::Solved(Some(r))) {
        Action::Send(bytes) => assert_eq!(bytes, [90, 90, 0, 0]),
        other => panic!("unexpected action {other:?}"),
    }
}

#[test]
fn unreachable_target_sends_sentinel_and_continues() {
    match next_action(&Event::Solved(None)) {
        Action::Send(bytes) => assert_eq!(bytes, [0, 0, 1, 0]),
        other => panic!("unexpected action {other:?}"),
    }
    assert!(matches!(next_action(&Event::Sent), Action::Read));
}

#[test]
fn stream_close_finishes_without_response() {
    assert!(matches!(next_action(&Event::ReadEnded), Action::Finish));
}

#[test]
fn write_failure_fails_connection() {
    assert!(matches!(next_action(&Event::SendFailed), Action::Fail));
}

#[test]
fn session_of_requests_then_close() {
    let mut sent: Vec<[u8; 4]> = Vec::new();
    let mut inputs = vec![
        Event::Received(frame_bytes(6.0, 0.0, 6.0)),
        Event::Received(frame_bytes(100.0, 0.0, 100.0)),
    ]
    .into_iter();
    let answers = [Some(CoordinateResponse::from((90u8, 90u8, 0u16))), None];
    let mut answer = answers.iter();
    let mut event = Event::Opened;
    let finished = loop {
        event = match next_action(&event) {
            Action::Read => inputs.next().unwrap_or(Event::ReadEnded),
            Action::Solve(_) => Event::Solved(*answer.next().unwrap()),
            Action::Send(b) => {
                sent.push(b);
                Event::Sent
            }
            Action::Finish => break true,
            Action::Fail => break false,
        };
    };
    assert!(finished);
    assert_eq!(sent, vec![[90, 90, 0, 0], [0, 0, 1, 0]]);
}
