use wardenclyffe::bridge::{Action, Bridge, CloseCode, Ending, Event, Frame, Phase};
use wardenclyffe::endpoint::{ReadStatus, WardenclyffeRead, WardenclyffeReads, WardenclyffeSocket};
use wardenclyffe::http::{Request, Version};

fn read(data: &[u8], oob: u8) -> WardenclyffeRead {
    WardenclyffeRead { data: data.to_vec(), oob }
}

fn batch(count: isize, reads: Vec<WardenclyffeRead>) -> WardenclyffeReads {
    WardenclyffeReads::new(count, reads).expect("count and reads agree")
}

/// A bridge for `path` whose endpoint `socket` was created with the given
/// capabilities, together with every action asked for on the way.
fn running(path: &[u8], socket: usize, read: bool, write: bool) -> (Bridge, Vec<Action>) {
    let mut bridge = Bridge::new(path.to_vec());
    let mut actions = bridge.step(Event::Established);
    actions.extend(bridge.step(Event::Created(WardenclyffeSocket(socket))));
    actions.extend(bridge.step(Event::Capabilities { read, write }));
    (bridge, actions)
}

fn destroys(actions: &[Action]) -> usize {
    actions.iter().filter(|a| matches!(a, Action::Destroy(_))).count()
}

fn closes(actions: &[Action]) -> Vec<CloseCode> {
    let mut codes = Vec::new();
    for action in actions {
        if let Action::Send(Frame::Close(code)) = action {
            codes.push(*code);
        }
    }
    codes
}

/// Every event there is, to throw at a bridge that should not react.
fn storm() -> Vec<Event> {
    vec![
        Event::Established,
        Event::Created(WardenclyffeSocket(99)),
        Event::Capabilities { read: true, write: true },
        Event::Message(b"late".to_vec()),
        Event::WriteDone(false),
        Event::ReadDone(batch(0, vec![])),
        Event::ReadDone(batch(-1, vec![])),
        Event::ReadDone(batch(1, vec![read(b"x", 0)])),
        Event::SendDone(false),
        Event::SendDone(true),
        Event::ClientGone,
    ]
}

#[test]
fn fresh_bridge_is_idle() {
    let bridge = Bridge::new(b"/dev/ttyS0".to_vec());
    assert_eq!(bridge.phase(), Phase::Idle);
    assert_eq!(bridge.ending(), None);
    assert_eq!(bridge.path(), &b"/dev/ttyS0".to_vec());
    assert!(bridge.socket().is_null());
    assert!(!bridge.supports_read());
    assert!(!bridge.supports_write());
    assert_eq!(bridge.pending(), 0);
}

#[test]
fn bridge_is_keyed_by_the_request_path() {
    let req = Request {
        method: b"GET".to_vec(),
        version: Version::Http11,
        path: b"/dev/ttyUSB0".to_vec(),
        headers: vec![],
    };
    let mut bridge = Bridge::for_request(&req);
    assert_eq!(bridge.phase(), Phase::Idle);
    assert_eq!(bridge.path(), &b"/dev/ttyUSB0".to_vec());
    assert_eq!(bridge.step(Event::Established), vec![Action::Create(b"/dev/ttyUSB0".to_vec())]);
}

#[test]
fn establishment_asks_for_the_endpoint() {
    let mut bridge = Bridge::new(b"/uart".to_vec());
    let actions = bridge.step(Event::Established);
    assert_eq!(actions, vec![Action::Create(b"/uart".to_vec())]);
    assert_eq!(bridge.phase(), Phase::Creating);
}

#[test]
fn nothing_happens_before_establishment() {
    let mut bridge = Bridge::new(b"/uart".to_vec());
    for event in storm() {
        if event == Event::Established {
            continue;
        }
        assert_eq!(bridge.step(event), vec![]);
        assert_eq!(bridge.phase(), Phase::Idle);
    }
}

#[test]
fn path_with_zero_byte_ends_the_bridge() {
    let mut bridge = Bridge::new(b"/a\0b".to_vec());
    assert_eq!(bridge.step(Event::Established), vec![]);
    assert_eq!(bridge.phase(), Phase::Closed(Ending::InvalidPath));
    assert_eq!(bridge.ending(), Some(Ending::InvalidPath));
    for event in storm() {
        assert_eq!(bridge.step(event), vec![]);
    }
}

#[test]
fn creation_is_followed_by_the_capability_query() {
    let mut bridge = Bridge::new(b"/uart".to_vec());
    bridge.step(Event::Established);
    let actions = bridge.step(Event::Created(WardenclyffeSocket(0x1000)));
    assert_eq!(actions, vec![Action::Probe(WardenclyffeSocket(0x1000))]);
    assert_eq!(bridge.phase(), Phase::Probing);
    assert_eq!(bridge.socket(), WardenclyffeSocket(0x1000));
}

#[test]
fn null_endpoint_means_no_read_and_no_write_ever() {
    let mut bridge = Bridge::new(b"/uart".to_vec());
    let mut all = bridge.step(Event::Established);
    all.extend(bridge.step(Event::Created(WardenclyffeSocket(0))));
    assert_eq!(bridge.phase(), Phase::Closed(Ending::CreateFailed));
    for event in storm() {
        all.extend(bridge.step(event));
        assert_eq!(bridge.phase(), Phase::Closed(Ending::CreateFailed));
    }
    assert_eq!(all, vec![Action::Create(b"/uart".to_vec())]);
    assert_eq!(destroys(&all), 0);
}

#[test]
fn readable_endpoint_is_read_at_once() {
    let (bridge, actions) = running(b"/uart", 7, true, false);
    assert_eq!(
        actions,
        vec![
            Action::Create(b"/uart".to_vec()),
            Action::Probe(WardenclyffeSocket(7)),
            Action::Read(WardenclyffeSocket(7)),
        ]
    );
    assert_eq!(bridge.phase(), Phase::Running);
    assert!(bridge.supports_read());
    assert!(!bridge.supports_write());
}

#[test]
fn unreadable_endpoint_is_never_read() {
    let (mut bridge, actions) = running(b"/uart", 7, false, true);
    assert_eq!(
        actions,
        vec![Action::Create(b"/uart".to_vec()), Action::Probe(WardenclyffeSocket(7))]
    );
    assert_eq!(bridge.step(Event::ReadDone(batch(0, vec![]))), vec![]);
    assert_eq!(bridge.step(Event::ReadDone(batch(1, vec![read(b"x", 0)]))), vec![]);
    assert_eq!(bridge.step(Event::SendDone(false)), vec![]);
    assert_eq!(bridge.phase(), Phase::Running);
}

#[test]
fn endpoint_without_capabilities_is_left_alone() {
    let (mut bridge, mut all) = running(b"/uart", 7, false, false);
    all.extend(bridge.step(Event::Message(b"one".to_vec())));
    all.extend(bridge.step(Event::ReadDone(batch(0, vec![]))));
    all.extend(bridge.step(Event::SendDone(false)));
    all.extend(bridge.step(Event::WriteDone(false)));
    all.extend(bridge.step(Event::Message(b"two".to_vec())));
    assert_eq!(bridge.phase(), Phase::Running);
    assert_eq!(
        all,
        vec![Action::Create(b"/uart".to_vec()), Action::Probe(WardenclyffeSocket(7))]
    );
    assert_eq!(bridge.step(Event::ClientGone), vec![Action::Destroy(WardenclyffeSocket(7))]);
}

#[test]
fn message_is_written_with_one_call() {
    let (mut bridge, _) = running(b"/uart", 7, false, true);
    let actions = bridge.step(Event::Message(b"hello".to_vec()));
    assert_eq!(actions, vec![Action::Write(WardenclyffeSocket(7), b"hello".to_vec())]);
    assert_eq!(bridge.step(Event::WriteDone(true)), vec![]);
    assert_eq!(bridge.phase(), Phase::Running);
}

#[test]
fn message_without_write_support_is_dropped() {
    let (mut bridge, _) = running(b"/uart", 7, true, false);
    assert_eq!(bridge.step(Event::Message(b"hello".to_vec())), vec![]);
    assert_eq!(bridge.phase(), Phase::Running);
    assert_eq!(bridge.step(Event::WriteDone(false)), vec![]);
    assert_eq!(bridge.phase(), Phase::Running);
    assert_eq!(bridge.ending(), None);
}

#[test]
fn failed_write_ends_the_bridge() {
    let (mut bridge, _) = running(b"/uart", 7, true, true);
    bridge.step(Event::Message(b"hello".to_vec()));
    let actions = bridge.step(Event::WriteDone(false));
    assert_eq!(actions, vec![Action::Destroy(WardenclyffeSocket(7))]);
    assert_eq!(bridge.ending(), Some(Ending::WriteFailed));
}

#[test]
fn eof_sends_one_normal_close_and_destroys_once() {
    let (mut bridge, mut all) = running(b"/uart", 7, true, true);
    let actions = bridge.step(Event::ReadDone(batch(0, vec![])));
    assert_eq!(
        actions,
        vec![Action::Send(Frame::Close(CloseCode::Normal)), Action::Destroy(WardenclyffeSocket(7))]
    );
    assert_eq!(bridge.ending(), Some(Ending::Eof));
    all.extend(actions);
    for event in storm() {
        all.extend(bridge.step(event));
    }
    assert_eq!(closes(&all), vec![CloseCode::Normal]);
    assert_eq!(destroys(&all), 1);
}

#[test]
fn failed_read_sends_one_error_close_and_destroys_once() {
    let (mut bridge, mut all) = running(b"/uart", 7, true, true);
    let actions = bridge.step(Event::ReadDone(batch(-5, vec![])));
    assert_eq!(
        actions,
        vec![Action::Send(Frame::Close(CloseCode::Error)), Action::Destroy(WardenclyffeSocket(7))]
    );
    assert_eq!(bridge.ending(), Some(Ending::ReadFailed));
    all.extend(actions);
    for event in storm() {
        all.extend(bridge.step(event));
    }
    assert_eq!(closes(&all), vec![CloseCode::Error]);
    assert_eq!(destroys(&all), 1);
}

#[test]
fn batch_is_forwarded_read_by_read() {
    let (mut bridge, _) = running(b"/uart", 7, true, true);
    let reads = vec![read(b"ab", 0), read(b"cd", 1), read(b"", 0)];
    let first = bridge.step(Event::ReadDone(batch(3, reads)));
    assert_eq!(first, vec![Action::Send(Frame::Binary(b"ab".to_vec()))]);
    assert_eq!(bridge.pending(), 2);
    let second = bridge.step(Event::SendDone(true));
    assert_eq!(second, vec![Action::Send(Frame::Text(b"cd".to_vec()))]);
    let third = bridge.step(Event::SendDone(true));
    assert_eq!(third, vec![Action::Send(Frame::Binary(vec![]))]);
    assert_eq!(bridge.pending(), 0);
    let again = bridge.step(Event::SendDone(true));
    assert_eq!(again, vec![Action::Read(WardenclyffeSocket(7))]);
    assert_eq!(bridge.phase(), Phase::Running);
}

#[test]
fn any_nonzero_flag_means_text() {
    let (mut bridge, _) = running(b"/uart", 7, true, false);
    let actions = bridge.step(Event::ReadDone(batch(1, vec![read(b"log line", 255)])));
    assert_eq!(actions, vec![Action::Send(Frame::Text(b"log line".to_vec()))]);
}

#[test]
fn read_result_is_ignored_while_a_batch_is_sent() {
    let (mut bridge, _) = running(b"/uart", 7, true, false);
    bridge.step(Event::ReadDone(batch(2, vec![read(b"a", 0), read(b"b", 0)])));
    assert_eq!(bridge.step(Event::ReadDone(batch(0, vec![]))), vec![]);
    assert_eq!(bridge.phase(), Phase::Running);
    assert_eq!(bridge.pending(), 1);
}

#[test]
fn failed_send_ends_the_bridge_and_drops_the_batch() {
    let (mut bridge, mut all) = running(b"/uart", 7, true, true);
    all.extend(bridge.step(Event::ReadDone(batch(2, vec![read(b"a", 0), read(b"b", 0)]))));
    let actions = bridge.step(Event::SendDone(false));
    assert_eq!(actions, vec![Action::Destroy(WardenclyffeSocket(7))]);
    assert_eq!(bridge.ending(), Some(Ending::SendFailed));
    assert_eq!(bridge.pending(), 0);
    all.extend(actions);
    for event in storm() {
        all.extend(bridge.step(event));
    }
    assert_eq!(destroys(&all), 1);
    assert_eq!(closes(&all), vec![]);
}

#[test]
fn client_leaving_destroys_the_endpoint_once() {
    let (mut bridge, mut all) = running(b"/uart", 7, true, true);
    let actions = bridge.step(Event::ClientGone);
    assert_eq!(actions, vec![Action::Destroy(WardenclyffeSocket(7))]);
    assert_eq!(bridge.ending(), Some(Ending::ClientGone));
    all.extend(actions);
    all.extend(bridge.step(Event::ClientGone));
    for event in storm() {
        all.extend(bridge.step(event));
    }
    assert_eq!(destroys(&all), 1);
}

#[test]
fn two_bridges_keep_to_their_own_endpoints() {
    let (mut one, _) = running(b"/one", 1, true, true);
    let (mut two, _) = running(b"/two", 2, true, true);
    assert_eq!(one.step(Event::ClientGone), vec![Action::Destroy(WardenclyffeSocket(1))]);
    assert_eq!(two.phase(), Phase::Running);
    assert_eq!(
        two.step(Event::Message(b"still here".to_vec())),
        vec![Action::Write(WardenclyffeSocket(2), b"still here".to_vec())]
    );
    assert_eq!(
        two.step(Event::ReadDone(batch(1, vec![read(b"data", 0)]))),
        vec![Action::Send(Frame::Binary(b"data".to_vec()))]
    );
    assert_eq!(two.step(Event::SendDone(true)), vec![Action::Read(WardenclyffeSocket(2))]);
    assert_eq!(
        two.step(Event::ReadDone(batch(0, vec![]))),
        vec![Action::Send(Frame::Close(CloseCode::Normal)), Action::Destroy(WardenclyffeSocket(2))]
    );
}

#[test]
fn endpoint_is_created_and_queried_once() {
    let (mut bridge, mut all) = running(b"/uart", 7, true, true);
    for event in storm() {
        all.extend(bridge.step(event));
    }
    let creates: Vec<&Action> =
        all.iter().filter(|a| matches!(a, Action::Create(_))).collect();
    assert_eq!(creates, vec![&Action::Create(b"/uart".to_vec())]);
    let probes = all.iter().filter(|a| matches!(a, Action::Probe(_))).count();
    assert_eq!(probes, 1);
    assert_eq!(destroys(&all), 1);
}

#[test]
fn endings_with_and_without_an_endpoint() {
    assert!(!Ending::InvalidPath.had_endpoint());
    assert!(!Ending::CreateFailed.had_endpoint());
    for ending in [
        Ending::ClientGone,
        Ending::WriteFailed,
        Ending::ReadFailed,
        Ending::Eof,
        Ending::SendFailed,
    ] {
        assert!(ending.had_endpoint());
    }
}

#[test]
fn close_codes_and_reasons() {
    assert_eq!(CloseCode::Normal.code(), 1000);
    assert_eq!(CloseCode::Error.code(), 1011);
    assert_eq!(CloseCode::Normal.reason(), "EOF");
    assert_eq!(CloseCode::Error.reason(), "read failed");
}

#[test]
fn batch_needs_count_and_reads_to_agree() {
    assert!(WardenclyffeReads::new(2, vec![read(b"a", 0), read(b"b", 1)]).is_some());
    assert!(WardenclyffeReads::new(2, vec![read(b"a", 0)]).is_none());
    assert!(WardenclyffeReads::new(1, vec![]).is_none());
    assert!(WardenclyffeReads::new(0, vec![]).is_some());
    assert!(WardenclyffeReads::new(0, vec![read(b"a", 0)]).is_none());
    assert!(WardenclyffeReads::new(-1, vec![]).is_some());
    assert!(WardenclyffeReads::new(-1, vec![read(b"a", 0)]).is_none());
    let two = WardenclyffeReads::new(2, vec![read(b"a", 0), read(b"b", 1)]).unwrap();
    assert_eq!(two.read_count, 2);
    assert_eq!(two.reads, vec![read(b"a", 0), read(b"b", 1)]);
}

#[test]
fn batch_status_follows_the_sign_of_the_count() {
    assert_eq!(batch(-1, vec![]).status(), ReadStatus::Failed);
    assert_eq!(batch(isize::MIN, vec![]).status(), ReadStatus::Failed);
    assert_eq!(batch(0, vec![]).status(), ReadStatus::Eof);
    assert_eq!(batch(1, vec![read(b"", 0)]).status(), ReadStatus::Data);
}

#[test]
fn only_the_zero_address_is_null() {
    assert!(WardenclyffeSocket(0).is_null());
    assert!(!WardenclyffeSocket(1).is_null());
    assert!(!WardenclyffeSocket(usize::MAX).is_null());
}
