use chat_relay::acceptor::Acceptor;
use chat_relay::line::{chat_line, joined_notice, left_notice, prompt};
use chat_relay::queue::taken;
use chat_relay::registry::{Delivery, Shared};
use chat_relay::relay::{perform, Outcome, Peer};
use chat_relay::session::{Action, Event, Phase, Session};
use tokio::sync::mpsc::error::SendError;
use tokio::sync::mpsc::unbounded_channel;
use tokio_util::bytes::BytesMut;
use tokio_util::codec::{Decoder, LinesCodec, LinesCodecError};

/// A client as the tests see it: its session and, once it has joined, its
/// end of the delivery queue.
struct Client {
    session: Session,
    peer: Option<Peer>,
}

impl Client {
    fn accepted(identity: u64) -> Client {
        let mut session = Session::new(identity);
        assert!(matches!(session.step(Event::Accepted), Action::Prompt(_)));
        Client { session, peer: None }
    }

    fn meet(&mut self, state: &mut Shared, event: Event) -> (Action, Vec<Delivery>) {
        let action = self.session.step(event);
        let Outcome { peer, report } = perform(state, self.session.identity(), &action);
        if peer.is_some() {
            self.peer = peer;
        }
        (action, report)
    }

    fn joined(state: &mut Shared, identity: u64, name: &str) -> Client {
        let mut client = Client::accepted(identity);
        client.meet(state, Event::Line(name.to_string()));
        client
    }

    fn say(&mut self, state: &mut Shared, body: &str) -> Vec<Delivery> {
        self.meet(state, Event::Line(body.to_string())).1
    }

    fn inbox(&mut self) -> Vec<String> {
        let mut lines = Vec::new();
        if let Some(peer) = self.peer.as_mut() {
            while let Ok(line) = peer.rx.try_recv() {
                lines.push(line);
            }
        }
        lines
    }
}

fn sorted_targets(report: &[Delivery]) -> Vec<u64> {
    let mut ids: Vec<u64> = report.iter().map(|d| d.to).collect();
    ids.sort();
    ids
}

#[test]
fn message_shapes_are_exact() {
    assert_eq!(prompt(), "Please enter your username:");
    assert_eq!(joined_notice("A"), "A has joined the chat");
    assert_eq!(left_notice("B"), "B has left the chat");
    assert_eq!(chat_line("A", "hi"), "A: hi");
    assert_eq!(chat_line("", ""), ": ");
    assert_eq!(chat_line(" A ", " hi there "), " A :  hi there ");
}

#[test]
fn three_sessions_join_and_one_speaks() {
    let mut state = Shared::new();
    let mut a = Client::joined(&mut state, 1, "A");
    let mut b = Client::joined(&mut state, 2, "B");
    let mut c = Client::joined(&mut state, 3, "C");
    assert_eq!(a.inbox(), vec!["B has joined the chat", "C has joined the chat"]);
    assert_eq!(b.inbox(), vec!["C has joined the chat"]);
    assert_eq!(c.inbox(), Vec::<String>::new());

    let report = a.say(&mut state, "hi");
    assert_eq!(sorted_targets(&report), vec![2, 3]);
    assert!(report.iter().all(|d| d.accepted));
    assert_eq!(b.inbox(), vec!["A: hi"]);
    assert_eq!(c.inbox(), vec!["A: hi"]);
    assert_eq!(a.inbox(), Vec::<String>::new());
}

#[test]
fn a_leaver_is_announced_once_and_never_targeted_again() {
    let mut state = Shared::new();
    let mut a = Client::joined(&mut state, 1, "A");
    let mut b = Client::joined(&mut state, 2, "B");
    a.inbox();

    let (action, report) = b.meet(&mut state, Event::Ended);
    assert!(matches!(action, Action::Leave(ref notice) if notice == "B has left the chat"));
    assert_eq!(sorted_targets(&report), vec![1]);
    assert_eq!(b.session.phase(), Phase::Draining);
    assert!(!state.contains(2));
    assert_eq!(a.inbox(), vec!["B has left the chat"]);

    let (action, report) = b.meet(&mut state, Event::Departed);
    assert!(matches!(action, Action::Close));
    assert!(report.is_empty());
    assert_eq!(b.session.phase(), Phase::Closed);
    assert!(!b.session.failed());

    let report = a.say(&mut state, "anyone?");
    assert!(report.is_empty());
    let report = state.broadcast(99, "to all");
    assert_eq!(sorted_targets(&report), vec![1]);
    assert_eq!(b.inbox(), Vec::<String>::new());
    assert_eq!(a.inbox(), vec!["to all"]);
}

#[test]
fn a_leaver_is_announced_even_if_it_never_spoke() {
    let mut state = Shared::new();
    let mut a = Client::joined(&mut state, 1, "A");
    let mut b = Client::joined(&mut state, 2, "B");
    let mut c = Client::joined(&mut state, 3, "C");
    a.inbox();
    b.inbox();
    c.meet(&mut state, Event::Ended);
    assert_eq!(a.inbox(), vec!["C has left the chat"]);
    assert_eq!(b.inbox(), vec!["C has left the chat"]);
    assert_eq!(c.inbox(), Vec::<String>::new());
    assert_eq!(state.len(), 2);
}

#[test]
fn a_garbled_record_is_dropped_and_the_session_goes_on() {
    let mut state = Shared::new();
    let mut a = Client::joined(&mut state, 1, "A");
    let mut b = Client::joined(&mut state, 2, "B");
    a.inbox();

    let (action, report) = b.meet(&mut state, Event::Garbled);
    assert!(matches!(action, Action::Report));
    assert!(report.is_empty());
    assert_eq!(b.session.phase(), Phase::Active);
    assert!(state.contains(2));
    assert_eq!(a.inbox(), Vec::<String>::new());

    b.say(&mut state, "still here");
    assert_eq!(a.inbox(), vec!["B: still here"]);
    a.say(&mut state, "good");
    assert_eq!(b.inbox(), vec!["A: good"]);
}

#[test]
fn lines_of_one_sender_arrive_in_the_order_sent() {
    let mut state = Shared::new();
    let mut a = Client::joined(&mut state, 1, "A");
    let mut b = Client::joined(&mut state, 2, "B");
    let mut c = Client::joined(&mut state, 3, "C");
    b.inbox();
    a.say(&mut state, "m1");
    c.say(&mut state, "between");
    a.say(&mut state, "m2");
    assert_eq!(b.inbox(), vec!["A: m1", "C: between", "A: m2"]);
    assert_eq!(c.inbox(), vec!["A: m1", "A: m2"]);
}

#[test]
fn a_session_without_a_name_leaves_no_trace() {
    let mut state = Shared::new();
    let mut a = Client::joined(&mut state, 1, "A");
    a.inbox();
    for event in [Event::Ended, Event::Garbled, Event::WriteFailed] {
        let failed = matches!(event, Event::WriteFailed);
        let mut ghost = Client::accepted(7);
        assert_eq!(ghost.session.phase(), Phase::Authenticating);
        let (action, report) = ghost.meet(&mut state, event);
        assert!(matches!(action, Action::Close));
        assert!(report.is_empty());
        assert!(ghost.peer.is_none());
        assert_eq!(ghost.session.phase(), Phase::Closed);
        assert_eq!(ghost.session.failed(), failed);
        assert!(!state.contains(7));
        assert_eq!(state.len(), 1);
    }
    assert_eq!(a.inbox(), Vec::<String>::new());

    let mut never_prompted = Session::new(8);
    assert!(matches!(never_prompted.step(Event::Ended), Action::Close));
    assert_eq!(never_prompted.phase(), Phase::Closed);
}

#[test]
fn a_queued_line_is_delivered_verbatim() {
    let mut state = Shared::new();
    let mut a = Client::joined(&mut state, 1, "A");
    let (action, report) = a.meet(&mut state, Event::Queued("B:  x  ".to_string()));
    assert!(matches!(action, Action::Deliver(ref line) if line == "B:  x  "));
    assert!(report.is_empty());
    assert_eq!(a.session.phase(), Phase::Active);
}

#[test]
fn a_failed_write_ends_the_session_with_a_leave_notice() {
    let mut state = Shared::new();
    let mut a = Client::joined(&mut state, 1, "A");
    let mut b = Client::joined(&mut state, 2, "B");
    a.inbox();
    let (action, report) = b.meet(&mut state, Event::WriteFailed);
    assert!(matches!(action, Action::Leave(ref notice) if notice == "B has left the chat"));
    assert_eq!(sorted_targets(&report), vec![1]);
    assert!(b.session.failed());
    assert_eq!(b.session.phase(), Phase::Draining);
    assert!(!state.contains(2));
    assert_eq!(a.inbox(), vec!["B has left the chat"]);
}

#[test]
fn the_name_is_taken_as_it_comes() {
    let mut state = Shared::new();
    let mut a = Client::joined(&mut state, 1, "A");
    let mut b = Client::accepted(2);
    let (action, _) = b.meet(&mut state, Event::Line("  Bob the 2nd ".to_string()));
    assert!(matches!(action, Action::Join(ref n) if n == "  Bob the 2nd  has joined the chat"));
    assert_eq!(b.session.name(), "  Bob the 2nd ");
    b.say(&mut state, "x");
    assert_eq!(a.inbox(), vec!["  Bob the 2nd  has joined the chat", "  Bob the 2nd : x"]);
}

#[test]
fn events_out_of_place_change_nothing() {
    let mut state = Shared::new();
    let mut fresh = Session::new(5);
    assert!(matches!(fresh.step(Event::Line("x".to_string())), Action::Wait));
    assert!(matches!(fresh.step(Event::Queued("x".to_string())), Action::Wait));
    assert!(matches!(fresh.step(Event::Departed), Action::Wait));
    assert_eq!(fresh.phase(), Phase::Connecting);

    let mut a = Client::joined(&mut state, 1, "A");
    let (action, report) = a.meet(&mut state, Event::Accepted);
    assert!(matches!(action, Action::Wait));
    assert!(report.is_empty());
    let (action, _) = a.meet(&mut state, Event::Departed);
    assert!(matches!(action, Action::Wait));
    assert_eq!(a.session.phase(), Phase::Active);

    a.meet(&mut state, Event::Ended);
    let (action, report) = a.meet(&mut state, Event::Line("late".to_string()));
    assert!(matches!(action, Action::Wait));
    assert!(report.is_empty());
    a.meet(&mut state, Event::Departed);
    let (action, _) = a.meet(&mut state, Event::Line("later".to_string()));
    assert!(matches!(action, Action::Close));
    assert_eq!(a.session.phase(), Phase::Closed);
}

#[test]
fn a_closed_queue_is_passed_over() {
    let mut state = Shared::new();
    let (gone_tx, gone_rx) = unbounded_channel::<String>();
    let (live_tx, mut live_rx) = unbounded_channel::<String>();
    state.register(1, gone_tx);
    state.register(2, live_tx);
    drop(gone_rx);
    let mut report = state.broadcast(3, "hello");
    report.sort_by_key(|d| d.to);
    assert_eq!(
        report,
        vec![Delivery { to: 1, accepted: false }, Delivery { to: 2, accepted: true }]
    );
    assert_eq!(live_rx.try_recv().ok(), Some("hello".to_string()));
    assert!(live_rx.try_recv().is_err());
}

#[test]
fn registry_register_remove_and_count() {
    let mut state = Shared::new();
    assert_eq!(state.len(), 0);
    assert!(state.broadcast(1, "x").is_empty());
    let (tx1, mut rx1) = unbounded_channel::<String>();
    let (tx2, mut rx2) = unbounded_channel::<String>();
    state.register(1, tx1);
    state.register(1, tx2);
    assert_eq!(state.len(), 1);
    assert!(state.contains(1));
    assert!(state.broadcast(1, "self").is_empty());
    assert_eq!(sorted_targets(&state.broadcast(2, "to one")), vec![1]);
    assert!(rx1.try_recv().is_err());
    assert_eq!(rx2.try_recv().ok(), Some("to one".to_string()));
    state.remove(1);
    state.remove(1);
    state.remove(9);
    assert_eq!(state.len(), 0);
    assert!(!state.contains(1));
}

#[test]
fn a_new_peer_is_registered_with_a_working_queue() {
    let mut state = Shared::new();
    let mut peer = Peer::new(&mut state, 4);
    assert!(state.contains(4));
    assert_eq!(state.len(), 1);
    let report = state.broadcast(5, "ping");
    assert_eq!(report, vec![Delivery { to: 4, accepted: true }]);
    assert_eq!(peer.rx.try_recv().ok(), Some("ping".to_string()));
}

#[test]
fn identities_are_handed_out_once() {
    let mut acceptor = Acceptor::new();
    let first = acceptor.issue();
    let second = acceptor.issue();
    let third = acceptor.issue();
    assert_eq!(first, Some(0));
    assert_eq!(second, Some(1));
    assert_eq!(third, Some(2));
}

#[test]
fn what_a_stream_yields_becomes_an_event() {
    assert!(matches!(Event::from_stream(None), Event::Ended));
    assert!(matches!(
        Event::from_stream(Some(Ok("hello".to_string()))),
        Event::Line(ref line) if line == "hello"
    ));
    assert!(matches!(
        Event::from_stream(Some(Err(LinesCodecError::MaxLineLengthExceeded))),
        Event::Garbled
    ));
}

#[test]
fn bytes_that_are_not_text_cost_one_record_only() {
    let mut state = Shared::new();
    let mut a = Client::joined(&mut state, 1, "A");
    let mut b = Client::joined(&mut state, 2, "B");
    a.inbox();

    let mut codec = LinesCodec::new();
    let mut wire = BytesMut::from(&b"before\nbro\xff\xfeken\nafter\n"[..]);
    let mut actions = Vec::new();
    loop {
        let item = match codec.decode(&mut wire) {
            Ok(Some(line)) => Some(Ok(line)),
            Ok(None) => break,
            Err(e) => Some(Err(e)),
        };
        actions.push(b.meet(&mut state, Event::from_stream(item)).0);
    }
    assert_eq!(actions.len(), 3);
    assert!(matches!(actions[0], Action::Relay(ref line) if line == "B: before"));
    assert!(matches!(actions[1], Action::Report));
    assert!(matches!(actions[2], Action::Relay(ref line) if line == "B: after"));
    assert_eq!(b.session.phase(), Phase::Active);
    assert!(state.contains(1) && state.contains(2));
    assert_eq!(a.inbox(), vec!["B: before", "B: after"]);
    assert_eq!(b.inbox(), Vec::<String>::new());
}

#[test]
fn a_send_is_taken_unless_the_line_comes_back() {
    assert!(taken(&Ok(())));
    assert!(!taken(&Err(SendError("back".to_string()))));
    let (tx, rx) = unbounded_channel::<String>();
    assert!(taken(&tx.send("in".to_string())));
    drop(rx);
    assert!(!taken(&tx.send("out".to_string())));
}
