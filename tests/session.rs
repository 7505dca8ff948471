use clipmirror::frame::{encode_request, Request, Slot, WriteSelection};
use clipmirror::session::{Action, Event, RequestError, Session};
use clipmirror::frame::DecodeError;

fn index(s: Slot) -> usize {
    match s {
        Slot::Primary => 0,
        Slot::Clipboard => 1,
        Slot::Secondary => 2,
    }
}

/// Serves a frame against three in-memory slots; `fail_at` makes the store
/// with that index fail.
fn serve_on(slots: &mut [String; 3], frame: &[u8], fail_at: Option<usize>) -> (Result<Vec<u8>, RequestError>, usize) {
    let (mut session, mut action) = Session::open(frame);
    let mut calls = 0usize;
    loop {
        let event = match action {
            Action::Close(r) => {
                assert!(session.is_closed());
                return (r, calls);
            }
            Action::Fetch(s) => Event::Fetched(slots[index(s)].clone()),
            Action::Store(s, t) => {
                let n = calls;
                calls += 1;
                if fail_at == Some(n) {
                    Event::Failed(arboard::Error::ClipboardOccupied)
                } else {
                    slots[index(s)] = t;
                    Event::Stored
                }
            }
        };
        action = session.resume(event);
    }
}

fn blank() -> [String; 3] {
    [String::new(), String::new(), String::new()]
}

#[test]
fn write_all_reaches_every_slot() {
    let mut slots = blank();
    let (r, calls) = serve_on(&mut slots, &[1, 0, b'h', b'i'], None);
    assert_eq!(r.unwrap(), Vec::<u8>::new());
    assert_eq!(calls, 3);
    for sel in 1..=3u8 {
        let (r, _) = serve_on(&mut slots, &[0, sel], None);
        assert_eq!(r.unwrap(), b"hi".to_vec());
    }
}

#[test]
fn write_all_stores_in_fixed_order() {
    let (mut session, action) = Session::open(&[1, 0, b'x']);
    let mut order = Vec::new();
    let mut action = action;
    loop {
        match action {
            Action::Store(s, t) => {
                assert_eq!(t, "x");
                order.push(s);
                action = session.resume(Event::Stored);
            }
            Action::Close(r) => {
                assert_eq!(r.unwrap(), Vec::<u8>::new());
                break;
            }
            Action::Fetch(_) => panic!("a write fetches nothing"),
        }
    }
    assert_eq!(order, vec![Slot::Primary, Slot::Clipboard, Slot::Secondary]);
}

#[test]
fn empty_slot_reads_as_empty_reply() {
    let mut slots = blank();
    let (r, _) = serve_on(&mut slots, &[0, 2], None);
    assert_eq!(r.unwrap(), Vec::<u8>::new());
}

#[test]
fn invalid_text_leaves_clipboard_untouched() {
    let mut slots = [String::from("keep"), String::from("keep"), String::from("keep")];
    let (r, calls) = serve_on(&mut slots, &[1, 0, 0x80], None);
    assert!(matches!(r, Err(RequestError::Protocol(DecodeError::InvalidText))));
    assert_eq!(calls, 0);
    assert_eq!(slots, [String::from("keep"), String::from("keep"), String::from("keep")]);
}

#[test]
fn two_sequential_clients() {
    let mut slots = blank();
    let set = encode_request(&Request::Write(WriteSelection::Single(Slot::Clipboard), "a".to_string()));
    let (r, _) = serve_on(&mut slots, &set, None);
    assert_eq!(r.unwrap(), Vec::<u8>::new());
    let get = encode_request(&Request::Read(Slot::Clipboard));
    let (r, _) = serve_on(&mut slots, &get, None);
    assert_eq!(r.unwrap(), b"a".to_vec());
}

#[test]
fn failed_store_stops_without_rollback() {
    let mut slots = blank();
    let (r, calls) = serve_on(&mut slots, &[1, 0, b'n', b'e', b'w'], Some(1));
    assert!(matches!(r, Err(RequestError::Clipboard(arboard::Error::ClipboardOccupied))));
    assert_eq!(calls, 2);
    assert_eq!(slots, [String::from("new"), String::new(), String::new()]);
}

#[test]
fn failed_fetch_is_a_clipboard_error() {
    let (mut session, action) = Session::open(&[0, 1]);
    assert!(matches!(action, Action::Fetch(Slot::Primary)));
    let r = session.resume(Event::Failed(arboard::Error::ContentNotAvailable));
    assert!(matches!(r, Action::Close(Err(RequestError::Clipboard(arboard::Error::ContentNotAvailable)))));
    assert!(session.is_closed());
}

#[test]
fn malformed_frames_close_at_once() {
    for (frame, err) in [
        (vec![], DecodeError::EmptyFrame),
        (vec![5u8], DecodeError::EmptyFrame),
        (vec![2u8, 0], DecodeError::UnknownOperation(2)),
        (vec![1u8, 9, b'q'], DecodeError::UnknownSelection(9)),
        (vec![0u8, 0], DecodeError::UnknownSelection(0)),
    ] {
        let (session, action) = Session::open(&frame);
        assert!(session.is_closed());
        match action {
            Action::Close(Err(RequestError::Protocol(e))) => assert_eq!(e, err),
            other => panic!("unexpected {:?}", other),
        }
    }
}

#[test]
fn fetched_text_is_sent_as_utf8() {
    let (mut session, _) = Session::open(&[0, 3]);
    let r = session.resume(Event::Fetched("€".to_string()));
    match r {
        Action::Close(Ok(v)) => assert_eq!(v, vec![0xe2, 0x82, 0xac]),
        other => panic!("unexpected {:?}", other),
    }
}

#[test]
fn selection_slots() {
    assert_eq!(WriteSelection::All.slots(), vec![Slot::Primary, Slot::Clipboard, Slot::Secondary]);
    assert_eq!(WriteSelection::Single(Slot::Secondary).slots(), vec![Slot::Secondary]);
}
