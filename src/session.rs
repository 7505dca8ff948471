//! The decisions the server takes for one connection: from the request
//! buffer and the clipboard's answers to the next clipboard call, and in the
//! end to what is sent back.
use crate::frame::{
    decode_request, decoded, text_bytes, DecodeError, Request, RequestModel, Slot, WriteSelection,
};
use vstd::prelude::*;
use vstd::utf8::encode_utf8;

verus! {

broadcast use vstd::utf8::group_utf8_lib;

/// Why a request was not served.
#[derive(Debug)]
pub enum RequestError {
    /// The request buffer is malformed.
    Protocol(DecodeError),
    /// The clipboard refused a call.
    Clipboard(arboard::Error),
}

/// What the connection's driver is asked to do next.
#[derive(Debug)]
pub enum Action {
    /// Fetch the text held by a slot.
    Fetch(Slot),
    /// Store the text in a slot.
    Store(Slot, String),
    /// Send the bytes back and close the connection, or report the failure
    /// and close it.
    Close(Result<Vec<u8>, RequestError>),
}

/// The clipboard's answer to the last `Fetch` or `Store`.
#[derive(Debug)]
pub enum Event {
    Fetched(String),
    Stored,
    Failed(arboard::Error),
}

/// Where a connection stands.
#[derive(Debug)]
pub enum Session {
    /// Waiting for the text of the slot being read.
    Fetching(Slot),
    /// Waiting for the store into the slot at index `next` of the
    /// selection's slots.
    Storing { selection: WriteSelection, text: String, next: usize },
    /// Nothing more to do.
    Closed,
}

/// Abstract value of an action.
pub ghost enum Step {
    Fetch(Slot),
    Store(Slot, Seq<char>),
    Reply(Seq<u8>),
    Fail(RequestError),
}

/// Abstract value of an event.
pub ghost enum Outcome {
    Fetched(Seq<char>),
    Stored,
    Failed(arboard::Error),
}

/// Abstract value of a session.
pub ghost enum Phase {
    Fetching(Slot),
    Storing(WriteSelection, Seq<char>, nat),
    Closed,
}

impl View for Action {
    type V = Step;

    open spec fn view(&self) -> Step {
        match self {
            Action::Fetch(s) => Step::Fetch(*s),
            Action::Store(s, t) => Step::Store(*s, t@),
            Action::Close(Ok(v)) => Step::Reply(v@),
            Action::Close(Err(e)) => Step::Fail(*e),
        }
    }
}

impl View for Event {
    type V = Outcome;

    open spec fn view(&self) -> Outcome {
        match self {
            Event::Fetched(t) => Outcome::Fetched(t@),
            Event::Stored => Outcome::Stored,
            Event::Failed(e) => Outcome::Failed(*e),
        }
    }
}

impl View for Session {
    type V = Phase;

    open spec fn view(&self) -> Phase {
        match self {
            Session::Fetching(s) => Phase::Fetching(*s),
            Session::Storing { selection, text, next } => Phase::Storing(
                *selection,
                text@,
                *next as nat,
            ),
            Session::Closed => Phase::Closed,
        }
    }
}

/// The slots a write goes to, in the order they are written.
pub open spec fn targets(w: WriteSelection) -> Seq<Slot> {
    match w {
        WriteSelection::All => seq![Slot::Primary, Slot::Clipboard, Slot::Secondary],
        WriteSelection::Single(s) => seq![s],
    }
}

/// A phase that waits for an answer: a store index names a slot.
pub open spec fn phase_wf(p: Phase) -> bool {
    match p {
        Phase::Storing(w, _, k) => k < targets(w).len(),
        _ => true,
    }
}

/// The answers that fit what a phase waits for.
pub open spec fn awaits(p: Phase, o: Outcome) -> bool {
    match p {
        Phase::Fetching(_) => !(o is Stored),
        Phase::Storing(w, _, k) => k < targets(w).len() && !(o is Fetched),
        Phase::Closed => false,
    }
}

/// First phase and action for a request buffer: a malformed buffer closes
/// the connection at once, a read fetches its slot, a write stores into the
/// first of its slots.
pub open spec fn start(b: Seq<u8>) -> (Phase, Step) {
    match decoded(b) {
        Err(e) => (Phase::Closed, Step::Fail(RequestError::Protocol(e))),
        Ok(RequestModel::Read(s)) => (Phase::Fetching(s), Step::Fetch(s)),
        Ok(RequestModel::Write(w, t)) => (Phase::Storing(w, t, 0), Step::Store(targets(w)[0], t)),
    }
}

/// Next phase and action after the clipboard's answer. Fetched text is sent
/// back as UTF-8; a store that succeeds moves on to the next slot, or ends
/// the write with an empty reply after the last one; a failure ends the
/// connection with no further call, and earlier stores stay as they are.
pub open spec fn advance(p: Phase, o: Outcome) -> (Phase, Step) {
    match p {
        Phase::Fetching(_) => match o {
            Outcome::Failed(x) => (Phase::Closed, Step::Fail(RequestError::Clipboard(x))),
            Outcome::Fetched(t) => (Phase::Closed, Step::Reply(encode_utf8(t))),
            Outcome::Stored => (Phase::Closed, Step::Reply(Seq::empty())),
        },
        Phase::Storing(w, t, k) => match o {
            Outcome::Failed(x) => (Phase::Closed, Step::Fail(RequestError::Clipboard(x))),
            _ => if k + 1 < targets(w).len() {
                (Phase::Storing(w, t, k + 1), Step::Store(targets(w)[(k + 1) as int], t))
            } else {
                (Phase::Closed, Step::Reply(Seq::empty()))
            },
        },
        Phase::Closed => (Phase::Closed, Step::Reply(Seq::empty())),
    }
}

impl WriteSelection {
    /// The slots the selection writes, in order.
    pub fn slots(self) -> (r: Vec<Slot>)
        ensures
            r@ == targets(self),
    {
        match self {
            WriteSelection::All => vec![Slot::Primary, Slot::Clipboard, Slot::Secondary],
            WriteSelection::Single(s) => vec![s],
        }
    }
}

impl Session {
    /// Starts a connection on its whole request buffer.
    pub fn open(frame: &[u8]) -> (r: (Session, Action))
        ensures
            (r.0@, r.1@) == start(frame@),
            phase_wf(r.0@),
    {
        match decode_request(frame) {
            Err(e) => (Session::Closed, Action::Close(Err(RequestError::Protocol(e)))),
            Ok(Request::Read(s)) => (Session::Fetching(s), Action::Fetch(s)),
            Ok(Request::Write(w, t)) => {
                let first = w.slots()[0];
                let store = Action::Store(first, t.clone());
                (Session::Storing { selection: w, text: t, next: 0 }, store)
            },
        }
    }

    /// True once the connection needs nothing more.
    pub fn is_closed(&self) -> (r: bool)
        ensures
            r == (self@ is Closed),
    {
        matches!(self, Session::Closed)
    }

    /// Takes the clipboard's answer to the last action and gives the next one.
    pub fn resume(&mut self, event: Event) -> (r: Action)
        requires
            awaits(old(self)@, event@),
        ensures
            (final(self)@, r@) == advance(old(self)@, event@),
            phase_wf(final(self)@),
    {
        let mut current = Session::Closed;
        std::mem::swap(self, &mut current);
        match current {
            Session::Fetching(_) => match event {
                Event::Failed(x) => Action::Close(Err(RequestError::Clipboard(x))),
                Event::Fetched(t) => Action::Close(Ok(text_bytes(t.as_str()))),
                Event::Stored => Action::Close(Ok(Vec::new())),
            },
            Session::Storing { selection, text, next } => match event {
                Event::Failed(x) => Action::Close(Err(RequestError::Clipboard(x))),
                _ => {
                    let slots = selection.slots();
                    if next + 1 < slots.len() {
                        let store = Action::Store(slots[next + 1], text.clone());
                        *self = Session::Storing { selection, text, next: next + 1 };
                        store
                    } else {
                        Action::Close(Ok(Vec::new()))
                    }
                },
            },
            Session::Closed => Action::Close(Ok(Vec::new())),
        }
    }
}

} // verus!
