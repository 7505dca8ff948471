//! What the server's decisions add up to over whole connections, stated
//! against a clipboard that keeps what it is given and always answers.
use crate::frame::{
    frame_of, lemma_encode_then_decode, write_selection_of_byte,
    DecodeError, RequestModel, Slot, WriteSelection, WRITE_BYTE,
};
use crate::session::{advance, start, targets, Outcome, Phase, RequestError, Step};
use vstd::prelude::*;
use vstd::utf8::{encode_utf8, valid_utf8};

verus! {

/// Texts of the three slots of a clipboard that never fails.
pub ghost struct Shelf {
    pub primary: Seq<char>,
    pub clipboard: Seq<char>,
    pub secondary: Seq<char>,
}

impl Shelf {
    pub open spec fn get(self, s: Slot) -> Seq<char> {
        match s {
            Slot::Primary => self.primary,
            Slot::Clipboard => self.clipboard,
            Slot::Secondary => self.secondary,
        }
    }

    pub open spec fn set(self, s: Slot, t: Seq<char>) -> Shelf {
        match s {
            Slot::Primary => Shelf { primary: t, ..self },
            Slot::Clipboard => Shelf { clipboard: t, ..self },
            Slot::Secondary => Shelf { secondary: t, ..self },
        }
    }
}

/// Such a clipboard's answer to an action, and its contents after it.
pub open spec fn answer(c: Shelf, a: Step) -> (Shelf, Outcome) {
    match a {
        Step::Fetch(s) => (c, Outcome::Fetched(c.get(s))),
        Step::Store(s, t) => (c.set(s, t), Outcome::Stored),
        _ => (c, Outcome::Stored),
    }
}

/// One exchange with the clipboard, unless the connection is closed.
pub open spec fn turn(c: Shelf, p: Phase, a: Step) -> (Shelf, Phase, Step) {
    if p is Closed {
        (c, p, a)
    } else {
        let (c2, o) = answer(c, a);
        let (p2, a2) = advance(p, o);
        (c2, p2, a2)
    }
}

/// A whole connection served against the clipboard: its contents afterwards
/// and the final action. No request takes more than three exchanges.
pub open spec fn served(c: Shelf, b: Seq<u8>) -> (Shelf, Step) {
    let (p0, a0) = start(b);
    let (c1, p1, a1) = turn(c, p0, a0);
    let (c2, p2, a2) = turn(c1, p1, a1);
    let (c3, p3, a3) = turn(c2, p2, a2);
    (c3, a3)
}

/// A write to every slot stores the text into the primary slot, then the
/// clipboard, then the secondary slot, and then ends with an empty reply.
pub proof fn lemma_write_all_order(t: Seq<char>)
    ensures
        ({
            let (p0, a0) = start(frame_of(RequestModel::Write(WriteSelection::All, t)));
            let (p1, a1) = advance(p0, Outcome::Stored);
            let (p2, a2) = advance(p1, Outcome::Stored);
            let (p3, a3) = advance(p2, Outcome::Stored);
            &&& a0 == Step::Store(Slot::Primary, t)
            &&& a1 == Step::Store(Slot::Clipboard, t)
            &&& a2 == Step::Store(Slot::Secondary, t)
            &&& a3 == Step::Reply(Seq::empty())
            &&& p3 is Closed
        }),
{
    lemma_encode_then_decode(RequestModel::Write(WriteSelection::All, t));
}

/// A failed store ends the connection with the clipboard's error and no
/// further store; the slots stored before it are not restored.
pub proof fn lemma_store_failure_stops(w: WriteSelection, t: Seq<char>, k: nat, e: arboard::Error)
    requires
        k < targets(w).len(),
    ensures
        advance(Phase::Storing(w, t, k), Outcome::Failed(e)) == (
        Phase::Closed,
        Step::Fail(RequestError::Clipboard(e)),
        ),
{
}

/// A write whose payload is not UTF-8 is refused before any clipboard call.
pub proof fn lemma_invalid_text_touches_nothing(b: Seq<u8>)
    requires
        b.len() >= 2,
        b[0] == WRITE_BYTE,
        write_selection_of_byte(b[1]) is Some,
        !valid_utf8(b.subrange(2, b.len() as int)),
    ensures
        start(b) == (Phase::Closed, Step::Fail(RequestError::Protocol(DecodeError::InvalidText))),
        forall|c: Shelf| #[trigger] served(c, b) == (c, Step::Fail(RequestError::Protocol(DecodeError::InvalidText))),
{
}

/// A read of a slot replies with exactly the slot's text as UTF-8: an empty
/// slot gives an empty reply, not an error.
pub proof fn lemma_read_replies_text(s: Slot, t: Seq<char>)
    ensures
        advance(Phase::Fetching(s), Outcome::Fetched(t)) == (Phase::Closed, Step::Reply(encode_utf8(t))),
        t.len() == 0 ==> advance(Phase::Fetching(s), Outcome::Fetched(t)) == (
        Phase::Closed,
        Step::Reply(Seq::<u8>::empty()),
        ),
{
}

/// A write followed, on a later connection, by a read of any slot it
/// selected returns the written text; the write itself replies with nothing.
pub proof fn lemma_write_then_read(c: Shelf, w: WriteSelection, t: Seq<char>, s: Slot)
    requires
        targets(w).contains(s),
    ensures
        ({
            let (c1, r1) = served(c, frame_of(RequestModel::Write(w, t)));
            let (c2, r2) = served(c1, frame_of(RequestModel::Read(s)));
            &&& r1 == Step::Reply(Seq::<u8>::empty())
            &&& c1.get(s) == t
            &&& r2 == Step::Reply(encode_utf8(t))
            &&& c2 == c1
        }),
{
    lemma_encode_then_decode(RequestModel::Write(w, t));
    lemma_encode_then_decode(RequestModel::Read(s));
}

} // verus!
