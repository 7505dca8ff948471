//! The host clipboard, reached through arboard, and the server's handling of
//! one request against it.
use arboard::{GetExtLinux, SetExtLinux};
use crate::frame::{decoded, RequestModel, Slot};
use crate::session::{Action, Event, Phase, RequestError, Session, Step};
use vstd::prelude::*;
use vstd::utf8::valid_utf8;

verus! {

broadcast use vstd::utf8::group_utf8_lib;

/// arboard's clipboard handle: opaque here, carried through to the wrappers.
#[verifier::external_type_specification]
#[verifier::external_body]
pub struct ExClipboard(arboard::Clipboard);

/// arboard's error type: opaque here, carried through to the caller.
#[verifier::external_type_specification]
#[verifier::external_body]
pub struct ExClipboardError(arboard::Error);

/// Relies on arboard's `Clipboard::get`, `GetExtLinux::clipboard` and
/// `Get::text`: reads the text of one slot. What comes back depends on the
/// desktop, so nothing is stated of it.
#[verifier::external_body]
fn fetch_text(clipboard: &mut arboard::Clipboard, slot: Slot) -> (r: Result<String, arboard::Error>) {
    let kind = match slot {
        Slot::Primary => arboard::LinuxClipboardKind::Primary,
        Slot::Clipboard => arboard::LinuxClipboardKind::Clipboard,
        Slot::Secondary => arboard::LinuxClipboardKind::Secondary,
    };
    clipboard.get().clipboard(kind).text()
}

/// Relies on arboard's `Clipboard::set`, `SetExtLinux::clipboard` and
/// `Set::text`: places text in one slot. Whether that succeeds depends on
/// the desktop, so nothing is stated of it.
#[verifier::external_body]
fn store_text(clipboard: &mut arboard::Clipboard, slot: Slot, text: &str) -> (r: Result<(), arboard::Error>) {
    let kind = match slot {
        Slot::Primary => arboard::LinuxClipboardKind::Primary,
        Slot::Clipboard => arboard::LinuxClipboardKind::Clipboard,
        Slot::Secondary => arboard::LinuxClipboardKind::Secondary,
    };
    clipboard.set().clipboard(kind).text(text)
}

/// An action that matches the phase it leaves the session in: a call
/// waits for its answer, and only a closed session has a final result.
pub open spec fn in_step(p: Phase, a: Step) -> bool {
    match p {
        Phase::Fetching(_) => a is Fetch,
        Phase::Storing(w, _, k) => a is Store && k < crate::session::targets(w).len(),
        Phase::Closed => a is Reply || a is Fail,
    }
}

/// How many clipboard answers a phase can still wait for.
pub open spec fn pending(p: Phase) -> nat {
    match p {
        Phase::Fetching(_) => 1,
        Phase::Storing(w, _, k) => (crate::session::targets(w).len() - k) as nat,
        Phase::Closed => 0,
    }
}

/// Serves one whole request buffer against the clipboard and gives the bytes
/// to send back, by running a `Session` to its end. A malformed buffer fails
/// with its decoding error; a well-formed one fails only through the
/// clipboard. A read replies with UTF-8 text, a write with nothing.
pub fn serve(clipboard: &mut arboard::Clipboard, frame: &[u8]) -> (r: Result<Vec<u8>, RequestError>)
    ensures
        decoded(frame@) matches Err(e) ==> r matches Err(RequestError::Protocol(x)) && x == e,
        decoded(frame@) is Ok ==> !(r matches Err(RequestError::Protocol(_))),
        decoded(frame@) matches Ok(RequestModel::Read(_)) ==> (r matches Ok(v) ==> valid_utf8(v@)),
        decoded(frame@) matches Ok(RequestModel::Write(_, _)) ==> (r matches Ok(v) ==> v@.len() == 0),
{
    let (mut session, mut action) = Session::open(frame);
    loop
        invariant
            in_step(session@, action@),
            decoded(frame@) matches Err(e) ==> action@ == Step::Fail(RequestError::Protocol(e)),
            decoded(frame@) is Ok ==> !(action@ matches Step::Fail(RequestError::Protocol(_))),
            decoded(frame@) matches Ok(RequestModel::Read(_)) ==> !(session@ is Storing) && (
            action@ matches Step::Reply(v) ==> valid_utf8(v)),
            decoded(frame@) matches Ok(RequestModel::Write(_, _)) ==> !(session@ is Fetching) && (
            action@ matches Step::Reply(v) ==> v.len() == 0),
        decreases pending(session@),
    {
        let event = match action {
            Action::Close(result) => {
                return result;
            },
            Action::Fetch(slot) => match fetch_text(clipboard, slot) {
                Ok(t) => Event::Fetched(t),
                Err(e) => Event::Failed(e),
            },
            Action::Store(slot, text) => match store_text(clipboard, slot, text.as_str()) {
                Ok(()) => Event::Stored,
                Err(e) => Event::Failed(e),
            },
        };
        action = session.resume(event);
    }
}

} // verus!
