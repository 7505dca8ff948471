//! Wire format of a request: an operation byte, a selection byte, then
//! (for a write) the UTF-8 text that runs to the end of the stream.
use vstd::prelude::*;
use vstd::utf8::{decode_utf8, encode_utf8, valid_utf8};

verus! {

broadcast use vstd::utf8::group_utf8_lib;

/// Operation byte of a read request.
pub const READ_BYTE: u8 = 0;

/// Operation byte of a write request.
pub const WRITE_BYTE: u8 = 1;

/// One of the host's clipboard slots.
#[derive(Clone, Copy, Debug, PartialEq, Eq, Structural)]
pub enum Slot {
    Primary,
    Clipboard,
    Secondary,
}

/// Target of a write: every slot, or a single one.
#[derive(Clone, Copy, Debug, PartialEq, Eq, Structural)]
pub enum WriteSelection {
    All,
    Single(Slot),
}

/// A decoded request.
#[derive(Clone, Debug, PartialEq, Eq)]
pub enum Request {
    /// Send back the text held by a slot.
    Read(Slot),
    /// Store the text in the selected slots.
    Write(WriteSelection, String),
}

/// Abstract value of a request: the text as a sequence of characters.
pub ghost enum RequestModel {
    Read(Slot),
    Write(WriteSelection, Seq<char>),
}

impl View for Request {
    type V = RequestModel;

    open spec fn view(&self) -> RequestModel {
        match self {
            Request::Read(s) => RequestModel::Read(*s),
            Request::Write(w, t) => RequestModel::Write(*w, t@),
        }
    }
}

/// Why a byte buffer is not a request.
#[derive(Clone, Copy, Debug, PartialEq, Eq, Structural)]
pub enum DecodeError {
    /// Fewer than two bytes.
    EmptyFrame,
    /// The operation byte names no operation.
    UnknownOperation(u8),
    /// The selection byte names no selection of the frame's operation.
    UnknownSelection(u8),
    /// The payload of a write is not UTF-8.
    InvalidText,
}

/// Byte of a slot, shared by the read and the write enumerations.
pub open spec fn slot_byte(s: Slot) -> u8 {
    match s {
        Slot::Primary => 1,
        Slot::Clipboard => 2,
        Slot::Secondary => 3,
    }
}

/// The slot a read selection byte names, if any.
pub open spec fn slot_of_byte(b: u8) -> Option<Slot> {
    if b == 1 {
        Some(Slot::Primary)
    } else if b == 2 {
        Some(Slot::Clipboard)
    } else if b == 3 {
        Some(Slot::Secondary)
    } else {
        None
    }
}

pub open spec fn write_selection_byte(w: WriteSelection) -> u8 {
    match w {
        WriteSelection::All => 0,
        WriteSelection::Single(s) => slot_byte(s),
    }
}

/// The write selection a byte names, if any: 0 is every slot.
pub open spec fn write_selection_of_byte(b: u8) -> Option<WriteSelection> {
    if b == 0 {
        Some(WriteSelection::All)
    } else {
        match slot_of_byte(b) {
            Some(s) => Some(WriteSelection::Single(s)),
            None => None,
        }
    }
}

/// The bytes that carry a request.
pub open spec fn frame_of(r: RequestModel) -> Seq<u8> {
    match r {
        RequestModel::Read(s) => seq![READ_BYTE, slot_byte(s)],
        RequestModel::Write(w, t) => seq![WRITE_BYTE, write_selection_byte(w)] + encode_utf8(t),
    }
}

/// What a byte buffer decodes to. The selection byte is read with the
/// enumeration of the operation; bytes after the selection of a read are
/// not looked at.
pub open spec fn decoded(b: Seq<u8>) -> Result<RequestModel, DecodeError> {
    if b.len() < 2 {
        Err(DecodeError::EmptyFrame)
    } else if b[0] == READ_BYTE {
        match slot_of_byte(b[1]) {
            Some(s) => Ok(RequestModel::Read(s)),
            None => Err(DecodeError::UnknownSelection(b[1])),
        }
    } else if b[0] == WRITE_BYTE {
        match write_selection_of_byte(b[1]) {
            None => Err(DecodeError::UnknownSelection(b[1])),
            Some(w) => {
                let payload = b.subrange(2, b.len() as int);
                if valid_utf8(payload) {
                    Ok(RequestModel::Write(w, decode_utf8(payload)))
                } else {
                    Err(DecodeError::InvalidText)
                }
            },
        }
    } else {
        Err(DecodeError::UnknownOperation(b[0]))
    }
}

impl Slot {
    pub fn to_byte(self) -> (r: u8)
        ensures
            r == slot_byte(self),
    {
        match self {
            Slot::Primary => 1,
            Slot::Clipboard => 2,
            Slot::Secondary => 3,
        }
    }

    pub fn from_byte(b: u8) -> (r: Option<Slot>)
        ensures
            r == slot_of_byte(b),
    {
        if b == 1 {
            Some(Slot::Primary)
        } else if b == 2 {
            Some(Slot::Clipboard)
        } else if b == 3 {
            Some(Slot::Secondary)
        } else {
            None
        }
    }
}

impl WriteSelection {
    pub fn to_byte(self) -> (r: u8)
        ensures
            r == write_selection_byte(self),
    {
        match self {
            WriteSelection::All => 0,
            WriteSelection::Single(s) => s.to_byte(),
        }
    }

    pub fn from_byte(b: u8) -> (r: Option<WriteSelection>)
        ensures
            r == write_selection_of_byte(b),
    {
        if b == 0 {
            Some(WriteSelection::All)
        } else {
            match Slot::from_byte(b) {
                Some(s) => Some(WriteSelection::Single(s)),
                None => None,
            }
        }
    }
}

/// Decoding a frame that holds a write and encoding the result again gives
/// back the same bytes.
pub proof fn lemma_write_frame_round_trip(b: Seq<u8>)
    requires
        decoded(b) matches Ok(RequestModel::Write(_, _)),
    ensures
        frame_of(decoded(b)->Ok_0) == b,
{
    let payload = b.subrange(2, b.len() as int);
    vstd::utf8::decode_utf8_encode_utf8(payload);
    assert(slot_of_byte(b[1]) matches Some(s) ==> slot_byte(s) == b[1]);
    assert(frame_of(decoded(b)->Ok_0) =~= b);
}

/// Every request decodes from its own frame.
pub proof fn lemma_encode_then_decode(r: RequestModel)
    ensures
        decoded(frame_of(r)) == Ok::<RequestModel, DecodeError>(r),
{
    let b = frame_of(r);
    if let RequestModel::Write(w, t) = r {
        vstd::utf8::encode_utf8_decode_utf8(t);
        assert(b.subrange(2, b.len() as int) =~= encode_utf8(t));
    }
}

/// A buffer of no byte or of one byte, whatever it is, is an empty frame.
pub proof fn lemma_short_frame_is_empty(x: u8)
    ensures
        decoded(Seq::<u8>::empty()) == Err::<RequestModel, DecodeError>(DecodeError::EmptyFrame),
        decoded(seq![x]) == Err::<RequestModel, DecodeError>(DecodeError::EmptyFrame),
{
}

/// An operation byte other than read or write rejects the frame, whatever
/// the selection byte and the payload.
pub proof fn lemma_unknown_operation(b: Seq<u8>)
    requires
        b.len() >= 2,
        b[0] != READ_BYTE,
        b[0] != WRITE_BYTE,
    ensures
        decoded(b) == Err::<RequestModel, DecodeError>(DecodeError::UnknownOperation(b[0])),
{
}

/// The selection byte is read with the enumeration of the operation: 0 is a
/// write to every slot but no read selection, 1 to 3 are slots for both, and
/// any larger byte is a selection of neither.
pub proof fn lemma_selection_ranges(sel: u8, payload: Seq<u8>)
    ensures
        sel == 0 ==> decoded(seq![READ_BYTE, sel] + payload)
            == Err::<RequestModel, DecodeError>(DecodeError::UnknownSelection(0)),
        1 <= sel <= 3 ==> decoded(seq![READ_BYTE, sel] + payload)
            == Ok::<RequestModel, DecodeError>(RequestModel::Read(slot_of_byte(sel)->Some_0)),
        sel > 3 ==> decoded(seq![READ_BYTE, sel] + payload)
            == Err::<RequestModel, DecodeError>(DecodeError::UnknownSelection(sel)),
        sel > 3 ==> decoded(seq![WRITE_BYTE, sel] + payload)
            == Err::<RequestModel, DecodeError>(DecodeError::UnknownSelection(sel)),
        sel == 0 && valid_utf8(payload) ==> decoded(seq![WRITE_BYTE, sel] + payload)
            == Ok::<RequestModel, DecodeError>(
            RequestModel::Write(WriteSelection::All, decode_utf8(payload)),
        ),
{
    let w = seq![WRITE_BYTE, sel] + payload;
    assert(w.subrange(2, w.len() as int) =~= payload);
}

/// Relies on std::str::from_utf8: it succeeds exactly on valid UTF-8, and the
/// string it returns is made of the bytes it was given.
#[verifier::external_body]
fn utf8_text(b: &[u8]) -> (r: Option<&str>)
    ensures
        r is Some <==> valid_utf8(b@),
        r matches Some(s) ==> encode_utf8(s@) == b@,
{
    std::str::from_utf8(b).ok()
}

/// Parses a whole request buffer.
pub fn decode_request(bytes: &[u8]) -> (r: Result<Request, DecodeError>)
    ensures
        match r {
            Ok(q) => decoded(bytes@) == Ok::<RequestModel, DecodeError>(q@),
            Err(e) => decoded(bytes@) == Err::<RequestModel, DecodeError>(e),
        },
{
    if bytes.len() < 2 {
        return Err(DecodeError::EmptyFrame);
    }
    let op = bytes[0];
    let sel = bytes[1];
    if op == READ_BYTE {
        match Slot::from_byte(sel) {
            Some(s) => Ok(Request::Read(s)),
            None => Err(DecodeError::UnknownSelection(sel)),
        }
    } else if op == WRITE_BYTE {
        match WriteSelection::from_byte(sel) {
            None => Err(DecodeError::UnknownSelection(sel)),
            Some(w) => {
                let (_, payload) = bytes.split_at(2);
                assert(payload@ == bytes@.subrange(2, bytes@.len() as int));
                match utf8_text(payload) {
                    Some(s) => {
                        proof {
                            vstd::utf8::encode_utf8_decode_utf8(s@);
                        }
                        Ok(Request::Write(w, s.to_owned()))
                    },
                    None => Err(DecodeError::InvalidText),
                }
            },
        }
    } else {
        Err(DecodeError::UnknownOperation(op))
    }
}

/// The UTF-8 bytes of a text.
pub fn text_bytes(t: &str) -> (r: Vec<u8>)
    ensures
        r@ == encode_utf8(t@),
{
    let mut v: Vec<u8> = Vec::new();
    v.extend_from_slice(t.as_bytes());
    assert(v@ =~= encode_utf8(t@));
    v
}

/// Lays a request out as the bytes that carry it.
pub fn encode_request(req: &Request) -> (r: Vec<u8>)
    ensures
        r@ == frame_of(req@),
{
    match req {
        Request::Read(s) => {
            let mut v: Vec<u8> = Vec::new();
            v.push(READ_BYTE);
            v.push(s.to_byte());
            assert(v@ == frame_of(req@));
            v
        },
        Request::Write(w, t) => {
            let mut v: Vec<u8> = Vec::new();
            v.push(WRITE_BYTE);
            v.push(w.to_byte());
            v.extend_from_slice(t.as_str().as_bytes());
            assert(v@ == frame_of(req@));
            v
        },
    }
}

} // verus!
