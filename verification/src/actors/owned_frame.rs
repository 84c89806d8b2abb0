use vstd::prelude::*;

verus! {

/// The operation code of a WebSocket frame (RFC 6455, section 5.2).
#[derive(Debug, Clone, Copy, PartialEq, Eq, Structural)]
pub enum OpCode {
    Continuation,
    Text,
    Binary,
    Close,
    Ping,
    Pong,
}

impl OpCode {
    /// The four-bit code that stands for the operation on the wire.
    pub open spec fn code(self) -> u8 {
        match self {
            OpCode::Continuation => 0x0,
            OpCode::Text => 0x1,
            OpCode::Binary => 0x2,
            OpCode::Close => 0x8,
            OpCode::Ping => 0x9,
            OpCode::Pong => 0xA,
        }
    }

    /// The name of the operation, as its debug rendering spells it.
    pub open spec fn spec_name(self) -> Seq<char> {
        match self {
            OpCode::Continuation => "Continuation"@,
            OpCode::Text => "Text"@,
            OpCode::Binary => "Binary"@,
            OpCode::Close => "Close"@,
            OpCode::Ping => "Ping"@,
            OpCode::Pong => "Pong"@,
        }
    }

    pub fn name(&self) -> (name: &'static str)
        ensures
            name@ == self.spec_name(),
    {
        match self {
            OpCode::Continuation => {
                proof { reveal_strlit("Continuation"); }
                "Continuation"
            },
            OpCode::Text => {
                proof { reveal_strlit("Text"); }
                "Text"
            },
            OpCode::Binary => {
                proof { reveal_strlit("Binary"); }
                "Binary"
            },
            OpCode::Close => {
                proof { reveal_strlit("Close"); }
                "Close"
            },
            OpCode::Ping => {
                proof { reveal_strlit("Ping"); }
                "Ping"
            },
            OpCode::Pong => {
                proof { reveal_strlit("Pong"); }
                "Pong"
            },
        }
    }

    /// Whether the operation is a control operation (close, ping or pong).
    pub open spec fn spec_is_control(self) -> bool {
        self == OpCode::Close || self == OpCode::Ping || self == OpCode::Pong
    }
}

/// Where the bytes of a frame's payload are held.
pub enum Payload {
    BorrowedMut(Vec<u8>),
    Borrowed(Vec<u8>),
    Owned(Vec<u8>),
    Bytes(Vec<u8>),
}

impl Payload {
    /// The payload's bytes, whichever way they are held.
    pub open spec fn bytes(self) -> Seq<u8> {
        match self {
            Payload::BorrowedMut(v) => v@,
            Payload::Borrowed(v) => v@,
            Payload::Owned(v) => v@,
            Payload::Bytes(v) => v@,
        }
    }

    pub fn as_slice(&self) -> (bytes: &[u8])
        ensures
            bytes@ == self.bytes(),
    {
        match self {
            Payload::BorrowedMut(v) => v.as_slice(),
            Payload::Borrowed(v) => v.as_slice(),
            Payload::Owned(v) => v.as_slice(),
            Payload::Bytes(v) => v.as_slice(),
        }
    }
}

/// A WebSocket frame as the connection library hands it over: the final
/// fragment flag, the operation, the masking key and the payload.
pub struct Frame {
    pub fin: bool,
    pub opcode: OpCode,
    pub mask: Option<[u8; 4]>,
    pub payload: Payload,
}

/// The big-endian bytes of a 64-bit length.
pub open spec fn be_bytes_64(len: nat) -> Seq<u8> {
    Seq::new(8, |i: int| ((len / pow256((7 - i) as nat)) % 256) as u8)
}

pub open spec fn pow256(n: nat) -> nat
    decreases n,
{
    if n == 0 {
        1
    } else {
        256 * pow256((n - 1) as nat)
    }
}

/// The header of a frame on the wire (RFC 6455, section 5.2): the flag and
/// operation byte, the length with the mask bit, and the masking key if any.
pub open spec fn frame_head(fin: bool, opcode: OpCode, mask: Option<[u8; 4]>, len: nat) -> Seq<u8> {
    let first = ((if fin { 0x80int } else { 0int }) + opcode.code()) as u8;
    let mask_bit: int = if mask.is_some() { 0x80 } else { 0 };
    let length_part = if len < 126 {
        seq![first, (mask_bit + len) as u8]
    } else if len < 65536 {
        seq![first, (mask_bit + 126) as u8, (len / 256) as u8, (len % 256) as u8]
    } else {
        seq![first, (mask_bit + 127) as u8] + be_bytes_64(len)
    };
    match mask {
        Some(key) => length_part + key@,
        None => length_part,
    }
}

/// A frame as it goes on the wire: its header, then its payload.
pub open spec fn frame_wire_bytes(fin: bool, opcode: OpCode, mask: Option<[u8; 4]>, payload: Seq<u8>) -> Seq<u8> {
    frame_head(fin, opcode, mask, payload.len()) + payload
}

/// The buffer after a frame's wire bytes were written into `old`: the buffer
/// is first grown with zeros to at least sixteen bytes more than the payload,
/// then its start is overwritten with the wire bytes.
pub open spec fn written_buffer(old: Seq<u8>, wire: Seq<u8>, payload_len: nat) -> Seq<u8> {
    let grown_len = if old.len() < payload_len + 16 { payload_len + 16 } else { old.len() };
    Seq::new(
        grown_len,
        |i: int|
            if i < wire.len() {
                wire[i]
            } else if i < old.len() {
                old[i]
            } else {
                0u8
            },
    )
}

/// Writes a frame into `buf`.
///
/// Builds a `fastwebsockets::Frame` from the given parts and calls
/// `Frame::write`. Its source grows `buf` with zeros to at least the payload
/// length plus sixteen, formats the header with `Frame::fmt_head` at the start
/// and copies the payload right after it; the contract states exactly that.
#[verifier::external_body]
fn frame_write(fin: bool, opcode: OpCode, mask: Option<[u8; 4]>, payload: &[u8], buf: &mut Vec<u8>)
    ensures
        final(buf)@ == written_buffer(
            old(buf)@,
            frame_wire_bytes(fin, opcode, mask, payload@),
            payload@.len(),
        ),
{
    let opcode = match opcode {
        OpCode::Continuation => fastwebsockets::OpCode::Continuation,
        OpCode::Text => fastwebsockets::OpCode::Text,
        OpCode::Binary => fastwebsockets::OpCode::Binary,
        OpCode::Close => fastwebsockets::OpCode::Close,
        OpCode::Ping => fastwebsockets::OpCode::Ping,
        OpCode::Pong => fastwebsockets::OpCode::Pong,
    };
    let mut frame = fastwebsockets::Frame::new(fin, opcode, mask, fastwebsockets::Payload::Borrowed(payload));
    frame.write(buf);
}

/// A copy of a byte slice in a vector of its own.
pub fn copy_bytes(src: &[u8]) -> (copy: Vec<u8>)
    ensures
        copy@ == src@,
{
    let mut copy: Vec<u8> = Vec::with_capacity(src.len());
    let mut i: usize = 0;
    while i < src.len()
        invariant
            i <= src@.len(),
            copy@ == src@.subrange(0, i as int),
        decreases src@.len() - i,
    {
        copy.push(src[i]);
        i = i + 1;
    }
    proof {
        assert(src@.subrange(0, src@.len() as int) =~= src@);
    }
    copy
}

/// A frame whose payload the holder owns.
#[derive(Debug)]
pub struct OwnedFrame {
    pub fin: bool,
    pub opcode: OpCode,
    pub payload: Vec<u8>,
}

impl OwnedFrame {
    /// A non-final continuation frame with an empty payload.
    pub open spec fn is_blank(&self) -> bool {
        &&& !self.fin
        &&& self.opcode == OpCode::Continuation
        &&& self.payload@.len() == 0
    }

    pub fn new() -> (frame: Self)
        ensures
            frame.is_blank(),
    {
        Self { fin: false, opcode: OpCode::Continuation, payload: Vec::new() }
    }

    pub fn with_capacity(capacity: usize) -> (frame: Self)
        ensures
            frame.is_blank(),
    {
        Self { fin: false, opcode: OpCode::Continuation, payload: Vec::with_capacity(capacity) }
    }

    /// Takes the frame's flag and operation, and for payload the frame as
    /// written out for the wire.
    pub fn from_frame(frame: &mut Frame) -> (owned: Self)
        ensures
            *final(frame) == *old(frame),
            owned.fin == old(frame).fin,
            owned.opcode == old(frame).opcode,
            owned.payload@ == written_buffer(
                Seq::empty(),
                frame_wire_bytes(
                    old(frame).fin,
                    old(frame).opcode,
                    old(frame).mask,
                    old(frame).payload.bytes(),
                ),
                old(frame).payload.bytes().len(),
            ),
    {
        let mut payload: Vec<u8> = Vec::new();
        frame_write(frame.fin, frame.opcode, frame.mask, frame.payload.as_slice(), &mut payload);
        Self { fin: frame.fin, opcode: frame.opcode, payload }
    }

    /// Takes the frame's flag and operation, and writes the frame out for the
    /// wire over the start of the current payload.
    pub fn copy_from_frame(&mut self, frame: &mut Frame)
        ensures
            *final(frame) == *old(frame),
            final(self).fin == old(frame).fin,
            final(self).opcode == old(frame).opcode,
            final(self).payload@ == written_buffer(
                old(self).payload@,
                frame_wire_bytes(
                    old(frame).fin,
                    old(frame).opcode,
                    old(frame).mask,
                    old(frame).payload.bytes(),
                ),
                old(frame).payload.bytes().len(),
            ),
    {
        self.fin = frame.fin;
        self.opcode = frame.opcode;
        frame_write(frame.fin, frame.opcode, frame.mask, frame.payload.as_slice(), &mut self.payload);
    }

    pub fn reset(&mut self)
        ensures
            final(self).is_blank(),
    {
        self.fin = false;
        self.opcode = OpCode::Continuation;
        self.payload.clear();
    }

    /// Gives the frame this frame's flag and operation. A frame whose payload
    /// it owns gets a copy of this frame's payload; any other frame keeps its
    /// own payload bytes, now held as owned.
    pub fn copy_into_frame(&mut self, frame: &mut Frame)
        ensures
            *final(self) == *old(self),
            final(frame).fin == old(self).fin,
            final(frame).opcode == old(self).opcode,
            final(frame).mask == old(frame).mask,
            final(frame).payload is Owned,
            final(frame).payload.bytes() == (match old(frame).payload {
                Payload::Owned(_) => old(self).payload@,
                _ => old(frame).payload.bytes(),
            }),
    {
        frame.fin = self.fin;
        frame.opcode = self.opcode;
        let new_payload = match &frame.payload {
            Payload::Owned(_) => copy_bytes(self.payload.as_slice()),
            Payload::BorrowedMut(val) => copy_bytes(val.as_slice()),
            Payload::Borrowed(val) => copy_bytes(val.as_slice()),
            Payload::Bytes(val) => copy_bytes(val.as_slice()),
        };
        frame.payload = Payload::Owned(new_payload);
    }
}


/// Each operation is named as its variant is spelled, and stands for the
/// four-bit code RFC 6455 gives it.
pub proof fn lemma_opcode_names_and_codes()
    ensures
        OpCode::Continuation.spec_name() == "Continuation"@ && OpCode::Continuation.code() == 0x0,
        OpCode::Text.spec_name() == "Text"@ && OpCode::Text.code() == 0x1,
        OpCode::Binary.spec_name() == "Binary"@ && OpCode::Binary.code() == 0x2,
        OpCode::Close.spec_name() == "Close"@ && OpCode::Close.code() == 0x8,
        OpCode::Ping.spec_name() == "Ping"@ && OpCode::Ping.code() == 0x9,
        OpCode::Pong.spec_name() == "Pong"@ && OpCode::Pong.code() == 0xA,
{
}

} // verus!
