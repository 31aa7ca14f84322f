//! Single-byte wire codec for session control messages.
//!
//! Every control message fits in one byte:
//!
//! ```text
//! 1000_0000  GoodBye
//! 1fffff11   CommitFrame   (fffff = frame number modulo 32)
//! 0fffffdd   SetDirection  (dd: 00 up, 01 left, 10 down, 11 right)
//! ```
//!
//! Decoding rejects every byte that the encoder cannot produce; encoding is
//! total on well-formed packets. A second, older single-byte format
//! ([`NetworkPacket`]) carries bare direction changes without frame numbers.

use vstd::prelude::*;
use crate::game::Direction;

verus! {

/// How many frames apart two messages may be before their frame numbers
/// become indistinguishable on the wire.
pub const FRAME_WINDOW: u8 = 32;

/// A direction announcement for the frame with the packed frame number.
#[derive(Clone, Copy, PartialEq, Eq, Structural, Debug)]
pub struct SetDirectionPacket {
    /// The sender's frame number, reduced modulo [`FRAME_WINDOW`].
    pub frame_modulo: u8,
    /// The direction the sending player now moves in.
    pub direction: Direction,
}

/// A declaration that the sender is done acting for the packed frame.
#[derive(Clone, Copy, PartialEq, Eq, Structural, Debug)]
pub struct CommitFramePacket(pub u8);

/// One decoded wire message.
#[derive(Clone, Copy, PartialEq, Eq, Structural, Debug)]
pub enum SessionPacket {
    SetDirection(SetDirectionPacket),
    CommitFrame(CommitFramePacket),
    GoodBye,
}

/// The two-bit code of a direction in a [`SessionPacket::SetDirection`] byte.
pub open spec fn spec_direction_part(direction: Direction) -> int {
    match direction {
        Direction::Up => 0,
        Direction::Left => 1,
        Direction::Down => 2,
        Direction::Right => 3,
    }
}

/// The direction named by a two-bit code.
pub open spec fn spec_direction_of_part(part: int) -> Direction {
    if part == 0 {
        Direction::Up
    } else if part == 1 {
        Direction::Left
    } else if part == 2 {
        Direction::Down
    } else {
        Direction::Right
    }
}

/// A frame number reduced to its on-wire form.
pub open spec fn spec_modulo(frame: int) -> int {
    frame % (FRAME_WINDOW as int)
}

impl SessionPacket {
    /// A packet is well formed when its frame number fits the five-bit field.
    pub open spec fn wf(self) -> bool {
        match self {
            SessionPacket::SetDirection(pkt) => pkt.frame_modulo < FRAME_WINDOW,
            SessionPacket::CommitFrame(pkt) => pkt.0 < FRAME_WINDOW,
            SessionPacket::GoodBye => true,
        }
    }

    /// The byte that encodes this packet.
    pub open spec fn spec_serialize(self) -> int {
        match self {
            SessionPacket::GoodBye => 0x80,
            SessionPacket::CommitFrame(pkt) => 0x80 + pkt.0 * 4 + 3,
            SessionPacket::SetDirection(pkt) => pkt.frame_modulo * 4 + spec_direction_part(
                pkt.direction,
            ),
        }
    }

    /// The packet a byte decodes to, or `None` for a byte the encoder never
    /// produces.
    pub open spec fn spec_parse(byte: u8) -> Option<SessionPacket> {
        if byte == 0x80 {
            Some(SessionPacket::GoodBye)
        } else if byte >= 0x80 {
            if byte % 4 == 3 {
                Some(SessionPacket::CommitFrame(CommitFramePacket((((byte - 0x80) / 4) as u8))))
            } else {
                None
            }
        } else {
            Some(
                SessionPacket::SetDirection(
                    SetDirectionPacket {
                        frame_modulo: (byte / 4) as u8,
                        direction: spec_direction_of_part(byte as int % 4),
                    },
                ),
            )
        }
    }

    /// Decodes one byte; `None` marks a byte outside the wire format.
    pub fn parse(byte: u8) -> (r: Option<SessionPacket>)
        ensures
            r == Self::spec_parse(byte),
            r matches Some(pkt) ==> pkt.wf(),
    {
        if byte == 0x80 {
            return Some(SessionPacket::GoodBye);
        }
        let frame_modulo: u8 = (byte / 4) % 32;
        if byte >= 0x80 {
            if byte % 4 == 3 {
                assert(frame_modulo as int == (byte - 0x80) as int / 4) by {
                    assert(byte as int / 4 >= 32 && byte as int / 4 <= 63);
                    assert((byte as int / 4) % 32 == byte as int / 4 - 32);
                    assert(byte as int / 4 - 32 == (byte as int - 0x80) / 4);
                };
                return Some(SessionPacket::CommitFrame(CommitFramePacket(frame_modulo)));
            }
            return None;
        }
        let direction = match byte % 4 {
            0 => Direction::Up,
            1 => Direction::Left,
            2 => Direction::Down,
            _ => Direction::Right,
        };
        assert(frame_modulo as int == byte as int / 4) by {
            assert(byte as int / 4 < 32);
        };
        Some(SessionPacket::SetDirection(SetDirectionPacket { frame_modulo, direction }))
    }

    /// Encodes this packet as its single wire byte.
    pub fn serialize(&self) -> (r: u8)
        requires
            self.wf(),
        ensures
            r as int == self.spec_serialize(),
    {
        match self {
            SessionPacket::GoodBye => 0x80,
            SessionPacket::CommitFrame(pkt) => 0x80 + pkt.0 * 4 + 3,
            SessionPacket::SetDirection(pkt) => pkt.frame_modulo * 4 + Self::direction_part(
                &pkt.direction,
            ),
        }
    }

    /// The two-bit code of a direction.
    pub fn direction_part(direction: &Direction) -> (r: u8)
        ensures
            r as int == spec_direction_part(*direction),
    {
        match *direction {
            Direction::Up => 0,
            Direction::Left => 1,
            Direction::Down => 2,
            Direction::Right => 3,
        }
    }

    /// A frame number reduced to its on-wire form.
    pub fn modulo(frame: u32) -> (r: u8)
        ensures
            r as int == spec_modulo(frame as int),
            r < FRAME_WINDOW,
    {
        (frame % 32) as u8
    }
}

impl SetDirectionPacket {
    /// Announces `direction` for `frame`.
    pub fn new(frame: u32, direction: Direction) -> (r: Self)
        ensures
            r.frame_modulo as int == spec_modulo(frame as int),
            r.direction == direction,
            SessionPacket::SetDirection(r).wf(),
    {
        SetDirectionPacket { frame_modulo: SessionPacket::modulo(frame), direction }
    }
}

impl CommitFramePacket {
    /// Commits `frame`.
    pub fn new(frame: u32) -> (r: Self)
        ensures
            r.0 as int == spec_modulo(frame as int),
            SessionPacket::CommitFrame(r).wf(),
    {
        CommitFramePacket(SessionPacket::modulo(frame))
    }
}

/// Codec round trip, first half: decoding the byte that encodes any well
/// formed packet gives that packet back.
pub proof fn lemma_codec_round_trip(packet: SessionPacket)
    requires
        packet.wf(),
    ensures
        SessionPacket::spec_parse((packet.spec_serialize()) as u8) == Some(packet),
{
}

/// Codec round trip, second half: every byte that decodes at all decodes to
/// a well formed packet that encodes back to the same byte. Together with
/// the first half this means a byte decodes successfully exactly when the
/// encoder can produce it.
pub proof fn lemma_parse_inverts_serialize(byte: u8)
    ensures
        SessionPacket::spec_parse(byte) matches Some(packet) ==> packet.wf()
            && packet.spec_serialize() == byte as int,
{
}

/// The older wire format: a bare direction change or a farewell, one byte
/// each, with no frame number attached.
#[derive(Clone, Copy, PartialEq, Eq, Structural, Debug)]
pub enum NetworkPacket {
    DirectionChange(Direction),
    GoodBye,
}

impl NetworkPacket {
    /// The byte that encodes this packet.
    pub open spec fn spec_serialize(self) -> int {
        match self {
            NetworkPacket::DirectionChange(direction) => 1 + spec_direction_part(direction),
            NetworkPacket::GoodBye => 5,
        }
    }

    /// The packet a byte decodes to, or `None` for an unknown byte.
    pub open spec fn spec_parse(byte: u8) -> Option<NetworkPacket> {
        if 1 <= byte <= 4 {
            Some(NetworkPacket::DirectionChange(spec_direction_of_part(byte - 1)))
        } else if byte == 5 {
            Some(NetworkPacket::GoodBye)
        } else {
            None
        }
    }

    /// Decodes one byte; `None` marks an unknown byte.
    pub fn parse(byte: u8) -> (r: Option<NetworkPacket>)
        ensures
            r == Self::spec_parse(byte),
    {
        match byte {
            1 => Some(NetworkPacket::DirectionChange(Direction::Up)),
            2 => Some(NetworkPacket::DirectionChange(Direction::Left)),
            3 => Some(NetworkPacket::DirectionChange(Direction::Down)),
            4 => Some(NetworkPacket::DirectionChange(Direction::Right)),
            5 => Some(NetworkPacket::GoodBye),
            _ => None,
        }
    }

    /// Encodes this packet as its single wire byte.
    pub fn serialize(&self) -> (r: u8)
        ensures
            r as int == self.spec_serialize(),
    {
        match self {
            NetworkPacket::DirectionChange(direction) => 1 + SessionPacket::direction_part(
                direction,
            ),
            NetworkPacket::GoodBye => 5,
        }
    }
}

/// Round trip for the older format: decoding an encoded packet gives the
/// packet back, and every byte that decodes at all encodes back to itself.
pub proof fn lemma_network_packet_round_trip(packet: NetworkPacket, byte: u8)
    ensures
        NetworkPacket::spec_parse((packet.spec_serialize()) as u8) == Some(packet),
        NetworkPacket::spec_parse(byte) matches Some(p) ==> p.spec_serialize() == byte as int,
{
}

} // verus!
