//! The records two peers exchange before a session starts.
//!
//! Before the lockstep session exists, host and joiner trade a
//! length-prefixed name and a board-size pair. This module gives those
//! records their exact byte forms; carrying the bytes over a socket is the
//! caller's business. Reading reports how many bytes it consumed, so a
//! caller can feed it a growing buffer and keep the rest.

use vstd::prelude::*;

verus! {

/// What the handshake leaves behind: the agreed board size and how the
/// remote player wants to be called.
#[derive(Debug)]
pub struct GameInfo {
    pub size: (u16, u16),
    pub remote_player_name: String,
}

/// The byte form of a name announcement: one length byte, then the name.
pub open spec fn spec_name_packet_bytes(name: Seq<u8>) -> Seq<u8> {
    seq![name.len() as u8] + name
}

/// What a buffer yields when a name announcement is read off its front:
/// the name and the bytes consumed, or `None` while the buffer is too
/// short.
pub open spec fn spec_read_name(data: Seq<u8>) -> Option<(Seq<u8>, int)> {
    if data.len() >= 1 && data.len() >= 1 + data[0] {
        Some((data.subrange(1, 1 + data[0]), 1 + data[0]))
    } else {
        None
    }
}

/// A player name on its way over the wire, as raw bytes.
pub struct ChooseNamePacket(pub Vec<u8>);

impl ChooseNamePacket {
    /// Encodes the name behind a one-byte length prefix.
    pub fn write(&self) -> (out: Vec<u8>)
        requires
            self.0@.len() <= 255,
        ensures
            out@ == spec_name_packet_bytes(self.0@),
    {
        let mut out: Vec<u8> = Vec::new();
        out.push(self.0.len() as u8);
        let mut k: usize = 0;
        while k < self.0.len()
            invariant
                k <= self.0@.len() <= 255,
                out@ == seq![(self.0@.len() as u8)] + self.0@.take(k as int),
            decreases self.0@.len() - k,
        {
            out.push(self.0[k]);
            proof {
                assert(seq![(self.0@.len() as u8)] + self.0@.take(k as int + 1) =~= (seq![
                    (self.0@.len() as u8),
                ] + self.0@.take(k as int)).push(self.0@[k as int]));
            }
            k += 1;
        }
        proof {
            assert(self.0@.take(self.0@.len() as int) =~= self.0@);
        }
        out
    }

    /// Reads a name announcement off the front of `data`, with the count of
    /// bytes consumed; `None` while `data` is still too short.
    pub fn read(data: &Vec<u8>) -> (r: Option<(ChooseNamePacket, usize)>)
        ensures
            match r {
                Some((packet, used)) => spec_read_name(data@) == Some(
                    (packet.0@, used as int),
                ),
                None => spec_read_name(data@) is None,
            },
    {
        if data.len() < 1 {
            return None;
        }
        let len = data[0] as usize;
        if data.len() < 1 + len {
            return None;
        }
        let mut name: Vec<u8> = Vec::new();
        let mut k: usize = 0;
        while k < len
            invariant
                len + 1 <= data@.len(),
                k <= len,
                name@ == data@.subrange(1, 1 + k as int),
            decreases len - k,
        {
            name.push(data[1 + k]);
            proof {
                assert(data@.subrange(1, 1 + k as int + 1) =~= data@.subrange(
                    1,
                    1 + k as int,
                ).push(data@[1 + k as int]));
            }
            k += 1;
        }
        Some((ChooseNamePacket(name), 1 + len))
    }
}

/// Law: reading a written name gives the name back and consumes exactly the
/// written bytes.
pub proof fn lemma_name_packet_round_trip(name: Seq<u8>)
    requires
        name.len() <= 255,
    ensures
        spec_read_name(spec_name_packet_bytes(name)) == Some((name, name.len() as int + 1)),
{
    let data = spec_name_packet_bytes(name);
    assert(data[0] == name.len() as u8);
    assert(data.subrange(1, 1 + name.len() as int) =~= name);
}

/// The high byte of a board dimension on the wire.
pub open spec fn spec_high_byte(v: u16) -> u8 {
    (v / 256) as u8
}

/// The low byte of a board dimension on the wire.
pub open spec fn spec_low_byte(v: u16) -> u8 {
    (v % 256) as u8
}

/// The byte form of a board-size announcement: width, then height, each as
/// two big-endian bytes.
pub open spec fn spec_size_packet_bytes(size: (u16, u16)) -> Seq<u8> {
    seq![
        spec_high_byte(size.0),
        spec_low_byte(size.0),
        spec_high_byte(size.1),
        spec_low_byte(size.1),
    ]
}

/// What a buffer yields when a board-size announcement is read off its
/// front, or `None` while the buffer is too short.
pub open spec fn spec_read_size(data: Seq<u8>) -> Option<((u16, u16), int)> {
    if data.len() >= 4 {
        Some(
            (
                (
                    (data[0] * 256 + data[1]) as u16,
                    (data[2] * 256 + data[3]) as u16,
                ),
                4,
            ),
        )
    } else {
        None
    }
}

/// A board size on its way over the wire.
#[derive(Clone, Copy, Debug)]
pub struct ChooseGameSizePacket(pub (u16, u16));

impl ChooseGameSizePacket {
    /// Encodes width and height as two big-endian bytes each.
    pub fn write(&self) -> (out: Vec<u8>)
        ensures
            out@ == spec_size_packet_bytes(self.0),
    {
        let mut out: Vec<u8> = Vec::new();
        out.push((self.0.0 / 256) as u8);
        out.push((self.0.0 % 256) as u8);
        out.push((self.0.1 / 256) as u8);
        out.push((self.0.1 % 256) as u8);
        proof {
            assert(out@ =~= spec_size_packet_bytes(self.0));
        }
        out
    }

    /// Reads a board-size announcement off the front of `data`, with the
    /// count of bytes consumed; `None` while `data` is still too short.
    pub fn read(data: &Vec<u8>) -> (r: Option<(ChooseGameSizePacket, usize)>)
        ensures
            match r {
                Some((packet, used)) => spec_read_size(data@) == Some(
                    (packet.0, used as int),
                ),
                None => spec_read_size(data@) is None,
            },
    {
        if data.len() < 4 {
            return None;
        }
        let w = (data[0] as u16) * 256 + (data[1] as u16);
        let h = (data[2] as u16) * 256 + (data[3] as u16);
        Some((ChooseGameSizePacket((w, h)), 4))
    }
}

/// Law: reading a written board size gives the size back and consumes
/// exactly the four written bytes.
pub proof fn lemma_size_packet_round_trip(size: (u16, u16))
    ensures
        spec_read_size(spec_size_packet_bytes(size)) == Some((size, 4int)),
{
    let data = spec_size_packet_bytes(size);
    assert(data[0] * 256 + data[1] == size.0 as int);
    assert(data[2] * 256 + data[3] == size.1 as int);
}

} // verus!
