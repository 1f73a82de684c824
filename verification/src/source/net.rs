//! Pen samples from datagrams: thirteen bytes, little-endian.

use crate::pen::RawPen;
use crate::single::Single;
use vstd::prelude::*;

verus! {

/// The length of a well-formed datagram.
pub const DATAGRAM_LEN: usize = 13;

/// The number whose four bytes, least significant first, start at `at`.
pub open spec fn le_u32(bytes: Seq<u8>, at: int) -> int
    recommends
        0 <= at,
        at + 4 <= bytes.len(),
{
    bytes[at] as int + 0x100 * (bytes[at + 1] as int) + 0x1_0000 * (bytes[at + 2] as int)
        + 0x100_0000 * (bytes[at + 3] as int)
}

/// The sample that a datagram carries: two single-precision coordinates, the
/// pressure and the buttons. A datagram of any other length carries none.
pub open spec fn sample_of(bytes: Seq<u8>) -> Option<RawPen> {
    if bytes.len() == DATAGRAM_LEN {
        Some(
            RawPen {
                x: Single { bits: le_u32(bytes, 0) as u32 },
                y: Single { bits: le_u32(bytes, 4) as u32 },
                pressure: le_u32(bytes, 8) as u32,
                buttons: bytes[12],
            },
        )
    } else {
        None
    }
}

/// What to do after a receive.
#[derive(Clone, Copy, Debug, PartialEq, Eq, Structural)]
pub enum Poll {
    /// A sample was taken in: receive again.
    More(RawPen),
    /// The poll is over, with the newest sample of this poll, if there was one.
    Done(Option<RawPen>),
}

/// Where a poll stands after a receive. `newest` is the newest sample of
/// this poll so far and `received` is what the receive gave, if anything. A
/// well-formed datagram becomes the newest sample. An empty queue ends the
/// poll, and so does a malformed datagram, which is thrown away.
pub open spec fn polled(newest: Option<RawPen>, received: Option<Seq<u8>>) -> Poll {
    match received {
        Some(bytes) => match sample_of(bytes) {
            Some(pen) => Poll::More(pen),
            None => Poll::Done(newest),
        },
        None => Poll::Done(newest),
    }
}

fn read_le_u32(bytes: &[u8], at: usize) -> (r: u32)
    requires
        at + 4 <= bytes@.len(),
    ensures
        r == le_u32(bytes@, at as int),
{
    let b0: u32 = bytes[at] as u32;
    let b1: u32 = bytes[at + 1] as u32;
    let b2: u32 = bytes[at + 2] as u32;
    let b3: u32 = bytes[at + 3] as u32;
    b0 + 0x100 * b1 + 0x1_0000 * b2 + 0x100_0000 * b3
}

/// A source of samples sent as datagrams.
#[derive(Clone, Copy, Debug, PartialEq, Eq, Structural)]
pub struct NetSource;

impl NetSource {
    /// Decodes one datagram.
    pub fn decode(bytes: &[u8]) -> (r: Option<RawPen>)
        ensures
            r == sample_of(bytes@),
    {
        if bytes.len() != DATAGRAM_LEN {
            return None;
        }
        Some(
            RawPen {
                x: Single { bits: read_le_u32(bytes, 0) },
                y: Single { bits: read_le_u32(bytes, 4) },
                pressure: read_le_u32(bytes, 8),
                buttons: bytes[12],
            },
        )
    }

    /// One step of a poll: takes in what a receive gave and says whether to
    /// receive again.
    pub fn get(&self, newest: Option<RawPen>, received: Option<&[u8]>) -> (r: Poll)
        ensures
            r == polled(
                newest,
                match received {
                    Some(bytes) => Some(bytes@),
                    None => None,
                },
            ),
    {
        match received {
            Some(bytes) => match NetSource::decode(bytes) {
                Some(pen) => Poll::More(pen),
                None => Poll::Done(newest),
            },
            None => Poll::Done(newest),
        }
    }
}

/// A datagram of the wrong length yields no sample and ends the poll with
/// what the poll had before it.
pub proof fn lemma_malformed_datagram_is_dropped(newest: Option<RawPen>, bytes: Seq<u8>)
    requires
        bytes.len() != DATAGRAM_LEN,
    ensures
        sample_of(bytes) is None,
        polled(newest, Some(bytes)) == Poll::Done(newest),
{
}

} // verus!
