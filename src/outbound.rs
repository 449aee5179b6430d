use vstd::prelude::*;

use rustc_serialize::Encodable;

use crate::codec::{encode_value, EncodeError};
use crate::limit::SizeLimit;

verus! {

/// Why a send did not go out.
#[derive(Clone, Copy, Debug, PartialEq, Eq, Structural)]
pub enum SendError {
    /// The value's encoding is longer than the write limit; nothing was written.
    SizeLimit,
    /// Encoding or writing failed.
    Io,
    /// An earlier write failed part way, so the peer can no longer find the
    /// frame boundaries; the stream takes no more sends.
    Poisoned,
}

/// The rules of an outbound stream, apart from the connection it writes to:
/// its write limit, and whether an earlier failed write has poisoned it.
///
/// A send encodes the whole value into a frame first, so a value over the
/// limit is refused before a byte is written; only a failed write of a frame
/// may leave part of it on the wire.
#[derive(Debug)]
pub struct Outbound {
    write_limit: SizeLimit,
    poisoned: bool,
}

impl Outbound {
    pub closed spec fn limit(&self) -> SizeLimit {
        self.write_limit
    }

    pub closed spec fn poisoned(&self) -> bool {
        self.poisoned
    }

    pub fn new(write_limit: SizeLimit) -> (r: Outbound)
        ensures
            r.limit() == write_limit,
            !r.poisoned(),
    {
        Outbound { write_limit, poisoned: false }
    }

    pub fn write_limit(&self) -> (r: SizeLimit)
        ensures
            r == self.limit(),
    {
        self.write_limit
    }

    pub fn is_poisoned(&self) -> (r: bool)
        ensures
            r == self.poisoned(),
    {
        self.poisoned
    }

    /// Takes the outcome of encoding one value and decides what to write: the
    /// frame itself, or the error to report. A poisoned stream writes nothing.
    pub fn settle(&self, encoded: Result<Vec<u8>, EncodeError>) -> (r: Result<Vec<u8>, SendError>)
        ensures
            self.poisoned() ==> r == Err::<Vec<u8>, SendError>(SendError::Poisoned),
            !self.poisoned() ==> match encoded {
                Ok(b) => r == Ok::<Vec<u8>, SendError>(b),
                Err(EncodeError::SizeLimit) => r == Err::<Vec<u8>, SendError>(SendError::SizeLimit),
                Err(EncodeError::Io) => r == Err::<Vec<u8>, SendError>(SendError::Io),
            },
    {
        if self.poisoned {
            return Err(SendError::Poisoned);
        }
        match encoded {
            Ok(b) => Ok(b),
            Err(EncodeError::SizeLimit) => Err(SendError::SizeLimit),
            Err(EncodeError::Io) => Err(SendError::Io),
        }
    }

    /// Encodes one value into the frame to write. The frame fits the write
    /// limit; a value whose encoding does not fit is refused with
    /// `SizeLimit`, and a poisoned stream refuses every value.
    pub fn frame<T: Encodable>(&self, v: &T) -> (r: Result<Vec<u8>, SendError>)
        ensures
            self.poisoned() ==> r == Err::<Vec<u8>, SendError>(SendError::Poisoned),
            r matches Ok(b) ==> !self.poisoned() && self.limit().admits_spec(b@.len()),
            !self.poisoned() && self.limit() is Infinite ==> r is Ok,
            !self.poisoned() && r is Err ==> r == Err::<Vec<u8>, SendError>(SendError::SizeLimit)
                && self.limit() is Bounded,
    {
        if self.poisoned {
            return Err(SendError::Poisoned);
        }
        let encoded = encode_value(v, self.write_limit);
        self.settle(encoded)
    }

    /// Records whether the frame of the last send was written whole. A failed
    /// write poisons the stream for good.
    pub fn record_write(&mut self, written: bool) -> (r: Result<(), SendError>)
        ensures
            final(self).limit() == old(self).limit(),
            final(self).poisoned() == (old(self).poisoned() || !written),
            written ==> r == Ok::<(), SendError>(()),
            !written ==> r == Err::<(), SendError>(SendError::Io),
    {
        if written {
            Ok(())
        } else {
            self.poisoned = true;
            Err(SendError::Io)
        }
    }
}

/// What sending a sequence does after one send.
#[derive(Clone, Copy, Debug, PartialEq, Eq, Structural)]
pub enum SendAllStep {
    /// The item went out: go on with the next. Holds how many went out so far.
    Next(usize),
    /// The item at this index failed: stop, and hand back that item, the
    /// items not yet taken, and the cause.
    Stop(usize, SendError),
}

/// Decides the next step of sending a sequence, given how many items went out
/// before this one and the result of sending it: the first failure ends the
/// run. A count at `usize::MAX` stays there.
pub fn send_all_step(sent: usize, result: Result<(), SendError>) -> (r: SendAllStep)
    ensures
        result matches Err(e) ==> r == SendAllStep::Stop(sent, e),
        result is Ok ==> r == SendAllStep::Next(if sent < usize::MAX { (sent + 1) as usize } else { sent }),
{
    match result {
        Ok(()) => {
            if sent < usize::MAX {
                SendAllStep::Next(sent + 1)
            } else {
                SendAllStep::Next(sent)
            }
        },
        Err(e) => SendAllStep::Stop(sent, e),
    }
}

} // verus!
