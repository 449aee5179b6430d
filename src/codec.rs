use vstd::prelude::*;

use rustc_serialize::{Decodable, Encodable};

use crate::limit::SizeLimit;

verus! {

/// Why a value could not be encoded.
#[derive(Clone, Copy, Debug, PartialEq, Eq, Structural)]
pub enum EncodeError {
    /// The encoding is longer than the write limit; nothing was produced.
    SizeLimit,
    /// The encoder reported a failure of its output.
    Io,
}

/// Why a value could not be decoded.
#[derive(Clone, Copy, Debug, PartialEq, Eq, Structural)]
pub enum DecodeError {
    /// Decoding would read past the read limit.
    SizeLimit,
    /// The bytes are not the encoding of a value of the expected type.
    InvalidEncoding,
    /// The bytes ended inside a value.
    EndOfStream,
    /// The input reported another failure.
    Io,
}

/// `std::io::Error`, carried through the decoder's reader unopened.
#[verifier::external_type_specification]
#[verifier::external_body]
pub struct ExIoError(std::io::Error);

/// The unread part of a buffer, as the decoder reads it. Unlike a plain
/// slice, it reports running dry as an error, so that a value cut short by
/// the end of the buffer is never taken for a shorter one.
pub(crate) struct BufferReader<'a> {
    rest: &'a [u8],
}

/// Relies on `std::io::Error::from(ErrorKind::UnexpectedEof)`.
#[verifier::external_body]
fn end_of_input() -> (r: std::io::Error) {
    std::io::Error::from(std::io::ErrorKind::UnexpectedEof)
}

/// Relies on `<&[u8] as std::io::Read>::read`: it copies bytes from the front
/// of the slice into `buf`, moves the slice past them and never fails.
#[verifier::external_body]
fn read_front(rest: &mut &[u8], buf: &mut [u8]) -> (r: usize)
    ensures
        r <= old(rest)@.len(),
        r <= old(buf)@.len(),
        final(buf)@.subrange(0, r as int) == old(rest)@.subrange(0, r as int),
        final(rest)@ == old(rest)@.subrange(r as int, old(rest)@.len() as int),
{
    std::io::Read::read(rest, buf).unwrap_or(0)
}

impl<'a> std::io::Read for BufferReader<'a> {
    fn read(&mut self, buf: &mut [u8]) -> std::io::Result<usize> {
        if self.rest.len() == 0 && buf.len() > 0 {
            return Err(end_of_input());
        }
        Ok(read_front(&mut self.rest, buf))
    }
}

/// Relies on `bincode::rustc_serialize::encode`: under a bounded limit it
/// measures the encoding first and refuses one that is longer, producing
/// nothing; otherwise it encodes into a `Vec`, which cannot fail, and an
/// `Encodable` impl has no way to make an encoder error of its own. (Its
/// writer panics on an enum variant index above `u32::MAX`, which only a
/// hand-written impl can hand it.)
#[verifier::external_body]
pub(crate) fn encode_value<T: Encodable>(v: &T, limit: SizeLimit) -> (r: Result<Vec<u8>, EncodeError>)
    ensures
        r matches Ok(b) ==> limit.admits_spec(b@.len()),
        limit is Infinite ==> r is Ok,
        r matches Err(e) ==> e == EncodeError::SizeLimit,
{
    let l = match limit {
        SizeLimit::Infinite => bincode::SizeLimit::Infinite,
        SizeLimit::Bounded(n) => bincode::SizeLimit::Bounded(n),
    };
    match bincode::rustc_serialize::encode(v, l) {
        Ok(b) => Ok(b),
        Err(bincode::rustc_serialize::EncodingError::SizeLimit) => Err(EncodeError::SizeLimit),
        Err(bincode::rustc_serialize::EncodingError::IoError(_)) => Err(EncodeError::Io),
    }
}

/// Relies on `bincode::rustc_serialize::decode_from` over a `BufferReader`:
/// it reads from the front of the bytes and leaves the reader at the first
/// byte that it did not read. Returns the value and the number of bytes that
/// were left unread. The reader fails only by running dry, which bincode
/// reports as an end of input, so no other input error comes. The limit is
/// passed on, but bincode does not count every byte against it (a one-byte
/// `char` goes uncounted): callers check what was used themselves.
#[verifier::external_body]
pub(crate) fn decode_prefix<T: Decodable>(bytes: &[u8], limit: SizeLimit) -> (r: Result<(T, usize), DecodeError>)
    ensures
        r matches Ok((_, rest)) ==> rest <= bytes@.len(),
        r matches Err(e) ==> e != DecodeError::Io,
{
    let l = match limit {
        SizeLimit::Infinite => bincode::SizeLimit::Infinite,
        SizeLimit::Bounded(n) => bincode::SizeLimit::Bounded(n),
    };
    let mut reader = BufferReader { rest: bytes };
    match bincode::rustc_serialize::decode_from(&mut reader, l) {
        Ok(v) => Ok((v, reader.rest.len())),
        Err(bincode::rustc_serialize::DecodingError::SizeLimit) => Err(DecodeError::SizeLimit),
        Err(bincode::rustc_serialize::DecodingError::InvalidEncoding(_)) => Err(DecodeError::InvalidEncoding),
        Err(bincode::rustc_serialize::DecodingError::IoError(e)) => match e.kind() {
            std::io::ErrorKind::UnexpectedEof => Err(DecodeError::EndOfStream),
            _ => Err(DecodeError::Io),
        },
    }
}

} // verus!
