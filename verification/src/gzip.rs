//! Request bodies: limited in length, and inflated where they are sent
//! compressed.

use vstd::prelude::*;
use crate::text::chars_of;

verus! {

/// Why a request body was not accepted.
#[derive(Debug, PartialEq, Eq, Clone, Copy, Structural)]
pub enum DecodeError {
    /// The body is said to be compressed and is no complete zlib stream.
    Corrupt,
    /// The body, as it was sent or as it is to be handed on, is longer than
    /// the limit.
    TooLarge,
}

/// A request body as the service is to read it: what was sent, inflated
/// where it was sent compressed.
pub struct MaybeGzip(pub Vec<u8>);

impl View for MaybeGzip {
    type V = Seq<u8>;

    open spec fn view(&self) -> Seq<u8> {
        self.0@
    }
}

/// What the zlib decoder of `flate2` reads from a stream of bytes: the bytes
/// that were compressed into the stream, or `None` where the decoder reports
/// the stream as corrupt or cut short.
pub uninterp spec fn zlib_inflated(data: Seq<u8>) -> Option<Seq<u8>>;

/// The bytes of an inflated stream, if there is one.
pub open spec fn inflated_bytes(inflated: Option<Vec<u8>>) -> Option<Seq<u8>> {
    match inflated {
        Some(plain) => Some(plain@),
        None => None,
    }
}

/// Whether a content encoding says that the body is compressed: it does if
/// it is `gzip`, in upper or lower case.
pub open spec fn signals_gzip(encoding: Option<Seq<char>>) -> bool {
    match encoding {
        Some(e) => {
            &&& e.len() == 4
            &&& (e[0] == 'g' || e[0] == 'G')
            &&& (e[1] == 'z' || e[1] == 'Z')
            &&& (e[2] == 'i' || e[2] == 'I')
            &&& (e[3] == 'p' || e[3] == 'P')
        },
        None => false,
    }
}

/// The text of a content encoding, if there is one.
pub open spec fn encoding_text(encoding: Option<&str>) -> Option<Seq<char>> {
    match encoding {
        Some(e) => Some(e@),
        None => None,
    }
}

/// The body that the service is to read, given what inflating the sent
/// bytes gives. Too long a body is refused before anything else; a body
/// that is not said to be compressed passes unchanged.
pub open spec fn decoded(
    bytes: Seq<u8>,
    encoding: Option<Seq<char>>,
    max_bytes: int,
    inflated: Option<Seq<u8>>,
) -> Result<Seq<u8>, DecodeError> {
    if bytes.len() > max_bytes {
        Err(DecodeError::TooLarge)
    } else if signals_gzip(encoding) {
        match inflated {
            Some(plain) => Ok(plain),
            None => Err(DecodeError::Corrupt),
        }
    } else {
        Ok(bytes)
    }
}

/// The bytes of a decoded body, or the error.
pub open spec fn body_bytes(r: Result<MaybeGzip, DecodeError>) -> Result<Seq<u8>, DecodeError> {
    match r {
        Ok(body) => Ok(body@),
        Err(e) => Err(e),
    }
}

/// Inflates a zlib stream with `flate2::read::ZlibDecoder`, read to its end
/// by `std::io::Read::read_to_end`. Nothing is proved of this function. Its
/// contract claims that what comes out depends on the bytes alone, and names
/// it `zlib_inflated`: the inflated bytes where the decoder reads the stream
/// to its end, `None` where it reports an error.
#[verifier::external_body]
fn inflate(data: &[u8]) -> (r: Option<Vec<u8>>)
    ensures
        inflated_bytes(r) == zlib_inflated(data@),
{
    let mut decoder = flate2::read::ZlibDecoder::new(data);
    let mut plain = Vec::new();
    match std::io::Read::read_to_end(&mut decoder, &mut plain) {
        Ok(_) => Some(plain),
        Err(_) => None,
    }
}

/// Whether a content encoding says that the body is compressed.
pub fn is_gzip_encoding(encoding: Option<&str>) -> (b: bool)
    ensures
        b == signals_gzip(encoding_text(encoding)),
{
    match encoding {
        Some(e) => {
            let chars = chars_of(e);
            chars.len() == 4 && (chars[0] == 'g' || chars[0] == 'G') && (chars[1] == 'z'
                || chars[1] == 'Z') && (chars[2] == 'i' || chars[2] == 'I') && (chars[3] == 'p'
                || chars[3] == 'P')
        },
        None => false,
    }
}

impl MaybeGzip {
    /// Inflates a zlib stream.
    pub fn zlib_decode(data: &[u8]) -> (r: Option<MaybeGzip>)
        ensures
            match r {
                Some(body) => zlib_inflated(data@) == Some(body@),
                None => zlib_inflated(data@) is None,
            },
    {
        match inflate(data) {
            Some(plain) => Some(MaybeGzip(plain)),
            None => None,
        }
    }

    /// Decodes a request body: refuses one that is longer than `max_bytes`
    /// as it was sent, inflates one that is said to be compressed, and
    /// passes any other unchanged.
    pub fn decode(bytes: Vec<u8>, content_encoding: Option<&str>, max_bytes: usize) -> (r: Result<
        MaybeGzip,
        DecodeError,
    >)
        ensures
            body_bytes(r) == decoded(
                bytes@,
                encoding_text(content_encoding),
                max_bytes as int,
                zlib_inflated(bytes@),
            ),
    {
        let inflated = if bytes.len() <= max_bytes && is_gzip_encoding(content_encoding) {
            inflate(bytes.as_slice())
        } else {
            None
        };
        MaybeGzip::decode_inflated(bytes, content_encoding, max_bytes, inflated)
    }

    /// Decodes a request body, given what inflating it gives. What
    /// `inflated` holds counts only for a body that is short enough and said
    /// to be compressed.
    pub fn decode_inflated(
        bytes: Vec<u8>,
        content_encoding: Option<&str>,
        max_bytes: usize,
        inflated: Option<Vec<u8>>,
    ) -> (r: Result<MaybeGzip, DecodeError>)
        ensures
            body_bytes(r) == decoded(
                bytes@,
                encoding_text(content_encoding),
                max_bytes as int,
                inflated_bytes(inflated),
            ),
    {
        if bytes.len() > max_bytes {
            Err(DecodeError::TooLarge)
        } else if is_gzip_encoding(content_encoding) {
            match inflated {
                Some(plain) => Ok(MaybeGzip(plain)),
                None => Err(DecodeError::Corrupt),
            }
        } else {
            Ok(MaybeGzip(bytes))
        }
    }

    /// The bytes to hand to the service, unless there are more of them than
    /// `max_bytes`: what the service is given is limited too, and an inflated
    /// body may be longer than what was sent.
    pub fn into_input(self, max_bytes: usize) -> (r: Result<Vec<u8>, DecodeError>)
        ensures
            match r {
                Ok(bytes) => self@.len() <= max_bytes && bytes@ == self@,
                Err(e) => self@.len() > max_bytes && e == DecodeError::TooLarge,
            },
    {
        if self.0.len() > max_bytes {
            Err(DecodeError::TooLarge)
        } else {
            Ok(self.0)
        }
    }

    /// The bytes of the body.
    pub fn into_bytes(self) -> (bytes: Vec<u8>)
        ensures
            bytes@ == self@,
    {
        self.0
    }
}

} // verus!
