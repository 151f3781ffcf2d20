//! The narrowest layer of the transport bridge: what a completed HTTP exchange
//! means for the caller.
//!
//! A response carries a body only when its status is in the 2xx range. The
//! body arrives in chunks, as the reads of the connection deliver them, and an
//! empty chunk marks its end. The body is the text of all its bytes taken
//! together: how the bytes were cut into chunks does not show.

use crate::numeral::decimal;
use crate::numeral::push_decimal;
use vstd::prelude::*;
use vstd::string::*;
use vstd::utf8::*;

verus! {

/// The stateless transport endpoint. One `get` or `post` is one round trip;
/// the functions below decide what that round trip yields.
#[derive(Debug, Clone, Copy, PartialEq, Eq, Structural)]
pub struct Pipe;

/// Why an exchange produced no body.
#[derive(Debug, Clone, Copy, PartialEq, Eq, Structural)]
pub enum TransportError {
    /// The server answered with this status, which is outside 200..=299.
    Status(u16),
    /// The bytes of the body are not well-formed UTF-8.
    Malformed,
}

/// Whether the body is complete after a chunk was taken in.
#[derive(Debug, Clone, Copy, PartialEq, Eq, Structural)]
pub enum Progress {
    /// The chunk was appended; more may follow.
    More,
    /// The chunk was empty: the body is complete.
    Complete,
}

/// The bytes of a body, as far as they were read. Its view is those bytes.
#[derive(Debug, Clone, PartialEq, Eq)]
pub struct Body {
    bytes: Vec<u8>,
}

impl View for Body {
    type V = Seq<u8>;

    closed spec fn view(&self) -> Seq<u8> {
        self.bytes@
    }
}

/// The statuses that carry a body.
pub open spec fn is_success(status: u16) -> bool {
    200 <= status <= 299
}

/// The text of `bytes`, or an error where they are not well-formed UTF-8.
pub open spec fn text(bytes: Seq<u8>) -> Result<Seq<char>, TransportError> {
    if valid_utf8(bytes) {
        Ok(decode_utf8(bytes))
    } else {
        Err(TransportError::Malformed)
    }
}

/// The bytes of the body that was read as `chunks`: those of the chunks up to
/// the first empty one, or of all where none is empty.
pub open spec fn received(chunks: Seq<Seq<u8>>) -> Seq<u8>
    decreases chunks.len(),
{
    if chunks.len() == 0 || chunks[0].len() == 0 {
        Seq::empty()
    } else {
        chunks[0] + received(chunks.drop_first())
    }
}

/// What an exchange yields that was answered with `status` and whose body
/// was read as `chunks`: the text of the body for a 2xx status, the status as
/// an error otherwise.
pub open spec fn response(status: u16, chunks: Seq<Seq<u8>>) -> Result<Seq<char>, TransportError> {
    if is_success(status) {
        text(received(chunks))
    } else {
        Err(TransportError::Status(status))
    }
}

/// The text of an error, as shown to an operator.
pub open spec fn message_text(error: TransportError) -> Seq<char> {
    match error {
        TransportError::Status(status) => "Bad status code: "@ + decimal(status as nat),
        TransportError::Malformed => "Response body is not valid UTF-8"@,
    }
}

/// `std::str::from_utf8`: the bytes come back as text exactly when they are
/// well-formed UTF-8, and that text encodes to the very same bytes.
#[verifier::external_body]
fn text_of(bytes: &[u8]) -> (text: Option<&str>)
    ensures
        text is Some <==> valid_utf8(bytes@),
        text matches Some(t) ==> t.spec_bytes() == bytes@,
{
    std::str::from_utf8(bytes).ok()
}

impl TransportError {
    /// The text of this error.
    pub fn message(&self) -> (text: String)
        ensures
            text@ == message_text(*self),
    {
        match self {
            TransportError::Status(status) => {
                let mut text = String::from_str("Bad status code: ");
                push_decimal(&mut text, *status);
                text
            },
            TransportError::Malformed => String::from_str("Response body is not valid UTF-8"),
        }
    }
}

impl Body {
    /// Takes in the next chunk read from the response: its bytes are appended,
    /// and an empty chunk says that the body is complete.
    pub fn absorb(&mut self, chunk: &[u8]) -> (progress: Progress)
        ensures
            final(self)@ == old(self)@ + chunk@,
            progress == if chunk@.len() == 0 {
                Progress::Complete
            } else {
                Progress::More
            },
    {
        self.bytes.extend_from_slice(chunk);
        assert(self@ =~= old(self)@ + chunk@);
        if chunk.len() == 0 {
            Progress::Complete
        } else {
            Progress::More
        }
    }

    /// The body as text, or an error where its bytes are not well-formed
    /// UTF-8.
    pub fn into_text(self) -> (body: Result<String, TransportError>)
        ensures
            match body {
                Ok(string) => text(self@) == Ok::<Seq<char>, TransportError>(string@),
                Err(error) => text(self@) == Err::<Seq<char>, TransportError>(error),
            },
    {
        match text_of(self.bytes.as_slice()) {
            Some(string) => {
                proof {
                    encode_utf8_decode_utf8(string@);
                }
                Ok(String::from_str(string))
            },
            None => Err(TransportError::Malformed),
        }
    }
}

impl Pipe {
    /// Opens the body of a response: an empty body to read into when the
    /// status is in the 2xx range, and the status as an error otherwise.
    pub fn begin(status: u16) -> (body: Result<Body, TransportError>)
        ensures
            match body {
                Ok(empty) => is_success(status) && empty@ == Seq::<u8>::empty(),
                Err(error) => !is_success(status) && error == TransportError::Status(status),
            },
    {
        if 200 <= status && status <= 299 {
            Ok(Body { bytes: Vec::new() })
        } else {
            Err(TransportError::Status(status))
        }
    }

    /// What a whole exchange yields: the response was answered with `status`
    /// and its body was read as `chunks`, in this order.
    pub fn respond(status: u16, chunks: &Vec<Vec<u8>>) -> (body: Result<String, TransportError>)
        ensures
            match body {
                Ok(string) => response(status, chunks.deep_view()) == Ok::<
                    Seq<char>,
                    TransportError,
                >(string@),
                Err(error) => response(status, chunks.deep_view()) == Err::<
                    Seq<char>,
                    TransportError,
                >(error),
            },
    {
        let mut body = match Pipe::begin(status) {
            Ok(body) => body,
            Err(error) => return Err(error),
        };
        let ghost all = chunks.deep_view();
        let mut taken: usize = 0;
        assert(all.skip(0) =~= all);
        while taken < chunks.len()
            invariant_except_break
                taken <= all.len(),
                received(all) == body@ + received(all.skip(taken as int)),
            invariant
                is_success(status),
                all == chunks.deep_view(),
            ensures
                received(all) == body@,
            decreases all.len() - taken,
        {
            let ghost rest = all.skip(taken as int);
            let ghost before = body@;
            assert(rest[0] == chunks@[taken as int]@);
            assert(rest.drop_first() =~= all.skip(taken + 1));
            match body.absorb(chunks[taken].as_slice()) {
                Progress::Complete => {
                    assert(before + rest[0] =~= before + received(rest));
                    break ;
                },
                Progress::More => {
                    assert(before + (rest[0] + received(rest.drop_first())) =~= (before + rest[0])
                        + received(rest.drop_first()));
                },
            }
            taken += 1;
        }
        body.into_text()
    }
}

/// Chunking does not show. Where no chunk is empty, the body is made of all
/// the bytes of the chunks in their order, however they were cut: the same
/// bytes, cut otherwise, are the same body.
pub proof fn lemma_chunking_does_not_show(chunks: Seq<Seq<u8>>)
    requires
        forall|i: int| 0 <= i < chunks.len() ==> (#[trigger] chunks[i]).len() > 0,
    ensures
        received(chunks) == chunks.flatten(),
    decreases chunks.len(),
{
    if chunks.len() > 0 {
        let rest = chunks.drop_first();
        assert forall|i: int| 0 <= i < rest.len() implies (#[trigger] rest[i]).len() > 0 by {
            assert(rest[i] == chunks[i + 1]);
        }
        lemma_chunking_does_not_show(rest);
    }
}

} // verus!
