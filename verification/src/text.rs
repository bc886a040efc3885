//! The text form of the client's requests and of the server's responses, and
//! how each turns into the other form.

use crate::error::{Error, ErrorKind};
use nym_sphinx_addressing::clients::Recipient;
use vstd::prelude::*;
use vstd::utf8::{decode_utf8, encode_utf8, valid_utf8};

verus! {

/// A request as it is written down: every field is text.
#[derive(Debug, PartialEq, Eq)]
pub enum ClientRequestText {
    Send { message: String, recipient: String, with_reply_surb: bool, connection_id: u64 },
    SelfAddress,
    Reply { message: String, reply_surb: String },
}

/// A request as the client acts on it: the message as bytes, the address or
/// the reply token decoded from its base58 text.
#[derive(Debug, PartialEq, Eq)]
pub enum ClientRequest {
    Send { message: Vec<u8>, recipient: Vec<u8>, with_reply_surb: bool, connection_id: u64 },
    SelfAddress,
    Reply { message: Vec<u8>, reply_surb: Vec<u8> },
}

/// A response as the server produced it; addresses and reply tokens are
/// already in their text form.
#[derive(Debug, PartialEq, Eq)]
pub enum ServerResponse {
    Received { message: Vec<u8>, reply_surb: Option<String> },
    SelfAddress(String),
    Error(String),
}

/// A response as it is written down.
#[derive(Debug, PartialEq, Eq)]
pub enum ServerResponseText {
    Received { message: String, reply_surb: Option<String> },
    SelfAddress { address: String },
    Error { message: String },
}

/// What `Recipient::try_from_base58_string` of `nym_sphinx_addressing` makes
/// of an address: the recipient's bytes, or the words of its refusal.
pub uninterp spec fn recipient_decoding(address: Seq<char>) -> Result<Seq<u8>, Seq<char>>;

/// The text that `String::from_utf8_lossy` of std makes of `bytes`.
pub uninterp spec fn utf8_lossy(bytes: Seq<u8>) -> Seq<char>;

/// Calls `String::from_utf8_lossy` of std and takes the text as a `String`.
/// Valid UTF-8 is decoded as it stands; of other bytes only the name of the
/// result is claimed.
#[verifier::external_body]
fn from_utf8_lossy(bytes: &[u8]) -> (text: String)
    ensures
        text@ == utf8_lossy(bytes@),
        valid_utf8(bytes@) ==> text@ == decode_utf8(bytes@),
{
    String::from_utf8_lossy(bytes).into_owned()
}

fn text_bytes(text: &String) -> (bytes: Vec<u8>)
    ensures
        bytes@ == encode_utf8(text@),
{
    let mut bytes: Vec<u8> = Vec::new();
    bytes.extend_from_slice(text.as_str().as_bytes());
    assert(bytes@ =~= encode_utf8(text@));
    bytes
}

/// How the decoding of an address or a reply token went, by its views.
pub open spec fn decoded_view(decoded: Result<Vec<u8>, String>) -> Result<Seq<u8>, Seq<char>> {
    match decoded {
        Ok(bytes) => Ok(bytes@),
        Err(reason) => Err(reason@),
    }
}

/// Calls `Recipient::try_from_base58_string` of `nym_sphinx_addressing` and
/// hands back the recipient's bytes (`to_bytes`), or the error's own words.
/// Both are claimed to depend on the address alone.
#[verifier::external_body]
fn decode_recipient(address: &str) -> (res: Result<Vec<u8>, String>)
    ensures
        decoded_view(res) == recipient_decoding(address@),
{
    match Recipient::try_from_base58_string(address) {
        Ok(recipient) => Ok(recipient.to_bytes().to_vec()),
        Err(err) => Err(err.to_string()),
    }
}

impl ClientRequestText {
    /// Whether `res` is what the request turns into once the decoding of its
    /// address (for `Send`) or of its reply token (for `Reply`) has gone as
    /// `decoded` says. A request for the own address takes no decoding and
    /// always succeeds. For the other two, a failed decoding makes the request
    /// malformed, with the decoder's words, and a decoded one is taken
    /// over with the message as its UTF-8 bytes.
    pub open spec fn converts_to(
        self,
        decoded: Result<Seq<u8>, Seq<char>>,
        res: Result<ClientRequest, Error>,
    ) -> bool {
        match self {
            ClientRequestText::Send { message, recipient, with_reply_surb, connection_id } => {
                match decoded {
                    Ok(bytes) => {
                        &&& res matches Ok(
                            ClientRequest::Send {
                                message: m,
                                recipient: r,
                                with_reply_surb: w,
                                connection_id: c,
                            },
                        )
                        &&& m@ == encode_utf8(message@)
                        &&& r@ == bytes
                        &&& w == with_reply_surb
                        &&& c == connection_id
                    },
                    Err(reason) => {
                        &&& res matches Err(e)
                        &&& e.kind == ErrorKind::MalformedRequest
                        &&& e.message@ == reason
                    },
                }
            },
            ClientRequestText::SelfAddress => res matches Ok(request) && request is SelfAddress,
            ClientRequestText::Reply { message, reply_surb } => {
                match decoded {
                    Ok(bytes) => {
                        &&& res matches Ok(ClientRequest::Reply { message: m, reply_surb: r })
                        &&& m@ == encode_utf8(message@)
                        &&& r@ == bytes
                    },
                    Err(reason) => {
                        &&& res matches Err(e)
                        &&& e.kind == ErrorKind::MalformedRequest
                        &&& e.message@ == reason
                    },
                }
            },
        }
    }

    /// Turns the text form into a request, given how the decoding of its
    /// address or reply token went.
    pub fn try_into_request(self, decoded: Result<Vec<u8>, String>) -> (res: Result<
        ClientRequest,
        Error,
    >)
        ensures
            self.converts_to(decoded_view(decoded), res),
    {
        match self {
            ClientRequestText::Send { message, recipient, with_reply_surb, connection_id } => {
                let message_bytes = text_bytes(&message);
                match decoded {
                    Ok(recipient) => Ok(
                        ClientRequest::Send {
                            message: message_bytes,
                            recipient,
                            with_reply_surb,
                            connection_id,
                        },
                    ),
                    Err(reason) => Err(Error::new(ErrorKind::MalformedRequest, reason)),
                }
            },
            ClientRequestText::SelfAddress => Ok(ClientRequest::SelfAddress),
            ClientRequestText::Reply { message, reply_surb } => {
                let message_bytes = text_bytes(&message);
                match decoded {
                    Ok(reply_surb) => Ok(
                        ClientRequest::Reply { message: message_bytes, reply_surb },
                    ),
                    Err(reason) => Err(Error::new(ErrorKind::MalformedRequest, reason)),
                }
            },
        }
    }

    /// Turns the text form into a request. The recipient of a `Send` is
    /// decoded here; the reply token of a `Reply` is decoded by the caller,
    /// who hands in how that went (for the other two kinds it is not read).
    pub fn try_into(self, decoded_reply_surb: Result<Vec<u8>, String>) -> (res: Result<
        ClientRequest,
        Error,
    >)
        ensures
            match self {
                ClientRequestText::Send { recipient, .. } => self.converts_to(
                    recipient_decoding(recipient@),
                    res,
                ),
                _ => self.converts_to(decoded_view(decoded_reply_surb), res),
            },
    {
        match &self {
            ClientRequestText::Send { recipient, .. } => {
                let decoded = decode_recipient(recipient.as_str());
                self.try_into_request(decoded)
            },
            _ => self.try_into_request(decoded_reply_surb),
        }
    }
}

impl ServerResponseText {
    /// The text form of a response: a received message is read as UTF-8, with
    /// whatever is not UTF-8 replaced; the rest is taken over as it is.
    pub fn from_response(resp: ServerResponse) -> (text: ServerResponseText)
        ensures
            match resp {
                ServerResponse::Received { message, reply_surb } => {
                    &&& text matches ServerResponseText::Received { message: m, reply_surb: r }
                    &&& m@ == utf8_lossy(message@)
                    &&& (valid_utf8(message@) ==> m@ == decode_utf8(message@))
                    &&& r == reply_surb
                },
                ServerResponse::SelfAddress(address) => text
                    == (ServerResponseText::SelfAddress { address }),
                ServerResponse::Error(message) => text == (ServerResponseText::Error { message }),
            },
    {
        match resp {
            ServerResponse::Received { message, reply_surb } => ServerResponseText::Received {
                message: from_utf8_lossy(message.as_slice()),
                reply_surb,
            },
            ServerResponse::SelfAddress(address) => ServerResponseText::SelfAddress { address },
            ServerResponse::Error(message) => ServerResponseText::Error { message },
        }
    }
}

} // verus!
