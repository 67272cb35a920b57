use vstd::prelude::*;
use crate::decode::{decode, decoded, failure_message, DecodeError};
use crate::pixel::PixelBuffer;

verus! {

/// Status of a reply when decoding or encoding failed.
pub const INTERNAL_ERROR: u16 = 500;

/// Status of a reply when the upstream could not be reached.
pub const BAD_GATEWAY: u16 = 502;

/// Status of a reply that carries an AVIF image.
pub const OK: u16 = 200;

/// What a reply carries.
#[derive(Clone, Debug, PartialEq, Eq)]
pub enum ReplyBody {
    /// Encoded AVIF bytes, sent as `image/avif`.
    Avif(Vec<u8>),
    /// A plain-text reason for a failure.
    Text(String),
}

/// The single response to one request.
#[derive(Clone, Debug, PartialEq, Eq)]
pub struct Reply {
    pub status: u16,
    pub body: ReplyBody,
}

impl Reply {
    /// The content type of the reply.
    pub fn content_type(&self) -> (r: &'static str)
        ensures
            self.body is Avif ==> r@ == "image/avif"@,
            self.body is Text ==> r@ == "text/plain"@,
    {
        proof {
            reveal_strlit("image/avif");
            reveal_strlit("text/plain");
        }
        match self.body {
            ReplyBody::Avif(_) => "image/avif",
            ReplyBody::Text(_) => "text/plain",
        }
    }
}

/// Whether an HTTP status is in the success class.
pub open spec fn is_success_spec(status: u16) -> bool {
    200 <= status < 300
}

/// Whether an HTTP status is in the success class.
pub fn is_success(status: u16) -> (r: bool)
    ensures
        r == is_success_spec(status),
{
    200 <= status && status < 300
}

/// The character of one decimal digit.
pub open spec fn digit_char(d: nat) -> char {
    if d == 0 { '0' } else if d == 1 { '1' } else if d == 2 { '2' } else if d == 3 { '3' }
    else if d == 4 { '4' } else if d == 5 { '5' } else if d == 6 { '6' } else if d == 7 { '7' }
    else if d == 8 { '8' } else { '9' }
}

/// The decimal text of a number, without leading zeros.
pub open spec fn decimal(n: nat) -> Seq<char>
    decreases n,
{
    if n < 10 {
        seq![digit_char(n)]
    } else {
        decimal(n / 10).push(digit_char(n % 10))
    }
}

fn digit_str(d: u16) -> (r: &'static str)
    requires
        d < 10,
    ensures
        r@ == seq![digit_char(d as nat)],
{
    proof {
        reveal_strlit("0");
        reveal_strlit("1");
        reveal_strlit("2");
        reveal_strlit("3");
        reveal_strlit("4");
        reveal_strlit("5");
        reveal_strlit("6");
        reveal_strlit("7");
        reveal_strlit("8");
        reveal_strlit("9");
    }
    if d == 0 { "0" } else if d == 1 { "1" } else if d == 2 { "2" } else if d == 3 { "3" }
    else if d == 4 { "4" } else if d == 5 { "5" } else if d == 6 { "6" } else if d == 7 { "7" }
    else if d == 8 { "8" } else { "9" }
}

/// Writes a status code in decimal.
pub fn status_text(n: u16) -> (r: String)
    ensures
        r@ == decimal(n as nat),
    decreases n,
{
    if n < 10 {
        String::from_str(digit_str(n))
    } else {
        let mut s = status_text(n / 10);
        s.append(digit_str(n % 10));
        s
    }
}

/// The URL fetched upstream: the base followed verbatim by the request path.
pub fn upstream_url(base: &str, path: &str) -> (r: String)
    ensures
        r@ == base@ + path@,
{
    let mut s = String::from_str(base);
    s.append(path);
    s
}

/// The reply when the upstream answered with a status outside the success class.
pub fn upstream_status_reply(status: u16) -> (r: Reply)
    ensures
        r.status == status,
        r.body is Text && r.body->Text_0@ == decimal(status as nat),
{
    Reply { status, body: ReplyBody::Text(status_text(status)) }
}

/// The reply when the upstream could not be reached at all.
pub fn transport_reply(reason: String) -> (r: Reply)
    ensures
        r.status == BAD_GATEWAY,
        r.body is Text && r.body->Text_0@ == reason@,
{
    Reply { status: BAD_GATEWAY, body: ReplyBody::Text(reason) }
}

/// The reply when the fetched bytes could not be decoded.
pub fn decode_reply(e: &DecodeError) -> (r: Reply)
    ensures
        r.status == INTERNAL_ERROR,
        r.body is Text && r.body->Text_0@ == failure_message(e@),
{
    Reply { status: INTERNAL_ERROR, body: ReplyBody::Text(e.message()) }
}

/// Takes an upstream answer to the decoded pixel buffer, or to the reply that ends the request.
pub fn after_fetch(status: u16, body: &[u8]) -> (r: Result<PixelBuffer, Reply>)
    ensures
        !is_success_spec(status) ==> r is Err && r->Err_0.status == status
            && r->Err_0.body is Text && r->Err_0.body->Text_0@ == decimal(status as nat),
        is_success_spec(status) ==> match r {
            Ok(buf) => buf.wf() && decoded(body@) == Ok::<_, crate::decode::DecodeFailure>((buf.width, buf.height, buf.pixels@)),
            Err(reply) => reply.status == INTERNAL_ERROR && decoded(body@) is Err && reply.body is Text
                && reply.body->Text_0@ == failure_message(decoded(body@)->Err_0),
        },
{
    if !is_success(status) {
        return Err(upstream_status_reply(status));
    }
    match decode(body) {
        Ok(buf) => Ok(buf),
        Err(e) => Err(decode_reply(&e)),
    }
}

/// Takes what the encoder returned to the reply.
pub fn after_encode(encoded: Result<Vec<u8>, String>) -> (r: Reply)
    ensures
        match encoded {
            Ok(bytes) => r.status == OK && r.body == ReplyBody::Avif(bytes),
            Err(reason) => r.status == INTERNAL_ERROR && r.body is Text && r.body->Text_0@ == reason@,
        },
{
    match encoded {
        Ok(bytes) => Reply { status: OK, body: ReplyBody::Avif(bytes) },
        Err(reason) => Reply { status: INTERNAL_ERROR, body: ReplyBody::Text(reason) },
    }
}

} // verus!
