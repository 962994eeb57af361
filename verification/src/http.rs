//! Answering HTTP requests: given the bytes a client sent, decide the
//! reply.  Reading from and writing to the connection stays outside this
//! crate; the request head itself is parsed by the `httparse` crate behind
//! a trusted wrapper.

use vstd::prelude::*;

verus! {

/// The method token that the request head at `b` names, if the head
/// parses and carries one.  The parse outcome is a function of the bytes
/// alone; this name stands for it.
pub uninterp spec fn http_method_of(b: Seq<u8>) -> Option<Seq<u8>>;

/// Relies on `httparse::Request::parse`, called with room for 64 headers:
/// whether a request head parses and which method token it names depends
/// on the buffer's bytes alone.  A head that does not parse, or that has
/// not reached its method token yet, reports no method.
#[verifier::external_body]
fn parse_method(buf: &Vec<u8>) -> (r: Option<Vec<u8>>)
    ensures
        (r is Some) == (http_method_of(buf@) is Some),
        r matches Some(m) ==> Some(m@) == http_method_of(buf@),
{
    let mut headers = [httparse::EMPTY_HEADER; 64];
    let mut request = httparse::Request::new(&mut headers);
    match request.parse(buf.as_slice()) {
        Ok(_) => request.method.map(|m| m.as_bytes().to_vec()),
        Err(_) => None,
    }
}

/// The one method served here.
pub open spec fn get_token() -> Seq<u8> {
    seq![71u8, 69u8, 84u8]
}

/// The text answered to every served request.
pub open spec fn ok_response_spec() -> Seq<char> {
    "HTTP/1.1 200 OK\nServer: D3OS httpd\nConnection: close\nContent-Type: text/plain; charset=UTF-8\n\nHello from D3OS!\n\n"@
}

/// What the server answers a client.
#[derive(Debug, PartialEq, Eq)]
pub enum HttpReply {
    /// The canned success page, for a served method.
    Response(String),
    /// The head parsed but named a method not served here; the caller
    /// treats this as the original did, as an unimplemented case.
    UnknownMethod(Vec<u8>),
    /// The head did not parse, or named no method; nothing is answered.
    Malformed,
}

fn is_get(m: &Vec<u8>) -> (r: bool)
    ensures
        r == (m@ == get_token()),
{
    let r = m.len() == 3 && m[0] == 71u8 && m[1] == 69u8 && m[2] == 84u8;
    proof {
        if r {
            assert(m@ =~= get_token());
        } else {
            assert(m@ != get_token());
        }
    }
    r
}

/// Decide the reply to one request: a parsed `GET` head earns the canned
/// page, any other parsed method is reported back as unknown, and a head
/// without a method is malformed and earns nothing.
pub fn handle_request(buf: &Vec<u8>) -> (r: HttpReply)
    ensures
        (r is Malformed) <==> http_method_of(buf@) is None,
        (r is Response) <==> http_method_of(buf@) == Some(get_token()),
        r matches HttpReply::Response(s) ==> s@ == ok_response_spec(),
        r matches HttpReply::UnknownMethod(m) ==> Some(m@) == http_method_of(buf@) && m@
            != get_token(),
{
    let method = match parse_method(buf) {
        Some(m) => m,
        None => {
            return HttpReply::Malformed;
        },
    };
    if is_get(&method) {
        HttpReply::Response(
            String::from_str(
                "HTTP/1.1 200 OK\nServer: D3OS httpd\nConnection: close\nContent-Type: text/plain; charset=UTF-8\n\nHello from D3OS!\n\n",
            ),
        )
    } else {
        HttpReply::UnknownMethod(method)
    }
}

} // verus!
