//! The one response that the host sends for a request.

use vstd::prelude::*;

verus! {

/// One header of a response.
#[derive(Debug, PartialEq, Eq)]
pub struct Header {
    pub name: String,
    pub value: String,
}

/// A response as a mathematical value.
pub struct Outgoing {
    pub status_code: u16,
    pub headers: Seq<(Seq<char>, Seq<char>)>,
    pub body: Seq<char>,
}

/// A finished response: status code, headers and body.
#[derive(Debug, PartialEq, Eq)]
pub struct OutgoingResponse {
    pub status_code: u16,
    pub headers: Vec<Header>,
    pub body: String,
}

/// The headers as the model holds them.
pub open spec fn headers_view(headers: Seq<Header>) -> Seq<(Seq<char>, Seq<char>)> {
    Seq::new(headers.len(), |i: int| (headers[i].name@, headers[i].value@))
}

impl View for OutgoingResponse {
    type V = Outgoing;

    open spec fn view(&self) -> Outgoing {
        Outgoing {
            status_code: self.status_code,
            headers: headers_view(self.headers@),
            body: self.body@,
        }
    }
}

/// The response that carries a JSON text: status 200 and the one header
/// `content-type: application/json`.
pub open spec fn success_response(body: Seq<char>) -> Outgoing {
    Outgoing {
        status_code: 200,
        headers: seq![("content-type"@, "application/json"@)],
        body,
    }
}

/// The response that reports a failure: the status, no header, and the
/// message as plain text.
pub open spec fn error_response(status: u16, body: Seq<char>) -> Outgoing {
    Outgoing { status_code: status, headers: Seq::empty(), body }
}

/// Makes the response that carries the JSON text `body`.
pub fn send_success_response(body: String) -> (out: OutgoingResponse)
    ensures
        out@ == success_response(body@),
{
    let headers = vec![
        Header { name: "content-type".to_owned(), value: "application/json".to_owned() },
    ];
    proof {
        assert(headers_view(headers@) =~= seq![("content-type"@, "application/json"@)]);
    }
    OutgoingResponse { status_code: 200, headers, body }
}

/// Makes the response that reports a failure with `status` and the plain
/// text `body`.
pub fn send_error_response(status: u16, body: String) -> (out: OutgoingResponse)
    ensures
        out@ == error_response(status, body@),
{
    let headers: Vec<Header> = Vec::new();
    proof {
        assert(headers_view(headers@) =~= Seq::empty());
    }
    OutgoingResponse { status_code: status, headers, body }
}

} // verus!
