//! The HTTP response value and its serializer.
//!
//! A response is an owned, immutable value: status line, header mapping and
//! optional body. Serialization produces the exact wire text
//! `<version> <code> <text>\r\n<header-lines>Content-Length: <n>\r\n\r\n<body>`,
//! where `<n>` is the byte length of the body (not its character count) and
//! each header line is `<key>:<value>\r\n` with a bare colon. The whole wire
//! text is pinned down by [`spec_wire`], so serializing the same value twice
//! necessarily yields identical output.

use crate::decimal::{spec_decimal, u64_to_decimal};
use crate::sink::ResponseSink;
use vstd::prelude::*;
use vstd::string::*;
use vstd::utf8::encode_utf8;

verus! {

broadcast use vstd::slice::group_slice_axioms;

/// Why a response could not be produced or delivered.
#[derive(Debug, Clone, Copy, PartialEq, Eq)]
pub enum RouteError {
    /// Serialization was requested on a response without a body.
    MissingBody,
    /// The sink rejected the write (for example a reset connection).
    IoError,
}

/// A complete HTTP response: status line, header mapping, optional body.
///
/// The header mapping is kept as a list of key/value pairs; its order on the
/// wire is unspecified, so clients must compare header sets, not positions.
#[derive(Debug, Clone, PartialEq)]
pub struct HttpResonse {
    pub version: String,
    pub status_code: String,
    pub status_text: String,
    pub headers: Option<Vec<(String, String)>>,
    pub body: Option<String>,
}

/// The fixed status-text table. Any code outside the table maps to
/// `"Not Found"`; that permissive fallback is part of the observed wire
/// behaviour and is kept deliberately.
pub open spec fn spec_status_text(code: Seq<char>) -> Seq<char> {
    if code == "200"@ {
        "OK"@
    } else if code == "400"@ {
        "Bad Request"@
    } else if code == "404"@ {
        "Not Found"@
    } else if code == "500"@ {
        "Internal Server Error"@
    } else {
        "Not Found"@
    }
}

/// The header pairs a response carries (empty when none were set).
pub open spec fn spec_headers(r: HttpResonse) -> Seq<(String, String)> {
    match r.headers {
        Some(h) => h@,
        None => Seq::empty(),
    }
}

/// The wire text of a header list: one `<key>:<value>\r\n` line per pair,
/// in list order.
pub open spec fn spec_header_lines(hs: Seq<(String, String)>) -> Seq<char>
    decreases hs.len(),
{
    if hs.len() == 0 {
        Seq::empty()
    } else {
        spec_header_lines(hs.drop_last()) + hs.last().0@ + ":"@ + hs.last().1@ + "\r\n"@
    }
}

/// The exact wire text of a response that has a body. `Content-Length` is
/// the byte length of the UTF-8 encoding of the body, so multi-byte bodies
/// count bytes, not characters.
pub open spec fn spec_wire(r: HttpResonse) -> Seq<char>
    recommends
        r.body is Some,
{
    r.version@ + " "@ + r.status_code@ + " "@ + r.status_text@ + "\r\n"@ + spec_header_lines(
        spec_headers(r),
    ) + "Content-Length: "@ + spec_decimal(encode_utf8(r.body.unwrap()@).len()) + "\r\n\r\n"@
        + r.body.unwrap()@
}

/// The status-text table, stated as a law: each of the recognized codes
/// `200`, `400`, `404`, `500` maps to its fixed text, and every code outside
/// the table maps to `"Not Found"`.
pub proof fn lemma_status_text_table(code: Seq<char>)
    ensures
        spec_status_text("200"@) == "OK"@,
        spec_status_text("400"@) == "Bad Request"@,
        spec_status_text("404"@) == "Not Found"@,
        spec_status_text("500"@) == "Internal Server Error"@,
        code != "200"@ && code != "400"@ && code != "404"@ && code != "500"@
            ==> spec_status_text(code) == "Not Found"@,
{
    reveal_strlit("200");
    reveal_strlit("400");
    reveal_strlit("404");
    reveal_strlit("500");
    assert("400"@[0] == '4' && "200"@[0] == '2');
    assert("404"@[0] == '4' && "404"@[2] == '4' && "400"@[2] == '0');
    assert("500"@[0] == '5');
}

/// `Content-Length` always equals the byte length of the body — the length
/// of its UTF-8 encoding, not its character count: the wire text embeds the
/// decimal rendering of exactly that number.
pub proof fn lemma_content_length_is_byte_length(r: HttpResonse, body: String)
    requires
        r.body == Some(body),
    ensures
        spec_wire(r) == r.version@ + " "@ + r.status_code@ + " "@ + r.status_text@ + "\r\n"@
            + spec_header_lines(spec_headers(r)) + "Content-Length: "@ + spec_decimal(
            encode_utf8(body@).len(),
        ) + "\r\n\r\n"@ + body@,
{
}

/// Serialization is deterministic: two serializations of one response value
/// yield identical wire text, since each equals [`spec_wire`] of the value.
pub proof fn lemma_serialization_idempotent(r: HttpResonse, s1: String, s2: String)
    requires
        r.body is Some,
        s1@ == spec_wire(r),
        s2@ == spec_wire(r),
    ensures
        s1@ == s2@,
{
}

/// String equality by character content.
fn str_eq(a: &str, b: &str) -> (r: bool)
    ensures
        r == (a@ == b@),
{
    let sa = String::from_str(a);
    let sb = String::from_str(b);
    sa == sb
}

impl Default for HttpResonse {
    /// The `200 OK` skeleton every response starts from: fixed protocol
    /// version, no headers, no body.
    fn default() -> (d: Self)
        ensures
            d.version@ == "HTTP/1.1"@,
            d.status_code@ == "200"@,
            d.status_text@ == "OK"@,
            d.headers is None,
            d.body is None,
    {
        HttpResonse {
            version: String::from_str("HTTP/1.1"),
            status_code: String::from_str("200"),
            status_text: String::from_str("OK"),
            headers: None,
            body: None,
        }
    }
}

impl HttpResonse {
    /// Builds a response. The status code is stored verbatim; the status text
    /// comes from the fixed table (anything unrecognized maps to
    /// `"Not Found"`). When no headers are supplied the mapping defaults to
    /// exactly `{"Content-Type": "text/html"}`; a supplied mapping is used
    /// verbatim, with no merge. The body is stored verbatim. Construction is
    /// pure and always succeeds.
    pub fn new(
        status_code: &str,
        headers: Option<Vec<(String, String)>>,
        body: Option<String>,
    ) -> (resp: Self)
        ensures
            resp.version@ == "HTTP/1.1"@,
            resp.status_code@ == status_code@,
            resp.status_text@ == spec_status_text(status_code@),
            headers is Some ==> resp.headers == headers,
            headers is None ==> (resp.headers matches Some(h) && h@.len() == 1 && h@[0].0@
                == "Content-Type"@ && h@[0].1@ == "text/html"@),
            resp.body == body,
    {
        let mut resp = HttpResonse::default();
        if !str_eq(status_code, "200") {
            resp.status_code = String::from_str(status_code);
        }
        resp.headers = match headers {
            Some(h) => Some(h),
            None => {
                let mut h: Vec<(String, String)> = Vec::new();
                h.push((String::from_str("Content-Type"), String::from_str("text/html")));
                Some(h)
            },
        };
        resp.status_text = if str_eq(status_code, "200") {
            String::from_str("OK")
        } else if str_eq(status_code, "400") {
            String::from_str("Bad Request")
        } else if str_eq(status_code, "404") {
            String::from_str("Not Found")
        } else if str_eq(status_code, "500") {
            String::from_str("Internal Server Error")
        } else {
            String::from_str("Not Found")
        };
        resp.body = body;
        resp
    }

    /// The protocol version, always `"HTTP/1.1"`.
    pub fn version(&self) -> (v: &str)
        ensures
            v@ == self.version@,
    {
        self.version.as_str()
    }

    /// The status code exactly as it was given to [`HttpResonse::new`].
    pub fn status_code(&self) -> (c: &str)
        ensures
            c@ == self.status_code@,
    {
        self.status_code.as_str()
    }

    /// The status text derived from the fixed table.
    pub fn status_text(&self) -> (t: &str)
        ensures
            t@ == self.status_text@,
    {
        self.status_text.as_str()
    }

    /// The header block as wire text: one `<key>:<value>\r\n` line per pair.
    pub fn headers(&self) -> (h: String)
        ensures
            h@ == spec_header_lines(spec_headers(*self)),
    {
        let mut s = String::new();
        match &self.headers {
            None => {},
            Some(hs) => {
                let mut i: usize = 0;
                while i < hs.len()
                    invariant
                        i <= hs@.len(),
                        s@ == spec_header_lines(hs@.take(i as int)),
                    decreases hs@.len() - i,
                {
                    s.append(hs[i].0.as_str());
                    s.append(":");
                    s.append(hs[i].1.as_str());
                    s.append("\r\n");
                    proof {
                        assert(hs@.take(i as int + 1).drop_last() =~= hs@.take(i as int));
                        assert(hs@.take(i as int + 1).last() == hs@[i as int]);
                        assert(s@ =~= spec_header_lines(hs@.take(i as int + 1)));
                    }
                    i = i + 1;
                }
                proof {
                    assert(hs@.take(hs@.len() as int) =~= hs@);
                }
            },
        }
        s
    }

    /// The body text, or the empty string when no body is set.
    pub fn body(&self) -> (b: &str)
        ensures
            self.body is Some ==> b@ == self.body.unwrap()@,
            self.body is None ==> b@ == Seq::<char>::empty(),
    {
        match &self.body {
            Some(b) => b.as_str(),
            None => {
                let e = "";
                proof {
                    reveal_strlit("");
                    assert(e@ =~= Seq::<char>::empty());
                }
                e
            },
        }
    }

    /// Serializes the response to its exact wire text, or reports
    /// `MissingBody` when no body is set — the one failure serialization can
    /// produce.
    pub fn to_http_string(&self) -> (r: Result<String, RouteError>)
        ensures
            self.body is Some ==> (r matches Ok(s) && s@ == spec_wire(*self)),
            self.body is None ==> r == Err::<String, RouteError>(RouteError::MissingBody),
    {
        match &self.body {
            None => Err(RouteError::MissingBody),
            Some(b) => {
                let mut s = String::from_str(self.version.as_str());
                s.append(" ");
                s.append(self.status_code.as_str());
                s.append(" ");
                s.append(self.status_text.as_str());
                s.append("\r\n");
                let header_block = self.headers();
                s.append(header_block.as_str());
                s.append("Content-Length: ");
                let body_bytes: usize = b.as_str().as_bytes().len();
                let length_text = u64_to_decimal(body_bytes as u64);
                s.append(length_text.as_str());
                s.append("\r\n\r\n");
                s.append(b.as_str());
                proof {
                    assert(s@ =~= spec_wire(*self));
                }
                Ok(s)
            },
        }
    }

    /// Serializes the response and writes it to the sink in one operation.
    /// A missing body surfaces as `MissingBody` before anything is written;
    /// a sink failure surfaces as `IoError`, never silently swallowed.
    pub fn send_response<T: ResponseSink>(&self, write_stream: &mut T) -> (r: Result<
        (),
        RouteError,
    >)
        ensures
            self.body is None ==> r == Err::<(), RouteError>(RouteError::MissingBody),
            self.body is Some ==> r is Ok || r == Err::<(), RouteError>(RouteError::IoError),
    {
        match self.to_http_string() {
            Err(e) => Err(e),
            Ok(message) => match write_stream.write_message(message.as_str()) {
                Ok(()) => Ok(()),
                Err(()) => Err(RouteError::IoError),
            },
        }
    }
}

} // verus!
