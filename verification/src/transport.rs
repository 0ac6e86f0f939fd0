//! The boundary to the HTTP transport: the call that is handed to it, the
//! answer that comes back, and the result that the answer leaves on a request.

use crate::method::Method;
use crate::request::{RequestResult, RequestResultView};
use crate::text::{join_lines, newline, spec_join};
use vstd::prelude::*;

verus! {

/// The one call that dispatching a request makes.
#[derive(Debug)]
pub struct OutboundCall {
    pub method: Method,
    pub url: String,
    /// Attached to the call only where it is `Some`.
    pub body: Option<String>,
}

/// An outbound call as plain values.
pub struct OutboundCallView {
    pub method: Method,
    pub url: Seq<char>,
    pub body: Option<Seq<char>>,
}

impl View for OutboundCall {
    type V = OutboundCallView;

    open spec fn view(&self) -> OutboundCallView {
        OutboundCallView { method: self.method, url: self.url@, body: self.body.deep_view() }
    }
}

/// One response header: its name, and its value as the bytes on the wire.
#[derive(Debug)]
pub struct HeaderEntry {
    pub name: String,
    pub value: Vec<u8>,
}

/// One cookie that the response set.
#[derive(Debug)]
pub struct CookieEntry {
    pub name: String,
    pub value: String,
}

/// What the transport hands back when a response came.
#[derive(Debug)]
pub struct TransportResponse {
    /// In the order in which the transport reports them.
    pub headers: Vec<HeaderEntry>,
    /// In the order in which the transport reports them.
    pub cookies: Vec<CookieEntry>,
    /// The whole payload, decoded as text.
    pub body: String,
}

/// What the transport hands back when no response came, or none that could
/// be read as text.
#[derive(Debug)]
pub struct TransportError {
    pub description: String,
}

/// The separator between a name and its value.
pub open spec fn name_value_separator() -> Seq<char> {
    seq![':', ' ']
}

/// The bytes that are shown as the character they encode: printable ASCII
/// and the tab.
pub open spec fn is_visible_ascii(byte: u8) -> bool {
    32 <= byte < 127 || byte == 9
}

/// The sixteen hexadecimal digits, in lower case and in their order.
pub open spec fn hex_digits() -> Seq<char> {
    seq!['0', '1', '2', '3', '4', '5', '6', '7', '8', '9', 'a', 'b', 'c', 'd', 'e', 'f']
}

/// The hexadecimal digit for `nibble`.
pub open spec fn spec_hex_digit(nibble: u8) -> char {
    hex_digits()[nibble as int]
}

/// `byte` in lower-case hexadecimal, without a leading zero.
pub open spec fn spec_hex(byte: u8) -> Seq<char> {
    if byte < 16 {
        seq![spec_hex_digit(byte)]
    } else {
        seq![spec_hex_digit(byte / 16), spec_hex_digit(byte % 16)]
    }
}

/// How one byte of a header value is shown: as itself where it is visible,
/// else as `\x` and its hexadecimal value.
pub open spec fn spec_byte_text(byte: u8) -> Seq<char> {
    if is_visible_ascii(byte) {
        seq![byte as char]
    } else {
        seq!['\\', 'x'] + spec_hex(byte)
    }
}

/// How the bytes of a header value are shown: byte by byte, in order.
pub open spec fn spec_wire_text(value: Seq<u8>) -> Seq<char>
    decreases value.len(),
{
    if value.len() == 0 {
        Seq::empty()
    } else {
        spec_wire_text(value.drop_last()) + spec_byte_text(value.last())
    }
}

/// The line that shows a header.
pub open spec fn spec_header_line(entry: HeaderEntry) -> Seq<char> {
    entry.name@ + name_value_separator() + spec_wire_text(entry.value@)
}

/// The line that shows a cookie.
pub open spec fn spec_cookie_line(entry: CookieEntry) -> Seq<char> {
    entry.name@ + name_value_separator() + entry.value@
}

/// The lines that show `headers`, in their order.
pub open spec fn spec_header_lines(headers: Seq<HeaderEntry>) -> Seq<Seq<char>> {
    Seq::new(headers.len(), |i: int| spec_header_line(headers[i]))
}

/// The lines that show `cookies`, in their order.
pub open spec fn spec_cookie_lines(cookies: Seq<CookieEntry>) -> Seq<Seq<char>> {
    Seq::new(cookies.len(), |i: int| spec_cookie_line(cookies[i]))
}

/// The result that an answer of the transport leaves on the request: a
/// response gives its body, its headers and its cookies, a failure gives its
/// description as the body and neither headers nor cookies.
pub open spec fn spec_map_outcome(
    outcome: Result<TransportResponse, TransportError>,
) -> RequestResultView {
    match outcome {
        Ok(response) => RequestResultView::success(
            response.body@,
            spec_join(spec_header_lines(response.headers@), newline()),
            spec_join(spec_cookie_lines(response.cookies@), newline()),
        ),
        Err(error) => RequestResultView::failure(error.description@),
    }
}

fn hex_digit(nibble: u8) -> (digit: char)
    requires
        nibble < 16,
    ensures
        digit == spec_hex_digit(nibble),
{
    if nibble < 10 {
        (48 + nibble) as char
    } else {
        (87 + nibble) as char
    }
}

/// Shows the bytes of a header value as text.
pub fn wire_text(value: &[u8]) -> (text: String)
    ensures
        text@ == spec_wire_text(value@),
{
    let mut text = String::new();
    let mut i: usize = 0;
    while i < value.len()
        invariant
            i <= value.len(),
            text@ == spec_wire_text(value@.take(i as int)),
        decreases value.len() - i,
    {
        let byte = value[i];
        assert(value@.take(i + 1).drop_last() == value@.take(i as int));
        if (32 <= byte && byte < 127) || byte == 9 {
            text.push(byte as char);
        } else {
            text.push('\\');
            text.push('x');
            if byte >= 16 {
                text.push(hex_digit(byte / 16));
            }
            text.push(hex_digit(byte % 16));
        }
        i += 1;
    }
    assert(value@.take(i as int) == value@);
    text
}

/// The line that shows `entry`: its name, `": "`, and its value as text.
pub fn header_line(entry: &HeaderEntry) -> (line: String)
    ensures
        line@ == spec_header_line(*entry),
{
    let mut line = entry.name.clone();
    proof {
        reveal_strlit(": ");
    }
    line.append(": ");
    let value = wire_text(entry.value.as_slice());
    line.append(value.as_str());
    line
}

/// The line that shows `entry`: its name, `": "`, and its value.
pub fn cookie_line(entry: &CookieEntry) -> (line: String)
    ensures
        line@ == spec_cookie_line(*entry),
{
    let mut line = entry.name.clone();
    proof {
        reveal_strlit(": ");
    }
    line.append(": ");
    line.append(entry.value.as_str());
    line
}

/// Maps what the transport handed back onto the result of the request.
pub fn map_outcome(outcome: Result<TransportResponse, TransportError>) -> (result: RequestResult)
    ensures
        result@ == spec_map_outcome(outcome),
{
    match outcome {
        Ok(response) => {
            let mut header_lines: Vec<String> = Vec::new();
            let mut i: usize = 0;
            while i < response.headers.len()
                invariant
                    i <= response.headers.len(),
                    header_lines.deep_view() == spec_header_lines(response.headers@).take(i as int),
                decreases response.headers.len() - i,
            {
                let ghost before = header_lines.deep_view();
                let line = header_line(&response.headers[i]);
                header_lines.push(line);
                assert(header_lines.deep_view() == before.push(line@));
                i += 1;
            }
            assert(header_lines.deep_view() == spec_header_lines(response.headers@));
            let mut cookie_lines: Vec<String> = Vec::new();
            let mut j: usize = 0;
            while j < response.cookies.len()
                invariant
                    j <= response.cookies.len(),
                    cookie_lines.deep_view() == spec_cookie_lines(response.cookies@).take(j as int),
                decreases response.cookies.len() - j,
            {
                let ghost before = cookie_lines.deep_view();
                let line = cookie_line(&response.cookies[j]);
                cookie_lines.push(line);
                assert(cookie_lines.deep_view() == before.push(line@));
                j += 1;
            }
            assert(cookie_lines.deep_view() == spec_cookie_lines(response.cookies@));
            let headers = join_lines(header_lines.as_slice());
            let cookies = join_lines(cookie_lines.as_slice());
            RequestResult::success(response.body, headers, cookies)
        },
        Err(error) => RequestResult::failure(error.description),
    }
}

/// A dispatch leaves a whole result, never a part of one: a body in any
/// case, and headers and cookies exactly where a response came.
pub proof fn lemma_outcome_is_complete(outcome: Result<TransportResponse, TransportError>)
    ensures
        spec_map_outcome(outcome).wf(),
        spec_map_outcome(outcome).body is Some,
        spec_map_outcome(outcome).headers is Some <==> outcome is Ok,
        spec_map_outcome(outcome).cookies is Some <==> outcome is Ok,
{
}

} // verus!
