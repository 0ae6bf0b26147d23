//! The texts that the interface shows: status phrases, shortened paths,
//! header lists and bodies.

use vstd::prelude::*;
use vstd::string::*;
use vstd::utf8::*;

use crate::encoding::string_from_utf8;
use crate::http_proxy::same_name;
use crate::json::{json_pretty_text, pretty};
use crate::messages::{Headers, HeadersModel};
use crate::text::{decimal, eq_ignore_ascii_case, push_decimal, str_eq};

verus! {

/// A colour of the interface.
#[derive(Debug, Clone, Copy, PartialEq, Eq, Structural)]
pub enum Tone {
    Green,
    Blue,
    Yellow,
    Red,
    Cyan,
    White,
    Gray,
}

/// The colour of a request method.
pub fn method_color(method: &str) -> (r: Tone)
    ensures
        r == if method@ == "GET"@ {
            Tone::Green
        } else if method@ == "POST"@ {
            Tone::Blue
        } else if method@ == "PUT"@ || method@ == "PATCH"@ {
            Tone::Yellow
        } else if method@ == "DELETE"@ {
            Tone::Red
        } else {
            Tone::White
        },
{
    if str_eq(method, "GET") {
        Tone::Green
    } else if str_eq(method, "POST") {
        Tone::Blue
    } else if str_eq(method, "PUT") || str_eq(method, "PATCH") {
        Tone::Yellow
    } else if str_eq(method, "DELETE") {
        Tone::Red
    } else {
        Tone::White
    }
}

/// The colour of a response status, by its class; gray while there is none.
pub fn status_color(status: Option<u16>) -> (r: Tone)
    ensures
        r == match status {
            Some(s) => if 200 <= s < 300 {
                Tone::Green
            } else if 300 <= s < 400 {
                Tone::Cyan
            } else if 400 <= s < 500 {
                Tone::Yellow
            } else if s >= 500 {
                Tone::Red
            } else {
                Tone::Gray
            },
            None => Tone::Gray,
        },
{
    match status {
        Some(s) => if s >= 200 && s < 300 {
            Tone::Green
        } else if s >= 300 && s < 400 {
            Tone::Cyan
        } else if s >= 400 && s < 500 {
            Tone::Yellow
        } else if s >= 500 {
            Tone::Red
        } else {
            Tone::Gray
        },
        None => Tone::Gray,
    }
}

/// The reason phrase of a status, for the statuses that the interface names.
pub open spec fn status_phrase(status: u16) -> Seq<char> {
    if status == 200 {
        "OK"@
    } else if status == 201 {
        "Created"@
    } else if status == 204 {
        "No Content"@
    } else if status == 301 {
        "Moved Permanently"@
    } else if status == 302 {
        "Found"@
    } else if status == 304 {
        "Not Modified"@
    } else if status == 400 {
        "Bad Request"@
    } else if status == 401 {
        "Unauthorized"@
    } else if status == 403 {
        "Forbidden"@
    } else if status == 404 {
        "Not Found"@
    } else if status == 405 {
        "Method Not Allowed"@
    } else if status == 422 {
        "Unprocessable Entity"@
    } else if status == 429 {
        "Too Many Requests"@
    } else if status == 500 {
        "Internal Server Error"@
    } else if status == 502 {
        "Bad Gateway"@
    } else if status == 503 {
        "Service Unavailable"@
    } else if status == 504 {
        "Gateway Timeout"@
    } else {
        ""@
    }
}

/// The reason phrase of a status; empty for a status that has no name here.
pub fn status_text(status: u16) -> (r: &'static str)
    ensures
        r@ == status_phrase(status),
{
    match status {
        200 => "OK",
        201 => "Created",
        204 => "No Content",
        301 => "Moved Permanently",
        302 => "Found",
        304 => "Not Modified",
        400 => "Bad Request",
        401 => "Unauthorized",
        403 => "Forbidden",
        404 => "Not Found",
        405 => "Method Not Allowed",
        422 => "Unprocessable Entity",
        429 => "Too Many Requests",
        500 => "Internal Server Error",
        502 => "Bad Gateway",
        503 => "Service Unavailable",
        504 => "Gateway Timeout",
        _ => "",
    }
}

/// The last place at or before `n` where a character begins.
pub open spec fn boundary_before(bytes: Seq<u8>, n: int) -> int
    decreases n,
{
    if n <= 0 {
        0
    } else if is_char_boundary(bytes, n) {
        n
    } else {
        boundary_before(bytes, n - 1)
    }
}

/// A text cut to `max_len` bytes: a text that fits stays; a longer one keeps
/// its first `max_len - 3` bytes, less the bytes of a character that would
/// be cut through, and ends in three dots.
pub open spec fn truncated(s: Seq<char>, max_len: usize) -> Seq<char> {
    let bytes = encode_utf8(s);
    if bytes.len() <= max_len {
        s
    } else {
        decode_utf8(bytes.subrange(0, boundary_before(bytes, max_len - 3))) + "..."@
    }
}

/// Cuts a text to `max_len` bytes, with three dots where it was cut.
pub fn truncate_string(s: &str, max_len: usize) -> (r: String)
    ensures
        r@ == truncated(s@, max_len),
{
    let bytes = s.as_bytes();
    if bytes.len() <= max_len {
        return s.to_string();
    }
    proof {
        encode_utf8_valid_utf8(s@);
        is_char_boundary_start_end_of_seq(encode_utf8(s@));
    }
    let mut cut: usize = if max_len >= 3 {
        max_len - 3
    } else {
        0
    };
    while cut > 0 && !s.is_char_boundary(cut)
        invariant
            0 <= cut <= max_len,
            max_len < encode_utf8(s@).len(),
            boundary_before(encode_utf8(s@), max_len - 3) == boundary_before(
                encode_utf8(s@),
                cut as int,
            ),
        decreases cut,
    {
        cut -= 1;
    }
    let (head, _) = s.split_at(cut);
    proof {
        encode_utf8_decode_utf8(head@);
    }
    let mut out = head.to_string();
    out.append("...");
    out
}

/// Cuts a path to `max_len` bytes, with three dots where it was cut.
pub fn truncate_path(path: &str, max_len: usize) -> (r: String)
    ensures
        r@ == truncated(path@, max_len),
{
    truncate_string(path, max_len)
}

/// The value of the first header with this name, letter case aside.
pub open spec fn header_value(headers: HeadersModel, name: Seq<char>) -> Option<Seq<char>>
    decreases headers.len(),
{
    if headers.len() == 0 {
        None
    } else if same_name(headers[0].0, name) {
        Some(headers[0].1)
    } else {
        header_value(headers.drop_first(), name)
    }
}

/// Looks up a header by name, letter case aside.
pub fn get_header_value(headers: &Headers, name: &str) -> (r: Option<String>)
    ensures
        r.deep_view() == header_value(headers.deep_view(), name@),
{
    let ghost model = headers.deep_view();
    let mut i: usize = 0;
    assert(model.skip(0) =~= model);
    while i < headers.len()
        invariant
            i <= headers.len(),
            model == headers.deep_view(),
            model.len() == headers.len(),
            header_value(model, name@) == header_value(model.skip(i as int), name@),
        decreases headers.len() - i,
    {
        proof {
            assert(model.skip(i as int).drop_first() =~= model.skip(i + 1));
            assert(model.skip(i as int)[0] == (headers@[i as int].0@, headers@[i as int].1@));
        }
        if eq_ignore_ascii_case(headers[i].0.as_str(), name) {
            return Some(headers[i].1.clone());
        }
        i += 1;
    }
    None
}

/// How a header's value is shown: a credential is masked, a long value cut
/// to sixty bytes.
pub open spec fn shown_value(name: Seq<char>, value: Seq<char>) -> Seq<char> {
    if same_name(name, "authorization"@) {
        "***"@
    } else {
        truncated(value, 60)
    }
}

/// The line of a header.
pub open spec fn header_line(h: (Seq<char>, Seq<char>)) -> Seq<char> {
    "  "@ + h.0 + ": "@ + shown_value(h.0, h.1)
}

/// The lines of the headers, each on a line of its own.
pub open spec fn header_lines(headers: HeadersModel) -> Seq<char>
    decreases headers.len(),
{
    if headers.len() == 0 {
        Seq::empty()
    } else if headers.len() == 1 {
        header_line(headers[0])
    } else {
        header_lines(headers.drop_last()) + "\n"@ + header_line(headers.last())
    }
}

/// The list of headers as the interface shows it.
pub open spec fn headers_text(headers: HeadersModel) -> Seq<char> {
    if headers.len() == 0 {
        "  (none)"@
    } else {
        header_lines(headers)
    }
}

/// Writes the list of headers as the interface shows it.
pub fn format_headers(headers: &Headers) -> (r: String)
    ensures
        r@ == headers_text(headers.deep_view()),
{
    if headers.len() == 0 {
        return String::from_str("  (none)");
    }
    let ghost model = headers.deep_view();
    let mut out = String::new();
    let mut i: usize = 0;
    assert(header_lines(model.take(0)) =~= Seq::<char>::empty());
    while i < headers.len()
        invariant
            i <= headers.len(),
            model == headers.deep_view(),
            model.len() == headers.len(),
            out@ == header_lines(model.take(i as int)),
        decreases headers.len() - i,
    {
        proof {
            assert(model.take(i + 1).drop_last() =~= model.take(i as int));
            assert(model.take(i + 1).last() == (headers@[i as int].0@, headers@[i as int].1@));
            assert(model.take(i + 1)[0] == model[0]);
        }
        let ghost before = out@;
        let name = headers[i].0.as_str();
        let shown = if eq_ignore_ascii_case(name, "authorization") {
            String::from_str("***")
        } else {
            truncate_string(headers[i].1.as_str(), 60)
        };
        if i > 0 {
            out.append("\n");
        }
        out.append("  ");
        out.append(name);
        out.append(": ");
        out.append(shown.as_str());
        proof {
            let line = header_line((headers@[i as int].0@, headers@[i as int].1@));
            if i > 0 {
                assert(out@ =~= before + "\n"@ + line);
            } else {
                assert(before =~= Seq::<char>::empty());
                assert(out@ =~= line);
            }
        }
        i += 1;
    }
    assert(model.take(i as int) =~= model);
    out
}

/// The note that stands for a body that is no text.
pub open spec fn binary_note(len: nat) -> Seq<char> {
    "[Binary data: "@ + decimal(len) + " bytes]"@
}

/// A body as the interface shows it: JSON is written anew with indentation,
/// other text is shown as it is, and a body that is no text is only counted.
pub open spec fn body_text(body: Seq<u8>) -> Seq<char> {
    if valid_utf8(body) {
        match json_pretty_text(decode_utf8(body)) {
            Some(text) => text,
            None => decode_utf8(body),
        }
    } else {
        binary_note(body.len())
    }
}

/// Writes a body as the interface shows it.
pub fn format_body(body: &Vec<u8>) -> (r: String)
    ensures
        r@ == body_text(body@),
{
    let copy = body.clone();
    assert(copy@ =~= body@);
    match string_from_utf8(copy) {
        Some(text) => match pretty(text.as_str()) {
            Some(indented) => indented,
            None => text,
        },
        None => {
            let mut note = String::from_str("[Binary data: ");
            push_decimal(&mut note, body.len() as u64);
            note.append(" bytes]");
            note
        },
    }
}

} // verus!
