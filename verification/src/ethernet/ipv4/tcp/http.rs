//! HTTP/1.x message parsing.
use vstd::prelude::*;
use vstd::string::{StrSliceExecFns, StringSliceAdditionalSpecFns};
use vstd::utf8::{decode_utf8, encode_utf8_decode_utf8, valid_utf8};
use crate::text::{
    chars_eq, chars_of, find_char, find_char_in, find_ws, find_ws_in, is_ws, line_bounds, lines,
    parse_unsigned, parse_unsigned_in, starts_with, str_from_utf8, trim, trim_bounds, trim_start,
    trim_start_index, word_bounds, words, lemma_find_ws, decimal, dec16, push_dec, push_str,
    string_of, strings_view,
};
use crate::bytes::len_u64;
use crate::ethernet::packet_detail::{push_dec_line, push_line, push_text_line, PacketDetail};

verus! {

/// An HTTP packet (either request or response).
#[derive(Debug, Clone, PartialEq, Eq)]
pub enum HttpPacket<'a> {
    /// HTTP request message.
    Request(HttpRequest<'a>),
    /// HTTP response message.
    Response(HttpResponse<'a>),
}

/// An HTTP request message.
#[derive(Debug, Clone, PartialEq, Eq)]
pub struct HttpRequest<'a> {
    /// Request method (GET, POST, etc.).
    pub method: &'a str,
    /// Request path.
    pub path: &'a str,
    /// HTTP version.
    pub version: &'a str,
    /// Headers as key-value pairs.
    pub headers: Vec<(&'a str, &'a str)>,
    /// The message body data.
    pub data: &'a [u8],
    /// The raw HTTP packet.
    pub raw: &'a [u8],
}

/// An HTTP response message.
#[derive(Debug, Clone, PartialEq, Eq)]
pub struct HttpResponse<'a> {
    /// HTTP version.
    pub version: &'a str,
    /// Status code (200, 404, etc.).
    pub status_code: u16,
    /// Reason phrase (OK, Not Found, etc.).
    pub reason_phrase: &'a str,
    /// Headers as key-value pairs.
    pub headers: Vec<(&'a str, &'a str)>,
    /// The message body data.
    pub data: &'a [u8],
    /// The raw HTTP packet.
    pub raw: &'a [u8],
}

/// Possible errors when parsing an HTTP packet.
#[derive(Debug, Clone, Copy, PartialEq, Eq)]
pub enum ParseHttpError {
    /// The packet does not contain a valid HTTP request line.
    InvalidRequestLine,
    /// The packet is not properly encoded in UTF-8.
    InvalidUtf8,
    /// IO error while reading lines.
    IoError,
}

/// The content of an HTTP message.
pub enum HttpMessage {
    /// A request line, headers and body.
    Request {
        method: Seq<char>,
        path: Seq<char>,
        version: Seq<char>,
        headers: Seq<(Seq<char>, Seq<char>)>,
        data: Seq<u8>,
    },
    /// A status line, headers and body.
    Response {
        version: Seq<char>,
        status_code: u16,
        reason_phrase: Seq<char>,
        headers: Seq<(Seq<char>, Seq<char>)>,
        data: Seq<u8>,
    },
}

/// The first position at or after `i` where `p` occurs in `s`.
pub open spec fn first_from(s: Seq<u8>, p: Seq<u8>, i: int) -> Option<int>
    decreases s.len() + 1 - i,
{
    if i < 0 || i + p.len() > s.len() {
        None
    } else if s.subrange(i, i + p.len()) == p {
        Some(i)
    } else {
        first_from(s, p, i + 1)
    }
}

/// A position that `first_from` finds lies at or after `i`, with the whole pattern inside `s`.
pub proof fn lemma_first_from(s: Seq<u8>, p: Seq<u8>, i: int)
    ensures
        first_from(s, p, i) matches Some(k) ==> i <= k && k + p.len() <= s.len(),
    decreases s.len() + 1 - i,
{
    if !(i < 0 || i + p.len() > s.len()) && s.subrange(i, i + p.len()) != p {
        lemma_first_from(s, p, i + 1);
    }
}

/// The length of the header section: up to and including the first blank line
/// (`\r\n\r\n`, else `\n\n`), or all of `raw` when there is none.
pub open spec fn header_end(raw: Seq<u8>) -> int {
    match first_from(raw, seq![13u8, 10u8, 13u8, 10u8], 0) {
        Some(p) => p + 4,
        None => match first_from(raw, seq![10u8, 10u8], 0) {
            Some(p) => p + 2,
            None => raw.len() as int,
        },
    }
}

/// How many of the lines `ls` the header fields take: up to and including the first line
/// that is empty once trimmed, or all of them.
pub open spec fn header_lines_used(ls: Seq<Seq<char>>) -> nat
    decreases ls.len(),
{
    if ls.len() == 0 {
        0
    } else if trim(ls[0]).len() == 0 {
        1
    } else {
        1 + header_lines_used(ls.drop_first())
    }
}

/// The header fields of the lines that follow the start line: each line trimmed, up to the
/// first empty one; a line with a colon gives its trimmed key and value, other lines are skipped.
pub open spec fn header_fields(ls: Seq<Seq<char>>) -> Seq<(Seq<char>, Seq<char>)>
    decreases ls.len(),
{
    if ls.len() == 0 {
        seq![]
    } else {
        let l = trim(ls[0]);
        if l.len() == 0 {
            seq![]
        } else {
            match find_char(l, ':') {
                Some(i) => seq![(trim(l.take(i)), trim(l.skip(i + 1)))] + header_fields(
                    ls.drop_first(),
                ),
                None => header_fields(ls.drop_first()),
            }
        }
    }
}

/// What `HttpPacket::new` gives for the bytes `raw`.
pub open spec fn spec_parse_http(raw: Seq<u8>) -> Result<HttpMessage, ParseHttpError> {
    let sep = header_end(raw);
    let hb = raw.take(sep);
    if !valid_utf8(hb) {
        Err(ParseHttpError::InvalidUtf8)
    } else {
        let ls = lines(decode_utf8(hb));
        if ls.len() == 0 {
            Err(ParseHttpError::InvalidRequestLine)
        } else {
            let first = trim(ls[0]);
            let headers = header_fields(ls.drop_first());
            let data = raw.skip(sep);
            if starts_with(first, "HTTP/"@) {
                response_message(first, headers, data)
            } else {
                request_message(first, headers, data)
            }
        }
    }
}

/// The response that a status line `first` (starting with `HTTP/`) gives.
pub open spec fn response_message(
    first: Seq<char>,
    headers: Seq<(Seq<char>, Seq<char>)>,
    data: Seq<u8>,
) -> Result<HttpMessage, ParseHttpError> {
    match find_ws(first) {
        None => Err(ParseHttpError::InvalidRequestLine),
        Some(fw) => {
            let rest = trim_start(first.skip(fw));
            match find_ws(rest) {
                None => Err(ParseHttpError::InvalidRequestLine),
                Some(sw) => match parse_unsigned(rest.take(sw), 65535) {
                    None => Err(ParseHttpError::InvalidRequestLine),
                    Some(code) => Ok(
                        HttpMessage::Response {
                            version: first.subrange(5, fw),
                            status_code: code as u16,
                            reason_phrase: trim_start(rest.skip(sw)),
                            headers,
                            data,
                        },
                    ),
                },
            }
        },
    }
}

/// The request that a request line `first` gives.
pub open spec fn request_message(
    first: Seq<char>,
    headers: Seq<(Seq<char>, Seq<char>)>,
    data: Seq<u8>,
) -> Result<HttpMessage, ParseHttpError> {
    let ws = words(first);
    if ws.len() < 3 || !starts_with(ws[2], "HTTP/"@) {
        Err(ParseHttpError::InvalidRequestLine)
    } else {
        Ok(
            HttpMessage::Request {
                method: ws[0],
                path: ws[1],
                version: ws[2].skip(5),
                headers,
                data,
            },
        )
    }
}

/// The text of each header field.
pub open spec fn headers_view<'a>(h: Seq<(&'a str, &'a str)>) -> Seq<(Seq<char>, Seq<char>)> {
    h.map_values(|p: (&'a str, &'a str)| (p.0@, p.1@))
}

impl<'a> HttpPacket<'a> {
    /// The packet holds the message `m` and the bytes `raw`.
    pub open spec fn holds(self, m: HttpMessage, raw: Seq<u8>) -> bool {
        match (self, m) {
            (
                HttpPacket::Request(r),
                HttpMessage::Request { method, path, version, headers, data },
            ) => r.method@ == method && r.path@ == path && r.version@ == version && headers_view(
                r.headers@,
            ) == headers && r.data@ == data && r.raw@ == raw,
            (
                HttpPacket::Response(r),
                HttpMessage::Response { version, status_code, reason_phrase, headers, data },
            ) => r.version@ == version && r.status_code == status_code && r.reason_phrase@
                == reason_phrase && headers_view(r.headers@) == headers && r.data@ == data && r.raw@
                == raw,
            _ => false,
        }
    }
}

/// The first position where `p` occurs in `s`.
fn find_first(s: &[u8], p: &[u8]) -> (r: Option<usize>)
    ensures
        r is None <==> first_from(s@, p@, 0) is None,
        r matches Some(k) ==> first_from(s@, p@, 0) == Some(k as int) && k + p@.len() <= s@.len(),
{
    if p.len() > s.len() {
        return None;
    }
    let mut i: usize = 0;
    proof {
        lemma_first_from(s@, p@, 0);
    }
    while i <= s.len() - p.len()
        invariant
            p@.len() <= s@.len(),
            i <= s@.len() - p@.len() + 1,
            first_from(s@, p@, 0) == first_from(s@, p@, i as int),
            first_from(s@, p@, 0) matches Some(k) ==> k + p@.len() <= s@.len(),
        decreases s@.len() - i,
    {
        let mut j: usize = 0;
        let n = s.len();
        while j < p.len()
            invariant
                i + p@.len() <= s@.len(),
                n == s@.len(),
                j <= p@.len(),
                forall|k: int| 0 <= k < j ==> s@[i + k] == p@[k],
            ensures
                j <= p@.len(),
                forall|k: int| 0 <= k < j ==> s@[i + k] == p@[k],
                j < p@.len() ==> s@[i + j] != p@[j as int],
            decreases p@.len() - j,
        {
            if s[i + j] != p[j] {
                break;
            }
            j = j + 1;
        }
        if j == p.len() {
            assert(s@.subrange(i as int, i + p@.len()) =~= p@);
            return Some(i);
        }
        assert(s@.subrange(i as int, i + p@.len())[j as int] != p@[j as int]);
        i = i + 1;
    }
    None
}

/// The header fields of the lines `lines[from..]` of `text` (whose characters are `cs`), and
/// the index of the first line after them: the one after the first blank line, or the end.
fn parse_headers<'a>(text: &'a str, cs: &[char], lines_at: &Vec<(usize, usize)>, from: usize) -> (r: (Vec<(&'a str, &'a str)>, usize))
    requires
        cs@ == text@,
        from <= lines_at@.len(),
        forall|k: int|
            0 <= k < lines_at@.len() ==> (#[trigger] lines_at@[k]).0 <= lines_at@[k].1 <= cs@.len(),
    ensures
        headers_view(r.0@) == header_fields(
            Seq::new((lines_at@.len() - from) as nat, |k: int| cs@.subrange(lines_at@[from + k].0 as int, lines_at@[from + k].1 as int)),
        ),
        r.1 == from + header_lines_used(
            Seq::new((lines_at@.len() - from) as nat, |k: int| cs@.subrange(lines_at@[from + k].0 as int, lines_at@[from + k].1 as int)),
        ),
{
    let ghost ls = Seq::new((lines_at@.len() - from) as nat, |k: int| cs@.subrange(lines_at@[from + k].0 as int, lines_at@[from + k].1 as int));
    let mut out: Vec<(&'a str, &'a str)> = Vec::new();
    let mut i = from;
    let mut stop = lines_at.len();
    assert(ls.skip(0) =~= ls);
    assert(headers_view(out@) + header_fields(ls) =~= header_fields(ls));
    while i < lines_at.len()
        invariant_except_break
            headers_view(out@) + header_fields(ls.skip(i - from)) == header_fields(ls),
            (i - from) + header_lines_used(ls.skip(i - from)) == header_lines_used(ls),
            stop == lines_at@.len(),
        invariant
            cs@ == text@,
            from <= i <= lines_at@.len(),
            ls == Seq::new((lines_at@.len() - from) as nat, |k: int| cs@.subrange(lines_at@[from + k].0 as int, lines_at@[from + k].1 as int)),
            forall|k: int|
                0 <= k < lines_at@.len() ==> (#[trigger] lines_at@[k]).0 <= lines_at@[k].1 <= cs@.len(),
        ensures
            headers_view(out@) == header_fields(ls),
            stop == from + header_lines_used(ls),
        decreases lines_at@.len() - i,
    {
        let (a, b) = lines_at[i];
        let ghost rest = ls.skip(i - from);
        assert(rest[0] == cs@.subrange(a as int, b as int));
        assert(rest.drop_first() =~= ls.skip(i + 1 - from));
        let (la, lb) = trim_bounds(cs, a, b);
        if la == lb {
            assert(header_fields(rest) =~= seq![]);
            assert(headers_view(out@) + seq![] =~= headers_view(out@));
            assert(header_lines_used(rest) == 1);
            stop = i + 1;
            break;
        }
        assert(header_lines_used(rest) == 1 + header_lines_used(ls.skip(i + 1 - from)));
        let ghost l = cs@.subrange(la as int, lb as int);
        match find_char_in(cs, la, lb, ':') {
            Some(c) => {
                let (ka, kb) = trim_bounds(cs, la, c);
                let (va, vb) = trim_bounds(cs, c + 1, lb);
                assert(l.take(c - la) =~= cs@.subrange(la as int, c as int));
                assert(l.skip(c - la + 1) =~= cs@.subrange(c + 1, lb as int));
                let key = text.substring_char(ka, kb);
                let value = text.substring_char(va, vb);
                let ghost before = out@;
                out.push((key, value));
                assert(headers_view(out@) =~= headers_view(before).push((key@, value@)));
                assert(header_fields(rest) == seq![(key@, value@)] + header_fields(ls.skip(i + 1 - from)));
                assert(headers_view(out@) + header_fields(ls.skip(i + 1 - from)) =~= headers_view(before) + header_fields(rest));
            },
            None => {
                assert(header_fields(rest) == header_fields(ls.skip(i + 1 - from)));
            },
        }
        i = i + 1;
    }
    (out, stop)
}

/// The response of a status line `cs[fa..fb]` that starts with `HTTP/`.
fn response_from<'a>(
    text: &'a str,
    cs: &[char],
    fa: usize,
    fb: usize,
    headers: Vec<(&'a str, &'a str)>,
    data: &'a [u8],
    raw: &'a [u8],
) -> (res: Result<HttpPacket<'a>, ParseHttpError>)
    requires
        cs@ == text@,
        fa <= fb <= cs@.len(),
        starts_with(cs@.subrange(fa as int, fb as int), "HTTP/"@),
    ensures
        match response_message(cs@.subrange(fa as int, fb as int), headers_view(headers@), data@) {
            Ok(m) => res matches Ok(p) && p.holds(m, raw@),
            Err(e) => res == Err::<HttpPacket<'a>, ParseHttpError>(e),
        },
{
    let ghost first = cs@.subrange(fa as int, fb as int);
    let fw = match find_ws_in(cs, fa, fb) {
        Some(k) => k,
        None => return Err(ParseHttpError::InvalidRequestLine),
    };
    proof {
        reveal_strlit("HTTP/");
        lemma_find_ws(first);
        assert(first.take(5) == "HTTP/"@);
        assert(first[0] == first.take(5)[0] && first[1] == first.take(5)[1] && first[2] == first.take(5)[2]
            && first[3] == first.take(5)[3] && first[4] == first.take(5)[4]);
        assert(!is_ws(first[0]) && !is_ws(first[1]) && !is_ws(first[2]) && !is_ws(first[3])
            && !is_ws(first[4]));
    }
    let ra = trim_start_index(cs, fw, fb);
    assert(first.skip(fw - fa) =~= cs@.subrange(fw as int, fb as int));
    let ghost rest = cs@.subrange(ra as int, fb as int);
    let sw = match find_ws_in(cs, ra, fb) {
        Some(k) => k,
        None => return Err(ParseHttpError::InvalidRequestLine),
    };
    assert(rest.take(sw - ra) =~= cs@.subrange(ra as int, sw as int));
    let status_code = match parse_unsigned_in(cs, ra, sw, 65535) {
        Some(v) => v as u16,
        None => return Err(ParseHttpError::InvalidRequestLine),
    };
    let rp = trim_start_index(cs, sw, fb);
    assert(rest.skip(sw - ra) =~= cs@.subrange(sw as int, fb as int));
    assert(first.subrange(5, fw - fa) =~= cs@.subrange(fa + 5, fw as int));
    let version = text.substring_char(fa + 5, fw);
    let reason_phrase = text.substring_char(rp, fb);
    Ok(HttpPacket::Response(HttpResponse { version, status_code, reason_phrase, headers, data, raw }))
}

/// The request of a request line `cs[fa..fb]`.
fn request_from<'a>(
    text: &'a str,
    cs: &[char],
    fa: usize,
    fb: usize,
    headers: Vec<(&'a str, &'a str)>,
    data: &'a [u8],
    raw: &'a [u8],
) -> (res: Result<HttpPacket<'a>, ParseHttpError>)
    requires
        cs@ == text@,
        fa <= fb <= cs@.len(),
    ensures
        match request_message(cs@.subrange(fa as int, fb as int), headers_view(headers@), data@) {
            Ok(m) => res matches Ok(p) && p.holds(m, raw@),
            Err(e) => res == Err::<HttpPacket<'a>, ParseHttpError>(e),
        },
{
    let ghost first = cs@.subrange(fa as int, fb as int);
    let parts = word_bounds(cs, fa, fb);
    if parts.len() < 3 {
        return Err(ParseHttpError::InvalidRequestLine);
    }
    let (ma, mb) = parts[0];
    let (pa, pb) = parts[1];
    let (va, vb) = parts[2];
    let ghost ws = words(first);
    assert(ws[2] == cs@.subrange(va as int, vb as int));
    proof {
        reveal_strlit("HTTP/");
    }
    if !(vb - va >= 5 && chars_eq(cs, va, va + 5, "HTTP/")) {
        assert(!starts_with(ws[2], "HTTP/"@)) by {
            if ws[2].len() >= 5 {
                assert(ws[2].take(5) =~= cs@.subrange(va as int, va + 5));
            }
        }
        return Err(ParseHttpError::InvalidRequestLine);
    }
    assert(starts_with(ws[2], "HTTP/"@)) by {
        assert(ws[2].take(5) =~= cs@.subrange(va as int, va + 5));
    }
    assert(ws[2].skip(5) =~= cs@.subrange(va + 5, vb as int));
    let method = text.substring_char(ma, mb);
    let path = text.substring_char(pa, pb);
    let version = text.substring_char(va + 5, vb);
    Ok(HttpPacket::Request(HttpRequest { method, path, version, headers, data, raw }))
}

/// The length of the header section of `raw`.
fn header_length(raw: &[u8]) -> (r: usize)
    ensures
        r == header_end(raw@),
        r <= raw@.len(),
{
    let crlf2: [u8; 4] = [13, 10, 13, 10];
    let lf2: [u8; 2] = [10, 10];
    let raw_len = raw.len();
    let crlf2_s = crlf2.as_slice();
    let lf2_s = lf2.as_slice();
    assert(crlf2_s@ == seq![13u8, 10u8, 13u8, 10u8]);
    assert(lf2_s@ == seq![10u8, 10u8]);
    match find_first(raw, crlf2_s) {
        Some(pos) => pos + 4,
        None => match find_first(raw, lf2_s) {
            Some(pos) => pos + 2,
            None => raw_len,
        },
    }
}

impl<'a> HttpPacket<'a> {
    /// Create a new HTTP packet from raw data.
    ///
    /// # Errors
    ///
    /// See [`ParseHttpError`]; `IoError` is never returned.
    #[verifier::spinoff_prover]
    #[verifier::rlimit(40)]
    pub fn new(raw: &'a [u8]) -> (res: Result<Self, ParseHttpError>)
        ensures
            match spec_parse_http(raw@) {
                Ok(m) => res matches Ok(p) && p.holds(m, raw@),
                Err(e) => res == Err::<Self, ParseHttpError>(e),
            },
    {
        let separator = header_length(raw);
        let (header_bytes, data) = raw.split_at(separator);
        let text = match str_from_utf8(header_bytes) {
            Some(t) => t,
            None => return Err(ParseHttpError::InvalidUtf8),
        };
        proof {
            encode_utf8_decode_utf8(text@);
        }
        let cs = chars_of(text);
        assert(cs@ == decode_utf8(header_bytes@));
        let line_at = line_bounds(cs.as_slice(), 0, cs.len());
        assert(cs@.subrange(0, cs@.len() as int) =~= cs@);
        let ghost ls = lines(cs@);
        if line_at.len() == 0 {
            return Err(ParseHttpError::InvalidRequestLine);
        }
        let (l0, l1) = line_at[0];
        let (fa, fb) = trim_bounds(cs.as_slice(), l0, l1);
        let (headers, _) = parse_headers(text, cs.as_slice(), &line_at, 1);
        assert(Seq::new(
            (line_at@.len() - 1) as nat,
            |k: int| cs@.subrange(line_at@[1 + k].0 as int, line_at@[1 + k].1 as int),
        ) =~= ls.drop_first());
        proof {
            reveal_strlit("HTTP/");
        }
        if fb - fa >= 5 && chars_eq(cs.as_slice(), fa, fa + 5, "HTTP/") {
            assert(cs@.subrange(fa as int, fb as int).take(5) =~= cs@.subrange(fa as int, fa + 5));
            response_from(text, cs.as_slice(), fa, fb, headers, data, raw)
        } else {
            assert(!starts_with(cs@.subrange(fa as int, fb as int), "HTTP/"@)) by {
                if fb - fa >= 5 {
                    assert(cs@.subrange(fa as int, fb as int).take(5) =~= cs@.subrange(fa as int, fa + 5));
                }
            }
            request_from(text, cs.as_slice(), fa, fb, headers, data, raw)
        }
    }
}

/// One detail line per header field: indented name, colon, value.
pub open spec fn header_lines(h: Seq<(Seq<char>, Seq<char>)>) -> Seq<Seq<char>> {
    h.map_values(|kv: (Seq<char>, Seq<char>)| "  "@ + kv.0 + ": "@ + kv.1)
}

/// The body size line, present only when there is a body.
pub open spec fn body_lines(data: Seq<u8>) -> Seq<Seq<char>> {
    if data.len() == 0 {
        seq![]
    } else {
        seq!["Body: "@ + decimal(data.len()) + " bytes"@]
    }
}

/// Appends one line per header field.
fn push_header_lines(d: &mut Vec<String>, headers: &Vec<(&str, &str)>)
    ensures
        strings_view(final(d)@) == strings_view(old(d)@) + header_lines(headers_view(headers@)),
{
    let ghost start = strings_view(d@);
    let ghost hv = headers_view(headers@);
    let mut i: usize = 0;
    while i < headers.len()
        invariant
            i <= headers@.len(),
            hv == headers_view(headers@),
            strings_view(d@) == start + header_lines(hv.take(i as int)),
        decreases headers@.len() - i,
    {
        let (k, v) = headers[i];
        let mut l: Vec<char> = Vec::new();
        push_str(&mut l, "  ");
        push_str(&mut l, k);
        push_str(&mut l, ": ");
        push_str(&mut l, v);
        assert(l@ =~= "  "@ + hv[i as int].0 + ": "@ + hv[i as int].1);
        push_line(d, &l);
        assert(header_lines(hv.take(i + 1)) =~= header_lines(hv.take(i as int)).push(l@));
        i = i + 1;
    }
    assert(hv.take(i as int) =~= hv);
}

/// Appends the body size line when there is a body.
fn push_body_line(d: &mut Vec<String>, data: &[u8])
    ensures
        strings_view(final(d)@) == strings_view(old(d)@) + body_lines(data@),
{
    let ghost before = strings_view(d@);
    if data.len() != 0 {
        push_dec_line(d, "Body: ", len_u64(data.len()), " bytes");
    }
    assert(strings_view(d@) =~= before + body_lines(data@));
}

impl<'a> HttpPacket<'a> {
    /// The start line of the message.
    pub open spec fn spec_summary_text(&self) -> Seq<char> {
        match self {
            HttpPacket::Request(req) => req.method@ + " "@ + req.path@ + " HTTP/"@ + req.version@,
            HttpPacket::Response(resp) => "HTTP/"@ + resp.version@ + " "@ + dec16(resp.status_code)
                + " "@ + resp.reason_phrase@,
        }
    }

    /// Appends the start line of the message.
    fn push_summary_text(&self, out: &mut Vec<char>)
        ensures
            final(out)@ == old(out)@ + self.spec_summary_text(),
    {
        match self {
            HttpPacket::Request(req) => {
                push_str(out, req.method);
                push_str(out, " ");
                push_str(out, req.path);
                push_str(out, " HTTP/");
                push_str(out, req.version);
            },
            HttpPacket::Response(resp) => {
                push_str(out, "HTTP/");
                push_str(out, resp.version);
                push_str(out, " ");
                push_dec(out, u64::from(resp.status_code));
                push_str(out, " ");
                push_str(out, resp.reason_phrase);
            },
        }
        assert(final(out)@ =~= old(out)@ + self.spec_summary_text());
    }

    /// The one-line text of the packet, as `Display` writes it.
    pub open spec fn spec_text(&self) -> Seq<char> {
        "HTTP: "@ + self.spec_summary_text()
    }

    /// The one-line text of the packet.
    pub fn to_text(&self) -> (s: String)
        ensures
            s@ == self.spec_text(),
    {
        let mut out: Vec<char> = Vec::new();
        push_str(&mut out, "HTTP: ");
        self.push_summary_text(&mut out);
        assert(out@ =~= self.spec_text());
        string_of(&out)
    }
}

impl PacketDetail for HttpPacket<'_> {
    open spec fn spec_summary(&self) -> Seq<char> {
        self.spec_summary_text()
    }

    open spec fn spec_details(&self) -> Seq<Seq<char>> {
        match self {
            HttpPacket::Request(req) => seq![
                "Type: Request"@,
                "Method: "@ + req.method@,
                "Path: "@ + req.path@,
                "Version: HTTP/"@ + req.version@,
                "Headers: "@ + decimal(req.headers@.len()) + " headers"@,
            ] + header_lines(headers_view(req.headers@)) + body_lines(req.data@),
            HttpPacket::Response(resp) => seq![
                "Type: Response"@,
                "Version: HTTP/"@ + resp.version@,
                "Status: "@ + dec16(resp.status_code) + " "@ + resp.reason_phrase@,
                "Headers: "@ + decimal(resp.headers@.len()) + " headers"@,
            ] + header_lines(headers_view(resp.headers@)) + body_lines(resp.data@),
        }
    }

    open spec fn spec_slug(&self) -> Seq<char> {
        "HTTP"@
    }

    open spec fn spec_name(&self) -> Seq<char> {
        "Hypertext Transfer Protocol"@
    }

    open spec fn spec_source(&self) -> Option<Seq<char>> {
        None
    }

    open spec fn spec_destination(&self) -> Option<Seq<char>> {
        None
    }

    open spec fn spec_length(&self) -> nat {
        match self {
            HttpPacket::Request(req) => req.raw@.len(),
            HttpPacket::Response(resp) => resp.raw@.len(),
        }
    }

    fn summary(&self) -> (s: String) {
        let mut out: Vec<char> = Vec::new();
        self.push_summary_text(&mut out);
        assert(out@ =~= self.spec_summary());
        string_of(&out)
    }

    fn details(&self) -> (d: Vec<String>) {
        let mut d: Vec<String> = Vec::new();
        match self {
            HttpPacket::Request(req) => {
                push_text_line(&mut d, "Type: Request");
                let mut l: Vec<char> = Vec::new();
                push_str(&mut l, "Method: ");
                push_str(&mut l, req.method);
                push_line(&mut d, &l);
                let mut l: Vec<char> = Vec::new();
                push_str(&mut l, "Path: ");
                push_str(&mut l, req.path);
                push_line(&mut d, &l);
                let mut l: Vec<char> = Vec::new();
                push_str(&mut l, "Version: HTTP/");
                push_str(&mut l, req.version);
                push_line(&mut d, &l);
                push_dec_line(&mut d, "Headers: ", len_u64(req.headers.len()), " headers");
                let ghost head = strings_view(d@);
                assert(head =~= seq![
                    "Type: Request"@,
                    "Method: "@ + req.method@,
                    "Path: "@ + req.path@,
                    "Version: HTTP/"@ + req.version@,
                    "Headers: "@ + decimal(req.headers@.len()) + " headers"@,
                ]);
                push_header_lines(&mut d, &req.headers);
                push_body_line(&mut d, req.data);
            },
            HttpPacket::Response(resp) => {
                push_text_line(&mut d, "Type: Response");
                let mut l: Vec<char> = Vec::new();
                push_str(&mut l, "Version: HTTP/");
                push_str(&mut l, resp.version);
                push_line(&mut d, &l);
                let mut l: Vec<char> = Vec::new();
                push_str(&mut l, "Status: ");
                push_dec(&mut l, u64::from(resp.status_code));
                push_str(&mut l, " ");
                push_str(&mut l, resp.reason_phrase);
                assert(l@ =~= "Status: "@ + dec16(resp.status_code) + " "@ + resp.reason_phrase@);
                push_line(&mut d, &l);
                push_dec_line(&mut d, "Headers: ", len_u64(resp.headers.len()), " headers");
                let ghost head = strings_view(d@);
                assert(head =~= seq![
                    "Type: Response"@,
                    "Version: HTTP/"@ + resp.version@,
                    "Status: "@ + dec16(resp.status_code) + " "@ + resp.reason_phrase@,
                    "Headers: "@ + decimal(resp.headers@.len()) + " headers"@,
                ]);
                push_header_lines(&mut d, &resp.headers);
                push_body_line(&mut d, resp.data);
            },
        }
        d
    }

    fn slug(&self) -> (s: &'static str) {
        "HTTP"
    }

    fn name(&self) -> (s: &'static str) {
        "Hypertext Transfer Protocol"
    }

    fn source(&self) -> (s: Option<String>) {
        None
    }

    fn destination(&self) -> (s: Option<String>) {
        None
    }

    fn length(&self) -> (n: usize) {
        match self {
            HttpPacket::Request(req) => req.raw.len(),
            HttpPacket::Response(resp) => resp.raw.len(),
        }
    }
}

} // verus!
