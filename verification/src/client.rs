//! What every request of a run carries: the fixed headers of a browser, the
//! session cookie, and a bound on the time a request may take.

use reqwest::header::HeaderValue;
use vstd::prelude::*;
use vstd::string::StringExecFns;
use vstd::string::StringSliceAdditionalSpecFns;
use vstd::utf8::encode_scalar;
use vstd::utf8::encode_utf8;

verus! {

/// The browser that the requests name as their sender.
pub const USER_AGENT: &'static str =
    "Mozilla/5.0 (Windows NT 10.0; Win64; x64) AppleWebKit/537.36 (KHTML, like Gecko) Chrome/120.0.0.0 Safari/537.36";

/// The kinds of content that the requests ask for.
pub const ACCEPT: &'static str =
    "text/html,application/xhtml+xml,application/xml;q=0.9,image/avif,image/webp,image/apng,*/*;q=0.8";

/// The languages that the requests ask for.
pub const ACCEPT_LANGUAGE: &'static str = "zh-CN,zh;q=0.9";

/// The longest that one request may take, in seconds.
pub const TIMEOUT_SECONDS: u64 = 15;

/// A header: its name, in lower case, and its value.
#[derive(Debug, PartialEq, Eq)]
pub struct Header {
    pub name: &'static str,
    pub value: String,
}

/// Why no client can be made.
#[derive(Clone, Copy, Debug, PartialEq, Eq, Structural)]
pub enum ClientError {
    /// The cookie holds an octet that may not stand in a header.
    InvalidCookie,
}

/// Whether the octet `b` may stand in the value of a header: it is a tab, or
/// neither a control character nor DEL.
pub open spec fn header_octet(b: u8) -> bool {
    b == 9 || (b >= 32 && b != 127)
}

/// Whether a text with the UTF-8 encoding `octets` may be the value of a
/// header.
pub open spec fn header_text(octets: Seq<u8>) -> bool {
    forall|i: int| 0 <= i < octets.len() ==> header_octet(#[trigger] octets[i])
}

/// Whether the character `c` may stand in the value of a header: it is a tab,
/// or neither a control character of ASCII nor DEL.
pub open spec fn header_char(c: char) -> bool {
    c == '\t' || (c as u32 >= 32 && c as u32 != 127)
}

/// Whether the text `s` may be the value of a header.
pub open spec fn header_chars(s: Seq<char>) -> bool {
    forall|i: int| 0 <= i < s.len() ==> header_char(#[trigger] s[i])
}

/// Whether `status` is a success: one of the codes 200 to 299.
pub open spec fn is_success_status(status: u16) -> bool {
    200 <= status < 300
}

/// The sentence that reports `error`.
pub open spec fn client_error_text(error: ClientError) -> Seq<char> {
    match error {
        ClientError::InvalidCookie => "Cookie 包含非法字符，请检查 config.json"@,
    }
}

/// The headers of every request, where `cookie` is the session cookie.
pub open spec fn headers_with(cookie: Seq<char>) -> Seq<(Seq<char>, Seq<char>)> {
    seq![
        ("user-agent"@, USER_AGENT@),
        ("accept"@, ACCEPT@),
        ("accept-language"@, ACCEPT_LANGUAGE@),
        ("cookie"@, cookie),
    ]
}

/// The names and values of `headers`, in order.
pub open spec fn header_views(headers: Seq<Header>) -> Seq<(Seq<char>, Seq<char>)> {
    Seq::new(headers.len(), |i: int| (headers[i].name@, headers[i].value@))
}

/// `reqwest::header::HeaderValue::from_str` (the type is that of the `http`
/// crate, which `reqwest` hands on), of which only success or failure is kept.
/// It succeeds where every octet of the text is a tab, or is at least 32 and
/// not 127, and fails on every other text.
#[verifier::external_body]
fn header_value_accepts(text: &str) -> (accepted: bool)
    ensures
        accepted == header_text(text.spec_bytes()),
{
    HeaderValue::from_str(text).is_ok()
}

impl ClientError {
    /// The sentence that reports the error.
    pub fn message(self) -> (text: String)
        ensures
            text@ == client_error_text(self),
    {
        match self {
            ClientError::InvalidCookie => String::from_str(
                "Cookie 包含非法字符，请检查 config.json",
            ),
        }
    }
}

/// Whether the status code of an answer tells success.
pub fn is_success(status: u16) -> (success: bool)
    ensures
        success == is_success_status(status),
{
    200 <= status && status < 300
}

/// The headers that every request carries. The cookie is checked before
/// anything is sent: it is refused where it cannot be the value of a header.
pub fn default_headers(cookie: &str) -> (r: Result<Vec<Header>, ClientError>)
    ensures
        match r {
            Ok(headers) => header_chars(cookie@) && header_views(headers@) == headers_with(
                cookie@,
            ),
            Err(e) => !header_chars(cookie@) && e == ClientError::InvalidCookie,
        },
{
    proof {
        lemma_header_text_by_chars(cookie@);
    }
    if !header_value_accepts(cookie) {
        return Err(ClientError::InvalidCookie);
    }
    let mut headers: Vec<Header> = Vec::new();
    headers.push(Header { name: "user-agent", value: String::from_str(USER_AGENT) });
    headers.push(Header { name: "accept", value: String::from_str(ACCEPT) });
    headers.push(Header { name: "accept-language", value: String::from_str(ACCEPT_LANGUAGE) });
    headers.push(Header { name: "cookie", value: String::from_str(cookie) });
    assert(header_views(headers@) =~= headers_with(cookie@));
    Ok(headers)
}

/// The octets that encode a scalar value: one octet that equals the value, for
/// a value below 128, and else octets of 128 and more.
proof fn lemma_octets_of_scalar(v: u32)
    by (bit_vector)
    requires
        v <= 0x10FFFF,
    ensures
        v <= 0x7F ==> (v & 0x7F) as u8 == v,
        0xC0u8 | ((v >> 6) & 0x1F) as u8 >= 0x80,
        0xE0u8 | ((v >> 12) & 0x0F) as u8 >= 0x80,
        0xF0u8 | ((v >> 18) & 0x7) as u8 >= 0x80,
        0x80u8 | (v & 0x3F) as u8 >= 0x80,
        0x80u8 | ((v >> 6) & 0x3F) as u8 >= 0x80,
        0x80u8 | ((v >> 12) & 0x3F) as u8 >= 0x80,
{
}

/// The octets of one character may stand in a header where the character may.
proof fn lemma_header_text_of_char(c: char)
    ensures
        header_text(encode_scalar(c as u32)) <==> header_char(c),
{
    let v = c as u32;
    let octets = encode_scalar(v);
    lemma_octets_of_scalar(v);
    if header_text(octets) {
        assert(header_octet(octets[0]));
    }
}

/// Two texts may stand in a header one after the other where each of them may.
proof fn lemma_header_text_of_both(first: Seq<u8>, second: Seq<u8>)
    ensures
        header_text(first + second) <==> header_text(first) && header_text(second),
{
    let both = first + second;
    if header_text(both) {
        assert forall|i: int| 0 <= i < first.len() implies header_octet(#[trigger] first[i]) by {
            assert(both[i] == first[i]);
        }
        assert forall|i: int| 0 <= i < second.len() implies header_octet(#[trigger] second[i]) by {
            assert(both[first.len() + i] == second[i]);
        }
    }
}

/// The octets of a text may stand in a header where each of its characters
/// may: the two ways of stating which cookie is accepted agree.
pub proof fn lemma_header_text_by_chars(s: Seq<char>)
    ensures
        header_text(encode_utf8(s)) <==> header_chars(s),
    decreases s.len(),
{
    if s.len() > 0 {
        let rest = s.drop_first();
        lemma_header_text_by_chars(rest);
        lemma_header_text_of_char(s[0]);
        lemma_header_text_of_both(encode_scalar(s[0] as u32), encode_utf8(rest));
        if header_chars(s) {
            assert forall|i: int| 0 <= i < rest.len() implies header_char(#[trigger] rest[i]) by {
                assert(rest[i] == s[i + 1]);
            }
        } else {
            let i = choose|i: int| 0 <= i < s.len() && !header_char(#[trigger] s[i]);
            if i > 0 {
                assert(rest[i - 1] == s[i]);
            }
        }
    }
}

} // verus!
