//! What travels over the anonymizing circuit for a plain HTTP request: the
//! request the proxy writes, and the body it keeps from the reply.
use vstd::prelude::*;
use crate::fingerprint::BrowserFingerprint;

verus! {

/// The `Accept` header sent with every outbound request.
pub const ACCEPT_VALUE: &'static str = "text/html,application/xhtml+xml,application/xml;q=0.9,*/*;q=0.8";

/// The header lines that come from the browser fingerprint.
pub open spec fn fingerprint_lines(fp: BrowserFingerprint) -> Seq<char> {
    "User-Agent: "@ + fp.user_agent@ + "\r\nAccept: "@ + ACCEPT_VALUE@ + "\r\nAccept-Language: "@
        + fp.accept_language@ + "\r\nAccept-Encoding: "@ + fp.accept_encoding@ + "\r\n"@
}

/// The HTTP/1.1 request written to the circuit for `method path_and_query` on `host`.
pub open spec fn outbound_request(
    method: Seq<char>,
    path_and_query: Seq<char>,
    host: Seq<char>,
    fp: BrowserFingerprint,
) -> Seq<char> {
    method + " "@ + path_and_query + " HTTP/1.1\r\nHost: "@ + host + "\r\n"@ + fingerprint_lines(fp)
        + "Connection: close\r\n\r\n"@
}

/// Builds the request that goes out over the circuit.
pub fn build_http_request(
    method: &str,
    path_and_query: &str,
    host: &str,
    fingerprint: &BrowserFingerprint,
) -> (r: String)
    ensures
        r@ == outbound_request(method@, path_and_query@, host@, *fingerprint),
{
    let mut r = String::from_str(method);
    r.append(" ");
    r.append(path_and_query);
    r.append(" HTTP/1.1\r\nHost: ");
    r.append(host);
    r.append("\r\n");
    let ghost head = r@;
    r.append("User-Agent: ");
    r.append(fingerprint.user_agent.as_str());
    r.append("\r\nAccept: ");
    r.append(ACCEPT_VALUE);
    r.append("\r\nAccept-Language: ");
    r.append(fingerprint.accept_language.as_str());
    r.append("\r\nAccept-Encoding: ");
    r.append(fingerprint.accept_encoding.as_str());
    r.append("\r\n");
    assert(r@ =~= head + fingerprint_lines(*fingerprint));
    r.append("Connection: close\r\n\r\n");
    r
}

/// The port to reach when the request names none: 443 for https, else 80.
pub fn target_port(port: Option<u16>, https: bool) -> (r: u16)
    ensures
        r == match port {
            Some(p) => p,
            None => if https { 443u16 } else { 80u16 },
        },
{
    match port {
        Some(p) => p,
        None => if https { 443 } else { 80 },
    }
}

/// The blank line that ends a reply's headers starts at `i`.
pub open spec fn blank_line_at(raw: Seq<u8>, i: int) -> bool {
    0 <= i && i + 4 <= raw.len() && raw[i] == 13 && raw[i + 1] == 10 && raw[i + 2] == 13 && raw[i + 3] == 10
}

/// `i` is the position of the first blank line of `raw`.
pub open spec fn first_blank_line(raw: Seq<u8>, i: int) -> bool {
    blank_line_at(raw, i) && forall|j: int| 0 <= j < i ==> !#[trigger] blank_line_at(raw, j)
}

/// Keeps the body of a reply read from the circuit: what follows its first
/// blank line, the status line and headers dropped. A reply with no blank line
/// is malformed, and gives none.
pub fn response_body(raw: &[u8]) -> (r: Option<Vec<u8>>)
    ensures
        r is None <==> forall|j: int| !#[trigger] blank_line_at(raw@, j),
        r matches Some(b) ==> exists|i: int|
            #[trigger] first_blank_line(raw@, i) && b@ == raw@.subrange(i + 4, raw@.len() as int),
{
    let n = raw.len();
    let mut i: usize = 0;
    while i < n && n - i >= 4
        invariant
            i <= n,
            n == raw@.len(),
            forall|j: int| 0 <= j < i ==> !#[trigger] blank_line_at(raw@, j),
        decreases n - i,
    {
        if raw[i] == 13 && raw[i + 1] == 10 && raw[i + 2] == 13 && raw[i + 3] == 10 {
            let mut body: Vec<u8> = Vec::new();
            let mut k = i + 4;
            while k < n
                invariant
                    i + 4 <= k <= n,
                    n == raw@.len(),
                    body@ == raw@.subrange(i + 4, k as int),
                decreases n - k,
            {
                body.push(raw[k]);
                assert(body@ =~= raw@.subrange(i + 4, k + 1));
                k = k + 1;
            }
            assert(first_blank_line(raw@, i as int));
            return Some(body);
        }
        i = i + 1;
    }
    assert forall|j: int| !#[trigger] blank_line_at(raw@, j) by {
        if blank_line_at(raw@, j) {
            assert(j < i);
        }
    }
    None
}

} // verus!
