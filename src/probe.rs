//! The decisions of the network probe: the request it sends, the preview it
//! shows of a response, and the report it gives for each outcome. The socket
//! and the TLS session are the caller's.

use vstd::prelude::*;

verus! {

/// The host the probe connects to.
pub const PROBE_HOST: &'static str = "httpbin.org";

/// The port the probe connects to.
pub const PROBE_PORT: u16 = 443;

/// The path the probe requests.
pub const PROBE_PATH: &'static str = "/ip";

/// The number of characters of a response that the report shows.
pub const PREVIEW_CHARS: usize = 200;

/// An HTTP/1.1 GET request for `path` on `host` that asks the server to close
/// the connection after its response.
pub open spec fn request_text(host: Seq<char>, path: Seq<char>) -> Seq<char> {
    "GET "@ + path + " HTTP/1.1\r\nHost: "@ + host + "\r\nConnection: close\r\n\r\n"@
}

/// The first `PREVIEW_CHARS` characters of `response`, or all of it if shorter.
pub open spec fn preview_of(response: Seq<char>) -> Seq<char> {
    if response.len() > PREVIEW_CHARS {
        response.take(PREVIEW_CHARS as int)
    } else {
        response
    }
}

/// The lines reported for a successful fetch of `response`.
pub open spec fn success_report(response: Seq<char>) -> Seq<Seq<char>> {
    seq![
        "TLS Connection successful!"@,
        "Response preview (first 200 chars):"@,
        preview_of(response),
    ]
}

/// The lines reported when the probe failed with `message`.
pub open spec fn failure_report(message: Seq<char>) -> Seq<Seq<char>> {
    seq![
        "TLS Connection test failed: "@ + message,
        "This might be due to network connectivity issues and doesn't necessarily mean OpenSSL is misconfigured."@,
    ]
}

/// The text of the request the probe writes to `host` for `path`.
pub fn http_get_request(host: &str, path: &str) -> (r: String)
    ensures
        r@ == request_text(host@, path@),
{
    let mut r = String::from_str("GET ");
    r.append(path);
    r.append(" HTTP/1.1\r\nHost: ");
    r.append(host);
    r.append("\r\nConnection: close\r\n\r\n");
    r
}

/// At most `PREVIEW_CHARS` characters from the start of `response`.
pub fn response_preview(response: &str) -> (r: String)
    ensures
        r@ == preview_of(response@),
        r@.len() <= PREVIEW_CHARS,
        r@.len() == response@.len() || r@.len() == PREVIEW_CHARS,
{
    let n = response.unicode_len();
    if n > PREVIEW_CHARS {
        let head = response.substring_char(0, PREVIEW_CHARS);
        assert(head@ =~= response@.take(PREVIEW_CHARS as int));
        String::from_str(head)
    } else {
        String::from_str(response)
    }
}

/// The lines that report the probe's outcome: a preview of the response
/// when the fetch succeeded, or the failure message and a note that the
/// network may be at fault. Either way the report is produced and nothing
/// is left to abort the caller.
pub fn probe_report(outcome: &Result<String, String>) -> (r: Vec<String>)
    ensures
        r@.map_values(|l: String| l@) == match outcome {
            Ok(response) => success_report(response@),
            Err(message) => failure_report(message@),
        },
{
    let mut r: Vec<String> = Vec::new();
    match outcome {
        Ok(response) => {
            r.push(String::from_str("TLS Connection successful!"));
            r.push(String::from_str("Response preview (first 200 chars):"));
            r.push(response_preview(response.as_str()));
        },
        Err(message) => {
            let mut first = String::from_str("TLS Connection test failed: ");
            first.append(message.as_str());
            r.push(first);
            r.push(
                String::from_str(
                    "This might be due to network connectivity issues and doesn't necessarily mean OpenSSL is misconfigured.",
                ),
            );
        },
    }
    assert(r@.map_values(|l: String| l@) =~= match outcome {
        Ok(response) => success_report(response@),
        Err(message) => failure_report(message@),
    });
    r
}

} // verus!
