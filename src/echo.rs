//! The echo endpoint's text: a plain rendering of the request it received.
use vstd::prelude::*;

verus! {

/// A header as plain values: its name, and its value when that is text.
pub open spec fn header_view(h: (String, Option<String>)) -> (Seq<char>, Option<Seq<char>>) {
    (
        h.0@,
        match h.1 {
            Some(v) => Some(v@),
            None => None,
        },
    )
}

/// One line per header, `  name: value`, with a placeholder for a value that
/// is not text.
pub open spec fn header_lines(h: Seq<(Seq<char>, Option<Seq<char>>)>) -> Seq<char>
    decreases h.len(),
{
    if h.len() == 0 {
        Seq::empty()
    } else {
        let (name, value) = h.last();
        let shown = match value {
            Some(v) => v,
            None => "[invalid UTF-8]"@,
        };
        header_lines(h.drop_last()) + "  "@ + name + ": "@ + shown + "\n"@
    }
}

/// The echo of a request: method, URI, version, the headers, and the body
/// when it is non-empty text.
pub open spec fn echo_of(
    method: Seq<char>,
    uri: Seq<char>,
    version: Seq<char>,
    headers: Seq<(Seq<char>, Option<Seq<char>>)>,
    body: Option<Seq<char>>,
) -> Seq<char> {
    let head = "Method: "@ + method + "\nURI: "@ + uri + "\nVersion: "@ + version + "\n"@
        + "Headers:\n"@ + header_lines(headers);
    match body {
        Some(b) => if b.len() > 0 {
            head + "\nBody:\n"@ + b
        } else {
            head
        },
        None => head,
    }
}

/// Renders the echo of a request. `body` is absent when the body is not text.
pub fn echo_text(
    method: &str,
    uri: &str,
    version: &str,
    headers: &Vec<(String, Option<String>)>,
    body: Option<&str>,
) -> (r: String)
    ensures
        r@ == echo_of(
            method@,
            uri@,
            version@,
            headers@.map_values(|h: (String, Option<String>)| header_view(h)),
            match body {
                Some(b) => Some(b@),
                None => None,
            },
        ),
{
    let mut out = String::new();
    out.append("Method: ");
    out.append(method);
    out.append("\nURI: ");
    out.append(uri);
    out.append("\nVersion: ");
    out.append(version);
    out.append("\n");
    out.append("Headers:\n");
    let ghost start = out@;
    let ghost hv = headers@.map_values(|h: (String, Option<String>)| header_view(h));
    let mut i: usize = 0;
    while i < headers.len()
        invariant
            i <= headers@.len(),
            hv == headers@.map_values(|h: (String, Option<String>)| header_view(h)),
            out@ == start + header_lines(hv.subrange(0, i as int)),
        decreases headers@.len() - i,
    {
        let ghost before = out@;
        assert(hv.subrange(0, i + 1).drop_last() =~= hv.subrange(0, i as int));
        out.append("  ");
        out.append(headers[i].0.as_str());
        out.append(": ");
        match &headers[i].1 {
            Some(v) => out.append(v.as_str()),
            None => out.append("[invalid UTF-8]"),
        }
        out.append("\n");
        assert(out@ =~= start + header_lines(hv.subrange(0, i + 1)));
        i = i + 1;
    }
    assert(hv.subrange(0, headers@.len() as int) =~= hv);
    if let Some(b) = body {
        if !b.is_empty() {
            out.append("\nBody:\n");
            out.append(b);
        }
    }
    out
}

} // verus!
