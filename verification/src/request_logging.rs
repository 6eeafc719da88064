use vstd::prelude::*;
use vstd::string::*;

verus! {

/// One header of a request or response: name and raw value bytes, kept in
/// arrival order.
#[derive(Debug, Clone)]
pub struct HeaderField {
    pub name: Vec<u8>,
    pub value: Vec<u8>,
}

/// The audit line for one header: direction marker, name, `": "`, value,
/// newline.
pub open spec fn spec_header_line(marker: Seq<u8>, name: Seq<u8>, value: Seq<u8>) -> Seq<u8> {
    marker + name + ": ".spec_bytes() + value + "\n".spec_bytes()
}

/// The audit lines for a header list, in order.
pub open spec fn spec_header_lines(marker: Seq<u8>, hs: Seq<HeaderField>) -> Seq<u8>
    decreases hs.len(),
{
    if hs.len() == 0 {
        Seq::empty()
    } else {
        spec_header_lines(marker, hs.drop_last())
            + spec_header_line(marker, hs.last().name@, hs.last().value@)
    }
}

/// First audit line of a request: method, target and protocol version.
pub open spec fn spec_request_line(method: Seq<u8>, target: Seq<u8>, version: Seq<u8>) -> Seq<
    u8,
> {
    "> ".spec_bytes() + method + " ".spec_bytes() + target + " ".spec_bytes() + version
        + "\n".spec_bytes()
}

/// First audit line of a response: protocol version and status.
pub open spec fn spec_status_line(version: Seq<u8>, status: Seq<u8>) -> Seq<u8> {
    "< ".spec_bytes() + version + " ".spec_bytes() + status + "\n".spec_bytes()
}

/// The complete audit entry for one request: request line, headers, blank
/// delimiter, raw body, trailing separator.
pub open spec fn spec_request_entry(
    method: Seq<u8>,
    target: Seq<u8>,
    version: Seq<u8>,
    hs: Seq<HeaderField>,
    body: Seq<u8>,
) -> Seq<u8> {
    spec_request_line(method, target, version) + spec_header_lines("> ".spec_bytes(), hs)
        + ">\n>\n".spec_bytes() + body + "\n> --------------------------\n\n".spec_bytes()
}

/// The complete audit entry for one response: status line, headers, blank
/// delimiter, raw body, trailing separator.
pub open spec fn spec_response_entry(
    version: Seq<u8>,
    status: Seq<u8>,
    hs: Seq<HeaderField>,
    body: Seq<u8>,
) -> Seq<u8> {
    spec_status_line(version, status) + spec_header_lines("< ".spec_bytes(), hs)
        + "<\n<\n".spec_bytes() + body + "\n< --------------------------\n\n".spec_bytes()
}

fn append_bytes(out: &mut Vec<u8>, piece: &[u8])
    ensures
        final(out)@ == old(out)@ + piece@,
{
    out.extend_from_slice(piece);
    proof {
        assert(out@ =~= old(out)@ + piece@);
    }
}

fn append_headers(out: &mut Vec<u8>, marker: &str, hs: &Vec<HeaderField>)
    ensures
        final(out)@ == old(out)@ + spec_header_lines(marker.spec_bytes(), hs@),
{
    let ghost base = out@;
    let mut i: usize = 0;
    while i < hs.len()
        invariant
            i <= hs@.len(),
            out@ == base + spec_header_lines(marker.spec_bytes(), hs@.subrange(0, i as int)),
        decreases hs@.len() - i,
    {
        append_bytes(out, marker.as_bytes());
        append_bytes(out, hs[i].name.as_slice());
        append_bytes(out, ": ".as_bytes());
        append_bytes(out, hs[i].value.as_slice());
        append_bytes(out, "\n".as_bytes());
        proof {
            let sub1 = hs@.subrange(0, i + 1 as int);
            assert(sub1.drop_last() =~= hs@.subrange(0, i as int));
            assert(sub1.last() == hs@[i as int]);
            assert(out@ =~= base + spec_header_lines(marker.spec_bytes(), sub1));
        }
        i = i + 1;
    }
    proof {
        assert(hs@.subrange(0, hs@.len() as int) =~= hs@);
    }
}

/// Render the audit entry for one request, and hand the drained body back so
/// that the caller can rebuild a stream for the downstream handler. The
/// returned bytes equal the drained body byte for byte, so the handler sees
/// the request unchanged.
pub fn print_request(
    method: &Vec<u8>,
    target: &Vec<u8>,
    version: &Vec<u8>,
    headers: &Vec<HeaderField>,
    body: Vec<u8>,
) -> (r: (Vec<u8>, Vec<u8>))
    ensures
        r.0@ == spec_request_entry(method@, target@, version@, headers@, body@),
        r.1@ == body@,
{
    let mut entry: Vec<u8> = Vec::new();
    append_bytes(&mut entry, "> ".as_bytes());
    append_bytes(&mut entry, method.as_slice());
    append_bytes(&mut entry, " ".as_bytes());
    append_bytes(&mut entry, target.as_slice());
    append_bytes(&mut entry, " ".as_bytes());
    append_bytes(&mut entry, version.as_slice());
    append_bytes(&mut entry, "\n".as_bytes());
    append_headers(&mut entry, "> ", headers);
    append_bytes(&mut entry, ">\n>\n".as_bytes());
    append_bytes(&mut entry, body.as_slice());
    append_bytes(&mut entry, "\n> --------------------------\n\n".as_bytes());
    proof {
        assert(entry@ =~= spec_request_entry(method@, target@, version@, headers@, body@));
    }
    (entry, body)
}

/// Render the audit entry for one response, and hand the drained body back so
/// that the caller can rebuild the stream sent to the client. The returned
/// bytes equal the drained body byte for byte, so the client receives the
/// response unchanged.
pub fn print_response(
    version: &Vec<u8>,
    status: &Vec<u8>,
    headers: &Vec<HeaderField>,
    body: Vec<u8>,
) -> (r: (Vec<u8>, Vec<u8>))
    ensures
        r.0@ == spec_response_entry(version@, status@, headers@, body@),
        r.1@ == body@,
{
    let mut entry: Vec<u8> = Vec::new();
    append_bytes(&mut entry, "< ".as_bytes());
    append_bytes(&mut entry, version.as_slice());
    append_bytes(&mut entry, " ".as_bytes());
    append_bytes(&mut entry, status.as_slice());
    append_bytes(&mut entry, "\n".as_bytes());
    append_headers(&mut entry, "< ", headers);
    append_bytes(&mut entry, "<\n<\n".as_bytes());
    append_bytes(&mut entry, body.as_slice());
    append_bytes(&mut entry, "\n< --------------------------\n\n".as_bytes());
    proof {
        assert(entry@ =~= spec_response_entry(version@, status@, headers@, body@));
    }
    (entry, body)
}

/// Failure to drain a body maps to 400 with the underlying cause.
pub fn body_read_error(cause: &str) -> (r: (u16, String))
    ensures
        r.0 == 400u16,
        r.1@ == "failed to read request body: "@ + cause@,
{
    let mut body = "failed to read request body: ".to_owned();
    body.append(cause);
    (400, body)
}

/// Failure to take or write the shared log maps to 500 with the underlying
/// cause.
pub fn log_write_error(cause: &str) -> (r: (u16, String))
    ensures
        r.0 == 500u16,
        r.1@ == "failed to unlock file to write: "@ + cause@,
{
    let mut body = "failed to unlock file to write: ".to_owned();
    body.append(cause);
    (500, body)
}

/// Entries reach the shared log whole, one append at a time under mutual
/// exclusion, so one exchange's entry is never interleaved with another's:
/// wherever two entries land in the log one after the other, each occupies
/// one contiguous range holding exactly its own bytes.
pub proof fn lemma_entries_not_interleaved(log: Seq<u8>, e1: Seq<u8>, e2: Seq<u8>)
    ensures
        (log + e1 + e2).subrange(log.len() as int, (log.len() + e1.len()) as int) == e1,
        (log + e1 + e2).subrange(
            (log.len() + e1.len()) as int,
            (log.len() + e1.len() + e2.len()) as int,
        ) == e2,
{
    assert((log + e1 + e2).subrange(log.len() as int, (log.len() + e1.len()) as int) =~= e1);
    assert((log + e1 + e2).subrange(
        (log.len() + e1.len()) as int,
        (log.len() + e1.len() + e2.len()) as int,
    ) =~= e2);
}

} // verus!
