//! Response framing: the exact bytes written back for one response —
//! status line, `Content-Length` counted from the body's bytes,
//! `Content-Type`, a blank line, then the body, with CRLF line endings
//! and no reason phrase after the status code.
use vstd::prelude::*;
use vstd::utf8::encode_utf8;

verus! {

/// The decimal digits of `n` as ASCII bytes, most significant first, with
/// no leading zeros (a single `'0'` for zero).
pub open spec fn dec_bytes(n: nat) -> Seq<u8>
    decreases n,
{
    if n < 10 {
        seq![(48 + n) as u8]
    } else {
        dec_bytes(n / 10) + seq![(48 + n % 10) as u8]
    }
}

/// The number a run of ASCII digits denotes, most significant first.
pub open spec fn dec_val(digits: Seq<u8>) -> int
    decreases digits.len(),
{
    if digits.len() == 0 {
        0
    } else {
        dec_val(digits.drop_last()) * 10 + digits.last() - 48
    }
}

/// Reading back the digits written for `n` yields `n`.
pub proof fn lemma_dec_round_trip(n: nat)
    ensures
        dec_val(dec_bytes(n)) == n,
    decreases n,
{
    if n < 10 {
        assert(dec_bytes(n).drop_last() =~= Seq::<u8>::empty());
        assert(dec_val(Seq::<u8>::empty()) == 0);
        assert((48 + n) as u8 == 48 + n);
        assert(dec_val(dec_bytes(n)) == dec_val(Seq::<u8>::empty()) * 10 + (48 + n) - 48);
    } else {
        let prefix = dec_bytes(n / 10);
        assert(dec_bytes(n).drop_last() =~= prefix);
        assert(dec_bytes(n).last() == (48 + n % 10) as u8);
        assert((48 + n % 10) as u8 == 48 + n % 10);
        lemma_dec_round_trip(n / 10);
        assert(dec_val(dec_bytes(n)) == n / 10 * 10 + n % 10);
        assert(n / 10 * 10 + n % 10 == n);
    }
}

/// Appends the decimal digits of `n`.
pub fn push_dec(out: &mut Vec<u8>, n: usize)
    ensures
        final(out)@ == old(out)@ + dec_bytes(n as nat),
    decreases n,
{
    if n >= 10 {
        push_dec(out, n / 10);
    }
    let digit: u8 = 48 + (n % 10) as u8;
    out.push(digit);
    proof {
        if n < 10 {
            assert(out@ =~= old(out)@ + dec_bytes(n as nat));
        } else {
            assert(out@ =~= old(out)@ + (dec_bytes(n as nat / 10) + seq![
                (48 + n as nat % 10) as u8,
            ]));
        }
    }
}

/// Appends a copy of `bytes`.
fn push_bytes(out: &mut Vec<u8>, bytes: &[u8])
    ensures
        final(out)@ == old(out)@ + bytes@,
{
    let mut i: usize = 0;
    proof {
        assert(out@ =~= old(out)@ + bytes@.subrange(0, 0));
    }
    while i < bytes.len()
        invariant
            i <= bytes@.len(),
            out@ == old(out)@ + bytes@.subrange(0, i as int),
        decreases bytes@.len() - i,
    {
        out.push(bytes[i]);
        proof {
            assert(out@ =~= old(out)@ + bytes@.subrange(0, i as int + 1));
        }
        i += 1;
    }
    proof {
        assert(bytes@.subrange(0, bytes@.len() as int) =~= bytes@);
    }
}

/// Everything that precedes the body on the wire: the status line, the
/// `Content-Length` header counting the body's bytes, the `Content-Type`
/// header, and the blank line.
pub open spec fn spec_response_header(
    status: u16,
    content_type: Seq<char>,
    body: Seq<char>,
) -> Seq<u8> {
    encode_utf8("HTTP/1.1 "@) + dec_bytes(status as nat) + encode_utf8("\r\nContent-Length: "@)
        + dec_bytes(encode_utf8(body).len()) + encode_utf8("\r\nContent-Type: "@) + encode_utf8(
        content_type,
    ) + encode_utf8("\r\n\r\n"@)
}

/// The full wire form of a response: the header, then the body's bytes.
pub open spec fn spec_http_response(
    status: u16,
    content_type: Seq<char>,
    body: Seq<char>,
) -> Seq<u8> {
    spec_response_header(status, content_type, body) + encode_utf8(body)
}

/// `Content-Length` counts exactly the bytes that follow the blank line:
/// taking that many bytes from the body position yields the whole body,
/// no more and no less.
pub proof fn lemma_content_length_round_trip(status: u16, content_type: Seq<char>, body: Seq<char>)
    ensures
        ({
            let response = spec_http_response(status, content_type, body);
            let header = spec_response_header(status, content_type, body);
            let k = dec_val(dec_bytes(encode_utf8(body).len()));
            &&& k == encode_utf8(body).len()
            &&& header.len() + k == response.len()
            &&& response.subrange(header.len() as int, header.len() + k) == encode_utf8(body)
        }),
{
    lemma_dec_round_trip(encode_utf8(body).len());
    let response = spec_http_response(status, content_type, body);
    let header = spec_response_header(status, content_type, body);
    assert(response.subrange(header.len() as int, response.len() as int) =~= encode_utf8(body));
}

/// Serializes one response: status line with the numeric code, a
/// `Content-Length` equal to the byte length of the body, the content type,
/// a blank line, then the body.
pub fn serialize_response(status_code: u16, content_type: &str, body: &str) -> (r: Vec<u8>)
    ensures
        r@ == spec_http_response(status_code, content_type@, body@),
{
    let mut out: Vec<u8> = Vec::new();
    push_bytes(&mut out, "HTTP/1.1 ".as_bytes());
    push_dec(&mut out, status_code as usize);
    push_bytes(&mut out, "\r\nContent-Length: ".as_bytes());
    let body_bytes = body.as_bytes();
    push_dec(&mut out, body_bytes.len());
    push_bytes(&mut out, "\r\nContent-Type: ".as_bytes());
    push_bytes(&mut out, content_type.as_bytes());
    push_bytes(&mut out, "\r\n\r\n".as_bytes());
    push_bytes(&mut out, body_bytes);
    proof {
        assert(out@ =~= spec_http_response(status_code, content_type@, body@));
    }
    out
}

} // verus!
