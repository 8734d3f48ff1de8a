use vstd::prelude::*;
use vstd::string::StringSliceAdditionalSpecFns;
use vstd::utf8::encode_utf8;

verus! {

/// The ASCII digit byte for a value below ten.
pub open spec fn digit_byte(d: nat) -> u8
    recommends
        d < 10,
{
    (48 + d) as u8
}

/// The shortest decimal representation of `n`, as ASCII bytes.
pub open spec fn decimal(n: nat) -> Seq<u8>
    decreases n,
{
    if n < 10 {
        seq![digit_byte(n)]
    } else {
        decimal(n / 10).push(digit_byte(n % 10))
    }
}

/// Appends the decimal digits of `n` to `out`.
pub fn push_decimal(out: &mut Vec<u8>, n: usize)
    ensures
        final(out)@ == old(out)@ + decimal(n as nat),
    decreases n,
{
    if n >= 10 {
        push_decimal(out, n / 10);
    }
    let d: u8 = (n % 10) as u8;
    out.push(48u8 + d);
    assert(out@ =~= old(out)@ + decimal(n as nat));
}

/// The outcome that a response reports in its status line.
#[derive(Clone, Copy, Debug, PartialEq, Eq, Structural)]
pub enum Status {
    Found,
    NotFound,
}

/// The status line that announces `status`, without its line break.
pub open spec fn status_line_of(status: Status) -> Seq<char> {
    match status {
        Status::Found => "HTTP/1.1 200 OK"@,
        Status::NotFound => "HTTP/1.1 404 NOT FOUND"@,
    }
}

impl Status {
    /// The status line, e.g. `HTTP/1.1 200 OK`.
    pub fn status_line(&self) -> (r: &'static str)
        ensures
            r@ == status_line_of(*self),
            r.is_ascii(),
    {
        match self {
            Status::Found => {
                let r = "HTTP/1.1 200 OK";
                proof { reveal_strlit("HTTP/1.1 200 OK"); }
                r
            }
            Status::NotFound => {
                let r = "HTTP/1.1 404 NOT FOUND";
                proof { reveal_strlit("HTTP/1.1 404 NOT FOUND"); }
                r
            }
        }
    }
}

/// The bytes of a response: the status line, a `Content-Length` header that
/// gives the body's length in bytes, an empty line, then the body.
pub open spec fn response_bytes(status: Status, body: Seq<u8>) -> Seq<u8> {
    encode_utf8(status_line_of(status)) + encode_utf8("\r\nContent-Length: "@)
        + decimal(body.len()) + encode_utf8("\r\n\r\n"@) + body
}

/// Appends all of `bytes` to `out`.
fn push_all(out: &mut Vec<u8>, bytes: &[u8])
    ensures
        final(out)@ == old(out)@ + bytes@,
{
    let mut i: usize = 0;
    while i < bytes.len()
        invariant
            i <= bytes@.len(),
            out@ == old(out)@ + bytes@.subrange(0, i as int),
        decreases bytes@.len() - i,
    {
        out.push(bytes[i]);
        i += 1;
        assert(out@ =~= old(out)@ + bytes@.subrange(0, i as int));
    }
    assert(bytes@.subrange(0, i as int) =~= bytes@);
}

/// Frames `body` as a complete HTTP/1.1 response with the given status.
pub fn response(status: Status, body: &str) -> (r: Vec<u8>)
    ensures
        r@ == response_bytes(status, body.spec_bytes()),
{
    let body_bytes = body.as_bytes();
    let mut out: Vec<u8> = Vec::new();
    push_all(&mut out, status.status_line().as_bytes());
    push_all(&mut out, "\r\nContent-Length: ".as_bytes());
    push_decimal(&mut out, body_bytes.len());
    push_all(&mut out, "\r\n\r\n".as_bytes());
    push_all(&mut out, body_bytes);
    assert(out@ =~= response_bytes(status, body.spec_bytes()));
    out
}

} // verus!
