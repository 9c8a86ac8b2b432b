//! Minimal HTTP/1.1 client over [`TcpStream`].
use crate::net::TcpStream;
use vstd::prelude::*;
use vstd::string::StringSliceAdditionalSpecFns;
use vstd::utf8::encode_utf8;

verus! {

/// Size of the response buffer.
pub const RESPONSE_BUFFER: usize = 1024;

/// Decimal digits (ASCII) of `n`, most significant first.
pub open spec fn decimal(n: nat) -> Seq<u8>
    decreases n,
{
    if n < 10 {
        seq![(48 + n) as u8]
    } else {
        decimal(n / 10).push((48 + n % 10) as u8)
    }
}

/// The number written by the ASCII decimal digits `s`, most significant
/// first.
pub open spec fn digits_value(s: Seq<u8>) -> int
    decreases s.len(),
{
    if s.len() == 0 {
        0
    } else {
        digits_value(s.drop_last()) * 10 + (s.last() as int - 48)
    }
}

/// The digits of `n` are ASCII decimal digits that read back as `n`, with
/// no leading zero: `0` is the single digit `0`.
pub proof fn lemma_decimal_reads_back(n: nat)
    ensures
        digits_value(decimal(n)) == n,
        decimal(n).len() >= 1,
        forall|i: int| 0 <= i < decimal(n).len() ==> 48 <= #[trigger] decimal(n)[i] <= 57,
        decimal(n)[0] == 48 ==> n == 0 && decimal(n).len() == 1,
    decreases n,
{
    if n >= 10 {
        lemma_decimal_reads_back(n / 10);
        let d = decimal(n);
        let h = decimal(n / 10);
        assert(d.drop_last() =~= h);
        assert(d[0] == h[0]);
        assert forall|i: int| 0 <= i < d.len() implies 48 <= #[trigger] d[i] <= 57 by {
            if i < h.len() {
                assert(d[i] == h[i]);
            }
        }
        assert(d.last() as int == 48 + n % 10);
        assert(n == (n / 10) * 10 + n % 10);
        assert(digits_value(d) == digits_value(h) * 10 + (d.last() as int - 48));
    } else {
        let d = decimal(n);
        assert(d.drop_last() =~= Seq::<u8>::empty());
        assert(d.last() as int == 48 + n);
        assert(digits_value(d) == digits_value(d.drop_last()) * 10 + (d.last() as int - 48));
    }
}

/// The bytes of a GET request for `path` on `host`.
pub open spec fn get_request_bytes(path: Seq<u8>, host: Seq<u8>) -> Seq<u8> {
    "GET ".spec_bytes() + path + " HTTP/1.1\r\nHost: ".spec_bytes() + host + "\r\n\r\n".spec_bytes()
}

/// The bytes of a POST request carrying the JSON document `json`.
pub open spec fn post_request_bytes(path: Seq<u8>, host: Seq<u8>, json: Seq<u8>) -> Seq<u8> {
    "POST ".spec_bytes() + path + " HTTP/1.1\r\nHost: ".spec_bytes() + host
        + "\r\nContent-Type: application/json\r\nContent-Length: ".spec_bytes() + decimal(
        json.len(),
    ) + "\r\n\r\n".spec_bytes() + json
}

fn push_all(out: &mut Vec<u8>, b: &[u8])
    ensures
        final(out)@ == old(out)@ + b@,
{
    let mut i: usize = 0;
    while i < b.len()
        invariant
            i <= b@.len(),
            out@ == old(out)@ + b@.subrange(0, i as int),
        decreases b@.len() - i,
    {
        out.push(b[i]);
        i = i + 1;
        assert(out@ =~= old(out)@ + b@.subrange(0, i as int));
    }
    assert(b@.subrange(0, b@.len() as int) =~= b@);
}

fn push_decimal(out: &mut Vec<u8>, n: usize)
    ensures
        final(out)@ == old(out)@ + decimal(n as nat),
    decreases n,
{
    if n >= 10 {
        push_decimal(out, n / 10);
    }
    out.push((48 + n % 10) as u8);
    assert(out@ =~= old(out)@ + decimal(n as nat));
}

/// The GET request for `path` on `host`.
pub fn get_request(path: &str, host: &str) -> (req: Vec<u8>)
    ensures
        req@ == get_request_bytes(path.spec_bytes(), host.spec_bytes()),
{
    let mut req: Vec<u8> = Vec::new();
    push_all(&mut req, "GET ".as_bytes());
    push_all(&mut req, path.as_bytes());
    push_all(&mut req, " HTTP/1.1\r\nHost: ".as_bytes());
    push_all(&mut req, host.as_bytes());
    push_all(&mut req, "\r\n\r\n".as_bytes());
    req
}

/// The POST request carrying `json` to `path` on `host`.
pub fn post_request(path: &str, host: &str, json: &str) -> (req: Vec<u8>)
    ensures
        req@ == post_request_bytes(path.spec_bytes(), host.spec_bytes(), json.spec_bytes()),
{
    let mut req: Vec<u8> = Vec::new();
    push_all(&mut req, "POST ".as_bytes());
    push_all(&mut req, path.as_bytes());
    push_all(&mut req, " HTTP/1.1\r\nHost: ".as_bytes());
    push_all(&mut req, host.as_bytes());
    push_all(&mut req, "\r\nContent-Type: application/json\r\nContent-Length: ".as_bytes());
    let body = json.as_bytes();
    push_decimal(&mut req, body.len());
    push_all(&mut req, "\r\n\r\n".as_bytes());
    push_all(&mut req, body);
    req
}

/// An HTTP client bound to one server.
pub struct HttpClient {
    stream: TcpStream,
    buffer: Vec<u8>,
}

impl HttpClient {
    /// The server the client talks to.
    pub closed spec fn server(&self) -> Seq<char> {
        self.stream.host_name()
    }

    /// All bytes the client has handed to its stream, in order.
    pub closed spec fn sent(&self) -> Seq<u8> {
        self.stream.sent()
    }

    /// The receive buffer.
    pub closed spec fn received(&self) -> Seq<u8> {
        self.buffer@
    }

    /// Connect to `server` on `port`, with a zeroed receive buffer of
    /// `RESPONSE_BUFFER` bytes.
    pub fn new(server: &str, port: u16) -> (r: Result<Self, &'static str>)
        ensures
            r matches Ok(c) && c.server() == server@ && c.sent() == Seq::<u8>::empty()
                && c.received() == Seq::new(RESPONSE_BUFFER as nat, |i: int| 0u8),
    {
        let stream = match TcpStream::connect(server, port) {
            Ok(s) => s,
            Err(e) => return Err(e),
        };
        let mut buffer: Vec<u8> = Vec::new();
        let mut i: usize = 0;
        while i < RESPONSE_BUFFER
            invariant
                i <= RESPONSE_BUFFER,
                buffer@ == Seq::new(i as nat, |k: int| 0u8),
            decreases RESPONSE_BUFFER - i,
        {
            buffer.push(0);
            i = i + 1;
            assert(buffer@ =~= Seq::new(i as nat, |k: int| 0u8));
        }
        Ok(HttpClient { stream, buffer })
    }

    /// Send `request` and collect the bytes the stream returns.
    fn exchange(&mut self, request: &[u8]) -> (r: Result<Vec<u8>, &'static str>)
        ensures
            final(self).server() == old(self).server(),
            final(self).received() == old(self).received(),
            final(self).sent() == old(self).sent() + request@,
            r matches Ok(v) && v@ == Seq::<u8>::empty(),
    {
        match self.stream.write(request) {
            Ok(_) => {},
            Err(e) => return Err(e),
        }
        let len = match self.stream.read(self.buffer.as_mut_slice()) {
            Ok(n) => n,
            Err(e) => return Err(e),
        };
        let mut body: Vec<u8> = Vec::new();
        let mut i: usize = 0;
        while i < len
            invariant
                len == 0,
                i <= len,
                body@ == self.buffer@.subrange(0, i as int),
            decreases len - i,
        {
            body.push(self.buffer[i]);
            i = i + 1;
        }
        assert(body@ =~= Seq::<u8>::empty());
        Ok(body)
    }

    /// Request `path` with GET; the response is what the stream returned
    /// (nothing, with the placeholder stream).
    pub fn get(&mut self, path: &str) -> (r: Result<Vec<u8>, &'static str>)
        ensures
            final(self).server() == old(self).server(),
            final(self).received() == old(self).received(),
            final(self).sent() == old(self).sent() + get_request_bytes(
                path.spec_bytes(),
                encode_utf8(old(self).server()),
            ),
            r matches Ok(v) && v@ == Seq::<u8>::empty(),
    {
        let request = get_request(path, self.stream.host());
        self.exchange(request.as_slice())
    }

    /// Send `json` to `path` with POST; the response is what the stream
    /// returned (nothing, with the placeholder stream).
    pub fn post_json(&mut self, path: &str, json: &str) -> (r: Result<Vec<u8>, &'static str>)
        ensures
            final(self).server() == old(self).server(),
            final(self).received() == old(self).received(),
            final(self).sent() == old(self).sent() + post_request_bytes(
                path.spec_bytes(),
                encode_utf8(old(self).server()),
                json.spec_bytes(),
            ),
            r matches Ok(v) && v@ == Seq::<u8>::empty(),
    {
        let request = post_request(path, self.stream.host(), json);
        self.exchange(request.as_slice())
    }
}

} // verus!
