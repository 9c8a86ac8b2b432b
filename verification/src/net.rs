//! TCP stream placeholder: the network stack behind it is not there yet, so
//! connecting always succeeds, writes accept everything and reads return
//! nothing.  The bytes handed over for sending are recorded in the stream's
//! specification state.
use vstd::prelude::*;

verus! {

/// A connection to `host`.
pub struct TcpStream {
    socket: usize,
    host: String,
    sent: Ghost<Seq<u8>>,
}

impl TcpStream {
    /// The host the stream was opened to.
    pub closed spec fn host_name(&self) -> Seq<char> {
        self.host@
    }

    /// All bytes handed to the stream for sending, in order.
    pub closed spec fn sent(&self) -> Seq<u8> {
        self.sent@
    }

    /// Open a connection to `host` (no socket is opened yet).
    pub fn connect(host: &str, _port: u16) -> (r: Result<TcpStream, &'static str>)
        ensures
            r matches Ok(s) && s.host_name() == host@ && s.sent() == Seq::<u8>::empty(),
    {
        Ok(TcpStream { socket: 0, host: host.to_owned(), sent: Ghost(Seq::empty()) })
    }

    /// Send `data`; reports all of it as written.
    pub fn write(&mut self, data: &[u8]) -> (r: Result<usize, &'static str>)
        ensures
            final(self).host_name() == old(self).host_name(),
            final(self).sent() == old(self).sent() + data@,
            r == Ok::<usize, &'static str>(data@.len() as usize),
    {
        self.sent = Ghost(self.sent@ + data@);
        Ok(data.len())
    }

    /// Receive into `buf`; reports no bytes received.
    pub fn read(&mut self, buf: &mut [u8]) -> (r: Result<usize, &'static str>)
        ensures
            final(self).host_name() == old(self).host_name(),
            final(self).sent() == old(self).sent(),
            final(buf)@ == old(buf)@,
            r == Ok::<usize, &'static str>(0),
    {
        Ok(0)
    }

    /// The host the stream was opened to.
    pub fn host(&self) -> (h: &str)
        ensures
            h@ == self.host_name(),
    {
        self.host.as_str()
    }
}

} // verus!
