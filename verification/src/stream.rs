use vstd::prelude::*;

verus! {

/// Classified outcome of one non-blocking socket syscall. Every operation
/// yields exactly one of these; bytes are never silently dropped.
pub enum SocketStatus {
    /// Zero bytes transferred; the caller waits for the next readiness event.
    WouldBlock,
    /// `n > 0` bytes transferred; the caller advances its cursor by `n`.
    Complete(usize),
    /// The peer closed or reset the connection; terminal for the connection.
    Disconnect,
}

/// Classified outcome of one non-blocking read, carrying the received bytes
/// so the transport can commit them.
pub enum SocketRead {
    /// Zero bytes available without blocking; no state change.
    WouldBlock,
    /// The bytes transferred by the one read syscall; never empty.
    Complete(Vec<u8>),
    /// The peer closed or reset the connection.
    Disconnect,
}

/// Handle on an accepted OS socket. It is stateless beyond the descriptor,
/// which serves as the registration key with the reactor. The host around
/// this crate performs the actual syscalls and feeds their classified
/// outcomes into `Client::poll_read` and `Client::poll_write`.
pub struct TcpHandle {
    /// The OS file descriptor of the accepted socket.
    pub fd: i32,
}

impl TcpHandle {
    pub fn new(fd: i32) -> (h: TcpHandle)
        ensures
            h.fd == fd,
    {
        TcpHandle { fd }
    }

    pub fn fd(&self) -> (fd: i32)
        ensures
            fd == self.fd,
    {
        self.fd
    }
}

} // verus!
