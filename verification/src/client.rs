use vstd::prelude::*;
use crate::event_loop::{PreSetEventLoop, RegEvent, RegistrationError};
use crate::protocol::{upgrade_signalled, AutoProtocol, SelectedProtocol};
use crate::stream::{SocketRead, SocketStatus, TcpHandle};
use crate::transport::{
    el_reader_same, el_same_identity, el_writer_same, read_fill_backpressure, write_drain_backpressure,
    write_drain_post, Transport, BUFFER_LIMIT,
};

verus! {

/// One connection: the registration handle, the socket handle, the protocol
/// state machine with its buffers, and the idle mark. The host performs the
/// socket syscalls and feeds their classified outcomes into the poll
/// methods; everything that decides happens here.
pub struct Client {
    /// Registration handle for this connection's descriptor.
    pub event_loop: PreSetEventLoop,
    /// The accepted socket the host performs syscalls on.
    pub handle: TcpHandle,
    /// The protocol state machine, owning the transport buffers.
    pub protocol: AutoProtocol,
    /// Whether the connection has ended because the peer or the protocol
    /// closed it.
    pub idle: bool,
}

impl Client {
    pub open spec fn wf(&self) -> bool {
        &&& self.event_loop.wf()
        &&& self.protocol.wf()
    }

    /// Produce a connection from a freshly accepted socket handle: the
    /// configured default variant is active, the buffers are fresh, and the
    /// connection is not idle.
    pub fn from_handle(handle: TcpHandle, event_loop: PreSetEventLoop) -> (c: Client)
        requires
            event_loop.wf(),
        ensures
            c.wf(),
            c.handle == handle,
            c.event_loop == event_loop,
            !c.idle,
            c.protocol.selected == SelectedProtocol::H1,
            c.protocol.transport.fresh(),
            c.protocol.transport.read_buf.limit == BUFFER_LIMIT,
            c.protocol.transport.write_buf.limit == BUFFER_LIMIT,
            c.protocol.observed_prior@ == 0,
    {
        let transport = Transport::new();
        let protocol = AutoProtocol::new(SelectedProtocol::H1, transport);
        Client { event_loop, handle, protocol, idle: false }
    }

    /// Rebind a shut-down connection to a freshly accepted socket, so the
    /// allocation is recycled under high turnover. The protocol state is
    /// reinitialized, `idle` is cleared whatever it was, and nothing of the
    /// prior socket's registration state survives: the adopted flags are
    /// exactly those of the new handle.
    pub fn _bind_handle(&mut self, handle: TcpHandle, event_loop: PreSetEventLoop)
        requires
            event_loop.wf(),
        ensures
            final(self).wf(),
            final(self).handle == handle,
            final(self).event_loop == event_loop,
            !final(self).idle,
            final(self).protocol.selected == SelectedProtocol::H1,
            final(self).protocol.transport.fresh(),
            final(self).protocol.transport.read_buf.limit == BUFFER_LIMIT,
            final(self).protocol.transport.write_buf.limit == BUFFER_LIMIT,
            final(self).protocol.observed_prior@ == 0,
    {
        self.handle = handle;
        self.event_loop = event_loop;
        self.idle = false;
        let transport = Transport::new();
        self.protocol.new_connection(transport);
    }

    /// Unconditionally stop watching the descriptor in both directions,
    /// leaving the connection safe to rebind without leaking registrations.
    /// Each flag is cleared only as the reactor confirms the removal; a
    /// failure propagates with the remaining registration state unchanged.
    pub fn shutdown(&mut self) -> (r: Result<(), RegistrationError>)
        requires
            old(self).wf(),
        ensures
            final(self).wf(),
            final(self).handle == old(self).handle,
            final(self).protocol == old(self).protocol,
            final(self).idle == old(self).idle,
            el_same_identity(old(self).event_loop, final(self).event_loop),
            !old(self).event_loop.is_reading_ && !old(self).event_loop.is_writing_ ==> r matches Ok(_),
            r matches Ok(_) ==> !final(self).event_loop.is_reading_ && !final(self).event_loop.is_writing_,
            r matches Ok(_) ==> final(self).event_loop.reader_log@ == (if old(self).event_loop.is_reading_ {
                old(self).event_loop.reader_log@.push(RegEvent::Remove)
            } else {
                old(self).event_loop.reader_log@
            }),
            r matches Ok(_) ==> final(self).event_loop.writer_log@ == (if old(self).event_loop.is_writing_ {
                old(self).event_loop.writer_log@.push(RegEvent::Remove)
            } else {
                old(self).event_loop.writer_log@
            }),
            r matches Err(_) ==> final(self).event_loop.is_writing_ == old(self).event_loop.is_writing_ && (final(self).event_loop.is_reading_ ==> old(self).event_loop.is_reading_),
    {
        if self.event_loop.is_reading() {
            match self.event_loop.pause_reading() {
                Ok(_) => {},
                Err(e) => {
                    return Err(e);
                },
            }
        }
        if self.event_loop.is_writing() {
            match self.event_loop.pause_writing() {
                Ok(_) => {},
                Err(e) => {
                    return Err(e);
                },
            }
        }
        Ok(())
    }

    /// Handle a read-readiness event whose single syscall the host has
    /// already performed into the acquired window and classified.
    /// `WouldBlock` changes nothing at all; delivered bytes are committed
    /// and the upgrade check runs; a disconnect tells the protocol the
    /// connection is lost, marks the connection idle and shuts it down.
    pub fn poll_read(&mut self, incoming: SocketRead) -> (r: Result<(), RegistrationError>)
        requires
            old(self).wf(),
            incoming matches SocketRead::Complete(d) ==> d@.len() > 0 && d@.len() <= old(self).protocol.transport.read_buf.spec_window(),
        ensures
            final(self).wf(),
            final(self).handle == old(self).handle,
            el_same_identity(old(self).event_loop, final(self).event_loop),
            incoming matches SocketRead::WouldBlock ==> *final(self) == *old(self) && r matches Ok(_),
            incoming matches SocketRead::Complete(d) ==> ({
                &&& final(self).idle == old(self).idle
                &&& final(self).protocol.transport.read_buf@ == old(self).protocol.transport.read_buf@ + d@
                &&& final(self).protocol.transport.read_buf.filled@ == old(self).protocol.transport.read_buf.filled@ + d@.len()
                &&& final(self).protocol.transport.read_buf.consumed == old(self).protocol.transport.read_buf.consumed
                &&& final(self).protocol.transport.read_buf.limit == old(self).protocol.transport.read_buf.limit
                &&& final(self).protocol.transport.write_buf == old(self).protocol.transport.write_buf
                &&& el_writer_same(old(self).event_loop, final(self).event_loop)
            }),
            incoming matches SocketRead::Complete(d) ==> (!((old(self).protocol.transport.read_buf@ + d@).len() >= old(self).protocol.transport.read_buf.limit && old(self).event_loop.is_reading_) ==> r matches Ok(_)),
            incoming matches SocketRead::Complete(d) ==> (r matches Ok(_) ==> ({
                let joined = old(self).protocol.transport.read_buf@ + d@;
                &&& read_fill_backpressure(
                    old(self).protocol.transport,
                    final(self).protocol.transport,
                    old(self).event_loop,
                    final(self).event_loop,
                )
                &&& (if old(self).protocol.selected == SelectedProtocol::H1 && upgrade_signalled(joined) {
                    final(self).protocol.selected == SelectedProtocol::H2 && final(self).protocol.observed_prior@ == old(self).protocol.transport.read_buf.consumed@
                } else {
                    final(self).protocol.selected == old(self).protocol.selected && final(self).protocol.observed_prior == old(self).protocol.observed_prior
                })
            })),
            incoming matches SocketRead::Complete(d) ==> (r matches Err(_) ==> ({
                &&& final(self).event_loop == old(self).event_loop
                &&& final(self).protocol.selected == old(self).protocol.selected
                &&& final(self).protocol.observed_prior == old(self).protocol.observed_prior
            })),
            incoming matches SocketRead::Disconnect ==> ({
                &&& final(self).idle
                &&& final(self).protocol.transport.fresh()
                &&& final(self).protocol.selected == old(self).protocol.selected
            }),
            incoming matches SocketRead::Disconnect ==> (r matches Ok(_) ==> !final(self).event_loop.is_reading_ && !final(self).event_loop.is_writing_),
            incoming matches SocketRead::Disconnect ==> (!old(self).event_loop.is_reading_ && !old(self).event_loop.is_writing_ ==> r matches Ok(_)),
            r matches Err(_) ==> !(incoming matches SocketRead::WouldBlock),
    {
        match incoming {
            SocketRead::WouldBlock => Ok(()),
            SocketRead::Complete(d) => {
                match self.protocol.read_buffer_filled(d, &mut self.event_loop) {
                    Ok(_) => {},
                    Err(e) => {
                        return Err(e);
                    },
                }
                self.protocol.maybe_switch();
                Ok(())
            },
            SocketRead::Disconnect => {
                self.protocol.lost_connection();
                self.idle = true;
                self.shutdown()
            },
        }
    }

    /// Handle a write-readiness event, the mirror of `poll_read` for the
    /// outbound direction: sent bytes are drained from the queue and
    /// writability interest is dropped once nothing is queued. A disconnect
    /// is treated exactly as on the read side — the protocol is notified,
    /// the connection marked idle and shut down.
    pub fn poll_write(&mut self, status: SocketStatus) -> (r: Result<(), RegistrationError>)
        requires
            old(self).wf(),
            status matches SocketStatus::Complete(n) ==> n > 0 && n <= old(self).protocol.transport.write_buf@.len(),
        ensures
            final(self).wf(),
            final(self).handle == old(self).handle,
            el_same_identity(old(self).event_loop, final(self).event_loop),
            status matches SocketStatus::WouldBlock ==> *final(self) == *old(self) && r matches Ok(_),
            status matches SocketStatus::Complete(n) ==> ({
                &&& final(self).idle == old(self).idle
                &&& final(self).protocol.selected == old(self).protocol.selected
                &&& final(self).protocol.observed_prior == old(self).protocol.observed_prior
                &&& el_reader_same(old(self).event_loop, final(self).event_loop)
                &&& write_drain_post(
                    old(self).protocol.transport,
                    final(self).protocol.transport,
                    n as int,
                )
            }),
            status matches SocketStatus::Complete(n) ==> (!(old(self).protocol.transport.write_buf@.len() == n && old(self).event_loop.is_writing_) ==> r matches Ok(_)),
            status matches SocketStatus::Complete(n) ==> (r matches Ok(_) ==> write_drain_backpressure(
                final(self).protocol.transport,
                old(self).event_loop,
                final(self).event_loop,
            )),
            status matches SocketStatus::Complete(n) ==> (r matches Err(_) ==> final(self).event_loop == old(self).event_loop),
            status matches SocketStatus::Disconnect ==> ({
                &&& final(self).idle
                &&& final(self).protocol.transport.fresh()
                &&& final(self).protocol.selected == old(self).protocol.selected
            }),
            status matches SocketStatus::Disconnect ==> (r matches Ok(_) ==> !final(self).event_loop.is_reading_ && !final(self).event_loop.is_writing_),
            status matches SocketStatus::Disconnect ==> (!old(self).event_loop.is_reading_ && !old(self).event_loop.is_writing_ ==> r matches Ok(_)),
            r matches Err(_) ==> !(status matches SocketStatus::WouldBlock),
    {
        match status {
            SocketStatus::WouldBlock => Ok(()),
            SocketStatus::Complete(n) => self.protocol.write_buffer_drained(
                n,
                &mut self.event_loop,
            ),
            SocketStatus::Disconnect => {
                self.protocol.lost_connection();
                self.idle = true;
                self.shutdown()
            },
        }
    }
}

/// A chain of readiness events that all come back `WouldBlock` leaves the
/// connection exactly as it started: each such poll leaves the state
/// unchanged — the hypothesis below is what `poll_read` and `poll_write`
/// ensure for `WouldBlock` — so the whole chain does.
pub proof fn lemma_would_block_chain(states: Seq<Client>)
    requires
        states.len() > 0,
        forall|i: int| 0 <= i < states.len() - 1 ==> #[trigger] states[i + 1] == states[i],
    ensures
        states.last() == states[0],
    decreases states.len(),
{
    if states.len() > 1 {
        let dl = states.drop_last();
        assert forall|i: int| 0 <= i < dl.len() - 1 implies #[trigger] dl[i + 1] == dl[i] by {
            assert(dl[i + 1] == states[i + 1]);
            assert(dl[i] == states[i]);
        }
        lemma_would_block_chain(dl);
        assert(states[states.len() - 2 + 1] == states[states.len() - 2]);
        assert(dl.last() == states[states.len() - 2]);
        assert(dl[0] == states[0]);
    }
}

} // verus!
