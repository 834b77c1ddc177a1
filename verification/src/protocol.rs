use vstd::prelude::*;
use crate::event_loop::{PreSetEventLoop, RegistrationError};
use crate::transport::Transport;
use crate::transport::{
    el_reader_same, el_same_identity, el_writer_same, read_fill_backpressure, read_fill_post,
    write_drain_backpressure, write_drain_post,
};

verus! {

/// The protocol variants a connection can run; one is active at a time.
#[derive(Clone, Copy, PartialEq, Eq, Structural, Debug)]
pub enum SelectedProtocol {
    /// The default request/response protocol a connection starts with.
    H1,
    /// The multiplexed protocol a connection can upgrade to mid-stream.
    H2,
}

/// The client-side preface that signals an upgrade of the connection:
/// the bytes of `PRI * HTTP/2.0\r\n\r\nSM\r\n\r\n`.
pub const UPGRADE_PREFACE: [u8; 24] = [
    0x50, 0x52, 0x49, 0x20, 0x2a, 0x20, 0x48, 0x54, 0x54, 0x50, 0x2f, 0x32, 0x2e, 0x30, 0x0d,
    0x0a, 0x0d, 0x0a, 0x53, 0x4d, 0x0d, 0x0a, 0x0d, 0x0a,
];

/// Whether the accumulated unconsumed input opens with the upgrade preface.
pub open spec fn upgrade_signalled(s: Seq<u8>) -> bool {
    s.len() >= 24 && (forall|i: int| 0 <= i < 24 ==> s[i] == UPGRADE_PREFACE@[i])
}

/// Exact check for the upgrade preface at the front of the pending input.
fn has_upgrade_signal(data: &Vec<u8>) -> (r: bool)
    ensures
        r == upgrade_signalled(data@),
{
    if data.len() < 24 {
        return false;
    }
    let mut i: usize = 0;
    while i < 24
        invariant
            i <= 24,
            data@.len() >= 24,
            forall|j: int| 0 <= j < i ==> data@[j] == UPGRADE_PREFACE@[j],
        decreases 24 - i,
    {
        if data[i] != UPGRADE_PREFACE[i] {
            return false;
        }
        i = i + 1;
    }
    true
}

/// Owns the active protocol variant and mediates the buffer exchange between
/// the transport and whichever variant is active, switching variants
/// mid-connection when the input carries the upgrade signal.
pub struct AutoProtocol {
    /// The active protocol variant.
    pub selected: SelectedProtocol,
    /// The buffered transport the variants share.
    pub transport: Transport,
    /// How many bytes were consumed under variants active before the last
    /// switch; everything later belongs to the current variant.
    pub observed_prior: Ghost<nat>,
}

impl AutoProtocol {
    pub open spec fn wf(&self) -> bool {
        &&& self.transport.wf()
        &&& self.observed_prior@ <= self.transport.read_buf.consumed@
    }

    /// Start a state machine on a fresh transport with the configured
    /// default variant active.
    pub fn new(selected: SelectedProtocol, transport: Transport) -> (p: AutoProtocol)
        requires
            transport.wf(),
            transport.fresh(),
        ensures
            p.wf(),
            p.selected == selected,
            p.transport == transport,
            p.observed_prior@ == 0,
    {
        AutoProtocol { selected, transport, observed_prior: Ghost(0) }
    }

    /// Reset the state machine for a reused connection: default variant,
    /// fresh transport, fresh accounting.
    pub fn new_connection(&mut self, transport: Transport)
        requires
            transport.wf(),
            transport.fresh(),
        ensures
            final(self).wf(),
            final(self).selected == SelectedProtocol::H1,
            final(self).transport == transport,
            final(self).observed_prior@ == 0,
    {
        self.selected = SelectedProtocol::H1;
        self.transport = transport;
        proof {
            self.observed_prior@ = 0;
        }
    }

    /// The peer disconnected: abandon all in-flight bytes cleanly. Safe to
    /// call again on an already idle state machine.
    pub fn lost_connection(&mut self)
        requires
            old(self).wf(),
        ensures
            final(self).wf(),
            final(self).selected == old(self).selected,
            final(self).transport.fresh(),
            final(self).transport.read_buf.limit == old(self).transport.read_buf.limit,
            final(self).transport.write_buf.limit == old(self).transport.write_buf.limit,
            final(self).observed_prior@ == 0,
    {
        self.transport.recycle();
        proof {
            self.observed_prior@ = 0;
        }
    }

    /// Inspect the accumulated input for the upgrade signal and, if it is
    /// present while the default variant is active, replace the active
    /// variant, handing the unconsumed buffered bytes to the new variant
    /// untouched.
    pub fn maybe_switch(&mut self)
        requires
            old(self).wf(),
        ensures
            final(self).wf(),
            final(self).transport == old(self).transport,
            ({
                if old(self).selected == SelectedProtocol::H1 && upgrade_signalled(
                    old(self).transport.read_buf@,
                ) {
                    &&& final(self).selected == SelectedProtocol::H2
                    &&& final(self).observed_prior@ == old(self).transport.read_buf.consumed@
                } else {
                    *final(self) == *old(self)
                }
            }),
    {
        if self.selected == SelectedProtocol::H1 && has_upgrade_signal(
            &self.transport.read_buf.data,
        ) {
            self.selected = SelectedProtocol::H2;
            proof {
                self.observed_prior@ = self.transport.read_buf.consumed@;
            }
        }
    }

    /// The window the transport exposes for the next socket read.
    pub fn read_buffer_acquire(&self) -> (n: usize)
        ensures
            n == self.transport.read_buf.spec_window(),
    {
        self.transport.read_buffer_acquire()
    }

    /// Commit bytes received from the socket; see the transport for the
    /// backpressure policy.
    pub fn read_buffer_filled(&mut self, bytes: Vec<u8>, el: &mut PreSetEventLoop) -> (r: Result<
        (),
        RegistrationError,
    >)
        requires
            old(self).wf(),
            old(el).wf(),
            bytes@.len() <= old(self).transport.read_buf.spec_window(),
        ensures
            final(self).wf(),
            final(el).wf(),
            final(self).selected == old(self).selected,
            final(self).observed_prior == old(self).observed_prior,
            el_same_identity(*old(el), *final(el)),
            el_writer_same(*old(el), *final(el)),
            read_fill_post(old(self).transport, final(self).transport, bytes@),
            !((old(self).transport.read_buf@ + bytes@).len() >= old(
                self,
            ).transport.read_buf.limit && old(el).is_reading_) ==> r matches Ok(_),
            r matches Ok(_) ==> read_fill_backpressure(
                old(self).transport,
                final(self).transport,
                *old(el),
                *final(el),
            ),
            r matches Err(_) ==> *final(el) == *old(el) && final(self).transport.throttled == old(
                self,
            ).transport.throttled,
    {
        self.transport.read_buffer_filled(bytes, el)
    }

    /// The active variant's parser consumed `n` bytes of input.
    pub fn consume_input(&mut self, n: usize, el: &mut PreSetEventLoop) -> (r: Result<
        (),
        RegistrationError,
    >)
        requires
            old(self).wf(),
            old(el).wf(),
            n <= old(self).transport.read_buf@.len(),
        ensures
            final(self).wf(),
            final(el).wf(),
            final(self).selected == old(self).selected,
            final(self).observed_prior == old(self).observed_prior,
            el_same_identity(*old(el), *final(el)),
            el_writer_same(*old(el), *final(el)),
            final(self).transport.read_buf@ == old(self).transport.read_buf@.skip(n as int),
            final(self).transport.read_buf.consumed@ == old(self).transport.read_buf.consumed@
                + n,
            final(self).transport.write_buf == old(self).transport.write_buf,
            !(old(self).transport.throttled && old(self).transport.read_buf@.len() - n < old(
                self,
            ).transport.read_buf.limit && !old(el).is_reading_) ==> r matches Ok(_),
            r matches Err(_) ==> *final(el) == *old(el),
    {
        self.transport.consume_input(n, el)
    }

    /// The next unsent queued bytes, oldest first.
    pub fn write_buffer_acquire(&self) -> (w: &Vec<u8>)
        ensures
            w@ == self.transport.write_buf@,
    {
        self.transport.write_buffer_acquire()
    }

    /// Queue bytes produced by the active variant.
    pub fn produce_output(&mut self, bytes: Vec<u8>, el: &mut PreSetEventLoop) -> (r: Result<
        (),
        RegistrationError,
    >)
        requires
            old(self).wf(),
            old(el).wf(),
        ensures
            final(self).wf(),
            final(el).wf(),
            final(self).selected == old(self).selected,
            final(self).observed_prior == old(self).observed_prior,
            el_same_identity(*old(el), *final(el)),
            el_reader_same(*old(el), *final(el)),
            final(self).transport.write_buf@ == old(self).transport.write_buf@ + bytes@,
            final(self).transport.read_buf == old(self).transport.read_buf,
            final(self).transport.throttled == old(self).transport.throttled,
            !(old(self).transport.write_buf@.len() + bytes@.len() > 0 && !old(el).is_writing_)
                ==> r matches Ok(_),
            r matches Ok(_) ==> ({
                if final(self).transport.write_buf@.len() > 0 && !old(el).is_writing_ {
                    final(el).is_writing_
                } else {
                    *final(el) == *old(el)
                }
            }),
            r matches Err(_) ==> *final(el) == *old(el),
    {
        self.transport.produce_output(bytes, el)
    }

    /// Remove `n` sent bytes from the front of the queue.
    pub fn write_buffer_drained(&mut self, n: usize, el: &mut PreSetEventLoop) -> (r: Result<
        (),
        RegistrationError,
    >)
        requires
            old(self).wf(),
            old(el).wf(),
            n <= old(self).transport.write_buf@.len(),
        ensures
            final(self).wf(),
            final(el).wf(),
            final(self).selected == old(self).selected,
            final(self).observed_prior == old(self).observed_prior,
            el_same_identity(*old(el), *final(el)),
            el_reader_same(*old(el), *final(el)),
            write_drain_post(old(self).transport, final(self).transport, n as int),
            !(old(self).transport.write_buf@.len() == n && old(el).is_writing_)
                ==> r matches Ok(_),
            r matches Ok(_) ==> write_drain_backpressure(
                final(self).transport,
                *old(el),
                *final(el),
            ),
            r matches Err(_) ==> *final(el) == *old(el),
    {
        self.transport.write_buffer_drained(n, el)
    }
}

/// A switch hands off exactly the unconsumed trailing bytes: the bytes the
/// earlier variants consumed and the bytes now pending for the new variant
/// partition everything ever fed into the connection — no overlap, no loss.
pub proof fn lemma_switch_hands_off_exactly(pre: AutoProtocol, post: AutoProtocol)
    requires
        pre.wf(),
        post.transport == pre.transport,
        post.observed_prior@ == pre.transport.read_buf.consumed@,
    ensures
        post.observed_prior@ + post.transport.read_buf@.len() == post.transport.read_buf.filled@,
        post.transport.read_buf@ == pre.transport.read_buf@,
{
}

} // verus!
