use vstd::prelude::*;
use crate::buffer::Buffer;
use crate::event_loop::{PreSetEventLoop, RegEvent, RegistrationError};

verus! {

/// Soft bound on each connection buffer, driving backpressure.
pub const BUFFER_LIMIT: usize = 65536;

/// The registration calls leave the handle bound to the same descriptor,
/// index and host callbacks.
pub open spec fn el_same_identity(pre: PreSetEventLoop, post: PreSetEventLoop) -> bool {
    &&& post.fd == pre.fd
    &&& post.index == pre.index
    &&& post.event_loop == pre.event_loop
}

/// The reader side of the handle is untouched.
pub open spec fn el_reader_same(pre: PreSetEventLoop, post: PreSetEventLoop) -> bool {
    &&& post.is_reading_ == pre.is_reading_
    &&& post.reader_log == pre.reader_log
}

/// The writer side of the handle is untouched.
pub open spec fn el_writer_same(pre: PreSetEventLoop, post: PreSetEventLoop) -> bool {
    &&& post.is_writing_ == pre.is_writing_
    &&& post.writer_log == pre.writer_log
}

/// Owns the per-connection read and write byte buffers and drives reader and
/// writer registration from backpressure: writability is only polled while
/// something is queued, and input is paused while the read buffer is full.
pub struct Transport {
    /// Bytes received from the socket, awaiting the protocol parser.
    pub read_buf: Buffer,
    /// Bytes produced by the protocol, awaiting the socket.
    pub write_buf: Buffer,
    /// True while input is paused because the read buffer ran full.
    pub throttled: bool,
}

/// Committing `bytes` changes only the read buffer, by appending.
pub open spec fn read_fill_post(pre: Transport, post: Transport, bytes: Seq<u8>) -> bool {
    &&& post.read_buf@ == pre.read_buf@ + bytes
    &&& post.read_buf.limit == pre.read_buf.limit
    &&& post.read_buf.filled@ == pre.read_buf.filled@ + bytes.len()
    &&& post.read_buf.consumed == pre.read_buf.consumed
    &&& post.write_buf == pre.write_buf
}

/// Input throttling after a commit: when the read buffer has run full and
/// the descriptor is watched for readability, exactly one pause request is
/// made; otherwise the handle is untouched.
pub open spec fn read_fill_backpressure(
    pre: Transport,
    post: Transport,
    pre_el: PreSetEventLoop,
    post_el: PreSetEventLoop,
) -> bool {
    if post.read_buf@.len() >= post.read_buf.limit && pre_el.is_reading_ {
        &&& !post_el.is_reading_
        &&& post_el.reader_log@ == pre_el.reader_log@.push(RegEvent::Remove)
        &&& post.throttled
    } else {
        &&& post_el == pre_el
        &&& post.throttled == pre.throttled
    }
}

/// Draining `n` bytes changes only the write buffer, from the front.
pub open spec fn write_drain_post(pre: Transport, post: Transport, n: int) -> bool {
    &&& post.write_buf@ == pre.write_buf@.skip(n)
    &&& post.write_buf.limit == pre.write_buf.limit
    &&& post.write_buf.filled == pre.write_buf.filled
    &&& post.write_buf.consumed@ == pre.write_buf.consumed@ + n
    &&& post.read_buf == pre.read_buf
    &&& post.throttled == pre.throttled
}

/// Writer backpressure after a drain: when the queue has just emptied and
/// the descriptor is watched for writability, exactly one pause request is
/// made — never a repeated one — and otherwise the handle is untouched.
pub open spec fn write_drain_backpressure(
    post: Transport,
    pre_el: PreSetEventLoop,
    post_el: PreSetEventLoop,
) -> bool {
    if pre_el.is_writing_ && post.write_buf@.len() == 0 {
        &&& !post_el.is_writing_
        &&& post_el.writer_log@ == pre_el.writer_log@.push(RegEvent::Remove)
    } else {
        post_el == pre_el
    }
}

impl Transport {
    pub open spec fn wf(&self) -> bool {
        &&& self.read_buf.wf()
        &&& self.write_buf.wf()
    }

    /// Both queues are empty and their accounting starts at zero.
    pub open spec fn fresh(&self) -> bool {
        &&& self.read_buf@ == Seq::<u8>::empty()
        &&& self.write_buf@ == Seq::<u8>::empty()
        &&& self.read_buf.filled@ == 0
        &&& self.read_buf.consumed@ == 0
        &&& self.write_buf.filled@ == 0
        &&& self.write_buf.consumed@ == 0
        &&& !self.throttled
    }

    pub fn new() -> (t: Transport)
        ensures
            t.wf(),
            t.fresh(),
            t.read_buf.limit == BUFFER_LIMIT,
            t.write_buf.limit == BUFFER_LIMIT,
    {
        Transport {
            read_buf: Buffer::new(BUFFER_LIMIT),
            write_buf: Buffer::new(BUFFER_LIMIT),
            throttled: false,
        }
    }

    /// How many bytes the next socket read may deliver: the writable window
    /// of the read buffer.
    pub fn read_buffer_acquire(&self) -> (n: usize)
        ensures
            n == self.read_buf.spec_window(),
    {
        self.read_buf.window()
    }

    /// Commit `bytes` received from the socket, exposing them to the
    /// protocol layer, and pause reading while the buffer is full.
    pub fn read_buffer_filled(&mut self, bytes: Vec<u8>, el: &mut PreSetEventLoop) -> (r: Result<
        (),
        RegistrationError,
    >)
        requires
            old(self).wf(),
            old(el).wf(),
            bytes@.len() <= old(self).read_buf.spec_window(),
        ensures
            final(self).wf(),
            final(el).wf(),
            el_same_identity(*old(el), *final(el)),
            el_writer_same(*old(el), *final(el)),
            read_fill_post(*old(self), *final(self), bytes@),
            !((old(self).read_buf@ + bytes@).len() >= old(self).read_buf.limit && old(
                el,
            ).is_reading_) ==> r matches Ok(_),
            r matches Ok(_) ==> read_fill_backpressure(
                *old(self),
                *final(self),
                *old(el),
                *final(el),
            ),
            r matches Err(_) ==> *final(el) == *old(el) && final(self).throttled == old(
                self,
            ).throttled,
    {
        self.read_buf.fill(bytes);
        if self.read_buf.len() >= self.read_buf.limit && el.is_reading() {
            match el.pause_reading() {
                Ok(_) => {
                    self.throttled = true;
                    Ok(())
                },
                Err(e) => Err(e),
            }
        } else {
            Ok(())
        }
    }

    /// The protocol parser consumed `n` bytes of input; resume reading once
    /// a previously full buffer has drained below its bound.
    pub fn consume_input(&mut self, n: usize, el: &mut PreSetEventLoop) -> (r: Result<
        (),
        RegistrationError,
    >)
        requires
            old(self).wf(),
            old(el).wf(),
            n <= old(self).read_buf@.len(),
        ensures
            final(self).wf(),
            final(el).wf(),
            el_same_identity(*old(el), *final(el)),
            el_writer_same(*old(el), *final(el)),
            final(self).read_buf@ == old(self).read_buf@.skip(n as int),
            final(self).read_buf.limit == old(self).read_buf.limit,
            final(self).read_buf.filled == old(self).read_buf.filled,
            final(self).read_buf.consumed@ == old(self).read_buf.consumed@ + n,
            final(self).write_buf == old(self).write_buf,
            !(old(self).throttled && old(self).read_buf@.len() - n < old(self).read_buf.limit
                && !old(el).is_reading_) ==> r matches Ok(_),
            r matches Ok(_) ==> ({
                if old(self).throttled && old(self).read_buf@.len() - n < old(
                    self,
                ).read_buf.limit {
                    &&& !final(self).throttled
                    &&& final(el).is_reading_
                } else {
                    &&& final(self).throttled == old(self).throttled
                    &&& *final(el) == *old(el)
                }
            }),
            r matches Err(_) ==> *final(el) == *old(el),
    {
        self.read_buf.consume(n);
        if self.throttled && self.read_buf.len() < self.read_buf.limit {
            if !el.is_reading() {
                match el.resume_reading() {
                    Ok(_) => {},
                    Err(e) => {
                        return Err(e);
                    },
                }
            }
            self.throttled = false;
            Ok(())
        } else {
            Ok(())
        }
    }

    /// The next unsent queued bytes, oldest first.
    pub fn write_buffer_acquire(&self) -> (w: &Vec<u8>)
        ensures
            w@ == self.write_buf@,
    {
        &self.write_buf.data
    }

    /// Queue bytes produced by the protocol and ask to be polled for
    /// writability while something is queued.
    pub fn produce_output(&mut self, bytes: Vec<u8>, el: &mut PreSetEventLoop) -> (r: Result<
        (),
        RegistrationError,
    >)
        requires
            old(self).wf(),
            old(el).wf(),
        ensures
            final(self).wf(),
            final(el).wf(),
            el_same_identity(*old(el), *final(el)),
            el_reader_same(*old(el), *final(el)),
            final(self).write_buf@ == old(self).write_buf@ + bytes@,
            final(self).write_buf.limit == old(self).write_buf.limit,
            final(self).write_buf.filled@ == old(self).write_buf.filled@ + bytes@.len(),
            final(self).write_buf.consumed == old(self).write_buf.consumed,
            final(self).read_buf == old(self).read_buf,
            final(self).throttled == old(self).throttled,
            !(old(self).write_buf@.len() + bytes@.len() > 0 && !old(el).is_writing_)
                ==> r matches Ok(_),
            r matches Ok(_) ==> ({
                if final(self).write_buf@.len() > 0 && !old(el).is_writing_ {
                    final(el).is_writing_ && final(el).writer_log@ == old(
                        el,
                    ).writer_log@.push(RegEvent::Add)
                } else {
                    *final(el) == *old(el)
                }
            }),
            r matches Err(_) ==> *final(el) == *old(el),
    {
        self.write_buf.fill(bytes);
        if self.write_buf.len() > 0 && !el.is_writing() {
            match el.resume_writing() {
                Ok(_) => Ok(()),
                Err(e) => Err(e),
            }
        } else {
            Ok(())
        }
    }

    /// Remove `n` sent bytes from the front of the queue, and stop polling
    /// writability once the queue has emptied — exactly one pause request.
    pub fn write_buffer_drained(&mut self, n: usize, el: &mut PreSetEventLoop) -> (r: Result<
        (),
        RegistrationError,
    >)
        requires
            old(self).wf(),
            old(el).wf(),
            n <= old(self).write_buf@.len(),
        ensures
            final(self).wf(),
            final(el).wf(),
            el_same_identity(*old(el), *final(el)),
            el_reader_same(*old(el), *final(el)),
            write_drain_post(*old(self), *final(self), n as int),
            !(old(self).write_buf@.len() == n && old(el).is_writing_) ==> r matches Ok(_),
            r matches Ok(_) ==> write_drain_backpressure(*final(self), *old(el), *final(el)),
            r matches Err(_) ==> *final(el) == *old(el),
    {
        self.write_buf.consume(n);
        if self.write_buf.len() == 0 && el.is_writing() {
            match el.pause_writing() {
                Ok(_) => Ok(()),
                Err(e) => Err(e),
            }
        } else {
            Ok(())
        }
    }

    /// Drop both queues and restart their accounting, keeping allocations
    /// for connection reuse.
    pub fn recycle(&mut self)
        requires
            old(self).wf(),
        ensures
            final(self).wf(),
            final(self).fresh(),
            final(self).read_buf.limit == old(self).read_buf.limit,
            final(self).write_buf.limit == old(self).write_buf.limit,
    {
        self.read_buf.recycle();
        self.write_buf.recycle();
        self.throttled = false;
    }
}

} // verus!
