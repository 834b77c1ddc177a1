use vstd::prelude::*;
use std::sync::Arc;
use pyo3::Py;
use pyo3::PyErr;
use pyo3::types::PyAny;

verus! {

/// Declares pyo3's `Py`, an owned handle on a Python object, so the
/// callback slots can hold one; the value is opaque here.
#[verifier::external_type_specification]
#[verifier::external_body]
#[verifier::reject_recursive_types(T)]
pub struct ExPy<T>(Py<T>);

/// Declares pyo3's `PyAny`, the dynamic Python value type the handles
/// point at.
#[verifier::external_type_specification]
#[verifier::external_body]
pub struct ExPyAny(PyAny);

/// Declares pyo3's `PyErr`, a raised Python exception, carried through
/// opaquely as the cause of a registration failure.
#[verifier::external_type_specification]
#[verifier::external_body]
pub struct ExPyErr(PyErr);

/// A reactor add/remove call failed on the Python side. Fatal to the
/// affected connection only; the cause is kept so the host can surface it.
pub struct RegistrationError {
    /// The Python-level error raised by the reactor callback.
    pub cause: PyErr,
}

/// Relies on std's `Arc::clone`: the result is a handle to the very same
/// callback object as the argument.
#[verifier::external_body]
fn clone_cb(cb: &Arc<Py<PyAny>>) -> (r: Arc<Py<PyAny>>)
    ensures
        r == *cb,
{
    Arc::clone(cb)
}

/// Relies on pyo3's `Python::try_attach` and `Py::call1`: invokes the
/// stored reactor callback with `(fd, index)` under the interpreter lock, as
/// the host event loop expects for an add-interest call. Any Python-level
/// failure comes back as the `Err` value, and so does an interpreter that
/// cannot be attached to (not initialized, finalizing, or inside a garbage
/// collection), as a lazily built `PyErr::new` exception that needs no
/// interpreter. Nothing is assumed about which outcome a given call
/// produces.
#[verifier::external_body]
fn invoke_add(cb: &Arc<Py<PyAny>>, fd: i32, index: usize) -> (r: Result<(), PyErr>)
{
    match pyo3::Python::try_attach(|py| match cb.call1(py, (fd, index)) {
        Ok(_) => Ok(()),
        Err(e) => Err(e),
    }) {
        Some(outcome) => outcome,
        None => Err(PyErr::new::<pyo3::exceptions::PyRuntimeError, _>(
            "cannot attach to the Python interpreter",
        )),
    }
}

/// Relies on pyo3's `Python::try_attach` and `Py::call1`: invokes the
/// stored reactor callback with `(fd,)` under the interpreter lock, as the
/// host event loop expects for a remove-interest call. Any Python-level
/// failure comes back as the `Err` value, and so does an interpreter that
/// cannot be attached to, as a lazily built `PyErr::new` exception that
/// needs no interpreter. Nothing is assumed about which outcome a given
/// call produces.
#[verifier::external_body]
fn invoke_remove(cb: &Arc<Py<PyAny>>, fd: i32) -> (r: Result<(), PyErr>)
{
    match pyo3::Python::try_attach(|py| match cb.call1(py, (fd,)) {
        Ok(_) => Ok(()),
        Err(e) => Err(e),
    }) {
        Some(outcome) => outcome,
        None => Err(PyErr::new::<pyo3::exceptions::PyRuntimeError, _>(
            "cannot attach to the Python interpreter",
        )),
    }
}

/// One successful registration call made to the reactor for a descriptor.
pub enum RegEvent {
    /// Interest was added for the descriptor.
    Add,
    /// Interest was removed for the descriptor.
    Remove,
}

/// Whether the descriptor is watched after the recorded calls: the trace is
/// an alternation, so the last call decides.
pub open spec fn reg_watched(log: Seq<RegEvent>) -> bool {
    log.len() > 0 && log.last() == RegEvent::Add
}

/// The check-before-call discipline: interest is only added while the
/// descriptor is unwatched and only removed while it is watched.
pub open spec fn reg_discipline(log: Seq<RegEvent>) -> bool
    decreases log.len(),
{
    log.len() == 0 || {
        &&& reg_discipline(log.drop_last())
        &&& (log.last() == RegEvent::Add <==> !reg_watched(log.drop_last()))
    }
}

/// Number of add-interest calls in the trace.
pub open spec fn reg_adds(log: Seq<RegEvent>) -> nat
    decreases log.len(),
{
    if log.len() == 0 {
        0
    } else {
        reg_adds(log.drop_last()) + if log.last() == RegEvent::Add {
            1nat
        } else {
            0nat
        }
    }
}

/// Number of remove-interest calls in the trace.
pub open spec fn reg_removes(log: Seq<RegEvent>) -> nat
    decreases log.len(),
{
    if log.len() == 0 {
        0
    } else {
        reg_removes(log.drop_last()) + if log.last() == RegEvent::Remove {
            1nat
        } else {
            0nat
        }
    }
}

/// Over a descriptor's lifetime, the count of add calls minus remove calls
/// never exceeds one and never drops below zero: the check-before-call
/// discipline leaks no registration and duplicates none.
pub proof fn lemma_registration_balance(log: Seq<RegEvent>)
    requires
        reg_discipline(log),
    ensures
        reg_adds(log) == reg_removes(log) + if reg_watched(log) {
            1int
        } else {
            0int
        },
        reg_removes(log) <= reg_adds(log) <= reg_removes(log) + 1,
    decreases log.len(),
{
    if log.len() > 0 {
        lemma_registration_balance(log.drop_last());
    }
}

/// Both registration traces of a well-formed handle stay balanced: no
/// duplicated or leaked reader or writer registration.
pub proof fn lemma_handle_registration_balance(el: PreSetEventLoop)
    requires
        el.wf(),
    ensures
        reg_removes(el.reader_log@) <= reg_adds(el.reader_log@) <= reg_removes(el.reader_log@)
            + 1,
        reg_removes(el.writer_log@) <= reg_adds(el.writer_log@) <= reg_removes(el.writer_log@)
            + 1,
{
    lemma_registration_balance(el.reader_log@);
    lemma_registration_balance(el.writer_log@);
}

/// Callbacks into the host event loop for adding and removing descriptor
/// listeners. The four slots hold Python callables handed over at server
/// start; cloning the helper shares the same callables.
pub struct EventLoop {
    /// Host callback that adds a reader listener for a descriptor.
    pub add_reader_: Arc<Py<PyAny>>,
    /// Host callback that removes a reader listener.
    pub remove_reader_: Arc<Py<PyAny>>,
    /// Host callback that adds a writer listener for a descriptor.
    pub add_writer_: Arc<Py<PyAny>>,
    /// Host callback that removes a writer listener.
    pub remove_writer_: Arc<Py<PyAny>>,
}

impl EventLoop {
    /// Build a new event loop helper from the given host callbacks.
    pub fn new(
        add_reader: Py<PyAny>,
        remove_reader: Py<PyAny>,
        add_writer: Py<PyAny>,
        remove_writer: Py<PyAny>,
    ) -> (el: EventLoop)
        ensures
            el.add_reader_ == add_reader,
            el.remove_reader_ == remove_reader,
            el.add_writer_ == add_writer,
            el.remove_writer_ == remove_writer,
    {
        EventLoop {
            add_reader_: Arc::new(add_reader),
            remove_reader_: Arc::new(remove_reader),
            add_writer_: Arc::new(add_writer),
            remove_writer_: Arc::new(remove_writer),
        }
    }

    /// Ask the host to start watching `fd` for readability; the reactor will
    /// echo `index` back to identify the connection.
    pub fn add_reader(&self, fd: i32, index: usize) -> (r: Result<(), PyErr>) {
        invoke_add(&self.add_reader_, fd, index)
    }

    /// Ask the host to stop watching `fd` for readability.
    pub fn remove_reader(&self, fd: i32) -> (r: Result<(), PyErr>) {
        invoke_remove(&self.remove_reader_, fd)
    }

    /// Ask the host to start watching `fd` for writability.
    pub fn add_writer(&self, fd: i32, index: usize) -> (r: Result<(), PyErr>) {
        invoke_add(&self.add_writer_, fd, index)
    }

    /// Ask the host to stop watching `fd` for writability.
    pub fn remove_writer(&self, fd: i32) -> (r: Result<(), PyErr>) {
        invoke_remove(&self.remove_writer_, fd)
    }
}

impl Clone for EventLoop {
    /// The clone shares the same four callback objects.
    fn clone(&self) -> (res: Self)
        ensures
            res == *self,
    {
        EventLoop {
            add_reader_: clone_cb(&self.add_reader_),
            remove_reader_: clone_cb(&self.remove_reader_),
            add_writer_: clone_cb(&self.add_writer_),
            remove_writer_: clone_cb(&self.remove_writer_),
        }
    }
}

/// An event loop helper bound to one descriptor and connection index, so
/// registration calls need no further arguments. The two flags mirror the
/// reactor's true registration state: they are updated only after the
/// external call succeeds, and the ghost traces record every successful call
/// for the current descriptor.
pub struct PreSetEventLoop {
    pub event_loop: EventLoop,
    /// The descriptor the registration calls are made for.
    pub fd: i32,
    /// Opaque index the reactor echoes back to pick this connection.
    pub index: usize,
    /// Mirror of the reader registration state.
    pub is_reading_: bool,
    /// Mirror of the writer registration state.
    pub is_writing_: bool,
    /// Successful reader registration calls for the current descriptor.
    pub reader_log: Ghost<Seq<RegEvent>>,
    /// Successful writer registration calls for the current descriptor.
    pub writer_log: Ghost<Seq<RegEvent>>,
}

impl PreSetEventLoop {
    /// The flags mirror the traces, and the traces obey the
    /// check-before-call discipline.
    pub open spec fn wf(&self) -> bool {
        &&& reg_discipline(self.reader_log@)
        &&& reg_discipline(self.writer_log@)
        &&& self.is_reading_ == reg_watched(self.reader_log@)
        &&& self.is_writing_ == reg_watched(self.writer_log@)
    }

    /// A freshly accepted descriptor starts unwatched.
    pub fn new(event_loop: EventLoop, fd: i32, index: usize) -> (el: PreSetEventLoop)
        ensures
            el.wf(),
            el.event_loop == event_loop,
            el.fd == fd,
            el.index == index,
            !el.is_reading_,
            !el.is_writing_,
            el.reader_log@ == Seq::<RegEvent>::empty(),
            el.writer_log@ == Seq::<RegEvent>::empty(),
    {
        PreSetEventLoop {
            event_loop,
            fd,
            index,
            is_reading_: false,
            is_writing_: false,
            reader_log: Ghost(Seq::empty()),
            writer_log: Ghost(Seq::empty()),
        }
    }

    /// Adopt a new descriptor. The new descriptor starts unregistered, so
    /// both flags are reset regardless of any prior state, and a fresh
    /// lifetime of registration calls begins.
    pub fn bind_new_fd(&mut self, fd: i32)
        ensures
            final(self).wf(),
            final(self).fd == fd,
            final(self).index == old(self).index,
            final(self).event_loop == old(self).event_loop,
            !final(self).is_reading_,
            !final(self).is_writing_,
            final(self).reader_log@ == Seq::<RegEvent>::empty(),
            final(self).writer_log@ == Seq::<RegEvent>::empty(),
    {
        self.is_reading_ = false;
        self.is_writing_ = false;
        self.fd = fd;
        proof {
            self.reader_log@ = Seq::empty();
            self.writer_log@ = Seq::empty();
        }
    }

    /// Start watching the descriptor for readability. The flag is updated
    /// only when the reactor call succeeds; on failure the error propagates
    /// and the state is exactly as before, so flag and reactor stay in sync.
    pub fn resume_reading(&mut self) -> (r: Result<(), RegistrationError>)
        requires
            old(self).wf(),
            !old(self).is_reading_,
        ensures
            final(self).wf(),
            final(self).fd == old(self).fd,
            final(self).index == old(self).index,
            final(self).event_loop == old(self).event_loop,
            final(self).is_writing_ == old(self).is_writing_,
            final(self).writer_log == old(self).writer_log,
            r matches Ok(_) ==> final(self).is_reading_ && final(self).reader_log@
                == old(self).reader_log@.push(RegEvent::Add),
            r matches Err(_) ==> *final(self) == *old(self),
    {
        match invoke_add(&self.event_loop.add_reader_, self.fd, self.index) {
            Ok(_) => {
                self.is_reading_ = true;
                proof {
                    self.reader_log@ = self.reader_log@.push(RegEvent::Add);
                    assert(self.reader_log@.drop_last() =~= old(self).reader_log@);
                    assert(self.reader_log@.last() == RegEvent::Add);
                }
                Ok(())
            },
            Err(e) => Err(RegistrationError { cause: e }),
        }
    }

    /// Stop watching the descriptor for readability; same flag discipline as
    /// `resume_reading`.
    pub fn pause_reading(&mut self) -> (r: Result<(), RegistrationError>)
        requires
            old(self).wf(),
            old(self).is_reading_,
        ensures
            final(self).wf(),
            final(self).fd == old(self).fd,
            final(self).index == old(self).index,
            final(self).event_loop == old(self).event_loop,
            final(self).is_writing_ == old(self).is_writing_,
            final(self).writer_log == old(self).writer_log,
            r matches Ok(_) ==> !final(self).is_reading_ && final(self).reader_log@
                == old(self).reader_log@.push(RegEvent::Remove),
            r matches Err(_) ==> *final(self) == *old(self),
    {
        match invoke_remove(&self.event_loop.remove_reader_, self.fd) {
            Ok(_) => {
                self.is_reading_ = false;
                proof {
                    self.reader_log@ = self.reader_log@.push(RegEvent::Remove);
                    assert(self.reader_log@.drop_last() =~= old(self).reader_log@);
                    assert(self.reader_log@.last() == RegEvent::Remove);
                }
                Ok(())
            },
            Err(e) => Err(RegistrationError { cause: e }),
        }
    }

    /// Start watching the descriptor for writability; same flag discipline
    /// as `resume_reading`.
    pub fn resume_writing(&mut self) -> (r: Result<(), RegistrationError>)
        requires
            old(self).wf(),
            !old(self).is_writing_,
        ensures
            final(self).wf(),
            final(self).fd == old(self).fd,
            final(self).index == old(self).index,
            final(self).event_loop == old(self).event_loop,
            final(self).is_reading_ == old(self).is_reading_,
            final(self).reader_log == old(self).reader_log,
            r matches Ok(_) ==> final(self).is_writing_ && final(self).writer_log@
                == old(self).writer_log@.push(RegEvent::Add),
            r matches Err(_) ==> *final(self) == *old(self),
    {
        match invoke_add(&self.event_loop.add_writer_, self.fd, self.index) {
            Ok(_) => {
                self.is_writing_ = true;
                proof {
                    self.writer_log@ = self.writer_log@.push(RegEvent::Add);
                    assert(self.writer_log@.drop_last() =~= old(self).writer_log@);
                    assert(self.writer_log@.last() == RegEvent::Add);
                }
                Ok(())
            },
            Err(e) => Err(RegistrationError { cause: e }),
        }
    }

    /// Stop watching the descriptor for writability; same flag discipline as
    /// `resume_reading`.
    pub fn pause_writing(&mut self) -> (r: Result<(), RegistrationError>)
        requires
            old(self).wf(),
            old(self).is_writing_,
        ensures
            final(self).wf(),
            final(self).fd == old(self).fd,
            final(self).index == old(self).index,
            final(self).event_loop == old(self).event_loop,
            final(self).is_reading_ == old(self).is_reading_,
            final(self).reader_log == old(self).reader_log,
            r matches Ok(_) ==> !final(self).is_writing_ && final(self).writer_log@
                == old(self).writer_log@.push(RegEvent::Remove),
            r matches Err(_) ==> *final(self) == *old(self),
    {
        match invoke_remove(&self.event_loop.remove_writer_, self.fd) {
            Ok(_) => {
                self.is_writing_ = false;
                proof {
                    self.writer_log@ = self.writer_log@.push(RegEvent::Remove);
                    assert(self.writer_log@.drop_last() =~= old(self).writer_log@);
                    assert(self.writer_log@.last() == RegEvent::Remove);
                }
                Ok(())
            },
            Err(e) => Err(RegistrationError { cause: e }),
        }
    }

    /// Whether the descriptor is being watched for readability.
    pub fn is_reading(&self) -> (r: bool)
        ensures
            r == self.is_reading_,
    {
        self.is_reading_
    }

    /// Whether the descriptor is being watched for writability.
    pub fn is_writing(&self) -> (r: bool)
        ensures
            r == self.is_writing_,
    {
        self.is_writing_
    }
}

} // verus!
