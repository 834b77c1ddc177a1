use pyo3::types::{PyAnyMethods, PyList, PyListMethods};
use pyo3::{Py, PyAny, Python};
use pyre_server::{
    Buffer, Client, EventLoop, PreSetEventLoop, SelectedProtocol, SocketRead, SocketStatus,
    TcpHandle, UPGRADE_PREFACE,
};

/// A Python callable that accepts one or two arguments and always succeeds:
/// the bound `get` method of a fresh dict.
fn ok_callback() -> Py<PyAny> {
    Python::initialize();
    Python::attach(|py| {
        let d = pyo3::types::PyDict::new(py);
        d.getattr("get").unwrap().unbind()
    })
}

/// A non-callable, so every reactor call through it fails.
fn bad_callback() -> Py<PyAny> {
    Python::initialize();
    Python::attach(|py| py.None())
}

fn ok_event_loop() -> EventLoop {
    EventLoop::new(ok_callback(), ok_callback(), ok_callback(), ok_callback())
}

fn fresh_handle(fd: i32, index: usize) -> PreSetEventLoop {
    PreSetEventLoop::new(ok_event_loop(), fd, index)
}

fn fresh_client(fd: i32) -> Client {
    Client::from_handle(TcpHandle::new(fd), fresh_handle(fd, 0))
}

/// A well-formed 512-byte request that carries no upgrade signal.
fn plain_request_512() -> Vec<u8> {
    let mut v: Vec<u8> = Vec::new();
    v.extend_from_slice(b"GET / HTTP/1.1\r\nHost: example\r\nX-Filler: ");
    while v.len() < 508 {
        v.push(b'a');
    }
    v.extend_from_slice(b"\r\n\r\n");
    assert_eq!(v.len(), 512);
    v
}

#[test]
fn buffer_fill_consume_window() {
    let mut b = Buffer::new(8);
    assert_eq!(b.len(), 0);
    assert_eq!(b.window(), 8);
    b.fill(vec![1, 2, 3]);
    assert_eq!(b.len(), 3);
    assert_eq!(b.window(), 5);
    b.consume(1);
    assert_eq!(b.data, vec![2, 3]);
    b.fill(vec![4]);
    assert_eq!(b.data, vec![2, 3, 4]);
    b.recycle();
    assert_eq!(b.len(), 0);
    assert_eq!(b.window(), 8);
}

#[test]
fn from_handle_starts_fresh() {
    let c = fresh_client(3);
    assert!(!c.idle);
    assert_eq!(c.handle.fd(), 3);
    assert_eq!(c.protocol.selected, SelectedProtocol::H1);
    assert_eq!(c.protocol.transport.read_buf.len(), 0);
    assert_eq!(c.protocol.transport.write_buf.len(), 0);
    assert!(!c.event_loop.is_reading());
    assert!(!c.event_loop.is_writing());
}

#[test]
fn would_block_read_changes_nothing() {
    let mut c = fresh_client(4);
    assert!(c.event_loop.resume_reading().is_ok());
    let r = c.poll_read(SocketRead::Complete(vec![7, 8, 9]));
    assert!(r.is_ok());
    for _ in 0..3 {
        let r = c.poll_read(SocketRead::WouldBlock);
        assert!(r.is_ok());
        assert!(!c.idle);
        assert!(c.event_loop.is_reading());
        assert!(!c.event_loop.is_writing());
        assert_eq!(c.protocol.transport.read_buf.data, vec![7, 8, 9]);
        assert_eq!(c.protocol.selected, SelectedProtocol::H1);
    }
}

#[test]
fn would_block_write_changes_nothing() {
    let mut c = fresh_client(5);
    assert!(c
        .protocol
        .produce_output(vec![1, 2], &mut c.event_loop)
        .is_ok());
    assert!(c.event_loop.is_writing());
    let r = c.poll_write(SocketStatus::WouldBlock);
    assert!(r.is_ok());
    assert!(c.event_loop.is_writing());
    assert_eq!(c.protocol.transport.write_buf.data, vec![1, 2]);
    assert!(!c.idle);
}

#[test]
fn read_disconnect_marks_idle_and_unregisters() {
    let mut c = fresh_client(6);
    assert!(c.event_loop.resume_reading().is_ok());
    assert!(c.event_loop.resume_writing().is_ok());
    let r = c.poll_read(SocketRead::Disconnect);
    assert!(r.is_ok());
    assert!(c.idle);
    assert!(!c.event_loop.is_reading());
    assert!(!c.event_loop.is_writing());
    assert_eq!(c.protocol.transport.read_buf.len(), 0);
    assert_eq!(c.protocol.transport.write_buf.len(), 0);
}

#[test]
fn write_disconnect_is_symmetric() {
    let mut c = fresh_client(7);
    assert!(c.event_loop.resume_writing().is_ok());
    let r = c.poll_write(SocketStatus::Disconnect);
    assert!(r.is_ok());
    assert!(c.idle);
    assert!(!c.event_loop.is_reading());
    assert!(!c.event_loop.is_writing());
}

#[test]
fn bind_new_fd_resets_flags() {
    let mut el = fresh_handle(8, 2);
    assert!(el.resume_reading().is_ok());
    assert!(el.resume_writing().is_ok());
    assert!(el.is_reading());
    assert!(el.is_writing());
    el.bind_new_fd(9);
    assert!(!el.is_reading());
    assert!(!el.is_writing());
    assert_eq!(el.fd, 9);
    assert_eq!(el.index, 2);
}

#[test]
fn upgrade_switch_hands_off_pending_bytes() {
    let mut c = fresh_client(10);
    // A first request is read and fully consumed under the default variant.
    assert!(c
        .poll_read(SocketRead::Complete(vec![b'p', b'i', b'n', b'g']))
        .is_ok());
    assert!(c.protocol.consume_input(4, &mut c.event_loop).is_ok());
    assert_eq!(c.protocol.selected, SelectedProtocol::H1);
    // Then the upgrade preface arrives with trailing bytes behind it.
    let mut upgrade: Vec<u8> = UPGRADE_PREFACE.to_vec();
    upgrade.extend_from_slice(b"tail");
    assert!(c.poll_read(SocketRead::Complete(upgrade.clone())).is_ok());
    assert_eq!(c.protocol.selected, SelectedProtocol::H2);
    // The new variant sees exactly the unconsumed trailing bytes: nothing
    // was lost and nothing consumed by the old variant reappears.
    assert_eq!(c.protocol.transport.read_buf.data, upgrade);
}

#[test]
fn complete_read_without_signal_keeps_variant() {
    let mut c = fresh_client(11);
    let request = plain_request_512();
    let r = c.poll_read(SocketRead::Complete(request.clone()));
    assert!(r.is_ok());
    assert_eq!(c.protocol.selected, SelectedProtocol::H1);
    assert_eq!(c.protocol.transport.read_buf.data, request);
    assert!(!c.idle);
}

#[test]
fn preface_not_at_front_does_not_switch() {
    let mut c = fresh_client(12);
    let mut bytes: Vec<u8> = vec![b'x'];
    bytes.extend_from_slice(&UPGRADE_PREFACE);
    assert!(c.poll_read(SocketRead::Complete(bytes)).is_ok());
    assert_eq!(c.protocol.selected, SelectedProtocol::H1);
}

#[test]
fn bind_after_shutdown_carries_nothing_over() {
    let mut c = fresh_client(13);
    assert!(c.event_loop.resume_reading().is_ok());
    assert!(c
        .protocol
        .produce_output(vec![1, 2, 3], &mut c.event_loop)
        .is_ok());
    assert!(c.poll_read(SocketRead::Disconnect).is_ok());
    assert!(c.idle);
    assert!(c.shutdown().is_ok());
    c._bind_handle(TcpHandle::new(14), fresh_handle(14, 1));
    assert!(!c.idle);
    assert!(!c.event_loop.is_reading());
    assert!(!c.event_loop.is_writing());
    assert_eq!(c.event_loop.fd, 14);
    assert_eq!(c.protocol.selected, SelectedProtocol::H1);
    assert_eq!(c.protocol.transport.read_buf.len(), 0);
    assert_eq!(c.protocol.transport.write_buf.len(), 0);
}

#[test]
fn drain_all_queued_pauses_writing_once() {
    Python::initialize();
    let (remove_writer, calls) = Python::attach(|py| {
        let l = PyList::empty(py);
        (l.getattr("append").unwrap().unbind(), l.unbind())
    });
    let el = EventLoop::new(ok_callback(), ok_callback(), ok_callback(), remove_writer);
    let pel = PreSetEventLoop::new(el, 15, 0);
    let mut c = Client::from_handle(TcpHandle::new(15), pel);
    assert!(c
        .protocol
        .produce_output(b"hello world".to_vec(), &mut c.event_loop)
        .is_ok());
    assert!(c.event_loop.is_writing());
    assert_eq!(c.protocol.write_buffer_acquire().len(), 11);
    // Draining the entire queued length results in exactly one pause
    // request to the reactor.
    assert!(c.poll_write(SocketStatus::Complete(11)).is_ok());
    assert!(!c.event_loop.is_writing());
    assert_eq!(c.protocol.write_buffer_acquire().len(), 0);
    // A further drain of the empty queue asks for no second pause.
    assert!(c
        .protocol
        .write_buffer_drained(0, &mut c.event_loop)
        .is_ok());
    let pauses = Python::attach(|py| calls.bind(py).len());
    assert_eq!(pauses, 1);
}

#[test]
fn partial_drain_keeps_writing_interest() {
    let mut c = fresh_client(16);
    assert!(c
        .protocol
        .produce_output(vec![1, 2, 3, 4], &mut c.event_loop)
        .is_ok());
    assert!(c.poll_write(SocketStatus::Complete(3)).is_ok());
    assert!(c.event_loop.is_writing());
    assert_eq!(c.protocol.transport.write_buf.data, vec![4]);
}

#[test]
fn failing_reactor_call_leaves_flags_unchanged() {
    let el = EventLoop::new(
        bad_callback(),
        bad_callback(),
        bad_callback(),
        bad_callback(),
    );
    let mut pel = PreSetEventLoop::new(el, 17, 0);
    let r = pel.resume_reading();
    assert!(r.is_err());
    assert!(!pel.is_reading());
    let r = pel.resume_writing();
    assert!(r.is_err());
    assert!(!pel.is_writing());
}

#[test]
fn read_backpressure_pauses_and_resumes() {
    let mut c = fresh_client(18);
    assert!(c.event_loop.resume_reading().is_ok());
    let window = c.protocol.read_buffer_acquire();
    assert_eq!(window, 65536);
    let burst = vec![b'z'; window];
    assert!(c.poll_read(SocketRead::Complete(burst)).is_ok());
    // The buffer ran full: input is paused.
    assert!(!c.event_loop.is_reading());
    assert_eq!(c.protocol.read_buffer_acquire(), 0);
    // Consuming drops it below the bound: input is resumed.
    assert!(c.protocol.consume_input(window, &mut c.event_loop).is_ok());
    assert!(c.event_loop.is_reading());
    assert_eq!(c.protocol.read_buffer_acquire(), 65536);
}

#[test]
fn shutdown_unregisters_both_directions() {
    let mut c = fresh_client(19);
    assert!(c.event_loop.resume_reading().is_ok());
    assert!(c.event_loop.resume_writing().is_ok());
    assert!(c.shutdown().is_ok());
    assert!(!c.event_loop.is_reading());
    assert!(!c.event_loop.is_writing());
    // Idempotent: a second shutdown has nothing left to remove.
    assert!(c.shutdown().is_ok());
    assert!(!c.idle);
}

#[test]
fn event_loop_clone_shares_callbacks() {
    let el = ok_event_loop();
    let copy = el.clone();
    assert!(copy.add_reader(20, 0).is_ok());
    assert!(copy.remove_reader(20).is_ok());
    assert!(copy.add_writer(20, 0).is_ok());
    assert!(copy.remove_writer(20).is_ok());
}

#[test]
fn disconnect_with_failing_reactor_still_marks_idle() {
    let el = EventLoop::new(
        ok_callback(),
        bad_callback(),
        ok_callback(),
        ok_callback(),
    );
    let mut pel = PreSetEventLoop::new(el, 21, 0);
    assert!(pel.resume_reading().is_ok());
    let mut c = Client::from_handle(TcpHandle::new(21), pel);
    let r = c.poll_read(SocketRead::Disconnect);
    // The remove-interest call fails, so the error propagates, but the
    // connection is already marked idle.
    assert!(r.is_err());
    assert!(c.idle);
}
