//! Connection-handling core of an event-driven network server.
//!
//! The crate models per-connection socket I/O, buffer lifecycle management and
//! protocol state switching, all driven by readiness notifications from an
//! external reactor (a Python event loop reached through `pyo3`). The reactor
//! and the socket syscalls live outside this crate; everything that decides —
//! buffer cursors, backpressure, registration bookkeeping, protocol switching
//! and the connection lifecycle — is verified here.

mod buffer;
mod stream;
mod event_loop;
mod transport;
mod protocol;
mod client;

pub use buffer::Buffer;
pub use stream::{SocketStatus, SocketRead, TcpHandle};
pub use client::{Client, lemma_would_block_chain};
pub use protocol::{AutoProtocol, SelectedProtocol, UPGRADE_PREFACE, upgrade_signalled, lemma_switch_hands_off_exactly};
pub use transport::{Transport, BUFFER_LIMIT, el_same_identity, el_reader_same, el_writer_same, read_fill_post, read_fill_backpressure, write_drain_post, write_drain_backpressure};
pub use event_loop::{EventLoop, PreSetEventLoop, RegEvent, RegistrationError, reg_watched, reg_discipline, reg_adds, reg_removes, lemma_registration_balance, lemma_handle_registration_balance};
