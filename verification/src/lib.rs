//! Transport layer for an asynchronous publish/subscribe client.
//!
//! The crate unifies a plaintext socket connection and a certificate-secured
//! connection behind one byte-stream value, classifies the optional TLS
//! configuration into an explicit three-way outcome, selects the first IPv4
//! address out of a resolution result, and drives the staged sequence
//! resolve -> connect -> optional handshake -> framing as a verified state
//! machine. The host process performs the actual I/O (file reads, name
//! resolution, socket connect, handshake) and feeds the outcomes back in as
//! plain events.

mod addr;
mod config;
mod errors;
mod establish;
mod stream;
mod tls;

pub use addr::IpAddress;
pub use addr::SocketAddress;
pub use addr::first_v4;
pub use addr::lemma_first_v4_characterization;
pub use addr::lemma_selection_deterministic;
pub use addr::select_ipv4;
pub use config::BuilderConfig;
pub use config::Connector;
pub use config::NetworkStreamBuilder;
pub use config::PemFile;
pub use errors::ConnectError;
pub use establish::Establisher;
pub use establish::EstablisherView;
pub use establish::EstablishAction;
pub use establish::EstablishEvent;
pub use establish::Stage;
pub use establish::is_terminal;
pub use establish::lemma_plain_path;
pub use establish::lemma_secured_path;
pub use establish::plain_ok;
pub use establish::rank;
pub use establish::run;
pub use establish::secured_ok;
pub use establish::spec_step;
pub use establish::stage_accepts;
pub use stream::NetworkStream;
