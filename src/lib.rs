//! An echo/test service: the decisions of its bidirectional echo session, the
//! rules of its plain request endpoints, and its shutdown latch.
//!
//! Everything here is computation on plain values. The program around it
//! accepts connections, reads the clock and the wire, and carries out the
//! actions that these functions decide on.

pub mod requests;
pub mod session;
pub mod shutdown;
pub mod trace;

pub use requests::{client_ip, proxy_header, reflected_headers, sleep_allowed, AppState, MAX_SLEEP_MS};
pub use session::{Action, Ending, Event, Frame, Phase, Session, MAX_MESSAGE_SIZE, SESSION_LIFETIME_MS};
pub use shutdown::{ShutdownLatch, Signal};
