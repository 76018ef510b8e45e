//! Browser sessions: pages, tabs and navigation history, and the manager
//! that keeps the sessions of a server.
pub mod session;

pub use session::{BrowserSession, HistoryEntry, PageState, SessionManager};
