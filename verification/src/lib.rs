//! Verified core of a small interactive document-chat front end.
//!
//! The library holds everything the program decides or computes: parsing of
//! menu commands, the session state machine, the chat sub-loop step, the
//! planning of the load-file action, JSON body construction, and the exact
//! text of every diagnostic line. A thin unverified shell performs the
//! terminal, file-system and HTTP work and feeds plain values back in.

pub mod chat;
pub mod command;
pub mod json;
pub mod load;
pub mod messages;
pub mod paths;
pub mod session;
pub mod text;
