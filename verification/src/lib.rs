//! Login, note list and note creation of a small notes client, as a verified
//! state machine, together with the phone-number text handling and the
//! descriptions of the requests that the client sends.

pub mod app;
pub mod client;
pub mod ui;
pub mod utils;
