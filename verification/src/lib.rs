//! A Chrome DevTools Protocol client: the decisions it makes while it finds a
//! debugging target, frames requests, waits for their responses, runs the
//! interactive console, and gathers profiles and heap snapshots.

pub mod capture;
pub mod console;
pub mod error;
pub mod json;
pub mod protocol;
pub mod snapshot;
pub mod target;
pub mod text;
pub mod ws_url;
