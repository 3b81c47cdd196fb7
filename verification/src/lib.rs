//! Session state supervision for a desktop application: a store that remembers
//! the authenticated user and the state of a supervised browser session, and
//! the rules by which login replies, launch outcomes and the browser's status
//! record are folded into that store.

pub mod store;
pub mod json;
pub mod reconciler;
pub mod supervisor;
pub mod auth;
