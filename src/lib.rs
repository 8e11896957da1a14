//! Session and credential core of the NuggetSync server: salted password
//! hashing, a time-to-live session store, IP-pinned session validation and
//! the bearer-token authorization gate.

pub mod account;
pub mod credential;
pub mod gate;
pub mod profile;
pub mod session;
pub mod store;
