//! A minimal user service over an ephemeral store: every request opens
//! a fresh in-memory database, seeds it with ten fixed users, performs
//! one operation — list the users, or insert one and read it back — and
//! discards the store. The request/response behaviour of both
//! operations, the seeding, and the routing are specified and verified;
//! the store itself is SQLite, reached through a small trusted layer.

pub mod db;
pub mod laws;
pub mod seed;
pub mod service;
pub mod user;
