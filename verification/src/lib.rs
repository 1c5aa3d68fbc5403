//! The logic of handling the sockets of lightning peers: when to read, when to hold back what was
//! read, how far a send gets, when to shut a connection down, and when to tell the peer manager
//! and the user of it.
//!
//! A [`connection::Connection`] is shared, behind a lock, by the task that reads its socket and
//! the descriptors through which the peer manager writes to it. The reading task is the machine
//! of [`reading`], and a send goes through the steps of [`sending`]; [`setup`] gets a connection
//! under way. The program around this library waits, reads, writes and calls the peer manager as
//! it is told.
//!
//! [`duties`] states what each operation is for. [`history`] describes how they take turns, and
//! [`laws`] states what holds whatever the order.
pub mod channels;
pub mod configurations;
pub mod connection;
pub mod descriptor;
pub mod duties;
pub mod history;
pub mod laws;
pub mod reading;
pub mod sending;
pub mod setup;
