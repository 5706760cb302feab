//! What the server decides when a message reaches a peer, a room or the
//! coordinator. Connections are told apart by a number that the server gives
//! each of them; handles to the tasks that run a peer (`P`) or a room (`R`),
//! graph commands (`C`) and graph changes (`G`) are carried as they are.

pub mod coordinator;
pub mod file_store;
pub mod http;
pub mod peer;
pub mod room;
