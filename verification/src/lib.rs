//! A serializable recipe for open file handles.
//!
//! A live file handle cannot itself travel through a structured-data codec:
//! it stands for process-local operating-system state. What can travel is the
//! recipe that produced it — the open configuration together with the
//! canonicalized path — from which an equivalent handle is reopened on the
//! receiving side. This crate holds the verified core of that scheme: the
//! fixed-size byte encoding of the open configuration, the wire payload that
//! pairs it with the path, the decode-time error reporting, and a model of
//! what reopening does to the file's content.

pub mod codec;
pub mod config;
pub mod handle;
