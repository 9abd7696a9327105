//! Infrastructure for running a multi-party trusted-setup ceremony as a
//! long-lived service: operator key bootstrap from a mnemonic phrase, an
//! artifact storage gateway over a remote object store, and the supervision
//! policy that races the ceremony's long-running tasks.

pub mod io;
pub mod s3;
pub mod supervisor;
