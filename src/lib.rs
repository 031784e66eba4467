//! Import of a signing-device wallet export: validation of the export,
//! derivation of the receive and change output descriptors, the watch-only
//! wallet session built from them, and the state machine that sequences it all.
pub mod network;
pub mod export;
pub mod descriptor;
pub mod session;
pub mod flow;
