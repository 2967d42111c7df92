//! Release-channel, manifest and download checks of the Pake online bootstrap.
pub mod bootstrap;
pub mod channel;
pub mod digest;
pub mod install;
pub mod laws;
pub mod links;
pub mod manifest;
pub mod outcome;
pub mod paths;
pub mod release;
pub mod text;
pub mod trace;
pub mod transfer;
