use vstd::prelude::*;

pub mod text;
pub mod types;
pub mod auth;
pub mod prompt;
pub mod healing;
pub mod tunnel;
pub mod registry;
pub mod bind;
pub mod daemon;
pub mod executor;
pub mod async_ssh;
pub mod logging;
pub mod cli;

pub use bind::unbind;
pub use types::{CancellationToken, Creds, HostPort, YamlCreds};

verus! {

} // verus!
