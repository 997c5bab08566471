//! Providers resolve the artifacts a runner needs (server binaries and their
//! component versions). The network fetches themselves happen outside the
//! library; the selection rules, version data and error taxonomy live here.

pub mod error;
pub mod fabric_server;
pub mod server_binary;

use crate::text::str_eq;
use vstd::prelude::*;

verus! {

/// The set of known server-binary providers.
#[derive(Clone, Copy, Debug, PartialEq, Eq, Structural)]
pub enum Providers {
    Fabric,
}

impl Providers {
    /// Look a provider up by its registered name.
    pub fn get(name: &str) -> (r: Option<Providers>)
        ensures
            r is Some <==> name@ == "fabric"@,
            r is Some ==> r == Some(Providers::Fabric),
    {
        if str_eq(name, "fabric") {
            Some(Providers::Fabric)
        } else {
            None
        }
    }
}

} // verus!
