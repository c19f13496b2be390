//! Helpers for the clients of other services.

use vstd::prelude::*;
use vstd::string::*;

verus! {

/// Holds the clients of every other service that this one calls. It calls
/// none yet.
#[derive(Clone, Debug)]
pub struct GrpcClients {}

impl Default for GrpcClients {
    /// Creates the default clients.
    fn default() -> (clients: Self)
        ensures
            clients == (GrpcClients {  }),
    {
        GrpcClients {  }
    }
}

/// The text of a setting that may be undefined: nothing where it is.
pub open spec fn setting_text(setting: Option<String>) -> Seq<char> {
    match setting {
        Some(text) => text@,
        None => Seq::empty(),
    }
}

/// The address of a service, `http://host:port`, from the settings for its
/// host and its port. A setting that is undefined counts as empty.
pub fn get_grpc_endpoint(host: Option<String>, port: Option<String>) -> (address: String)
    ensures
        address@ == "http://"@ + setting_text(host) + ":"@ + setting_text(port),
{
    let mut address: String = String::from_str("http://");
    match &host {
        Some(text) => {
            address.append(text.as_str());
        },
        None => {},
    }
    address.append(":");
    match &port {
        Some(text) => {
            address.append(text.as_str());
        },
        None => {},
    }
    address
}

} // verus!
