use vstd::prelude::*;

verus! {

/// A server's registration as the database keeps it, under the server's identifier.
#[derive(Debug)]
pub struct RegisteredServer {
    pub identifier: String,
    pub server_type: String,
    pub host: String,
    pub port: u16,
}

impl Clone for RegisteredServer {
    fn clone(&self) -> (r: Self)
        ensures
            r == *self,
    {
        RegisteredServer {
            identifier: self.identifier.clone(),
            server_type: self.server_type.clone(),
            host: self.host.clone(),
            port: self.port,
        }
    }
}

} // verus!
