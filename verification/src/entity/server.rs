//! Server-related entity definitions.
use vstd::prelude::*;

verus! {

/// Identifier of a server.
pub type ServerId = String;

/// Summary of a server.
#[derive(Debug, Clone)]
pub struct ServerSummary {
    /// Identifier of the server.
    pub id: ServerId,
}

/// A server of the cluster.
///
/// The host is carried as its textual form; only the transport
/// interprets it.
#[derive(Debug, Clone)]
pub struct Server {
    /// Identifier of the server.
    pub id: ServerId,

    /// Sequence number, assigned automatically at registration.
    pub seqno: u32,

    /// Textual host address.
    pub host: String,

    /// Port number.
    pub port: u16,
}

impl Server {
    /// Makes a new `Server` with sequence number 0.
    pub fn new(id: ServerId, host: String, port: u16) -> (s: Self)
        ensures
            s.id == id,
            s.seqno == 0,
            s.host == host,
            s.port == port,
    {
        Server { id, seqno: 0, host, port }
    }

    /// Returns the summary of this server.
    pub fn to_summary(&self) -> (s: ServerSummary)
        ensures
            s.id@ == self.id@,
    {
        ServerSummary { id: self.id.clone() }
    }
}

impl Default for Server {
    /// An empty server entry, listening nowhere.
    fn default() -> (s: Self)
        ensures
            s.id@ =~= Seq::<char>::empty(),
            s.seqno == 0,
            s.host@ == "0.0.0.0"@,
            s.port == 0,
    {
        Server { id: String::new(), seqno: 0, host: "0.0.0.0".to_owned(), port: 0 }
    }
}

} // verus!
