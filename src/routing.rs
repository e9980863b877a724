//! Routing records: where an application's audio goes, and the connections
//! requested between audio-server ports.
use vstd::prelude::*;

verus! {

/// Where an application's audio is sent.
#[derive(Debug, Clone, Copy, PartialEq, Eq, Structural)]
pub enum OutputRouting {
    /// Headphones only.
    Headphones,
    /// The stream or recording only.
    Stream,
    /// Both outputs.
    Both,
    /// Nowhere: the application is muted.
    Muted,
}

impl Default for OutputRouting {
    fn default() -> (r: Self)
        ensures
            r == OutputRouting::Both,
    {
        OutputRouting::Both
    }
}

/// Requested connections between audio-server ports, in request order.
pub struct JackRouter {
    connections: Vec<(String, String)>,
}

impl JackRouter {
    pub closed spec fn spec_connections(&self) -> Seq<(Seq<char>, Seq<char>)> {
        self.connections@.map_values(|c: (String, String)| (c.0@, c.1@))
    }

    pub fn new() -> (r: Self)
        ensures
            r.spec_connections() == Seq::<(Seq<char>, Seq<char>)>::empty(),
    {
        JackRouter { connections: Vec::new() }
    }

    /// Records a connection from port `from` to port `to`.
    pub fn add_connection(&mut self, from: String, to: String)
        ensures
            final(self).spec_connections() == old(self).spec_connections().push((from@, to@)),
    {
        self.connections.push((from, to));
        assert(self.spec_connections() =~= old(self).spec_connections().push((from@, to@)));
    }

    /// The recorded connections, in request order.
    pub fn get_connections(&self) -> (r: &[(String, String)])
        ensures
            r@.map_values(|c: (String, String)| (c.0@, c.1@)) == self.spec_connections(),
    {
        self.connections.as_slice()
    }

    /// Ports of the given type offered by the audio server. No server is
    /// attached to the router, so it offers none.
    pub fn get_available_ports(&self, port_type: &str) -> (r: Vec<String>)
        ensures
            r@ == Seq::<String>::empty(),
    {
        Vec::new()
    }
}

} // verus!
