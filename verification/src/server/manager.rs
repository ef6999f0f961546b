//! A registry of KVM servers by id.

use vstd::prelude::*;
use crate::named_map::NamedMap;
use crate::server::{KvmServer, ServerConfig, ServerError, ServerResult, ServerStatus};
use crate::text::{append_str, string_from};

verus! {

/// The text of the error for an id that names no server.
pub open spec fn server_not_found(id: Seq<char>) -> Seq<char> {
    "Server "@ + id + " not found"@
}

/// The error for an id that names no server.
fn not_found(server_id: &str) -> (r: ServerError)
    ensures
        r matches ServerError::Generic(m) && m@ == server_not_found(server_id@),
{
    let mut m = string_from("Server ");
    append_str(&mut m, server_id);
    append_str(&mut m, " not found");
    ServerError::Generic(m)
}

/// The servers, by id.
pub struct ServerManager {
    servers: NamedMap<KvmServer>,
}

impl ServerManager {
    /// The servers, by id.
    pub closed spec fn servers(&self) -> Map<Seq<char>, KvmServer> {
        self.servers@
    }

    /// The manager's internal invariant.
    pub closed spec fn wf(&self) -> bool {
        &&& self.servers.wf()
        &&& forall|k: Seq<char>| #[trigger] self.servers@.contains_key(k) ==> self.servers@[k].wf()
    }

    /// A manager with no server.
    pub fn new() -> (r: Self)
        ensures
            r.wf(),
            r.servers() == Map::<Seq<char>, KvmServer>::empty(),
    {
        ServerManager { servers: NamedMap::new() }
    }

    /// Registers a new, stopped server under an id that is not taken yet.
    pub fn create_server(&mut self, server_id: String, config: ServerConfig, platform_supported: bool) -> (r:
        ServerResult<()>)
        requires
            old(self).wf(),
        ensures
            final(self).wf(),
            old(self).servers().contains_key(server_id@) ==> final(self).servers() == old(self).servers()
                && (r matches Err(ServerError::Generic(m)) && m@ == "Server "@ + server_id@
                + " already exists"@),
            !old(self).servers().contains_key(server_id@) ==> r is Ok && {
                let s = final(self).servers()[server_id@];
                &&& final(self).servers().dom() == old(self).servers().dom().insert(server_id@)
                &&& s.config_spec() == config
                &&& s.platform_supported_spec() == platform_supported
                &&& !s.is_running()
                &&& forall|k: Seq<char>|
                    k != server_id@ && #[trigger] old(self).servers().contains_key(k)
                        ==> final(self).servers()[k] == old(self).servers()[k]
            },
    {
        if self.servers.contains_key(server_id.as_str()) {
            let mut m = string_from("Server ");
            append_str(&mut m, server_id.as_str());
            append_str(&mut m, " already exists");
            return Err(ServerError::Generic(m));
        }
        match KvmServer::new(config, platform_supported) {
            Ok(server) => {
                self.servers.insert(server_id, server);
                Ok(())
            },
            Err(e) => Err(e),
        }
    }

    /// The id, where it names a server.
    pub fn get_server(&self, server_id: &str) -> (r: Option<String>)
        requires
            self.wf(),
        ensures
            match r {
                Some(id) => self.servers().contains_key(server_id@) && id@ == server_id@,
                None => !self.servers().contains_key(server_id@),
            },
    {
        if self.servers.contains_key(server_id) {
            Some(string_from(server_id))
        } else {
            None
        }
    }

    /// Marks the named server running (see `KvmServer::begin_start`).
    pub fn start_server(&mut self, server_id: &str) -> (r: ServerResult<()>)
        requires
            old(self).wf(),
        ensures
            final(self).wf(),
            final(self).servers().dom() == old(self).servers().dom(),
            !old(self).servers().contains_key(server_id@) ==> final(self).servers() == old(self).servers()
                && (r matches Err(ServerError::Generic(m)) && m@ == server_not_found(server_id@)),
            old(self).servers().contains_key(server_id@) ==> {
                let (o, n) = (old(self).servers()[server_id@], final(self).servers()[server_id@]);
                &&& n.is_running()
                &&& n.config_spec() == o.config_spec()
                &&& n.protocol_spec() == o.protocol_spec()
                &&& (o.is_running() ==> (r matches Err(ServerError::Generic(m)) && m@ == "Server already running"@))
                &&& (!o.is_running() ==> r is Ok)
            },
            forall|k: Seq<char>|
                k != server_id@ && #[trigger] old(self).servers().contains_key(k) ==> final(self).servers()[k]
                    == old(self).servers()[k],
    {
        match self.servers.remove_entry(server_id) {
            Some((key, mut server)) => {
                let r = server.begin_start();
                self.servers.insert(key, server);
                proof {
                    assert(self.servers().dom() =~= old(self).servers().dom());
                }
                r
            },
            None => Err(not_found(server_id)),
        }
    }

    /// Marks the named server stopped (see `KvmServer::begin_stop`).
    pub fn stop_server(&mut self, server_id: &str) -> (r: ServerResult<()>)
        requires
            old(self).wf(),
        ensures
            final(self).wf(),
            final(self).servers().dom() == old(self).servers().dom(),
            !old(self).servers().contains_key(server_id@) ==> final(self).servers() == old(self).servers()
                && (r matches Err(ServerError::Generic(m)) && m@ == server_not_found(server_id@)),
            old(self).servers().contains_key(server_id@) ==> r is Ok && !final(self).servers()[server_id@].is_running()
                && final(self).servers()[server_id@].config_spec() == old(self).servers()[server_id@].config_spec(),
            forall|k: Seq<char>|
                k != server_id@ && #[trigger] old(self).servers().contains_key(k) ==> final(self).servers()[k]
                    == old(self).servers()[k],
    {
        match self.servers.remove_entry(server_id) {
            Some((key, mut server)) => {
                let _ = server.begin_stop();
                self.servers.insert(key, server);
                proof {
                    assert(self.servers().dom() =~= old(self).servers().dom());
                }
                Ok(())
            },
            None => Err(not_found(server_id)),
        }
    }

    /// Drops the named server.
    pub fn remove_server(&mut self, server_id: &str) -> (r: ServerResult<()>)
        requires
            old(self).wf(),
        ensures
            final(self).wf(),
            final(self).servers() == old(self).servers().remove(server_id@),
            old(self).servers().contains_key(server_id@) ==> r is Ok,
            !old(self).servers().contains_key(server_id@) ==> (r matches Err(ServerError::Generic(m))
                && m@ == server_not_found(server_id@)),
    {
        match self.servers.remove_entry(server_id) {
            Some(_) => Ok(()),
            None => Err(not_found(server_id)),
        }
    }

    /// The ids of the servers, each once.
    pub fn list_servers(&self) -> (r: Vec<String>)
        requires
            self.wf(),
        ensures
            r.len() == self.servers().len(),
            forall|i: int| 0 <= i < r.len() ==> self.servers().contains_key(#[trigger] r[i]@),
            forall|i: int, j: int| 0 <= i < j < r.len() ==> r[i]@ != r[j]@,
    {
        self.servers.keys()
    }

    /// The status of the named server.
    pub fn get_server_status(&self, server_id: &str) -> (r: ServerResult<ServerStatus>)
        requires
            self.wf(),
        ensures
            !self.servers().contains_key(server_id@) ==> (r matches Err(ServerError::Generic(m))
                && m@ == server_not_found(server_id@)),
            self.servers().contains_key(server_id@) ==> (r matches Ok(st) && {
                let s = self.servers()[server_id@];
                &&& st.is_running == s.is_running()
                &&& st.server_name@ == s.config_spec().server_name@
                &&& st.active_sessions == s.protocol_spec().sessions().len()
                &&& st.max_clients == s.config_spec().max_clients
                &&& st.platform_supported == s.platform_supported_spec()
            }),
    {
        match self.servers.get(server_id) {
            Some(s) => s.status(),
            None => Err(not_found(server_id)),
        }
    }
}

impl Default for ServerManager {
    /// A manager with no server.
    fn default() -> (r: Self)
        ensures
            r.wf(),
            r.servers() == Map::<Seq<char>, KvmServer>::empty(),
    {
        Self::new()
    }
}

} // verus!
