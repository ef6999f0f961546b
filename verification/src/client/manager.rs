//! A registry of KVM clients by id.

use vstd::prelude::*;
use crate::client::{ClientConfig, ClientError, ClientResult, ClientStatus, KvmClient};
use crate::named_map::NamedMap;
use crate::text::{append_str, string_from};

verus! {

/// The text of the error for an id that names no client.
pub open spec fn client_not_found(id: Seq<char>) -> Seq<char> {
    "Client "@ + id + " not found"@
}

/// The error for an id that names no client.
fn not_found(client_id: &str) -> (r: ClientError)
    ensures
        r matches ClientError::Generic(m) && m@ == client_not_found(client_id@),
{
    let mut m = string_from("Client ");
    append_str(&mut m, client_id);
    append_str(&mut m, " not found");
    ClientError::Generic(m)
}

/// The clients, by id.
pub struct ClientManager {
    clients: NamedMap<KvmClient>,
}

impl ClientManager {
    /// The clients, by id.
    pub closed spec fn clients(&self) -> Map<Seq<char>, KvmClient> {
        self.clients@
    }

    /// The manager's internal invariant.
    pub closed spec fn wf(&self) -> bool {
        &&& self.clients.wf()
        &&& forall|k: Seq<char>| #[trigger] self.clients@.contains_key(k) ==> self.clients@[k].wf()
    }

    /// A manager with no client.
    pub fn new() -> (r: Self)
        ensures
            r.wf(),
            r.clients() == Map::<Seq<char>, KvmClient>::empty(),
    {
        ClientManager { clients: NamedMap::new() }
    }

    /// Registers a new, unconnected client under an id that is not taken
    /// yet.
    pub fn create_client(&mut self, client_id: String, config: ClientConfig, platform_supported: bool) -> (r:
        ClientResult<()>)
        requires
            old(self).wf(),
        ensures
            final(self).wf(),
            old(self).clients().contains_key(client_id@) ==> final(self).clients() == old(self).clients()
                && (r matches Err(ClientError::Generic(m)) && m@ == "Client "@ + client_id@
                + " already exists"@),
            !old(self).clients().contains_key(client_id@) ==> r is Ok && {
                let c = final(self).clients()[client_id@];
                &&& final(self).clients().dom() == old(self).clients().dom().insert(client_id@)
                &&& c.config_spec() == config
                &&& c.platform_supported_spec() == platform_supported
                &&& !c.is_connected()
                &&& forall|k: Seq<char>|
                    k != client_id@ && #[trigger] old(self).clients().contains_key(k)
                        ==> final(self).clients()[k] == old(self).clients()[k]
            },
    {
        if self.clients.contains_key(client_id.as_str()) {
            let mut m = string_from("Client ");
            append_str(&mut m, client_id.as_str());
            append_str(&mut m, " already exists");
            return Err(ClientError::Generic(m));
        }
        match KvmClient::new(config, platform_supported) {
            Ok(client) => {
                self.clients.insert(client_id, client);
                Ok(())
            },
            Err(e) => Err(e),
        }
    }

    /// The id, where it names a client.
    pub fn get_client(&self, client_id: &str) -> (r: Option<String>)
        requires
            self.wf(),
        ensures
            match r {
                Some(id) => self.clients().contains_key(client_id@) && id@ == client_id@,
                None => !self.clients().contains_key(client_id@),
            },
    {
        if self.clients.contains_key(client_id) {
            Some(string_from(client_id))
        } else {
            None
        }
    }

    /// Whether the named client may connect (see `KvmClient::begin_connect`).
    pub fn connect_client(&self, client_id: &str) -> (r: ClientResult<()>)
        requires
            self.wf(),
        ensures
            !self.clients().contains_key(client_id@) ==> (r matches Err(ClientError::Generic(m))
                && m@ == client_not_found(client_id@)),
            self.clients().contains_key(client_id@) ==> {
                let c = self.clients()[client_id@];
                &&& c.is_connected() ==> (r matches Err(ClientError::Generic(m)) && m@ == "Client already connected"@)
                &&& !c.is_connected() ==> r is Ok
            },
    {
        match self.clients.get(client_id) {
            Some(c) => c.begin_connect(),
            None => Err(not_found(client_id)),
        }
    }

    /// Marks the named client disconnected (see
    /// `KvmClient::finish_disconnect`); its link stays for the caller.
    pub fn disconnect_client(&mut self, client_id: &str) -> (r: ClientResult<()>)
        requires
            old(self).wf(),
        ensures
            final(self).wf(),
            final(self).clients().dom() == old(self).clients().dom(),
            !old(self).clients().contains_key(client_id@) ==> final(self).clients() == old(self).clients()
                && (r matches Err(ClientError::Generic(m)) && m@ == client_not_found(client_id@)),
            old(self).clients().contains_key(client_id@) ==> r is Ok && !final(self).clients()[client_id@].is_connected()
                && final(self).clients()[client_id@].session_id_spec() is None
                && final(self).clients()[client_id@].config_spec() == old(self).clients()[client_id@].config_spec(),
            forall|k: Seq<char>|
                k != client_id@ && #[trigger] old(self).clients().contains_key(k) ==> final(self).clients()[k]
                    == old(self).clients()[k],
    {
        match self.clients.remove_entry(client_id) {
            Some((key, mut client)) => {
                client.finish_disconnect();
                self.clients.insert(key, client);
                proof {
                    assert(self.clients().dom() =~= old(self).clients().dom());
                }
                Ok(())
            },
            None => Err(not_found(client_id)),
        }
    }

    /// Drops the named client.
    pub fn remove_client(&mut self, client_id: &str) -> (r: ClientResult<()>)
        requires
            old(self).wf(),
        ensures
            final(self).wf(),
            final(self).clients() == old(self).clients().remove(client_id@),
            old(self).clients().contains_key(client_id@) ==> r is Ok,
            !old(self).clients().contains_key(client_id@) ==> (r matches Err(ClientError::Generic(m))
                && m@ == client_not_found(client_id@)),
    {
        match self.clients.remove_entry(client_id) {
            Some(_) => Ok(()),
            None => Err(not_found(client_id)),
        }
    }

    /// The ids of the clients, each once.
    pub fn list_clients(&self) -> (r: Vec<String>)
        requires
            self.wf(),
        ensures
            r.len() == self.clients().len(),
            forall|i: int| 0 <= i < r.len() ==> self.clients().contains_key(#[trigger] r[i]@),
            forall|i: int, j: int| 0 <= i < j < r.len() ==> r[i]@ != r[j]@,
    {
        self.clients.keys()
    }

    /// The status of the named client.
    pub fn get_client_status(&self, client_id: &str) -> (r: ClientResult<ClientStatus>)
        requires
            self.wf(),
        ensures
            !self.clients().contains_key(client_id@) ==> (r matches Err(ClientError::Generic(m))
                && m@ == client_not_found(client_id@)),
            self.clients().contains_key(client_id@) ==> (r matches Ok(st) && {
                let c = self.clients()[client_id@];
                &&& st.is_connected == c.is_connected()
                &&& st.client_name@ == c.config_spec().client_name@
                &&& st.platform_supported == c.platform_supported_spec()
            }),
    {
        match self.clients.get(client_id) {
            Some(c) => c.status(),
            None => Err(not_found(client_id)),
        }
    }
}

impl Default for ClientManager {
    /// A manager with no client.
    fn default() -> (r: Self)
        ensures
            r.wf(),
            r.clients() == Map::<Seq<char>, KvmClient>::empty(),
    {
        Self::new()
    }
}

} // verus!
