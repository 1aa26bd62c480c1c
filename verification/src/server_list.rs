//! The worlds the lobby offers: their ids, names, addresses and whether
//! they are listed. Reading the list from its file belongs to the caller.

use vstd::prelude::*;

verus! {

/// One world of the server list.
#[derive(Debug)]
pub struct ServerEntry {
    pub id: u32,
    pub name: String,
    pub address: String,
    pub port: u16,
    pub list_position: u16,
    pub max_chars: u32,
    pub is_active: bool,
}

impl Clone for ServerEntry {
    /// An equal copy.
    fn clone(&self) -> (r: Self)
        ensures
            r == *self,
    {
        ServerEntry {
            id: self.id,
            name: self.name.clone(),
            address: self.address.clone(),
            port: self.port,
            list_position: self.list_position,
            max_chars: self.max_chars,
            is_active: self.is_active,
        }
    }
}

/// The worlds, in file order.
#[derive(Debug, Clone)]
pub struct ServerList {
    pub servers: Vec<ServerEntry>,
}

impl Default for ServerList {
    /// One local world, "Fernehalwes" on 127.0.0.1:54992, listed first
    /// with room for 5000 characters.
    fn default() -> (r: Self)
        ensures
            r.servers@.len() == 1,
            r.servers@[0].id == 1,
            r.servers@[0].name@ == "Fernehalwes"@,
            r.servers@[0].address@ == "127.0.0.1"@,
            r.servers@[0].port == 54992,
            r.servers@[0].list_position == 1,
            r.servers@[0].max_chars == 5000,
            r.servers@[0].is_active,
    {
        let mut servers: Vec<ServerEntry> = Vec::new();
        servers.push(
            ServerEntry {
                id: 1,
                name: "Fernehalwes".to_owned(),
                address: "127.0.0.1".to_owned(),
                port: 54992,
                list_position: 1,
                max_chars: 5000,
                is_active: true,
            },
        );
        ServerList { servers }
    }
}

impl ServerList {
    /// The worlds shown at character select: the active ones, in order.
    pub fn active(&self) -> (r: Vec<ServerEntry>)
        ensures
            r@ == self.servers@.filter(|s: ServerEntry| s.is_active),
    {
        let mut r: Vec<ServerEntry> = Vec::new();
        let mut i: usize = 0;
        while i < self.servers.len()
            invariant
                i <= self.servers@.len(),
                r@ == self.servers@.take(i as int).filter(|s: ServerEntry| s.is_active),
            decreases self.servers@.len() - i,
        {
            proof {
                reveal_with_fuel(Seq::filter, 1);
                assert(self.servers@.take(i as int + 1).drop_last() =~= self.servers@.take(i as int));
            }
            if self.servers[i].is_active {
                r.push(self.servers[i].clone());
            }
            i = i + 1;
        }
        assert(self.servers@.take(self.servers@.len() as int) =~= self.servers@);
        r
    }

    /// The first world with id `id`, active or not.
    pub fn by_id(&self, id: u32) -> (r: Option<&ServerEntry>)
        ensures
            match r {
                Some(e) => exists|i: int|
                    0 <= i < self.servers@.len() && self.servers@[i] == *e && e.id == id && forall|
                        j: int,
                    | 0 <= j < i ==> #[trigger] self.servers@[j].id != id,
                None => forall|j: int| 0 <= j < self.servers@.len() ==> #[trigger] self.servers@[j].id
                    != id,
            },
    {
        let mut i: usize = 0;
        while i < self.servers.len()
            invariant
                i <= self.servers@.len(),
                forall|j: int| 0 <= j < i ==> #[trigger] self.servers@[j].id != id,
            decreases self.servers@.len() - i,
        {
            if self.servers[i].id == id {
                return Some(&self.servers[i]);
            }
            i = i + 1;
        }
        None
    }
}

} // verus!
