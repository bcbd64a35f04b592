//! The mapping from instance ids to the names of the clients that run on
//! them, as the clients list gives it.

use vstd::prelude::*;
use crate::err::SensuError;
use crate::json::{elements, Json, JsonView};
use crate::reply::reply_view;

verus! {

/// A mapping from instance ids to client names. It is built for one
/// resolution and used up by it: a successful lookup removes its entry.
#[derive(Debug)]
pub struct NodeClientMap {
    entries: Vec<(String, String)>,
}

/// The mapping that inserting `entries` one after the other gives.
pub closed spec fn entries_map(entries: Seq<(String, String)>) -> Map<Seq<char>, Seq<char>>
    decreases entries.len(),
{
    if entries.len() == 0 {
        Map::empty()
    } else {
        entries_map(entries.drop_last()).insert(entries.last().0@, entries.last().1@)
    }
}

impl View for NodeClientMap {
    type V = Map<Seq<char>, Seq<char>>;

    closed spec fn view(&self) -> Map<Seq<char>, Seq<char>> {
        entries_map(self.entries@)
    }
}

impl NodeClientMap {
    /// The empty mapping.
    pub fn new() -> (map: NodeClientMap)
        ensures
            map@ == Map::<Seq<char>, Seq<char>>::empty(),
    {
        NodeClientMap { entries: Vec::new() }
    }

    /// Maps `id` to `client`, in place of what `id` was mapped to before.
    pub fn insert(&mut self, id: String, client: String)
        ensures
            final(self)@ == old(self)@.insert(id@, client@),
    {
        proof {
            assert(self.entries@.push((id, client)).drop_last() =~= self.entries@);
        }
        self.entries.push((id, client));
    }

    /// Looks `id` up and removes its entry.
    pub fn remove(&mut self, id: &String) -> (found: Option<String>)
        ensures
            match found {
                Some(client) => old(self)@.contains_key(id@) && client@ == old(self)@[id@],
                None => !old(self)@.contains_key(id@),
            },
            final(self)@ == old(self)@.remove(id@),
    {
        let mut rest: Vec<(String, String)> = Vec::new();
        let mut found: Option<String> = None;
        let mut i: usize = 0;
        while i < self.entries.len()
            invariant
                i <= self.entries.len(),
                self.entries == old(self).entries,
                entries_map(rest@) == entries_map(self.entries@.take(i as int)).remove(id@),
                match found {
                    Some(client) => entries_map(self.entries@.take(i as int)).contains_key(id@)
                        && client@ == entries_map(self.entries@.take(i as int))[id@],
                    None => !entries_map(self.entries@.take(i as int)).contains_key(id@),
                },
            decreases self.entries.len() - i,
        {
            proof {
                assert(self.entries@.take(i + 1).drop_last() =~= self.entries@.take(i as int));
            }
            if self.entries[i].0 == *id {
                found = Some(self.entries[i].1.clone());
            } else {
                let copy = (self.entries[i].0.clone(), self.entries[i].1.clone());
                proof {
                    assert(rest@.push(copy).drop_last() =~= rest@);
                }
                rest.push(copy);
            }
            i += 1;
        }
        assert(self.entries@.take(self.entries@.len() as int) =~= self.entries@);
        self.entries = rest;
        found
    }
}

/// The instance id and the name of one entry of the clients list; `None`
/// where either is missing or is no string.
pub open spec fn node_entry(client: JsonView) -> Option<(Seq<char>, Seq<char>)> {
    match (client.get("instance_id"@), client.get("name"@)) {
        (Some(JsonView::String(id)), Some(JsonView::String(name))) => Some((id, name)),
        _ => None,
    }
}

/// The mapping that the entries of the clients list give, a later entry
/// taking the place of an earlier one with the same instance id.
pub open spec fn node_client_map(clients: Seq<JsonView>) -> Map<Seq<char>, Seq<char>>
    decreases clients.len(),
{
    if clients.len() == 0 {
        Map::empty()
    } else {
        match node_entry(clients.last()) {
            Some((id, name)) => node_client_map(clients.drop_last()).insert(id, name),
            None => node_client_map(clients.drop_last()),
        }
    }
}

/// The mapping that the body of a reply to "list all clients" gives: that of
/// its entries where it is an array, the empty one otherwise.
pub open spec fn node_map_of(body: Option<JsonView>) -> Map<Seq<char>, Seq<char>> {
    match body {
        Some(JsonView::Array(clients)) => node_client_map(clients),
        _ => Map::empty(),
    }
}

/// Builds the mapping from the reply to "list all clients". A failed
/// exchange fails the mapping with the same error.
pub fn get_node_to_client_map(reply: &Result<Option<Json>, SensuError>) -> (built: Result<
    NodeClientMap,
    SensuError,
>)
    ensures
        match reply_view(*reply) {
            Ok(body) => built is Ok && built->Ok_0@ == node_map_of(body),
            Err(e) => built is Err && built->Err_0@ == e,
        },
{
    let clients = match reply {
        Ok(Some(Json::Array(clients))) => {
            assert(reply_view(*reply)->Ok_0->Some_0->Array_0 =~= elements(clients@));
            clients
        },
        Ok(_) => {
            return Ok(NodeClientMap::new());
        },
        Err(SensuError::NotFound) => {
            return Err(SensuError::NotFound);
        },
        Err(SensuError::Message(m)) => {
            return Err(SensuError::Message(m.clone()));
        },
    };
    let ghost all = elements(clients@);
    let mut map = NodeClientMap::new();
    let mut i: usize = 0;
    while i < clients.len()
        invariant
            i <= clients.len(),
            all == elements(clients@),
            map@ == node_client_map(all.take(i as int)),
        decreases clients.len() - i,
    {
        proof {
            assert(all.take(i + 1).drop_last() =~= all.take(i as int));
        }
        let id = match clients[i].get("instance_id") {
            Some(Json::String(s)) => Some(s),
            _ => None,
        };
        let name = match clients[i].get("name") {
            Some(Json::String(s)) => Some(s),
            _ => None,
        };
        if let (Some(id), Some(name)) = (id, name) {
            map.insert(id.clone(), name.clone());
        }
        i += 1;
    }
    assert(all.take(clients@.len() as int) =~= all);
    Ok(map)
}

} // verus!
