use vstd::prelude::*;

verus! {

/// The outside concurrent map of the `dashmap` crate.
#[verifier::external_type_specification]
#[verifier::external_body]
#[verifier::reject_recursive_types(K)]
#[verifier::reject_recursive_types(V)]
#[verifier::reject_recursive_types(S)]
pub struct ExDashMap<K, V, S = std::hash::RandomState>(dashmap::DashMap<K, V, S>);

/// The entries of a session map: each session id (as its characters) with the
/// connection registered for it.
pub uninterp spec fn session_entries(m: dashmap::DashMap<String, u64>) -> Map<Seq<char>, u64>;

/// `DashMap::new()`. Claimed: the map is empty.
#[verifier::external_body]
fn session_map_new() -> (r: dashmap::DashMap<String, u64>)
    ensures
        session_entries(r) =~= Map::empty(),
{
    dashmap::DashMap::new()
}

/// `DashMap::insert(key, value)` (its returned old value is dropped). Claimed:
/// `key` is bound to `value` and every other entry stays. `String` keys are
/// equal exactly when their characters are.
#[verifier::external_body]
fn session_map_insert(m: &mut dashmap::DashMap<String, u64>, key: String, value: u64)
    ensures
        session_entries(*final(m)) == session_entries(*old(m)).insert(key@, value),
{
    m.insert(key, value);
}

/// `DashMap::remove(key)` (its returned entry is dropped). Claimed: `key` is
/// unbound and every other entry stays.
#[verifier::external_body]
fn session_map_remove(m: &mut dashmap::DashMap<String, u64>, key: &String)
    ensures
        session_entries(*final(m)) == session_entries(*old(m)).remove(key@),
{
    m.remove(key);
}

/// `DashMap::get(key)`, the value copied out of the guard. Claimed: the value
/// bound to `key`, `None` when it is unbound.
#[verifier::external_body]
fn session_map_get(m: &dashmap::DashMap<String, u64>, key: &String) -> (r: Option<u64>)
    ensures
        r matches Some(v) ==> session_entries(*m).dom().contains(key@) && session_entries(*m)[key@] == v,
        r is None ==> !session_entries(*m).dom().contains(key@),
{
    m.get(key).map(|e| *e)
}

/// A table from session id to the connection (by its number) that registered
/// the session. Registering a session id again replaces its connection.
pub struct SessionTable {
    ids: dashmap::DashMap<String, u64>,
}

impl SessionTable {
    /// The session ids and their connections.
    pub closed spec fn view(&self) -> Map<Seq<char>, u64> {
        session_entries(self.ids)
    }

    pub fn new() -> (t: Self)
        ensures
            t.view() == Map::<Seq<char>, u64>::empty(),
    {
        SessionTable { ids: session_map_new() }
    }

    /// The connection registered for `id`, if any.
    pub fn get(&self, id: &String) -> (r: Option<u64>)
        ensures
            r matches Some(v) ==> self.view().dom().contains(id@) && self.view()[id@] == v,
            r is None ==> !self.view().dom().contains(id@),
    {
        session_map_get(&self.ids, id)
    }

    /// Registers `id` with `conn`, replacing any connection it had.
    pub fn insert(&mut self, id: String, conn: u64)
        ensures
            final(self).view() == old(self).view().insert(id@, conn),
    {
        session_map_insert(&mut self.ids, id, conn);
    }

    /// Forgets `id`, if it is registered.
    pub fn remove(&mut self, id: &String)
        ensures
            final(self).view() == old(self).view().remove(id@),
    {
        session_map_remove(&mut self.ids, id);
    }
}

} // verus!
