//! The Python functions of an isolate, by their names.
use dashmap::DashMap;
use vstd::prelude::*;

verus! {

/// Declares dashmap's [`DashMap`], a hash map.
#[verifier::external_type_specification]
#[verifier::external_body]
#[verifier::reject_recursive_types(K)]
#[verifier::reject_recursive_types(V)]
#[verifier::reject_recursive_types(S)]
pub struct ExDashMap<K, V, S>(DashMap<K, V, S>);

/// The entries of a map, with the characters of each key.
pub uninterp spec fn map_entries(map: DashMap<String, u64>) -> Map<Seq<char>, u64>;

/// The entries of a map that has none.
pub open spec fn no_entries() -> Map<Seq<char>, u64> {
    Map::empty()
}

/// The value of a key, if it has one.
pub open spec fn found_entry(entries: Map<Seq<char>, u64>, key: Seq<char>) -> Option<u64> {
    if entries.contains_key(key) {
        Some(entries[key])
    } else {
        None
    }
}

/// Calls `new` of dashmap's `DashMap`: a map without entries.
#[verifier::external_body]
fn new_map() -> (created: DashMap<String, u64>)
    ensures
        map_entries(created) == no_entries(),
{
    DashMap::new()
}

/// Calls `insert` of dashmap's `DashMap`: the key has the value from then on, in place of the
/// one that is returned if it had one, and the other entries stay.
#[verifier::external_body]
fn insert_entry(map: &mut DashMap<String, u64>, key: String, value: u64) -> (replaced: Option<u64>)
    ensures
        map_entries(*final(map)) == map_entries(*old(map)).insert(key@, value),
        replaced == found_entry(map_entries(*old(map)), key@),
{
    map.insert(key, value)
}

/// Calls `get` of dashmap's `DashMap`: the value of a key, if it has one.
#[verifier::external_body]
fn get_entry(map: &DashMap<String, u64>, key: &str) -> (found: Option<u64>)
    ensures
        found == found_entry(map_entries(*map), key@),
{
    map.get(key).map(|entry| *entry)
}

/// The Python functions of an isolate, by their names. A function is known by its number.
#[derive(Debug)]
pub struct PythonFunctions {
    map: DashMap<String, u64>,
}

impl View for PythonFunctions {
    type V = Map<Seq<char>, u64>;

    closed spec fn view(&self) -> Map<Seq<char>, u64> {
        map_entries(self.map)
    }
}

impl PythonFunctions {
    /// No functions.
    pub fn new() -> (functions: PythonFunctions)
        ensures
            functions@ == no_entries(),
    {
        PythonFunctions { map: new_map() }
    }

    /// Adds a function, in place of the one that had its name, which is returned.
    pub fn insert(&mut self, name: String, handler: u64) -> (replaced: Option<u64>)
        ensures
            final(self)@ == old(self)@.insert(name@, handler),
            replaced == found_entry(old(self)@, name@),
    {
        insert_entry(&mut self.map, name, handler)
    }

    /// The function that has a name, if there is one.
    pub fn get(&self, name: &str) -> (handler: Option<u64>)
        ensures
            handler == found_entry(self@, name@),
    {
        get_entry(&self.map, name)
    }
}

/// A function that was added is found by its name, and every other name finds what it found
/// before. What the name found before is told.
pub proof fn law_added_function_is_found(
    functions: &mut PythonFunctions,
    name: String,
    handler: u64,
    replaced: Option<u64>,
    asked: &str,
    before: Option<u64>,
    after: Option<u64>,
)
    requires
        call_ensures(PythonFunctions::insert, (functions, name, handler), replaced),
        call_ensures(PythonFunctions::get, (old(functions), asked), before),
        call_ensures(PythonFunctions::get, (final(functions), asked), after),
    ensures
        asked@ == name@ ==> after == Some(handler) && replaced == before,
        asked@ != name@ ==> after == before,
{
}

/// Without functions, no name finds anything.
pub proof fn law_no_function_is_found_at_first(
    functions: PythonFunctions,
    asked: &str,
    found: Option<u64>,
)
    requires
        call_ensures(PythonFunctions::new, (), functions),
        call_ensures(PythonFunctions::get, (&functions, asked), found),
    ensures
        found is None,
{
}

} // verus!
