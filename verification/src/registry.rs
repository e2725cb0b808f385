//! The texture registry: which textures are resident on the device.

use crate::texture::{TextureId, TextureInfo};
use vstd::prelude::*;

verus! {

#[verifier::external_type_specification]
#[verifier::external_body]
#[verifier::reject_recursive_types(K)]
#[verifier::reject_recursive_types(V)]
#[verifier::reject_recursive_types(S)]
pub struct ExAHashMap<K, V, S>(ahash::AHashMap<K, V, S>);

#[verifier::external_type_specification]
#[verifier::external_body]
pub struct ExRandomState(ahash::RandomState);

/// The key under which a texture is stored: whether it is user-supplied, and
/// its number.
pub type TextureKey = (bool, u64);

/// The hash table behind the registry.
pub type TextureTable = ahash::AHashMap<TextureKey, TextureInfo>;

/// What a hash table holds: the value stored under each key that is present.
pub uninterp spec fn table_entries(table: TextureTable) -> Map<TextureKey, TextureInfo>;

/// A table that holds nothing.
///
/// Trusted: calls `ahash::AHashMap::new`, which makes an empty
/// `std::collections::HashMap` with the crate's hasher.
#[verifier::external_body]
fn table_new() -> (table: TextureTable)
    ensures
        table_entries(table) == (Map::<TextureKey, TextureInfo>::empty()),
{
    ahash::AHashMap::new()
}

/// Stores `info` under `key`, in place of what was stored there.
///
/// Trusted: calls `ahash::AHashMap::insert`, which forwards to
/// `std::collections::HashMap::insert`: afterwards the key is present with
/// the new value, and every other key is as before.
#[verifier::external_body]
fn table_insert(table: &mut TextureTable, key: TextureKey, info: TextureInfo)
    ensures
        table_entries(*final(table)) == table_entries(*old(table)).insert(key, info),
{
    table.insert(key, info);
}

/// Removes what is stored under `key`, if anything.
///
/// Trusted: calls `ahash::AHashMap::remove`, which forwards to
/// `std::collections::HashMap::remove`: afterwards the key is absent, and
/// every other key is as before. An absent key is no error.
#[verifier::external_body]
fn table_remove(table: &mut TextureTable, key: TextureKey)
    ensures
        table_entries(*final(table)) == table_entries(*old(table)).remove(key),
{
    table.remove(&key);
}

/// Looks up what is stored under `key`.
///
/// Trusted: calls `ahash::AHashMap::get`, which forwards to
/// `std::collections::HashMap::get`: the value under the key where the key is
/// present, and nothing where it is absent.
#[verifier::external_body]
fn table_get(table: &TextureTable, key: TextureKey) -> (found: Option<TextureInfo>)
    ensures
        found == (if table_entries(*table).contains_key(key) {
            Some(table_entries(*table)[key])
        } else {
            None
        }),
{
    table.get(&key).copied()
}

/// The key that stands for `id` in the table.
pub open spec fn key_of(id: TextureId) -> TextureKey {
    match id {
        TextureId::Managed(n) => (false, n),
        TextureId::User(n) => (true, n),
    }
}

/// Different identifiers have different keys.
pub proof fn lemma_key_of_injective(a: TextureId, b: TextureId)
    ensures
        key_of(a) == key_of(b) <==> a == b,
{
}

fn key_for(id: TextureId) -> (key: TextureKey)
    ensures
        key == key_of(id),
{
    match id {
        TextureId::Managed(n) => (false, n),
        TextureId::User(n) => (true, n),
    }
}

/// The textures that are resident on the device, by identifier.
///
/// Its view is the map from each resident identifier to what is known of its
/// texture.
pub struct TextureRegistry {
    table: TextureTable,
}

impl TextureRegistry {
    /// The resident textures.
    pub closed spec fn view(&self) -> Map<TextureId, TextureInfo> {
        Map::new(
            |id: TextureId| table_entries(self.table).contains_key(key_of(id)),
            |id: TextureId| table_entries(self.table)[key_of(id)],
        )
    }

    /// A registry without textures.
    pub fn new() -> (registry: Self)
        ensures
            registry@ == Map::<TextureId, TextureInfo>::empty(),
    {
        let registry = TextureRegistry { table: table_new() };
        assert(registry@ =~= Map::<TextureId, TextureInfo>::empty());
        registry
    }

    /// Records that `id` now names the texture described by `info`. A
    /// texture that `id` named before is replaced as a whole.
    pub fn upload(&mut self, id: TextureId, info: TextureInfo)
        ensures
            final(self)@ == old(self)@.insert(id, info),
    {
        table_insert(&mut self.table, key_for(id), info);
        proof {
            assert forall|other: TextureId| key_of(other) == key_of(id) implies other == id by {
                lemma_key_of_injective(other, id);
            }
            assert(self@ =~= old(self)@.insert(id, info));
        }
    }

    /// Forgets the texture that `id` names. Nothing happens if there is none.
    pub fn free(&mut self, id: TextureId)
        ensures
            final(self)@ == old(self)@.remove(id),
    {
        table_remove(&mut self.table, key_for(id));
        proof {
            assert forall|other: TextureId| key_of(other) == key_of(id) implies other == id by {
                lemma_key_of_injective(other, id);
            }
            assert(self@ =~= old(self)@.remove(id));
        }
    }

    /// What is known of the texture that `id` names, or `None` if it is not
    /// resident.
    pub fn lookup(&self, id: TextureId) -> (found: Option<TextureInfo>)
        ensures
            found == (if self@.contains_key(id) {
                Some(self@[id])
            } else {
                None
            }),
    {
        table_get(&self.table, key_for(id))
    }
}

/// Freeing a texture a second time changes nothing.
pub proof fn lemma_free_twice(textures: Map<TextureId, TextureInfo>, id: TextureId)
    ensures
        textures.remove(id).remove(id) == textures.remove(id),
{
    assert(textures.remove(id).remove(id) =~= textures.remove(id));
}

} // verus!
