//! The registry of the resources that the engine knows by name.

use vstd::prelude::*;
use vstd::hash_map::StringHashMap;

verus! {

pub struct ResourceManager {
    textures: StringHashMap<String>,
}

impl ResourceManager {
    /// The keys of the registered textures.
    pub closed spec fn keys(&self) -> Set<Seq<char>> {
        self.textures@.dom()
    }

    /// A registry without textures.
    pub fn new() -> (manager: ResourceManager)
        ensures
            manager.keys() == Set::<Seq<char>>::empty(),
    {
        ResourceManager { textures: StringHashMap::new() }
    }

    /// Registers a texture under `key`. A key that is registered already
    /// stays registered once.
    pub fn register_texture(&mut self, key: &str)
        ensures
            final(self).keys() == old(self).keys().insert(key@),
    {
        if !self.textures.contains_key(key) {
            self.textures.insert(key.to_owned(), String::new());
        }
        assert(self.keys() =~= old(self).keys().insert(key@));
    }

    /// Number of registered textures.
    pub fn texture_count(&self) -> (n: usize)
        ensures
            n == self.keys().len(),
    {
        self.textures.len()
    }
}

impl Default for ResourceManager {
    fn default() -> (manager: ResourceManager)
        ensures
            manager.keys() == Set::<Seq<char>>::empty(),
    {
        ResourceManager::new()
    }
}

} // verus!
