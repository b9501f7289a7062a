//! Textures and the registry that owns them by name.

pub mod texture;
pub mod transform;

use vstd::prelude::*;
use vstd::pervasive::VecAdditionalExecFns;
use crate::helpers::strings::str_eq;
use texture::{Texture, TextureError};

verus! {

/// Whether some entry carries the given name.
pub open spec fn contains_name(s: Seq<(String, Texture)>, name: Seq<char>) -> bool {
    exists|i: int| 0 <= i < s.len() && s[i].0@ == name
}

/// The index of the entry with the given name.
pub open spec fn index_of_name(s: Seq<(String, Texture)>, name: Seq<char>) -> int {
    choose|i: int| 0 <= i < s.len() && s[i].0@ == name
}

/// A registry of textures keyed by name.  Each name occurs at most once;
/// storing under an existing name replaces that entry in place.
pub struct TextureManager {
    pub textures: Vec<(String, Texture)>,
}

impl TextureManager {
    /// Every stored name is unique.
    pub open spec fn wf(self) -> bool {
        forall|i: int, j: int|
            0 <= i < j < self.textures@.len() ==> self.textures@[i].0@ != self.textures@[j].0@
    }

    pub fn new() -> (r: TextureManager)
        ensures
            r.textures@ == Seq::<(String, Texture)>::empty(),
            r.wf(),
    {
        TextureManager { textures: Vec::new() }
    }

    /// The index of the entry named `name`, if there is one.
    fn find(&self, name: &str) -> (r: Option<usize>)
        ensures
            match r {
                Some(i) => i < self.textures@.len() && self.textures@[i as int].0@ == name@,
                None => !contains_name(self.textures@, name@),
            },
    {
        let mut i: usize = 0;
        while i < self.textures.len()
            invariant
                i <= self.textures@.len(),
                forall|k: int| 0 <= k < i ==> self.textures@[k].0@ != name@,
            decreases self.textures@.len() - i,
        {
            if str_eq(self.textures[i].0.as_str(), name) {
                return Some(i);
            }
            i = i + 1;
        }
        None
    }

    /// Stores `texture` under `name`, replacing the entry of that name
    /// if one exists and appending otherwise.  Returns the name.
    pub fn add<'a>(&mut self, name: &'a str, texture: Texture) -> (r: &'a str)
        requires
            old(self).wf(),
        ensures
            r@ == name@,
            final(self).wf(),
            contains_name(old(self).textures@, name@) ==> final(self).textures@ == old(
                self,
            ).textures@.update(
                index_of_name(old(self).textures@, name@),
                (old(self).textures@[index_of_name(old(self).textures@, name@)].0, texture),
            ),
            !contains_name(old(self).textures@, name@) ==> exists|n: String|
                n@ == name@ && final(self).textures@ == old(self).textures@.push((n, texture)),
    {
        match self.find(name) {
            Some(i) => {
                let ghost j = index_of_name(old(self).textures@, name@);
                proof {
                    assert(old(self).textures@[j].0@ == name@);
                    assert(j == i as int);
                }
                let current = &self.textures[i];
                let key = current.0.clone();
                self.textures.set(i, (key, texture));
            },
            None => {
                self.textures.push((name.to_owned(), texture));
            },
        }
        name
    }

    /// Builds the texture for a decoded image and stores it under
    /// `name`.  Fails exactly when the decoded extent is empty; the
    /// registry is unchanged then.
    pub fn create<'a>(
        &mut self,
        name: &'a str,
        texture_handle: u32,
        width: u32,
        height: u32,
        image_path: &str,
    ) -> (r: Result<&'a str, TextureError>)
        requires
            old(self).wf(),
        ensures
            r is Ok <==> width > 0 && height > 0,
            final(self).wf(),
            r matches Ok(n) ==> n@ == name@,
            r is Ok && contains_name(old(self).textures@, name@) ==> {
                let j = index_of_name(old(self).textures@, name@);
                let t = final(self).textures@[j].1;
                &&& final(self).textures@ == old(self).textures@.update(
                    j,
                    (old(self).textures@[j].0, t),
                )
                &&& t.texture_handle == texture_handle
                &&& t.width == width
                &&& t.height == height
                &&& t.texture_offset == 0
                &&& t.image_path@ == image_path@
            },
            r is Ok && !contains_name(old(self).textures@, name@) ==> {
                let entry = final(self).textures@.last();
                &&& final(self).textures@.len() == old(self).textures@.len() + 1
                &&& (forall|i: int|
                    0 <= i < old(self).textures@.len() ==> final(self).textures@[i] == old(
                        self,
                    ).textures@[i])
                &&& entry.0@ == name@
                &&& entry.1.texture_handle == texture_handle
                &&& entry.1.width == width
                &&& entry.1.height == height
                &&& entry.1.texture_offset == 0
                &&& entry.1.image_path@ == image_path@
            },
            r is Err ==> *final(self) == *old(self),
    {
        let texture = match Texture::new(texture_handle, width, height, image_path.to_owned()) {
            Ok(t) => t,
            Err(e) => {
                return Err(e);
            },
        };
        let r = self.add(name, texture);
        proof {
            if contains_name(old(self).textures@, name@) {
                let j = index_of_name(old(self).textures@, name@);
                assert(final(self).textures@[j].0@ == name@);
            } else {
                assert(final(self).textures@[final(self).textures@.len() - 1].0@ == name@);
            }
        }
        Ok(r)
    }

    /// Takes the entry of the given name out and returns its texture.
    /// Fails exactly when no entry has the name.
    pub fn remove(&mut self, name: &str) -> (r: Result<Texture, TextureError>)
        requires
            old(self).wf(),
        ensures
            r is Ok <==> contains_name(old(self).textures@, name@),
            final(self).wf(),
            r matches Ok(t) ==> {
                let j = index_of_name(old(self).textures@, name@);
                t == old(self).textures@[j].1 && final(self).textures@ == old(
                    self,
                ).textures@.remove(j)
            },
            r is Err ==> *final(self) == *old(self),
            r matches Err(e) ==> e matches TextureError::NotFound { name: n } && n@ == name@,
    {
        match self.find(name) {
            Some(i) => {
                let ghost j = index_of_name(old(self).textures@, name@);
                proof {
                    assert(old(self).textures@[j].0@ == name@);
                    assert(j == i as int);
                }
                let entry = self.textures.remove(i);
                Ok(entry.1)
            },
            None => Err(TextureError::NotFound { name: name.to_owned() }),
        }
    }

    pub fn clear(&mut self)
        ensures
            final(self).textures@ == Seq::<(String, Texture)>::empty(),
            final(self).wf(),
    {
        self.textures.clear();
    }

    /// The texture stored under `key`, which must exist.
    pub fn get(&self, key: &str) -> (r: &Texture)
        requires
            self.wf(),
            contains_name(self.textures@, key@),
        ensures
            *r == self.textures@[index_of_name(self.textures@, key@)].1,
    {
        let found = self.find(key);
        match found {
            Some(i) => {
                proof {
                    let j = index_of_name(self.textures@, key@);
                    assert(self.textures@[j].0@ == key@);
                    assert(j == i as int);
                }
                &self.textures[i].1
            },
            None => {
                proof {
                    assert(false);
                }
                &self.textures[0].1
            },
        }
    }

    pub fn collection(&self) -> (r: &Vec<(String, Texture)>)
        ensures
            r@ == self.textures@,
    {
        &self.textures
    }
}

} // verus!
