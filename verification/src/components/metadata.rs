//! The metadata component: a title, an optional role, and whether the
//! entity is saved.
use vstd::prelude::*;

verus! {

#[derive(Debug)]
pub struct Metadata {
    pub title: String,
    /// The entity's role, for binding it to a global variable.
    pub role: Option<String>,
    /// Whether the entity is saved with the world.
    pub is_persist: bool,
}

impl Clone for Metadata {
    fn clone(&self) -> (res: Self)
        ensures
            res == *self,
    {
        let role = match &self.role {
            Some(r) => Some(r.clone()),
            None => None,
        };
        Metadata { title: self.title.clone(), role, is_persist: self.is_persist }
    }
}

impl Metadata {
    /// Metadata with the given title and role; an entity is persistent unless
    /// told otherwise.
    pub fn new(title: &str, role: Option<&str>, is_persist: Option<bool>) -> (res: Self)
        ensures
            res.title@ == title@,
            res.role is Some <==> role is Some,
            role matches Some(r) ==> res.role.unwrap()@ == r@,
            res.is_persist == match is_persist {
                Some(p) => p,
                None => true,
            },
    {
        let role = match role {
            Some(r) => Some(r.to_string()),
            None => None,
        };
        let is_persist = match is_persist {
            Some(p) => p,
            None => true,
        };
        Metadata { title: title.to_string(), role, is_persist }
    }

    /// The entity's title.
    pub fn title(&self) -> (res: &str)
        ensures
            res@ == self.title@,
    {
        self.title.as_str()
    }

    /// The entity's role, if it has one.
    pub fn role(&self) -> (res: Option<&str>)
        ensures
            res is Some <==> self.role is Some,
            res matches Some(r) ==> r@ == self.role.unwrap()@,
    {
        match &self.role {
            Some(r) => Some(r.as_str()),
            None => None,
        }
    }
}

} // verus!
