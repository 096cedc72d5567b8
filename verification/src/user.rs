use vstd::prelude::*;

verus! {

/// An account record: an identifier, an email address, and an active flag.
#[derive(Debug, Clone)]
pub struct User {
    pub id: u32,
    pub email: String,
    pub is_active: bool,
}

impl User {
    /// A new user keeps the given identifier and email and starts active.
    pub fn new(id: u32, email: String) -> (u: User)
        ensures
            u.id == id,
            u.email == email,
            u.is_active,
    {
        User { id, email, is_active: true }
    }

    /// Clears the active flag; the identifier and the email are unchanged.
    pub fn deactivate(&mut self)
        ensures
            !final(self).is_active,
            final(self).id == old(self).id,
            final(self).email == old(self).email,
    {
        self.is_active = false;
    }
}

} // verus!
