use vstd::prelude::*;

verus! {

/// A registered participant: the connection id and the chosen nickname.
#[derive(Debug, Clone)]
pub struct User {
    pub nickname: String,
    pub id: u128,
}

impl User {
    pub fn new(id: u128, nickname: &str) -> (r: User)
        ensures
            r.id == id,
            r.nickname@ == nickname@,
    {
        User { id, nickname: String::from_str(nickname) }
    }

    /// An independent copy of this user.
    pub fn snapshot(&self) -> (r: User)
        ensures
            r == *self,
    {
        User { nickname: self.nickname.clone(), id: self.id }
    }
}

} // verus!
