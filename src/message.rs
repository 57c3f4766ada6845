use vstd::prelude::*;
use crate::user::User;

verus! {

/// A posted chat entry. `published_at` counts microseconds since the Unix epoch.
#[derive(Debug, Clone)]
pub struct Message {
    pub id: u128,
    pub user: User,
    pub content: String,
    pub published_at: i64,
}

impl Message {
    pub fn new(id: u128, user: User, content: &str, published_at: i64) -> (r: Message)
        ensures
            r.id == id,
            r.user == user,
            r.content@ == content@,
            r.published_at == published_at,
    {
        Message { id, user, content: String::from_str(content), published_at }
    }
}

} // verus!
