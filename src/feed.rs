use vstd::prelude::*;
use crate::message::Message;

verus! {

/// Messages ordered by publication time, oldest first.
pub open spec fn sorted_by_time(s: Seq<Message>) -> bool {
    forall|i: int, j: int| 0 <= i <= j < s.len() ==> s[i].published_at <= s[j].published_at
}

/// Where a message published at `t` goes: after every message published at `t` or
/// earlier, counted from the newest end.
pub open spec fn upper_bound(s: Seq<Message>, t: i64) -> int
    decreases s.len(),
{
    if s.len() > 0 && s.last().published_at > t {
        upper_bound(s.drop_last(), t)
    } else {
        s.len() as int
    }
}

pub proof fn lemma_upper_bound_range(s: Seq<Message>, t: i64)
    ensures
        0 <= upper_bound(s, t) <= s.len(),
        forall|k: int| upper_bound(s, t) <= k < s.len() ==> s[k].published_at > t,
        upper_bound(s, t) > 0 ==> s[upper_bound(s, t) - 1].published_at <= t,
    decreases s.len(),
{
    if s.len() > 0 && s.last().published_at > t {
        lemma_upper_bound_range(s.drop_last(), t);
        assert forall|k: int| upper_bound(s, t) <= k < s.len() implies s[k].published_at > t by {
            if k < s.len() - 1 {
                assert(s.drop_last()[k] == s[k]);
            }
        }
    }
}

/// Inserting a message at its place keeps a history in order of time, whatever
/// order the messages arrive in.
pub proof fn lemma_insert_keeps_order(s: Seq<Message>, m: Message)
    requires
        sorted_by_time(s),
    ensures
        sorted_by_time(s.insert(upper_bound(s, m.published_at), m)),
        s.insert(upper_bound(s, m.published_at), m).len() == s.len() + 1,
{
    let p = upper_bound(s, m.published_at);
    lemma_upper_bound_range(s, m.published_at);
    let n = s.insert(p, m);
    assert forall|i: int, j: int| 0 <= i <= j < n.len() implies n[i].published_at
        <= n[j].published_at by {
        if i < p && j == p {
            assert(s[i].published_at <= s[p - 1].published_at);
        } else if i == p && j > p {
            assert(n[j] == s[j - 1]);
        }
    }
}

/// The history of a room: append-only, enumerated oldest first, equal times in
/// order of insertion.
#[derive(Debug)]
pub struct Feed {
    messages: Vec<Message>,
}

impl View for Feed {
    type V = Seq<Message>;

    closed spec fn view(&self) -> Seq<Message> {
        self.messages@
    }
}

impl Feed {
    pub open spec fn wf(&self) -> bool {
        sorted_by_time(self@)
    }

    pub fn new() -> (r: Feed)
        ensures
            r@ == Seq::<Message>::empty(),
            r.wf(),
    {
        Feed { messages: Vec::new() }
    }

    pub fn len(&self) -> (r: usize)
        ensures
            r == self@.len(),
    {
        self.messages.len()
    }

    /// Stores `message` after every message published at its time or earlier.
    pub fn add_message(&mut self, message: Message)
        requires
            old(self).wf(),
        ensures
            final(self).wf(),
            final(self)@ == old(self)@.insert(upper_bound(old(self)@, message.published_at), message),
    {
        let ghost s = self@;
        let t = message.published_at;
        let mut j: usize = self.messages.len();
        assert(s.take(s.len() as int) =~= s);
        while j > 0 && self.messages[j - 1].published_at > t
            invariant
                0 <= j <= s.len(),
                self@ == s,
                upper_bound(s, t) == upper_bound(s.take(j as int), t),
            decreases j,
        {
            assert(s.take(j as int).drop_last() =~= s.take(j - 1));
            j = j - 1;
        }
        proof {
            lemma_insert_keeps_order(s, message);
        }
        self.messages.insert(j, message);
    }

    /// All stored messages, oldest first.
    pub fn message_iter(&self) -> (r: &Vec<Message>)
        ensures
            r@ == self@,
    {
        &self.messages
    }
}

/// The history after `ms` arrive in the order given.
pub open spec fn feed_of(ms: Seq<Message>) -> Seq<Message>
    decreases ms.len(),
{
    if ms.len() == 0 {
        Seq::<Message>::empty()
    } else {
        let before = feed_of(ms.drop_last());
        before.insert(upper_bound(before, ms.last().published_at), ms.last())
    }
}

/// Whatever order messages arrive in, their history is in order of time and holds
/// one entry per message.
pub proof fn lemma_any_arrival_order_sorted(ms: Seq<Message>)
    ensures
        sorted_by_time(feed_of(ms)),
        feed_of(ms).len() == ms.len(),
    decreases ms.len(),
{
    if ms.len() > 0 {
        lemma_any_arrival_order_sorted(ms.drop_last());
        lemma_insert_keeps_order(feed_of(ms.drop_last()), ms.last());
    }
}

} // verus!
