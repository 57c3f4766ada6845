use vstd::prelude::*;
use vstd::string::*;
use crate::feed::{lemma_upper_bound_range, sorted_by_time, upper_bound, Feed};
use crate::message::Message;
use crate::nickname::{trim_nickname, trim_ws, valid_nickname, valid_nickname_text};
use crate::proto::{
    message_output_of, user_output_of, Delivery, Input, JoinInput, JoinedOutput, MessageOutput,
    Output, OutputError, PostInput, PostedOutput, UserInputMessage, UserJoinedOutput,
    UserLeftOutput, UserOutput, UserPostedOutput,
};
use crate::user::User;

verus! {

/// Pending events that each subscriber may hold before it lags.
pub const ROOM_SIZE: usize = 32;

/// The longest message body, in characters.
pub const MAX_MESSAGE_LENGTH: usize = 512;

/// How a room is set up. `heartbeat` is the interval of the liveness signal in
/// milliseconds; `None` turns it off.
#[derive(Clone, Copy, Debug)]
pub struct ChatOptions {
    pub heartbeat: Option<u64>,
    pub room_size: usize,
    pub max_message_length: usize,
}

impl Default for ChatOptions {
    fn default() -> (r: ChatOptions)
        ensures
            r.heartbeat is None,
            r.room_size == ROOM_SIZE,
            r.max_message_length == MAX_MESSAGE_LENGTH,
    {
        ChatOptions { heartbeat: None, room_size: ROOM_SIZE, max_message_length: MAX_MESSAGE_LENGTH }
    }
}

pub open spec fn ids_of(users: Seq<User>) -> Seq<u128> {
    users.map_values(|u: User| u.id)
}

/// The users other than connection `id`, in registry order.
pub open spec fn others_of(users: Seq<User>, id: u128) -> Seq<User>
    decreases users.len(),
{
    if users.len() == 0 {
        Seq::<User>::empty()
    } else if users.last().id == id {
        others_of(users.drop_last(), id)
    } else {
        others_of(users.drop_last(), id).push(users.last())
    }
}

pub open spec fn registered(users: Seq<User>, id: u128) -> bool {
    exists|i: int| 0 <= i < users.len() && (#[trigger] users[i]).id == id
}

pub open spec fn name_taken(users: Seq<User>, name: Seq<char>) -> bool {
    exists|i: int| 0 <= i < users.len() && (#[trigger] users[i]).nickname@ == name
}

/// Where connection `id` stands in the registry.
pub open spec fn index_of(users: Seq<User>, id: u128) -> int {
    choose|i: int| 0 <= i < users.len() && (#[trigger] users[i]).id == id
}

/// Connection ids and nicknames are each pairwise distinct.
pub open spec fn unique_users(users: Seq<User>) -> bool {
    forall|i: int, j: int|
        0 <= i < users.len() && 0 <= j < users.len() && i != j ==> (#[trigger] users[i]).id
            != (#[trigger] users[j]).id && users[i].nickname@ != users[j].nickname@
}

/// The registry as pairs of connection id and nickname.
pub open spec fn registry_of(users: Seq<User>) -> Seq<(u128, Seq<char>)> {
    users.map_values(|u: User| (u.id, u.nickname@))
}

/// The registry after connection `id` asks to join as `name` (already trimmed): a
/// taken or malformed name changes nothing; otherwise the connection's entry is
/// replaced, or added at the end.
pub open spec fn join_registry(reg: Seq<(u128, Seq<char>)>, id: u128, name: Seq<char>) -> Seq<
    (u128, Seq<char>),
> {
    if (exists|i: int| 0 <= i < reg.len() && (#[trigger] reg[i]).1 == name) || !valid_nickname(
        name,
    ) {
        reg
    } else if exists|i: int| 0 <= i < reg.len() && (#[trigger] reg[i]).0 == id {
        reg.update(choose|i: int| 0 <= i < reg.len() && (#[trigger] reg[i]).0 == id, (id, name))
    } else {
        reg.push((id, name))
    }
}

/// `r` is a single error to `id`, or nothing where no one listens.
pub open spec fn error_only(r: Seq<Delivery>, id: u128, e: OutputError, receivers: usize) -> bool {
    if receivers == 0 {
        r.len() == 0
    } else {
        &&& r.len() == 1
        &&& r[0].recipients@ == seq![id]
        &&& r[0].output == Output::Error(e)
    }
}

/// The state of a room: who is present and what has been said.
pub struct ChatRoom {
    options: ChatOptions,
    users: Vec<User>,
    feed: Feed,
}

impl ChatRoom {
    pub closed spec fn members(&self) -> Seq<User> {
        self.users@
    }

    pub closed spec fn history(&self) -> Seq<Message> {
        self.feed@
    }

    pub closed spec fn settings(&self) -> ChatOptions {
        self.options
    }

    pub closed spec fn wf(&self) -> bool {
        &&& unique_users(self.users@)
        &&& sorted_by_time(self.feed@)
        &&& forall|i: int|
            0 <= i < self.feed@.len() ==> 1 <= (#[trigger] self.feed@[i]).content@.len()
                <= self.options.max_message_length
    }

    /// What a join by `id` as `name` (already trimmed) does to the room and sends out.
    pub open spec fn join_effect(
        old: ChatRoom,
        new: ChatRoom,
        id: u128,
        name: Seq<char>,
        receivers: usize,
        r: Seq<Delivery>,
    ) -> bool {
        &&& new.history() == old.history()
        &&& new.settings() == old.settings()
        &&& registry_of(new.members()) == join_registry(registry_of(old.members()), id, name)
        &&& if name_taken(old.members(), name) {
            error_only(r, id, OutputError::NameTaken, receivers)
        } else if !valid_nickname(name) {
            error_only(r, id, OutputError::InvalidName, receivers)
        } else if receivers == 0 {
            r.len() == 0
        } else {
            let me = new.members()[index_of(new.members(), id)];
            &&& registered(new.members(), id)
            &&& r.len() == 2
            &&& r[0].recipients@ == seq![id]
            &&& match r[0].output {
                Output::Joined(j) => {
                    &&& j.user == user_output_of(me)
                    &&& j.others@ == others_of(new.members(), id).map_values(
                        |u: User| user_output_of(u),
                    )
                    &&& j.messages@ == old.history().map_values(|m: Message| message_output_of(m))
                },
                _ => false,
            }
            &&& r[1].recipients@ == ids_of(others_of(new.members(), id))
            &&& r[1].output == Output::UserJoined(UserJoinedOutput { user: user_output_of(me) })
        }
    }

    /// What a post by `id` of `body` does, where the new message would get the id
    /// `message_id` and the time `now`.
    pub open spec fn post_effect(
        old: ChatRoom,
        new: ChatRoom,
        id: u128,
        body: Seq<char>,
        message_id: u128,
        now: i64,
        receivers: usize,
        r: Seq<Delivery>,
    ) -> bool {
        &&& new.members() == old.members()
        &&& new.settings() == old.settings()
        &&& if !registered(old.members(), id) {
            &&& new.history() == old.history()
            &&& error_only(r, id, OutputError::NotJoined, receivers)
        } else if body.len() == 0 || body.len() > old.settings().max_message_length {
            &&& new.history() == old.history()
            &&& error_only(r, id, OutputError::InvalidMessageBody, receivers)
        } else {
            let p = upper_bound(old.history(), now);
            let posted = new.history()[p];
            &&& new.history() == old.history().insert(p, posted)
            &&& posted.id == message_id
            &&& posted.user == old.members()[index_of(old.members(), id)]
            &&& posted.content@ == body
            &&& posted.published_at == now
            &&& if receivers == 0 {
                r.len() == 0
            } else {
                &&& r.len() == 2
                &&& r[0].recipients@ == seq![id]
                &&& r[0].output == Output::Posted(
                    PostedOutput { message: message_output_of(posted) },
                )
                &&& r[1].recipients@ == ids_of(others_of(old.members(), id))
                &&& r[1].output == Output::UserPosted(
                    UserPostedOutput { message: message_output_of(posted) },
                )
            }
        }
    }

    /// An empty room.
    pub fn new(options: ChatOptions) -> (r: ChatRoom)
        ensures
            r.wf(),
            r.settings() == options,
            r.members() == Seq::<User>::empty(),
            r.history() == Seq::<Message>::empty(),
    {
        ChatRoom { options, users: Vec::new(), feed: Feed::new() }
    }

    pub fn options(&self) -> (r: ChatOptions)
        ensures
            r == self.settings(),
    {
        self.options
    }

    /// The registered users, in order of joining.
    pub fn users(&self) -> (r: &Vec<User>)
        ensures
            r@ == self.members(),
    {
        &self.users
    }

    /// The stored messages, oldest first.
    pub fn messages(&self) -> (r: &Vec<Message>)
        ensures
            r@ == self.history(),
    {
        self.feed.message_iter()
    }
}

impl ChatRoom {
    /// Whether a registered user already goes by `nick`.
    fn nickname_taken(&self, nick: &String) -> (r: bool)
        ensures
            r == name_taken(self.users@, nick@),
    {
        let mut i: usize = 0;
        while i < self.users.len()
            invariant
                0 <= i <= self.users@.len(),
                forall|j: int| 0 <= j < i ==> (#[trigger] self.users@[j]).nickname@ != nick@,
            decreases self.users@.len() - i,
        {
            if self.users[i].nickname == *nick {
                return true;
            }
            i = i + 1;
        }
        false
    }

    /// Where connection `id` stands in the registry, if it is there.
    fn position_of(&self, id: u128) -> (r: Option<usize>)
        requires
            self.wf(),
        ensures
            match r {
                Some(k) => {
                    &&& k < self.users@.len()
                    &&& self.users@[k as int].id == id
                    &&& index_of(self.users@, id) == k
                    &&& registered(self.users@, id)
                },
                None => !registered(self.users@, id),
            },
    {
        let mut i: usize = 0;
        while i < self.users.len()
            invariant
                0 <= i <= self.users@.len(),
                self.wf(),
                forall|j: int| 0 <= j < i ==> (#[trigger] self.users@[j]).id != id,
            decreases self.users@.len() - i,
        {
            if self.users[i].id == id {
                assert(registered(self.users@, id));
                proof {
                    let j = index_of(self.users@, id);
                    assert(self.users@[j].id == id);
                    if j != i as int {
                        assert(self.users@[i as int].id != self.users@[j].id);
                    }
                }
                return Some(i);
            }
            i = i + 1;
        }
        None
    }

    /// The connection ids of every user but `ignored`.
    fn other_ids(&self, ignored: u128) -> (r: Vec<u128>)
        ensures
            r@ == ids_of(others_of(self.users@, ignored)),
    {
        let mut r: Vec<u128> = Vec::new();
        let mut i: usize = 0;
        while i < self.users.len()
            invariant
                0 <= i <= self.users@.len(),
                r@ == ids_of(others_of(self.users@.take(i as int), ignored)),
            decreases self.users@.len() - i,
        {
            proof {
                let t = self.users@.take(i + 1);
                assert(t.drop_last() =~= self.users@.take(i as int));
                let o = others_of(self.users@.take(i as int), ignored);
                assert(ids_of(o.push(t.last())) =~= ids_of(o).push(t.last().id));
            }
            if self.users[i].id != ignored {
                r.push(self.users[i].id);
            }
            i = i + 1;
        }
        assert(self.users@.take(self.users@.len() as int) =~= self.users@);
        r
    }

    /// The users other than `ignored`, as participants see them.
    fn other_users(&self, ignored: u128) -> (r: Vec<UserOutput>)
        ensures
            r@ == others_of(self.users@, ignored).map_values(|u: User| user_output_of(u)),
    {
        let mut r: Vec<UserOutput> = Vec::new();
        let mut i: usize = 0;
        while i < self.users.len()
            invariant
                0 <= i <= self.users@.len(),
                r@ == others_of(self.users@.take(i as int), ignored).map_values(
                    |u: User| user_output_of(u),
                ),
            decreases self.users@.len() - i,
        {
            proof {
                let t = self.users@.take(i + 1);
                assert(t.drop_last() =~= self.users@.take(i as int));
                let o = others_of(self.users@.take(i as int), ignored);
                assert(o.push(t.last()).map_values(|u: User| user_output_of(u)) =~= o.map_values(
                    |u: User| user_output_of(u),
                ).push(user_output_of(t.last())));
            }
            if self.users[i].id != ignored {
                r.push(UserOutput::of_user(&self.users[i]));
            }
            i = i + 1;
        }
        assert(self.users@.take(self.users@.len() as int) =~= self.users@);
        r
    }

    /// The stored messages, oldest first, as participants see them.
    fn history_outputs(&self) -> (r: Vec<MessageOutput>)
        ensures
            r@ == self.feed@.map_values(|m: Message| message_output_of(m)),
    {
        let messages = self.feed.message_iter();
        let mut r: Vec<MessageOutput> = Vec::new();
        let mut i: usize = 0;
        while i < messages.len()
            invariant
                0 <= i <= messages@.len(),
                messages@ == self.feed@,
                r@ == messages@.take(i as int).map_values(|m: Message| message_output_of(m)),
            decreases messages@.len() - i,
        {
            r.push(MessageOutput::of_message(&messages[i]));
            i = i + 1;
            assert(r@ =~= messages@.take(i as int).map_values(|m: Message| message_output_of(m)));
        }
        assert(messages@.take(messages@.len() as int) =~= messages@);
        r
    }

    /// Addresses `output` to connection `user_id` alone, where anyone listens.
    fn target_send(user_id: u128, output: Output, receivers: usize, out: &mut Vec<Delivery>)
        ensures
            receivers == 0 ==> final(out)@ == old(out)@,
            receivers > 0 ==> {
                &&& final(out)@.len() == old(out)@.len() + 1
                &&& final(out)@.drop_last() == old(out)@
                &&& final(out)@.last().recipients@ == seq![user_id]
                &&& final(out)@.last().output == output
            },
    {
        if receivers >= 1 {
            let mut recipients: Vec<u128> = Vec::new();
            recipients.push(user_id);
            out.push(Delivery { recipients, output });
            assert(final(out)@.drop_last() =~= old(out)@);
        }
    }

    /// Addresses `output` to every registered user but `ignored`, where anyone listens.
    fn ignore_send(&self, ignored: u128, output: Output, receivers: usize, out: &mut Vec<Delivery>)
        ensures
            receivers == 0 ==> final(out)@ == old(out)@,
            receivers > 0 ==> {
                &&& final(out)@.len() == old(out)@.len() + 1
                &&& final(out)@.drop_last() == old(out)@
                &&& final(out)@.last().recipients@ == ids_of(others_of(self.users@, ignored))
                &&& final(out)@.last().output == output
            },
    {
        if receivers >= 1 {
            let recipients = self.other_ids(ignored);
            out.push(Delivery { recipients, output });
            assert(final(out)@.drop_last() =~= old(out)@);
        }
    }

    /// Addresses `output` to every registered user, where anyone listens.
    fn send(&self, output: Output, receivers: usize, out: &mut Vec<Delivery>)
        ensures
            receivers == 0 ==> final(out)@ == old(out)@,
            receivers > 0 ==> {
                &&& final(out)@.len() == old(out)@.len() + 1
                &&& final(out)@.drop_last() == old(out)@
                &&& final(out)@.last().recipients@ == ids_of(self.users@)
                &&& final(out)@.last().output == output
            },
    {
        if receivers >= 1 {
            let mut recipients: Vec<u128> = Vec::new();
            let mut i: usize = 0;
            while i < self.users.len()
                invariant
                    0 <= i <= self.users@.len(),
                    recipients@ == ids_of(self.users@.take(i as int)),
                decreases self.users@.len() - i,
            {
                recipients.push(self.users[i].id);
                i = i + 1;
                assert(recipients@ =~= ids_of(self.users@.take(i as int)));
            }
            assert(self.users@.take(self.users@.len() as int) =~= self.users@);
            out.push(Delivery { recipients, output });
            assert(final(out)@.drop_last() =~= old(out)@);
        }
    }

    fn error(user_id: u128, error: OutputError, receivers: usize) -> (r: Vec<Delivery>)
        ensures
            error_only(r@, user_id, error, receivers),
    {
        let mut out: Vec<Delivery> = Vec::new();
        Self::target_send(user_id, Output::Error(error), receivers, &mut out);
        out
    }
}

/// Relies on `uuid::Uuid::new_v4`: a random version-4 id, taken as its 128-bit value.
#[verifier::external_body]
fn fresh_id() -> (r: u128) {
    uuid::Uuid::new_v4().as_u128()
}

/// Relies on `chrono::Utc::now` and `DateTime::timestamp_micros`: the current time in
/// microseconds since the Unix epoch.
#[verifier::external_body]
fn now_micros() -> (r: i64) {
    chrono::Utc::now().timestamp_micros()
}

impl ChatRoom {
    /// Connection `user_id` asks to join under `input.name`. `receivers` is the number of
    /// live subscriptions; with none, nothing is sent.
    pub fn join_process(&mut self, user_id: u128, input: JoinInput, receivers: usize) -> (r: Vec<
        Delivery,
    >)
        requires
            old(self).wf(),
        ensures
            final(self).wf(),
            Self::join_effect(*old(self), *final(self), user_id, trim_ws(input.name@), receivers, r@),
    {
        let name = trim_nickname(input.name.as_str());
        let nick = String::from_str(name);
        let ghost reg = registry_of(self.users@);
        if self.nickname_taken(&nick) {
            proof {
                let i = choose|i: int| 0 <= i < self.users@.len() && (#[trigger] self.users@[i]).nickname@ == nick@;
                assert(reg[i].1 == nick@);
            }
            return Self::error(user_id, OutputError::NameTaken, receivers);
        }
        if !valid_nickname_text(name) {
            return Self::error(user_id, OutputError::InvalidName, receivers);
        }
        let ghost old_users = self.users@;
        let new_user = User { nickname: nick, id: user_id };
        let k: usize = match self.position_of(user_id) {
            Some(k) => {
                self.users.set(k, new_user);
                proof {
                    let c = choose|i: int| 0 <= i < reg.len() && (#[trigger] reg[i]).0 == user_id;
                    assert(reg[k as int].0 == user_id);
                    assert(old_users[c].id == user_id);
                    if c != k as int {
                        assert(old_users[c].id != old_users[k as int].id);
                    }
                    assert(registry_of(self.users@) =~= reg.update(k as int, (user_id, name@)));
                }
                k
            },
            None => {
                self.users.push(new_user);
                assert(registry_of(self.users@) =~= reg.push((user_id, name@)));
                self.users.len() - 1
            },
        };
        proof {
            let n = self.users@;
            assert forall|i: int, j: int|
                0 <= i < n.len() && 0 <= j < n.len() && i != j implies (#[trigger] n[i]).id
                    != (#[trigger] n[j]).id && n[i].nickname@ != n[j].nickname@ by {
                if i != k as int && j != k as int {
                    assert(n[i] == old_users[i] && n[j] == old_users[j]);
                } else if i == k as int {
                    assert(n[j] == old_users[j]);
                    if k < old_users.len() {
                        assert(old_users[j].id != old_users[k as int].id);
                    }
                } else {
                    assert(n[i] == old_users[i]);
                    if k < old_users.len() {
                        assert(old_users[i].id != old_users[k as int].id);
                    }
                }
            }
            let c = index_of(n, user_id);
            assert(n[k as int].id == user_id);
            if c != k as int {
                assert(n[c].id != n[k as int].id);
            }
        }
        let me = UserOutput::of_user(&self.users[k]);
        let others = self.other_users(user_id);
        let messages = self.history_outputs();
        let mut out: Vec<Delivery> = Vec::new();
        Self::target_send(
            user_id,
            Output::Joined(JoinedOutput { user: me.duplicate(), others, messages }),
            receivers,
            &mut out,
        );
        self.ignore_send(user_id, Output::UserJoined(UserJoinedOutput { user: me }), receivers, &mut out);
        out
    }

    /// Connection `user_id` posts `input.body`; the message, if stored, gets the id
    /// `message_id` and the time `now`.
    pub fn post_process_with(
        &mut self,
        user_id: u128,
        input: PostInput,
        message_id: u128,
        now: i64,
        receivers: usize,
    ) -> (r: Vec<Delivery>)
        requires
            old(self).wf(),
        ensures
            final(self).wf(),
            Self::post_effect(*old(self), *final(self), user_id, input.body@, message_id, now, receivers, r@),
    {
        let k = match self.position_of(user_id) {
            Some(k) => k,
            None => {
                return Self::error(user_id, OutputError::NotJoined, receivers);
            },
        };
        let length = input.body.as_str().unicode_len();
        if length == 0 || length > self.options.max_message_length {
            return Self::error(user_id, OutputError::InvalidMessageBody, receivers);
        }
        let user = self.users[k].snapshot();
        let message = Message { id: message_id, user, content: input.body, published_at: now };
        let shown = MessageOutput::of_message(&message);
        let ghost old_feed = self.feed@;
        let ghost posted = message;
        self.feed.add_message(message);
        proof {
            let p = upper_bound(old_feed, now);
            lemma_upper_bound_range(old_feed, now);
            assert(self.feed@[p] == posted);
            assert forall|i: int| 0 <= i < self.feed@.len() implies 1 <= (#[trigger] self.feed@[i]).content@.len()
                <= self.options.max_message_length by {
                if i < p {
                    assert(self.feed@[i] == old_feed[i]);
                } else if i > p {
                    assert(self.feed@[i] == old_feed[i - 1]);
                }
            }
        }
        let mut out: Vec<Delivery> = Vec::new();
        Self::target_send(
            user_id,
            Output::Posted(PostedOutput { message: shown.duplicate() }),
            receivers,
            &mut out,
        );
        self.ignore_send(user_id, Output::UserPosted(UserPostedOutput { message: shown }), receivers, &mut out);
        out
    }

    /// Connection `user_id` went away: it leaves the registry, and the others hear of it.
    pub fn on_disconnect(&mut self, user_id: u128, receivers: usize) -> (r: Vec<Delivery>)
        requires
            old(self).wf(),
        ensures
            final(self).wf(),
            final(self).history() == old(self).history(),
            final(self).settings() == old(self).settings(),
            !registered(final(self).members(), user_id),
            registered(old(self).members(), user_id) ==> {
                &&& final(self).members() == old(self).members().remove(
                    index_of(old(self).members(), user_id),
                )
                &&& receivers == 0 ==> r@.len() == 0
                &&& receivers > 0 ==> {
                    &&& r@.len() == 1
                    &&& r@[0].recipients@ == ids_of(others_of(final(self).members(), user_id))
                    &&& r@[0].output == Output::UserLeft(UserLeftOutput { user_id })
                }
            },
            !registered(old(self).members(), user_id) ==> {
                &&& final(self).members() == old(self).members()
                &&& r@.len() == 0
            },
    {
        let mut out: Vec<Delivery> = Vec::new();
        match self.position_of(user_id) {
            Some(k) => {
                let ghost old_users = self.users@;
                self.users.remove(k);
                proof {
                    let n = self.users@;
                    assert forall|i: int| 0 <= i < n.len() implies n[i] == old_users[if i < k {
                        i
                    } else {
                        i + 1
                    }] by {}
                    assert forall|i: int, j: int|
                        0 <= i < n.len() && 0 <= j < n.len() && i != j implies (#[trigger] n[i]).id
                            != (#[trigger] n[j]).id && n[i].nickname@ != n[j].nickname@ by {
                        let a = if i < k { i } else { i + 1 };
                        let b = if j < k { j } else { j + 1 };
                        assert(n[i] == old_users[a] && n[j] == old_users[b]);
                    }
                    assert forall|i: int| 0 <= i < n.len() implies (#[trigger] n[i]).id != user_id by {
                        let a = if i < k { i } else { i + 1 };
                        assert(n[i] == old_users[a]);
                        assert(old_users[a].id != old_users[k as int].id);
                    }
                }
                self.ignore_send(user_id, Output::UserLeft(UserLeftOutput::new(user_id)), receivers, &mut out);
            },
            None => {},
        }
        out
    }

    /// One beat of the liveness signal: `Alive` to every registered user, or nothing
    /// where the room has no heartbeat.
    pub fn alive(&self, receivers: usize) -> (r: Vec<Delivery>)
        ensures
            self.settings().heartbeat is None ==> r@.len() == 0,
            self.settings().heartbeat is Some && receivers == 0 ==> r@.len() == 0,
            self.settings().heartbeat is Some && receivers > 0 ==> {
                &&& r@.len() == 1
                &&& r@[0].recipients@ == ids_of(self.members())
                &&& r@[0].output == Output::Alive
            },
    {
        let mut out: Vec<Delivery> = Vec::new();
        if self.options.heartbeat.is_some() {
            self.send(Output::Alive, receivers, &mut out);
        }
        out
    }

    /// Handles one command. A post takes a fresh random id and the current time.
    pub fn process(&mut self, input_message: UserInputMessage, receivers: usize) -> (r: Vec<Delivery>)
        requires
            old(self).wf(),
        ensures
            final(self).wf(),
            match input_message.input {
                Input::Join(j) => Self::join_effect(
                    *old(self),
                    *final(self),
                    input_message.client_id,
                    trim_ws(j.name@),
                    receivers,
                    r@,
                ),
                Input::Post(p) => exists|message_id: u128, now: i64|
                    Self::post_effect(
                        *old(self),
                        *final(self),
                        input_message.client_id,
                        p.body@,
                        message_id,
                        now,
                        receivers,
                        r@,
                    ),
            },
    {
        let client_id = input_message.client_id;
        match input_message.input {
            Input::Join(input) => self.join_process(client_id, input, receivers),
            Input::Post(input) => {
                let message_id = fresh_id();
                let now = now_micros();
                self.post_process_with(client_id, input, message_id, now, receivers)
            },
        }
    }
}

/// The registry after each of `joins` (connection id, trimmed name) in turn.
pub open spec fn joins_registry(reg: Seq<(u128, Seq<char>)>, joins: Seq<(u128, Seq<char>)>) -> Seq<
    (u128, Seq<char>),
>
    decreases joins.len(),
{
    if joins.len() == 0 {
        reg
    } else {
        let before = joins_registry(reg, joins.drop_last());
        join_registry(before, joins.last().0, joins.last().1)
    }
}

/// Joins from distinct new connections under pairwise distinct valid nicknames, none
/// of them in use, all succeed: each adds its entry, so the registry grows by one per join.
pub proof fn lemma_distinct_joins_all_succeed(
    reg: Seq<(u128, Seq<char>)>,
    joins: Seq<(u128, Seq<char>)>,
)
    requires
        forall|i: int| 0 <= i < joins.len() ==> valid_nickname(#[trigger] joins[i].1),
        forall|i: int, j: int|
            0 <= i < joins.len() && 0 <= j < joins.len() && i != j ==> (#[trigger] joins[i]).0
                != (#[trigger] joins[j]).0 && joins[i].1 != joins[j].1,
        forall|i: int, k: int|
            0 <= i < joins.len() && 0 <= k < reg.len() ==> (#[trigger] joins[i]).0
                != (#[trigger] reg[k]).0 && joins[i].1 != reg[k].1,
    ensures
        joins_registry(reg, joins) == reg + joins,
        joins_registry(reg, joins).len() == reg.len() + joins.len(),
    decreases joins.len(),
{
    if joins.len() == 0 {
        assert(reg + joins =~= reg);
    } else {
        let rest = joins.drop_last();
        let last = joins.last();
        assert forall|i: int, j: int|
            0 <= i < rest.len() && 0 <= j < rest.len() && i != j implies (#[trigger] rest[i]).0
                != (#[trigger] rest[j]).0 && rest[i].1 != rest[j].1 by {
            assert(rest[i] == joins[i] && rest[j] == joins[j]);
        }
        assert forall|i: int, k: int|
            0 <= i < rest.len() && 0 <= k < reg.len() implies (#[trigger] rest[i]).0
                != (#[trigger] reg[k]).0 && rest[i].1 != reg[k].1 by {
            assert(rest[i] == joins[i]);
        }
        assert forall|i: int| 0 <= i < rest.len() implies valid_nickname(#[trigger] rest[i].1) by {
            assert(rest[i] == joins[i]);
        }
        lemma_distinct_joins_all_succeed(reg, rest);
        let before = reg + rest;
        let n = joins.len() - 1;
        assert(joins[n] == last);
        assert forall|i: int| 0 <= i < before.len() implies (#[trigger] before[i]).1 != last.1
            && before[i].0 != last.0 by {
            if i < reg.len() {
                assert(joins[n].1 != reg[i].1 && joins[n].0 != reg[i].0);
            } else {
                assert(before[i] == joins[i - reg.len()]);
                assert(joins[n].1 != joins[i - reg.len()].1);
            }
        }
        assert(valid_nickname(joins[n].1));
        assert(before.push(last) =~= reg + joins);
    }
}

} // verus!
