use vstd::prelude::*;
use crate::message::Message;
use crate::user::User;

verus! {

/// A user as other participants see it.
#[derive(Debug, Clone)]
pub struct UserOutput {
    pub id: u128,
    pub name: String,
}

/// A posted message as participants see it; `created_at` in microseconds since the epoch.
#[derive(Debug, Clone)]
pub struct MessageOutput {
    pub id: u128,
    pub user: UserOutput,
    pub body: String,
    pub created_at: i64,
}

pub open spec fn user_output_of(u: User) -> UserOutput {
    UserOutput { id: u.id, name: u.nickname }
}

pub open spec fn message_output_of(m: Message) -> MessageOutput {
    MessageOutput {
        id: m.id,
        user: user_output_of(m.user),
        body: m.content,
        created_at: m.published_at,
    }
}

impl UserOutput {
    pub fn new(id: u128, name: &str) -> (r: UserOutput)
        ensures
            r.id == id,
            r.name@ == name@,
    {
        UserOutput { id, name: String::from_str(name) }
    }

    /// The view of `user` handed to participants.
    pub fn of_user(user: &User) -> (r: UserOutput)
        ensures
            r == user_output_of(*user),
    {
        UserOutput { id: user.id, name: user.nickname.clone() }
    }

    /// An independent copy.
    pub fn duplicate(&self) -> (r: UserOutput)
        ensures
            r == *self,
    {
        UserOutput { id: self.id, name: self.name.clone() }
    }
}

impl MessageOutput {
    pub fn new(id: u128, user: UserOutput, body: &str, created_at: i64) -> (r: MessageOutput)
        ensures
            r.id == id,
            r.user == user,
            r.body@ == body@,
            r.created_at == created_at,
    {
        MessageOutput { id, user, body: String::from_str(body), created_at }
    }

    /// The view of `message` handed to participants.
    pub fn of_message(message: &Message) -> (r: MessageOutput)
        ensures
            r == message_output_of(*message),
    {
        MessageOutput {
            id: message.id,
            user: UserOutput::of_user(&message.user),
            body: message.content.clone(),
            created_at: message.published_at,
        }
    }

    /// An independent copy.
    pub fn duplicate(&self) -> (r: MessageOutput)
        ensures
            r == *self,
    {
        MessageOutput {
            id: self.id,
            user: self.user.duplicate(),
            body: self.body.clone(),
            created_at: self.created_at,
        }
    }
}

#[derive(Debug, Clone, Copy, PartialEq, Eq, Structural)]
pub enum OutputError {
    NameTaken,
    InvalidName,
    NotJoined,
    InvalidMessageBody,
}

#[derive(Debug, Clone, Copy, PartialEq, Eq, Structural)]
pub struct UserLeftOutput {
    pub user_id: u128,
}

impl UserLeftOutput {
    pub fn new(user_id: u128) -> (r: UserLeftOutput)
        ensures
            r.user_id == user_id,
    {
        UserLeftOutput { user_id }
    }
}

#[derive(Debug, Clone)]
pub struct UserJoinedOutput {
    pub user: UserOutput,
}

#[derive(Debug, Clone)]
pub struct JoinedOutput {
    pub user: UserOutput,
    pub others: Vec<UserOutput>,
    pub messages: Vec<MessageOutput>,
}

#[derive(Debug, Clone)]
pub struct PostedOutput {
    pub message: MessageOutput,
}

#[derive(Debug, Clone)]
pub struct UserPostedOutput {
    pub message: MessageOutput,
}

/// An event sent to participants.
#[derive(Debug, Clone)]
pub enum Output {
    Error(OutputError),
    Alive,
    UserLeft(UserLeftOutput),
    UserJoined(UserJoinedOutput),
    Joined(JoinedOutput),
    Posted(PostedOutput),
    UserPosted(UserPostedOutput),
}

/// An event addressed to one connection.
#[derive(Debug, Clone)]
pub struct UserOutputMessage {
    pub client_id: u128,
    pub output: Output,
}

impl UserOutputMessage {
    pub fn new(client_id: u128, output: Output) -> (r: UserOutputMessage)
        ensures
            r.client_id == client_id,
            r.output == output,
    {
        UserOutputMessage { client_id, output }
    }
}

/// One event and the connections it is addressed to, in order.
#[derive(Debug)]
pub struct Delivery {
    pub recipients: Vec<u128>,
    pub output: Output,
}

#[derive(Debug, Clone)]
pub struct JoinInput {
    pub name: String,
}

#[derive(Debug, Clone)]
pub struct PostInput {
    pub body: String,
}

/// A command from a participant.
#[derive(Debug, Clone)]
pub enum Input {
    Join(JoinInput),
    Post(PostInput),
}

/// A command together with the connection it came from.
#[derive(Debug, Clone)]
pub struct UserInputMessage {
    pub client_id: u128,
    pub input: Input,
}

} // verus!
