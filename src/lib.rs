mod feed;
mod message;
mod nickname;
mod proto;
mod room;
mod server;
mod user;

pub use feed::{lemma_any_arrival_order_sorted, lemma_insert_keeps_order, Feed};
pub use message::Message;
pub use nickname::{trim_nickname, valid_nickname_text, NICKNAME_PATTERN};
pub use proto::{
    Delivery, Input, JoinInput, JoinedOutput, MessageOutput, Output, OutputError, PostInput,
    PostedOutput, UserInputMessage, UserJoinedOutput, UserLeftOutput, UserOutput,
    UserOutputMessage, UserPostedOutput,
};
pub use room::{lemma_distinct_joins_all_succeed, ChatOptions, ChatRoom, MAX_MESSAGE_LENGTH, ROOM_SIZE};
pub use server::{Server, HEARTBEAT_MILLIS};
pub use user::User;
