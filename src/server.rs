use vstd::prelude::*;
use crate::room::{ChatOptions, ChatRoom, ROOM_SIZE, MAX_MESSAGE_LENGTH};
use crate::message::Message;
use crate::user::User;

verus! {

/// Interval of the liveness signal of a served room, in milliseconds.
pub const HEARTBEAT_MILLIS: u64 = 5000;

/// A room served on a port.
pub struct Server {
    pub port: u16,
    pub room: ChatRoom,
}

impl Server {
    /// An empty room with the default limits and a heartbeat every five seconds.
    pub fn new(port: u16) -> (r: Server)
        ensures
            r.port == port,
            r.room.wf(),
            r.room.settings() == (ChatOptions {
                heartbeat: Some(HEARTBEAT_MILLIS),
                room_size: ROOM_SIZE,
                max_message_length: MAX_MESSAGE_LENGTH,
            }),
            r.room.members() == Seq::<User>::empty(),
            r.room.history() == Seq::<Message>::empty(),
    {
        Server {
            port,
            room: ChatRoom::new(
                ChatOptions {
                    heartbeat: Some(HEARTBEAT_MILLIS),
                    room_size: ROOM_SIZE,
                    max_message_length: MAX_MESSAGE_LENGTH,
                },
            ),
        }
    }
}

} // verus!
