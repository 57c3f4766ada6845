use chatroom::{
    trim_nickname, valid_nickname_text, ChatOptions, ChatRoom, Delivery, Feed, Input, JoinInput,
    Message, Output, OutputError, PostInput, Server, User, UserInputMessage, HEARTBEAT_MILLIS,
    MAX_MESSAGE_LENGTH, ROOM_SIZE,
};

const ALICE: u128 = 1;
const BOB: u128 = 2;
const CAROL: u128 = 3;

fn room() -> ChatRoom {
    ChatRoom::new(ChatOptions::default())
}

fn join(room: &mut ChatRoom, id: u128, name: &str) -> Vec<Delivery> {
    room.join_process(id, JoinInput { name: name.to_string() }, 1)
}

fn post(room: &mut ChatRoom, id: u128, body: &str) -> Vec<Delivery> {
    room.process(
        UserInputMessage { client_id: id, input: Input::Post(PostInput { body: body.to_string() }) },
        1,
    )
}

fn error_of(ds: &[Delivery]) -> Option<(Vec<u128>, OutputError)> {
    match ds {
        [d] => match d.output {
            Output::Error(e) => Some((d.recipients.clone(), e)),
            _ => None,
        },
        _ => None,
    }
}

fn nicknames(room: &ChatRoom) -> Vec<String> {
    room.users().iter().map(|u| u.nickname.clone()).collect()
}

#[test]
fn same_name_twice_is_taken() {
    let mut r = room();
    assert_eq!(join(&mut r, ALICE, "Alice").len(), 2);
    let ds = join(&mut r, BOB, "Alice");
    assert_eq!(error_of(&ds), Some((vec![BOB], OutputError::NameTaken)));
    assert_eq!(r.users().len(), 1);
}

#[test]
fn taken_after_trimming() {
    let mut r = room();
    join(&mut r, ALICE, "Alice");
    let ds = join(&mut r, BOB, "  Alice \t");
    assert_eq!(error_of(&ds), Some((vec![BOB], OutputError::NameTaken)));
    assert_eq!(r.users().len(), 1);
}

#[test]
fn taken_wins_over_invalid() {
    let mut r = room();
    join(&mut r, ALICE, "Alice");
    join(&mut r, BOB, "Bobby");
    assert_eq!(r.users().len(), 2);
    let ds = join(&mut r, CAROL, "Alice");
    assert_eq!(error_of(&ds), Some((vec![CAROL], OutputError::NameTaken)));
}

#[test]
fn malformed_names_are_refused() {
    let mut r = room();
    for name in ["ab", "bob123", "", "    ", "abcd1", "x".repeat(25).as_str(), "Zoë Smith"] {
        let ds = join(&mut r, ALICE, name);
        assert_eq!(error_of(&ds), Some((vec![ALICE], OutputError::InvalidName)), "{name:?}");
    }
    assert_eq!(r.users().len(), 0);
}

#[test]
fn nickname_shape() {
    assert!(valid_nickname_text("Alice"));
    assert!(valid_nickname_text("Mary Jane"));
    assert!(valid_nickname_text("abcd"));
    assert!(valid_nickname_text(&"y".repeat(24)));
    assert!(!valid_nickname_text(&"y".repeat(25)));
    assert!(!valid_nickname_text("abc"));
    assert!(!valid_nickname_text("abcd123"));
    assert!(!valid_nickname_text("bob123"));
}

#[test]
fn trimming_removes_surrounding_whitespace() {
    assert_eq!(trim_nickname("  Alice \n"), "Alice");
    assert_eq!(trim_nickname("\u{3000}Mary Jane\u{a0}"), "Mary Jane");
    assert_eq!(trim_nickname("   "), "");
}

#[test]
fn joined_name_is_trimmed() {
    let mut r = room();
    join(&mut r, ALICE, "  Alice  ");
    assert_eq!(nicknames(&r), vec!["Alice".to_string()]);
}

#[test]
fn distinct_joins_all_succeed() {
    let mut r = room();
    let names = ["Alice", "Bobby", "Carol", "Dave Doe", "Eveline"];
    for (i, name) in names.iter().enumerate() {
        let ds = join(&mut r, i as u128 + 10, name);
        assert_eq!(ds.len(), 2);
        assert!(matches!(ds[0].output, Output::Joined(_)));
    }
    assert_eq!(r.users().len(), names.len());
}

#[test]
fn joined_carries_others_and_history() {
    let mut r = room();
    join(&mut r, ALICE, "Alice");
    post(&mut r, ALICE, "first");
    post(&mut r, ALICE, "second");
    join(&mut r, BOB, "Bobby");
    let ds = join(&mut r, CAROL, "Carol");
    assert_eq!(ds.len(), 2);
    assert_eq!(ds[0].recipients, vec![CAROL]);
    match &ds[0].output {
        Output::Joined(j) => {
            assert_eq!(j.user.id, CAROL);
            assert_eq!(j.user.name, "Carol");
            let others: Vec<(u128, String)> = j.others.iter().map(|u| (u.id, u.name.clone())).collect();
            assert_eq!(others, vec![(ALICE, "Alice".to_string()), (BOB, "Bobby".to_string())]);
            let bodies: Vec<&str> = j.messages.iter().map(|m| m.body.as_str()).collect();
            assert_eq!(bodies, vec!["first", "second"]);
            assert!(j.messages[0].created_at <= j.messages[1].created_at);
        }
        _ => panic!("expected Joined"),
    }
    assert_eq!(ds[1].recipients, vec![ALICE, BOB]);
    match &ds[1].output {
        Output::UserJoined(u) => {
            assert_eq!(u.user.id, CAROL);
            assert_eq!(u.user.name, "Carol");
        }
        _ => panic!("expected UserJoined"),
    }
}

#[test]
fn rejoin_replaces_own_entry() {
    let mut r = room();
    join(&mut r, ALICE, "Alice");
    join(&mut r, BOB, "Bobby");
    join(&mut r, ALICE, "Alicia");
    assert_eq!(nicknames(&r), vec!["Alicia".to_string(), "Bobby".to_string()]);
}

#[test]
fn post_before_join_is_refused() {
    let mut r = room();
    let ds = post(&mut r, ALICE, "hello");
    assert_eq!(error_of(&ds), Some((vec![ALICE], OutputError::NotJoined)));
    assert_eq!(r.messages().len(), 0);
}

#[test]
fn empty_and_long_bodies_are_refused() {
    let mut r = room();
    join(&mut r, ALICE, "Alice");
    let ds = post(&mut r, ALICE, "");
    assert_eq!(error_of(&ds), Some((vec![ALICE], OutputError::InvalidMessageBody)));
    let ds = post(&mut r, ALICE, &"a".repeat(513));
    assert_eq!(error_of(&ds), Some((vec![ALICE], OutputError::InvalidMessageBody)));
    assert_eq!(r.messages().len(), 0);
}

#[test]
fn long_body_scenario() {
    let mut r = room();
    join(&mut r, ALICE, "Alice");
    let ds = post(&mut r, ALICE, &"z".repeat(600));
    assert_eq!(error_of(&ds), Some((vec![ALICE], OutputError::InvalidMessageBody)));
    assert!(r.messages().is_empty());
}

#[test]
fn body_limit_counts_characters() {
    let mut r = room();
    join(&mut r, ALICE, "Alice");
    let ds = post(&mut r, ALICE, &"é".repeat(MAX_MESSAGE_LENGTH));
    assert_eq!(ds.len(), 2);
    assert!(matches!(ds[0].output, Output::Posted(_)));
    let ds = post(&mut r, ALICE, &"é".repeat(MAX_MESSAGE_LENGTH + 1));
    assert_eq!(error_of(&ds), Some((vec![ALICE], OutputError::InvalidMessageBody)));
    assert_eq!(r.messages().len(), 1);
}

#[test]
fn post_reaches_poster_and_others() {
    let mut r = room();
    join(&mut r, ALICE, "Alice");
    join(&mut r, BOB, "Bob Bob");
    let ds = post(&mut r, BOB, "hi");
    assert_eq!(r.messages().len(), 1);
    assert_eq!(ds.len(), 2);
    assert_eq!(ds[0].recipients, vec![BOB]);
    assert_eq!(ds[1].recipients, vec![ALICE]);
    let (a, b) = match (&ds[0].output, &ds[1].output) {
        (Output::Posted(p), Output::UserPosted(u)) => (&p.message, &u.message),
        _ => panic!("expected Posted and UserPosted"),
    };
    assert_eq!(a.body, "hi");
    assert_eq!(b.body, "hi");
    assert_eq!((a.id, a.created_at, a.user.id, &a.user.name), (b.id, b.created_at, b.user.id, &b.user.name));
    assert_eq!(a.user.id, BOB);
    assert_eq!(a.user.name, "Bob Bob");
    let stored = &r.messages()[0];
    assert_eq!(stored.id, a.id);
    assert_eq!(stored.content, "hi");
}

#[test]
fn post_with_given_id_and_time() {
    let mut r = room();
    join(&mut r, ALICE, "Alice");
    let ds = r.post_process_with(ALICE, PostInput { body: "hey".to_string() }, 77, 1_000, 1);
    match &ds[0].output {
        Output::Posted(p) => {
            assert_eq!(p.message.id, 77);
            assert_eq!(p.message.created_at, 1_000);
        }
        _ => panic!("expected Posted"),
    }
    assert_eq!(ds[1].recipients, Vec::<u128>::new());
}

#[test]
fn history_is_ordered_whatever_the_arrival() {
    let mut r = room();
    join(&mut r, ALICE, "Alice");
    for (i, t) in [30i64, 10, 20, 10, 5].iter().enumerate() {
        r.post_process_with(ALICE, PostInput { body: format!("m{i}") }, i as u128, *t, 1);
    }
    let got: Vec<(i64, String)> = r.messages().iter().map(|m| (m.published_at, m.content.clone())).collect();
    assert_eq!(
        got,
        vec![
            (5, "m4".to_string()),
            (10, "m1".to_string()),
            (10, "m3".to_string()),
            (20, "m2".to_string()),
            (30, "m0".to_string()),
        ]
    );
}

#[test]
fn feed_enumerates_oldest_first() {
    let u = User::new(ALICE, "Alice");
    let mut f = Feed::new();
    for (i, t) in [3i64, 1, 2].iter().enumerate() {
        f.add_message(Message::new(i as u128, u.snapshot(), "x", *t));
    }
    let times: Vec<i64> = f.message_iter().iter().map(|m| m.published_at).collect();
    assert_eq!(times, vec![1, 2, 3]);
    assert_eq!(f.len(), 3);
}

#[test]
fn disconnect_informs_the_rest() {
    let mut r = room();
    join(&mut r, ALICE, "Alice");
    join(&mut r, BOB, "Bobby");
    join(&mut r, CAROL, "Carol");
    let ds = r.on_disconnect(BOB, 1);
    assert_eq!(ds.len(), 1);
    assert_eq!(ds[0].recipients, vec![ALICE, CAROL]);
    assert!(matches!(ds[0].output, Output::UserLeft(ref l) if l.user_id == BOB));
    assert_eq!(nicknames(&r), vec!["Alice".to_string(), "Carol".to_string()]);
}

#[test]
fn disconnect_of_stranger_does_nothing() {
    let mut r = room();
    join(&mut r, ALICE, "Alice");
    assert!(r.on_disconnect(BOB, 1).is_empty());
    assert_eq!(r.users().len(), 1);
    r.on_disconnect(ALICE, 1);
    assert!(r.on_disconnect(ALICE, 1).is_empty());
    assert_eq!(r.users().len(), 0);
}

#[test]
fn name_is_free_after_leaving() {
    let mut r = room();
    join(&mut r, ALICE, "Alice");
    r.on_disconnect(ALICE, 1);
    assert_eq!(join(&mut r, BOB, "Alice").len(), 2);
}

#[test]
fn no_listeners_means_no_deliveries() {
    let mut r = room();
    assert!(r.join_process(ALICE, JoinInput { name: "Alice".to_string() }, 0).is_empty());
    assert_eq!(r.users().len(), 1);
    assert!(r.join_process(BOB, JoinInput { name: "ab".to_string() }, 0).is_empty());
    assert!(r.post_process_with(ALICE, PostInput { body: "hi".to_string() }, 1, 1, 0).is_empty());
    assert_eq!(r.messages().len(), 1);
}

#[test]
fn heartbeat_off_sends_nothing() {
    let mut r = room();
    join(&mut r, ALICE, "Alice");
    assert!(r.alive(1).is_empty());
}

#[test]
fn heartbeat_on_reaches_everyone() {
    let mut r = ChatRoom::new(ChatOptions { heartbeat: Some(1000), ..ChatOptions::default() });
    join(&mut r, ALICE, "Alice");
    join(&mut r, BOB, "Bobby");
    let ds = r.alive(1);
    assert_eq!(ds.len(), 1);
    assert_eq!(ds[0].recipients, vec![ALICE, BOB]);
    assert!(matches!(ds[0].output, Output::Alive));
}

#[test]
fn defaults() {
    let o = ChatOptions::default();
    assert_eq!(o.heartbeat, None);
    assert_eq!(o.room_size, ROOM_SIZE);
    assert_eq!(o.max_message_length, 512);
    let s = Server::new(8080);
    assert_eq!(s.port, 8080);
    assert_eq!(s.room.options().heartbeat, Some(HEARTBEAT_MILLIS));
    assert!(s.room.users().is_empty());
}

#[test]
fn process_dispatches_join() {
    let mut r = room();
    let ds = r.process(
        UserInputMessage { client_id: ALICE, input: Input::Join(JoinInput { name: "Alice".to_string() }) },
        1,
    );
    assert!(matches!(ds[0].output, Output::Joined(_)));
    assert_eq!(r.users()[0].id, ALICE);
}
