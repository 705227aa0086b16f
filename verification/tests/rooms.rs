use serde_json::Value;
use std::collections::HashSet;
use vimeet::coordinator::Command;
use vimeet::model::Policy;
use vimeet::server::ClientMessage;
use vimeet::server::Delivery;
use vimeet::server::Disconnect;
use vimeet::server::Elevate;
use vimeet::server::Instant;
use vimeet::server::Join;
use vimeet::server::Lower;
use vimeet::server::Poll;
use vimeet::server::PollCloseHelper;
use vimeet::server::PollOption;
use vimeet::server::PollVoteHelper;
use vimeet::server::Raise;
use vimeet::server::Recede;
use vimeet::server::Room;
use vimeet::server::User;
use vimeet::server::WebSocketServer;

fn json(text: &str) -> Value {
    serde_json::from_str(text).unwrap()
}

fn seen(out: &[Delivery]) -> Vec<(u64, Value)> {
    out.iter().map(|d| (d.user_id, json(&d.message.0))).collect()
}

fn expect(out: &[Delivery], want: &[(u64, &str)]) {
    let want: Vec<(u64, Value)> = want.iter().map(|(id, text)| (*id, json(text))).collect();
    assert_eq!(seen(out), want);
}

fn expect_error(out: &[Delivery], to: u64, code: &str, description: &str) {
    assert_eq!(out.len(), 1);
    assert_eq!(out[0].user_id, to);
    let frame = json(&out[0].message.0);
    assert_eq!(frame["type"], Value::String("error".to_string()));
    assert_eq!(frame["object"], Value::String(code.to_string()));
    assert_eq!(frame["description"], Value::String(description.to_string()));
}

fn join(server: &mut WebSocketServer, id: u64, name: &str, room: &str) -> Vec<Delivery> {
    server.handle_join(Join {
        user_id: id,
        user_name: name.to_string(),
        room_name: room.to_string(),
    })
}

fn raise(server: &mut WebSocketServer, id: u64, name: &str, room: &str, object: &str) -> Vec<Delivery> {
    server.handle_raise(Raise {
        object: object.to_string(),
        owner_id: id,
        owner_name: name.to_string(),
        room_name: room.to_string(),
    })
}

fn lower(server: &mut WebSocketServer, id: u64, name: &str, room: &str, object: &str) -> Vec<Delivery> {
    server.handle_lower(Lower {
        object: object.to_string(),
        owner_id: id,
        owner_name: name.to_string(),
        room_name: room.to_string(),
    })
}

fn poll(server: &mut WebSocketServer, id: u64, name: &str, room: &str, title: &str) -> Vec<Delivery> {
    server.handle_poll(Poll {
        title: title.to_string(),
        owner_id: id,
        owner_name: name.to_string(),
        room_name: room.to_string(),
        options: Vec::new(),
        votes: Vec::new(),
        closed: false,
    })
}

fn option(
    server: &mut WebSocketServer,
    id: u64,
    name: &str,
    room: &str,
    poll: &str,
    title: &str,
) -> Vec<Delivery> {
    server.handle_poll_option(PollOption {
        title: title.to_string(),
        owner_id: id,
        owner_name: name.to_string(),
        room_name: room.to_string(),
        poll_title: poll.to_string(),
    })
}

fn vote(
    server: &mut WebSocketServer,
    id: u64,
    name: &str,
    room: &str,
    poll: &str,
    option: &str,
) -> Vec<Delivery> {
    server.handle_vote(PollVoteHelper {
        owner_id: id,
        owner_name: name.to_string(),
        room_name: room.to_string(),
        poll_title: poll.to_string(),
        option_title: option.to_string(),
    })
}

fn close(server: &mut WebSocketServer, id: u64, name: &str, room: &str, poll: &str) -> Vec<Delivery> {
    server.handle_poll_close(PollCloseHelper {
        sender_id: id,
        sender_name: name.to_string(),
        room_name: room.to_string(),
        poll_title: poll.to_string(),
    })
}

fn three_in_room() -> WebSocketServer {
    let mut server = WebSocketServer::default();
    join(&mut server, 1, "alice", "R");
    join(&mut server, 2, "bob", "R");
    join(&mut server, 3, "carol", "R");
    server
}

fn check_invariants(server: &WebSocketServer) {
    let sessions: HashSet<u64> = server.sessions.iter().copied().collect();
    assert_eq!(sessions.len(), server.sessions.len());
    let mut names = HashSet::new();
    let mut everyone = HashSet::new();
    for (name, room) in &server.rooms {
        assert!(names.insert(name.clone()));
        let mut members = HashSet::new();
        for (id, _) in &room.connected {
            assert!(members.insert(*id));
            assert!(everyone.insert(*id));
            assert!(sessions.contains(id));
        }
        let mut flags = HashSet::new();
        for flag in &room.raised {
            assert!(flags.insert((flag.object.clone(), flag.owner_id)));
        }
        let mut titles = HashSet::new();
        for poll in &room.polls {
            assert!(titles.insert(poll.title.clone()));
            let mut options = HashSet::new();
            for option in &poll.options {
                assert!(options.insert(option.title.clone()));
            }
            let mut voters = HashSet::new();
            for (voter, _) in &poll.votes {
                assert!(voters.insert(*voter));
                if !poll.closed {
                    assert!(members.contains(voter));
                }
            }
        }
    }
}

#[test]
fn new_coordinator_is_empty() {
    let server = WebSocketServer::default();
    assert!(server.sessions.is_empty());
    assert!(server.rooms.is_empty());
    let room = Room::default();
    assert!(room.raised.is_empty());
    assert!(room.polls.is_empty());
    assert!(room.connected.is_empty());
}

#[test]
fn join_makes_the_room_and_notes_the_session() {
    let mut server = WebSocketServer::default();
    join(&mut server, 1, "alice", "R");
    join(&mut server, 2, "bob", "S");
    join(&mut server, 3, "carol", "R");
    assert_eq!(server.sessions, vec![1, 2, 3]);
    assert_eq!(server.rooms.len(), 2);
    assert_eq!(server.rooms[0].0, "R");
    assert_eq!(server.rooms[1].0, "S");
    assert_eq!(server.rooms[0].1.connected.len(), 2);
    assert_eq!(server.rooms[0].1.connected[0].0, 1);
    assert!(server.rooms[0].1.connected[0].1.elevated);
    assert_eq!(server.rooms[0].1.connected[1].0, 3);
    assert_eq!(server.rooms[0].1.connected[1].1.name, "carol");
    assert!(!server.rooms[0].1.connected[1].1.elevated);
    assert!(server.rooms[1].1.connected[0].1.elevated);
    check_invariants(&server);
}

#[test]
fn first_joiner_is_elevated_second_is_not() {
    let mut server = WebSocketServer::default();
    let first = join(&mut server, 5, "eve", "lobby");
    let second = join(&mut server, 9, "dan", "lobby");
    assert_eq!(seen(&first)[1], (5, json(r#"{"type":"self","object":5,"elevated":true}"#)));
    assert_eq!(seen(&second)[2], (9, json(r#"{"type":"self","object":9,"elevated":false}"#)));
    assert_eq!(server.rooms[0].1.is_elevated(&5), Ok(true));
    assert_eq!(server.rooms[0].1.is_elevated(&9), Ok(false));
    assert_eq!(server.rooms[0].1.is_elevated(&7), Err(""));
}

#[test]
fn a_room_that_emptied_elevates_its_next_user() {
    let mut server = WebSocketServer::default();
    join(&mut server, 1, "alice", "R");
    server.handle_disconnect(Disconnect { id: 1 });
    assert_eq!(server.rooms.len(), 1);
    assert!(server.rooms[0].1.connected.is_empty());
    let out = join(&mut server, 2, "bob", "R");
    assert_eq!(seen(&out)[1], (2, json(r#"{"type":"self","object":2,"elevated":true}"#)));
    check_invariants(&server);
}

#[test]
fn joining_again_keeps_the_place_and_loses_the_privilege() {
    let mut server = WebSocketServer::default();
    join(&mut server, 1, "alice", "R");
    join(&mut server, 2, "bob", "R");
    let out = join(&mut server, 1, "alicia", "R");
    expect(
        &out,
        &[
            (2, r#"{"type":"joined","object":{"id":1,"name":"alicia","elevated":false}}"#),
            (
                1,
                r#"{"type":"all","raised":[],"joined":{"1":{"name":"alicia","elevated":false},"2":{"name":"bob","elevated":false}}}"#,
            ),
            (1, r#"{"type":"self","object":1,"elevated":false}"#),
        ],
    );
    assert_eq!(server.sessions, vec![1, 2]);
    assert_eq!(server.rooms[0].1.connected[0].0, 1);
    check_invariants(&server);
}

#[test]
fn newcomer_sees_open_polls_without_identities() {
    let mut server = WebSocketServer::default();
    join(&mut server, 1, "alice", "R");
    join(&mut server, 2, "bob", "R");
    poll(&mut server, 1, "alice", "R", "lunch");
    option(&mut server, 1, "alice", "R", "lunch", "pizza");
    option(&mut server, 1, "alice", "R", "lunch", "salad");
    vote(&mut server, 2, "bob", "R", "lunch", "salad");
    vote(&mut server, 1, "alice", "R", "lunch", "pizza");
    poll(&mut server, 1, "alice", "R", "done");
    option(&mut server, 1, "alice", "R", "done", "x");
    close(&mut server, 1, "alice", "R", "done");
    poll(&mut server, 1, "alice", "R", "empty");
    let out = join(&mut server, 3, "carol", "R");
    assert_eq!(out.len(), 10);
    assert_eq!(out[0].user_id, 1);
    assert_eq!(out[1].user_id, 2);
    expect(
        &out[4..],
        &[
            (3, r#"{"type":"poll","object":"lunch"}"#),
            (3, r#"{"type":"polloption","pollobject":"lunch","polloptionobject":"pizza"}"#),
            (3, r#"{"type":"polloption","pollobject":"lunch","polloptionobject":"salad"}"#),
            (
                3,
                r#"{"type":"vote","pollobject":"lunch","polloptionobject":"salad","username":"","userid":0}"#,
            ),
            (
                3,
                r#"{"type":"vote","pollobject":"lunch","polloptionobject":"pizza","username":"","userid":0}"#,
            ),
            (3, r#"{"type":"poll","object":"empty"}"#),
        ],
    );
}

#[test]
fn raise_tells_the_owners_privilege() {
    let mut server = three_in_room();
    let out = raise(&mut server, 1, "alice", "R", "{\"k\":[1,2]}");
    let frame = r#"{"type":"raised","owner_id":1,"owner_name":"alice","object":{"k":[1,2]},"elevated":true}"#;
    expect(&out, &[(1, frame), (2, frame), (3, frame)]);
    let out = raise(&mut server, 9, "ghost", "R", "\"boo\"");
    let frame = r#"{"type":"raised","owner_id":9,"owner_name":"ghost","object":"boo","elevated":false}"#;
    expect(&out, &[(1, frame), (2, frame), (3, frame)]);
    assert_eq!(server.rooms[0].1.raised.len(), 2);
}

#[test]
fn same_object_may_be_raised_by_two_users() {
    let mut server = three_in_room();
    assert_eq!(raise(&mut server, 2, "bob", "R", "\"t\"").len(), 3);
    assert_eq!(raise(&mut server, 3, "carol", "R", "\"t\"").len(), 3);
    assert_eq!(raise(&mut server, 2, "bob", "R", "\"u\"").len(), 3);
    assert_eq!(server.rooms[0].1.raised.len(), 3);
    let out = raise(&mut server, 3, "carla", "R", "\"t\"");
    expect_error(&out, 3, "already_raised", "Refusing to raise, already raised");
    assert_eq!(server.rooms[0].1.raised.len(), 3);
    check_invariants(&server);
}

#[test]
fn raise_then_lower_leaves_the_flags_as_they_were() {
    let mut server = three_in_room();
    raise(&mut server, 2, "bob", "R", "\"a\"");
    raise(&mut server, 3, "carol", "R", "\"b\"");
    let before: Vec<(String, u64)> =
        server.rooms[0].1.raised.iter().map(|r| (r.object.clone(), r.owner_id)).collect();
    raise(&mut server, 2, "bob", "R", "\"b\"");
    lower(&mut server, 2, "bob", "R", "\"b\"");
    let after: Vec<(String, u64)> =
        server.rooms[0].1.raised.iter().map(|r| (r.object.clone(), r.owner_id)).collect();
    assert_eq!(before, after);
}

#[test]
fn lower_of_what_is_not_raised_is_an_error() {
    let mut server = three_in_room();
    raise(&mut server, 2, "bob", "R", "\"a\"");
    let out = lower(&mut server, 3, "carol", "R", "\"a\"");
    expect_error(&out, 3, "not_raised", "Refusing to lower, is not raised");
    let out = lower(&mut server, 2, "bob", "R", "\"b\"");
    expect_error(&out, 2, "not_raised", "Refusing to lower, is not raised");
    assert_eq!(server.rooms[0].1.raised.len(), 1);
    let out = lower(&mut server, 2, "bob", "R", "\"a\"");
    assert_eq!(out.len(), 3);
    assert!(server.rooms[0].1.raised.is_empty());
    let out = lower(&mut server, 2, "bob", "R", "\"a\"");
    expect_error(&out, 2, "not_raised", "Refusing to lower, is not raised");
}

#[test]
fn instant_changes_nothing() {
    let mut server = three_in_room();
    let out = server.handle_instant(Instant {
        object: "[1,\"x\"]".to_string(),
        owner_id: 2,
        owner_name: "bob".to_string(),
        room_name: "R".to_string(),
    });
    let frame =
        r#"{"type":"instant","owner_id":2,"owner_name":"bob","object":[1,"x"],"elevated":false}"#;
    expect(&out, &[(1, frame), (2, frame), (3, frame)]);
    assert!(server.rooms[0].1.raised.is_empty());
    assert!(server.rooms[0].1.polls.is_empty());
}

#[test]
fn poll_needs_a_moderator_and_a_new_title() {
    let mut server = three_in_room();
    let out = poll(&mut server, 2, "bob", "R", "lunch");
    expect_error(
        &out,
        2,
        "no_permission",
        "You do not have permission to create polls (because you're not elevated)",
    );
    assert!(server.rooms[0].1.polls.is_empty());
    let out = poll(&mut server, 1, "alice", "R", "lunch");
    let frame = r#"{"type":"poll","object":"lunch"}"#;
    expect(&out, &[(1, frame), (2, frame), (3, frame)]);
    let out = poll(&mut server, 1, "alice", "R", "lunch");
    expect_error(&out, 1, "poll_already_exists", "A poll with that title already exists");
    let out = poll(&mut server, 2, "bob", "R", "lunch");
    expect_error(
        &out,
        2,
        "no_permission",
        "You do not have permission to create polls (because you're not elevated)",
    );
    assert_eq!(server.rooms[0].1.polls.len(), 1);
    let kept = &server.rooms[0].1.polls[0];
    assert_eq!(kept.title, "lunch");
    assert_eq!(kept.owner_id, 1);
    assert_eq!(kept.owner_name, "alice");
    assert_eq!(kept.room_name, "R");
    assert!(kept.options.is_empty() && kept.votes.is_empty() && !kept.closed);
}

#[test]
fn a_new_poll_starts_without_options_or_votes() {
    let mut server = three_in_room();
    server.handle_poll(Poll {
        title: "lunch".to_string(),
        owner_id: 1,
        owner_name: "alice".to_string(),
        room_name: "R".to_string(),
        options: vec![PollOption {
            title: "x".to_string(),
            owner_id: 1,
            owner_name: "alice".to_string(),
            room_name: "R".to_string(),
            poll_title: "lunch".to_string(),
        }],
        votes: vec![(77, "x".to_string())],
        closed: true,
    });
    let kept = &server.rooms[0].1.polls[0];
    assert!(kept.options.is_empty() && kept.votes.is_empty() && !kept.closed);
    check_invariants(&server);
}

#[test]
fn option_checks_come_in_order() {
    let mut server = three_in_room();
    let out = option(&mut server, 2, "bob", "R", "nope", "pizza");
    expect_error(
        &out,
        2,
        "no_permission",
        "You do not have permission to add poll options (because you're not elevated)",
    );
    let out = option(&mut server, 1, "alice", "R", "nope", "pizza");
    expect_error(&out, 1, "poll_does_not_exist", "A poll with that title doesn't exist");
    poll(&mut server, 1, "alice", "R", "lunch");
    let out = option(&mut server, 1, "alice", "R", "lunch", "pizza");
    let frame = r#"{"type":"polloption","pollobject":"lunch","polloptionobject":"pizza"}"#;
    expect(&out, &[(1, frame), (2, frame), (3, frame)]);
    let out = option(&mut server, 1, "alice", "R", "lunch", "pizza");
    expect_error(
        &out,
        1,
        "poll_option_already_exists",
        "A poll-option with that title in this poll does already exist",
    );
    close(&mut server, 1, "alice", "R", "lunch");
    let out = option(&mut server, 1, "alice", "R", "lunch", "pizza");
    expect_error(&out, 1, "poll_closed", "Sorry, the poll is already closed");
    let out = option(&mut server, 1, "alice", "R", "lunch", "salad");
    expect_error(&out, 1, "poll_closed", "Sorry, the poll is already closed");
    assert_eq!(server.rooms[0].1.polls[0].options.len(), 1);
    let kept = &server.rooms[0].1.polls[0].options[0];
    assert_eq!(kept.title, "pizza");
    assert_eq!(kept.poll_title, "lunch");
    assert_eq!(kept.owner_id, 1);
    assert_eq!(kept.owner_name, "alice");
    assert_eq!(kept.room_name, "R");
}

#[test]
fn same_option_title_may_stand_in_two_polls() {
    let mut server = three_in_room();
    poll(&mut server, 1, "alice", "R", "lunch");
    poll(&mut server, 1, "alice", "R", "dinner");
    assert_eq!(option(&mut server, 1, "alice", "R", "lunch", "pizza").len(), 3);
    assert_eq!(option(&mut server, 1, "alice", "R", "dinner", "pizza").len(), 3);
    assert_eq!(server.rooms[0].1.polls[0].options.len(), 1);
    assert_eq!(server.rooms[0].1.polls[1].options.len(), 1);
    check_invariants(&server);
}

#[test]
fn vote_checks_come_in_order() {
    let mut server = three_in_room();
    let out = vote(&mut server, 2, "bob", "R", "lunch", "pizza");
    expect_error(&out, 2, "poll_does_not_exist", "A poll with that title doesn't exist");
    poll(&mut server, 1, "alice", "R", "lunch");
    let out = vote(&mut server, 2, "bob", "R", "lunch", "pizza");
    expect_error(
        &out,
        2,
        "poll_option_does_not_exist",
        "A poll-option with that title in this poll doesn't exist",
    );
    option(&mut server, 1, "alice", "R", "lunch", "pizza");
    close(&mut server, 1, "alice", "R", "lunch");
    let out = vote(&mut server, 2, "bob", "R", "lunch", "pizza");
    expect_error(&out, 2, "poll_closed", "Sorry, the poll is already closed");
    let out = vote(&mut server, 2, "bob", "R", "lunch", "salad");
    expect_error(&out, 2, "poll_closed", "Sorry, the poll is already closed");
    assert!(server.rooms[0].1.polls[0].votes.is_empty());
}

#[test]
fn each_user_has_one_vote_in_a_poll() {
    let mut server = three_in_room();
    poll(&mut server, 1, "alice", "R", "lunch");
    option(&mut server, 1, "alice", "R", "lunch", "pizza");
    option(&mut server, 1, "alice", "R", "lunch", "salad");
    vote(&mut server, 2, "bob", "R", "lunch", "pizza");
    vote(&mut server, 3, "carol", "R", "lunch", "pizza");
    vote(&mut server, 2, "bob", "R", "lunch", "salad");
    vote(&mut server, 2, "bob", "R", "lunch", "salad");
    let out = vote(&mut server, 2, "bob", "R", "lunch", "pizza");
    expect(
        &out,
        &[
            (1, r#"{"type":"deletevote","pollobject":"lunch","polloptionobject":"salad","userid":2}"#),
            (2, r#"{"type":"deletevote","pollobject":"lunch","polloptionobject":"salad","userid":0}"#),
            (3, r#"{"type":"deletevote","pollobject":"lunch","polloptionobject":"salad","userid":0}"#),
            (
                1,
                r#"{"type":"vote","pollobject":"lunch","polloptionobject":"pizza","username":"bob","userid":2}"#,
            ),
            (
                2,
                r#"{"type":"vote","pollobject":"lunch","polloptionobject":"pizza","username":"","userid":0}"#,
            ),
            (
                3,
                r#"{"type":"vote","pollobject":"lunch","polloptionobject":"pizza","username":"","userid":0}"#,
            ),
        ],
    );
    assert_eq!(
        server.rooms[0].1.polls[0].votes,
        vec![(3, "pizza".to_string()), (2, "pizza".to_string())]
    );
    check_invariants(&server);
}

#[test]
fn close_checks_come_in_order() {
    let mut server = three_in_room();
    let out = close(&mut server, 2, "bob", "R", "lunch");
    expect_error(
        &out,
        2,
        "no_permission",
        "You do not have permission to close polls (because you're not elevated)",
    );
    let out = close(&mut server, 1, "alice", "R", "lunch");
    expect_error(&out, 1, "poll_does_not_exist", "A poll with that title doesn't exist");
    poll(&mut server, 1, "alice", "R", "lunch");
    let out = close(&mut server, 1, "alice", "R", "lunch");
    let frame = r#"{"type":"closepoll","object":"lunch"}"#;
    expect(&out, &[(1, frame), (2, frame), (3, frame)]);
    assert!(server.rooms[0].1.polls[0].closed);
    let out = close(&mut server, 1, "alice", "R", "lunch");
    expect_error(&out, 1, "poll_closed", "Sorry, the poll is already closed");
    assert_eq!(server.rooms[0].1.polls.len(), 1);
}

#[test]
fn elevate_needs_a_moderator_and_a_change() {
    let mut server = three_in_room();
    let ask = |server: &mut WebSocketServer, by: u64, target: u64, room: &str| {
        server.handle_elevate(Elevate { object: target, owner_id: by, room_name: room.to_string() })
    };
    assert!(ask(&mut server, 2, 3, "R").is_empty());
    assert!(ask(&mut server, 1, 1, "R").is_empty());
    assert!(ask(&mut server, 1, 9, "R").is_empty());
    assert!(ask(&mut server, 9, 2, "R").is_empty());
    assert!(ask(&mut server, 1, 2, "nowhere").is_empty());
    assert_eq!(server.rooms[0].1.is_elevated(&2), Ok(false));
    assert_eq!(server.rooms[0].1.is_elevated(&3), Ok(false));
    let out = ask(&mut server, 1, 2, "R");
    let news = r#"{"type":"elevated","object":2,"elevated":true}"#;
    expect(&out, &[(1, news), (2, news), (3, news)]);
    assert_eq!(server.rooms[0].1.is_elevated(&2), Ok(true));
    assert!(ask(&mut server, 1, 2, "R").is_empty());
    let out = ask(&mut server, 2, 3, "R");
    let news = r#"{"type":"elevated","object":3,"elevated":true}"#;
    expect(&out, &[(1, news), (2, news), (3, news)]);
    check_invariants(&server);
}

#[test]
fn recede_replays_votes_without_identities() {
    let mut server = three_in_room();
    poll(&mut server, 1, "alice", "R", "lunch");
    option(&mut server, 1, "alice", "R", "lunch", "pizza");
    poll(&mut server, 1, "alice", "R", "old");
    option(&mut server, 1, "alice", "R", "old", "x");
    vote(&mut server, 3, "carol", "R", "old", "x");
    close(&mut server, 1, "alice", "R", "old");
    vote(&mut server, 2, "bob", "R", "lunch", "pizza");
    vote(&mut server, 3, "carol", "R", "lunch", "pizza");
    server.handle_elevate(Elevate { object: 2, owner_id: 1, room_name: "R".to_string() });
    let out = server.handle_recede(Recede { object: 1, owner_id: 2, room_name: "R".to_string() });
    let news = r#"{"type":"receded","object":1,"elevated":false}"#;
    expect(
        &out,
        &[
            (1, r#"{"type":"deletevote","pollobject":"lunch","polloptionobject":"pizza","userid":2}"#),
            (
                1,
                r#"{"type":"vote","pollobject":"lunch","polloptionobject":"pizza","username":"","userid":0}"#,
            ),
            (1, r#"{"type":"deletevote","pollobject":"lunch","polloptionobject":"pizza","userid":3}"#),
            (
                1,
                r#"{"type":"vote","pollobject":"lunch","polloptionobject":"pizza","username":"","userid":0}"#,
            ),
            (1, news),
            (2, news),
            (3, news),
        ],
    );
    assert_eq!(server.rooms[0].1.is_elevated(&1), Ok(false));
    assert!(server
        .handle_recede(Recede { object: 1, owner_id: 2, room_name: "R".to_string() })
        .is_empty());
    assert!(server
        .handle_recede(Recede { object: 2, owner_id: 1, room_name: "R".to_string() })
        .is_empty());
}

#[test]
fn elevate_replays_votes_with_the_voters_names() {
    let mut server = three_in_room();
    poll(&mut server, 1, "alice", "R", "lunch");
    option(&mut server, 1, "alice", "R", "lunch", "pizza");
    option(&mut server, 1, "alice", "R", "lunch", "salad");
    vote(&mut server, 3, "carol", "R", "lunch", "salad");
    vote(&mut server, 1, "alice", "R", "lunch", "pizza");
    let out = server.process_priviliges(&"R".to_string(), 1, 2, true).unwrap();
    expect(
        &out,
        &[
            (2, r#"{"type":"deletevote","pollobject":"lunch","polloptionobject":"salad","userid":0}"#),
            (
                2,
                r#"{"type":"vote","pollobject":"lunch","polloptionobject":"salad","username":"carol","userid":3}"#,
            ),
            (2, r#"{"type":"deletevote","pollobject":"lunch","polloptionobject":"pizza","userid":0}"#),
            (
                2,
                r#"{"type":"vote","pollobject":"lunch","polloptionobject":"pizza","username":"alice","userid":1}"#,
            ),
        ],
    );
    assert_eq!(server.process_priviliges(&"R".to_string(), 1, 2, true).err(), Some(""));
    assert_eq!(server.process_priviliges(&"R".to_string(), 3, 2, false).err(), Some(""));
    assert_eq!(server.process_priviliges(&"R".to_string(), 1, 8, false).err(), Some(""));
    assert_eq!(server.process_priviliges(&"Q".to_string(), 1, 2, false).err(), Some(""));
    assert_eq!(server.rooms[0].1.is_elevated(&2), Ok(true));
}

#[test]
fn disconnect_of_an_unknown_session_does_nothing() {
    let mut server = three_in_room();
    raise(&mut server, 2, "bob", "R", "\"a\"");
    assert!(server.handle_disconnect(Disconnect { id: 9 }).is_empty());
    assert_eq!(server.sessions, vec![1, 2, 3]);
    assert_eq!(server.rooms[0].1.connected.len(), 3);
    assert_eq!(server.rooms[0].1.raised.len(), 1);
    let out = server.handle_disconnect(Disconnect { id: 2 });
    assert_eq!(out.len(), 2);
    assert!(server.handle_disconnect(Disconnect { id: 2 }).is_empty());
}

#[test]
fn disconnect_keeps_votes_in_closed_polls() {
    let mut server = three_in_room();
    server.handle_elevate(Elevate { object: 3, owner_id: 1, room_name: "R".to_string() });
    for title in ["one", "two", "three"] {
        poll(&mut server, 1, "alice", "R", title);
        option(&mut server, 1, "alice", "R", title, "yes");
        option(&mut server, 1, "alice", "R", title, "no");
    }
    vote(&mut server, 2, "bob", "R", "one", "yes");
    vote(&mut server, 2, "bob", "R", "two", "no");
    vote(&mut server, 3, "carol", "R", "two", "yes");
    vote(&mut server, 3, "carol", "R", "three", "yes");
    raise(&mut server, 2, "bob", "R", "\"a\"");
    raise(&mut server, 1, "alice", "R", "\"a\"");
    raise(&mut server, 2, "bob", "R", "\"b\"");
    close(&mut server, 1, "alice", "R", "one");
    join(&mut server, 4, "dave", "R");
    let out = server.handle_disconnect(Disconnect { id: 2 });
    let all = r#"{"type":"all","raised":[{"object":"a","owner_id":1,"owner_name":"alice"}],"joined":{"1":{"name":"alice","elevated":true},"3":{"name":"carol","elevated":true},"4":{"name":"dave","elevated":false}}}"#;
    expect(
        &out,
        &[
            (1, all),
            (3, all),
            (4, all),
            (1, r#"{"type":"deletevote","pollobject":"two","polloptionobject":"no","userid":2}"#),
            (3, r#"{"type":"deletevote","pollobject":"two","polloptionobject":"no","userid":2}"#),
            (4, r#"{"type":"deletevote","pollobject":"two","polloptionobject":"no","userid":0}"#),
        ],
    );
    let room = &server.rooms[0].1;
    assert_eq!(room.polls[0].votes, vec![(2, "yes".to_string())]);
    assert_eq!(room.polls[1].votes, vec![(3, "yes".to_string())]);
    assert_eq!(room.polls[2].votes, vec![(3, "yes".to_string())]);
    assert_eq!(room.raised.len(), 1);
    assert_eq!(server.sessions, vec![1, 3, 4]);
    check_invariants(&server);
}

#[test]
fn commands_for_an_unknown_room_do_nothing() {
    let mut server = three_in_room();
    assert!(raise(&mut server, 1, "alice", "Q", "\"a\"").is_empty());
    assert!(lower(&mut server, 1, "alice", "Q", "\"a\"").is_empty());
    assert!(poll(&mut server, 1, "alice", "Q", "lunch").is_empty());
    assert!(option(&mut server, 1, "alice", "Q", "lunch", "x").is_empty());
    assert!(vote(&mut server, 1, "alice", "Q", "lunch", "x").is_empty());
    assert!(close(&mut server, 1, "alice", "Q", "lunch").is_empty());
    assert!(server
        .handle_instant(Instant {
            object: "1".to_string(),
            owner_id: 1,
            owner_name: "alice".to_string(),
            room_name: "Q".to_string(),
        })
        .is_empty());
    assert_eq!(server.rooms.len(), 1);
    assert!(server.rooms[0].1.raised.is_empty());
}

#[test]
fn rooms_do_not_hear_each_other() {
    let mut server = WebSocketServer::default();
    join(&mut server, 1, "alice", "R");
    join(&mut server, 2, "bob", "S");
    join(&mut server, 3, "carol", "S");
    let out = raise(&mut server, 2, "bob", "S", "\"a\"");
    assert_eq!(out.iter().map(|d| d.user_id).collect::<Vec<_>>(), vec![2, 3]);
    let out = raise(&mut server, 1, "alice", "R", "\"a\"");
    assert_eq!(out.iter().map(|d| d.user_id).collect::<Vec<_>>(), vec![1]);
    assert!(poll(&mut server, 2, "bob", "S", "lunch").len() == 2);
    assert!(poll(&mut server, 1, "alice", "R", "lunch").len() == 1);
    let out = server.handle_disconnect(Disconnect { id: 3 });
    assert_eq!(out.iter().map(|d| d.user_id).collect::<Vec<_>>(), vec![2]);
    check_invariants(&server);
}

#[test]
fn fan_out_policies_select_their_users() {
    let mut server = three_in_room();
    server.handle_elevate(Elevate { object: 3, owner_id: 1, room_name: "R".to_string() });
    let ids = |out: Vec<Delivery>| {
        for d in &out {
            assert_eq!(d.message.0, "hi");
        }
        out.iter().map(|d| d.user_id).collect::<Vec<_>>()
    };
    assert_eq!(ids(server.send_message_all("R", "hi")), vec![1, 2, 3]);
    assert_eq!(ids(server.send_message_skip_user("R", "hi", 2)), vec![1, 3]);
    assert_eq!(ids(server.send_message_skip_user("R", "hi", 0)), vec![1, 2, 3]);
    assert_eq!(ids(server.send_message_user("R", "hi", 3)), vec![3]);
    assert_eq!(ids(server.send_message_user("R", "hi", 4)), Vec::<u64>::new());
    assert_eq!(ids(server.send_message_all_elevated("R", "hi")), vec![1, 3]);
    assert_eq!(ids(server.send_message_all_not_elevated("R", "hi")), vec![2]);
    assert_eq!(ids(server.send_message_all("Q", "hi")), Vec::<u64>::new());
    assert_eq!(ids(server.send_message("R", "hi", Policy::Only(1))), vec![1]);
    assert_eq!(ids(server.rooms[0].1.send(&server.sessions, Policy::All, "hi")), vec![1, 2, 3]);
    assert_eq!(ids(server.rooms[0].1.send(&vec![3, 1], Policy::All, "hi")), vec![1, 3]);
}

#[test]
fn elevated_and_others_part_the_room() {
    let mut server = WebSocketServer::default();
    for id in 1..=8 {
        join(&mut server, id, "user", "R");
    }
    for id in [3, 4, 7] {
        server.handle_elevate(Elevate { object: id, owner_id: 1, room_name: "R".to_string() });
    }
    server.handle_recede(Recede { object: 1, owner_id: 3, room_name: "R".to_string() });
    let up: Vec<u64> =
        server.send_message_all_elevated("R", "x").iter().map(|d| d.user_id).collect();
    let down: Vec<u64> =
        server.send_message_all_not_elevated("R", "x").iter().map(|d| d.user_id).collect();
    assert_eq!(up, vec![3, 4, 7]);
    assert_eq!(down, vec![1, 2, 5, 6, 8]);
    let mut both: Vec<u64> = up.iter().chain(down.iter()).copied().collect();
    both.sort();
    assert_eq!(both, (1..=8).collect::<Vec<u64>>());
}

#[test]
fn a_user_without_session_receives_nothing() {
    let mut server = three_in_room();
    server.sessions.retain(|id| *id != 2);
    let out = raise(&mut server, 1, "alice", "R", "\"a\"");
    assert_eq!(out.iter().map(|d| d.user_id).collect::<Vec<_>>(), vec![1, 3]);
    let out = raise(&mut server, 2, "bob", "R", "\"a\"");
    assert_eq!(out.len(), 2);
    let out = raise(&mut server, 2, "bob", "R", "\"a\"");
    assert!(out.is_empty());
}

#[test]
fn error_goes_to_one_user() {
    let server = three_in_room();
    let out = server.send_error_user("R", "code", "what went wrong", 2);
    expect(&out, &[(2, r#"{"type":"error","object":"code","description":"what went wrong"}"#)]);
    assert!(server.send_error_user("R", "code", "what", 8).is_empty());
    assert!(server.send_error_user("Q", "code", "what", 2).is_empty());
}

#[test]
fn relay_skips_the_sender() {
    let mut server = three_in_room();
    let out = server.handle(Command::Relay(ClientMessage {
        id: 2,
        msg: "plain".to_string(),
        room: "R".to_string(),
    }));
    assert_eq!(out.iter().map(|d| (d.user_id, d.message.0.clone())).collect::<Vec<_>>(), vec![
        (1, "plain".to_string()),
        (3, "plain".to_string())
    ]);
}

#[test]
fn room_queries_and_changes() {
    let mut room = Room {
        raised: Vec::new(),
        polls: Vec::new(),
        connected: vec![
            (4, User { name: "dan".to_string(), elevated: false }),
            (6, User { name: "eve".to_string(), elevated: true }),
        ],
    };
    assert_eq!(room.member_index(6), Some(1));
    assert_eq!(room.member_index(5), None);
    assert_eq!(room.is_elevated(&4), Ok(false));
    assert_eq!(room.is_elevated(&6), Ok(true));
    assert_eq!(room.is_elevated(&5), Err(""));
    assert!(room.has_moderator(6));
    assert!(!room.has_moderator(4));
    assert!(!room.has_moderator(5));
    room.set_elevated(&4, true);
    room.set_elevated(&5, true);
    room.set_elevated(&6, false);
    assert_eq!(room.is_elevated(&4), Ok(true));
    assert_eq!(room.is_elevated(&6), Ok(false));
    assert_eq!(room.connected.len(), 2);
    assert_eq!(room.name_of(6), "eve");
    assert_eq!(room.name_of(7), "");
    let sessions = vec![4, 6];
    for (object, owner) in [("1", 4), ("2", 6), ("3", 4), ("1", 6), ("4", 4)] {
        room.raise(&sessions, Raise {
            object: object.to_string(),
            owner_id: owner,
            owner_name: "x".to_string(),
            room_name: "R".to_string(),
        });
    }
    assert!(room.has_raised(&"3".to_string(), 4));
    assert!(!room.has_raised(&"3".to_string(), 6));
    room.remove_user(&4);
    let left: Vec<(String, u64)> =
        room.raised.iter().map(|r| (r.object.clone(), r.owner_id)).collect();
    assert_eq!(left, vec![("2".to_string(), 6), ("1".to_string(), 6)]);
    room.remove_user(&9);
    assert_eq!(room.raised.len(), 2);
}

#[test]
fn invariants_hold_through_a_long_run() {
    let mut server = WebSocketServer::default();
    let rooms = ["a", "b", "c"];
    let mut state: u64 = 12345;
    let mut next = move || {
        state = state.wrapping_mul(6364136223846793005).wrapping_add(1442695040888963407);
        (state >> 33) as usize
    };
    let mut home: Vec<Option<usize>> = vec![None; 12];
    for _ in 0..4000 {
        let user = next() % 12;
        let id = user as u64 + 1;
        let name = format!("u{}", id);
        match home[user] {
            None => {
                let room = next() % 3;
                home[user] = Some(room);
                join(&mut server, id, &name, rooms[room]);
            }
            Some(room) => {
                let room_name = rooms[room];
                let title = format!("p{}", next() % 3);
                let choice = format!("o{}", next() % 3);
                let object = format!("{}", next() % 4);
                match next() % 10 {
                    0 => {
                        home[user] = None;
                        server.handle_disconnect(Disconnect { id });
                    }
                    1 => {
                        raise(&mut server, id, &name, room_name, &object);
                    }
                    2 => {
                        lower(&mut server, id, &name, room_name, &object);
                    }
                    3 => {
                        poll(&mut server, id, &name, room_name, &title);
                    }
                    4 => {
                        option(&mut server, id, &name, room_name, &title, &choice);
                    }
                    5 | 6 => {
                        vote(&mut server, id, &name, room_name, &title, &choice);
                    }
                    7 => {
                        close(&mut server, id, &name, room_name, &title);
                    }
                    8 => {
                        let target = (next() % 12) as u64 + 1;
                        server.handle_elevate(Elevate {
                            object: target,
                            owner_id: id,
                            room_name: room_name.to_string(),
                        });
                    }
                    _ => {
                        let target = (next() % 12) as u64 + 1;
                        server.handle_recede(Recede {
                            object: target,
                            owner_id: id,
                            room_name: room_name.to_string(),
                        });
                    }
                }
            }
        }
        check_invariants(&server);
    }
    assert_eq!(server.rooms.len(), 3);
}
