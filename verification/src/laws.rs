//! Laws of the room state machine: what every command keeps in order, and
//! what some commands undo or repeat.
use crate::invariants::flags_distinct;
use crate::invariants::in_room;
use crate::invariants::lemma_absent;
use crate::invariants::lemma_filter_all;
use crate::invariants::lemma_filter_distinct;
use crate::invariants::lemma_in_room;
use crate::invariants::lemma_push_new;
use crate::invariants::lemma_remove_single;
use crate::invariants::poll_in_order;
use crate::invariants::room_sound;
use crate::invariants::rooms_disjoint;
use crate::invariants::sound;
use crate::messages::outbound::all_text;
use crate::messages::outbound::permission_text;
use crate::messages::outbound::Types;
use crate::model::fan_out;
use crate::model::first_index;
use crate::model::receives;
use crate::model::recipients;
use crate::model::Policy;
use crate::model::is_raised;
use crate::model::leave_notices;
use crate::model::lemma_first_index;
use crate::model::lemma_first_index_is;
use crate::model::memberships;
use crate::model::room_names;
use crate::model::CommandView;
use crate::model::ServerView;
use crate::model::member_ids;
use crate::model::option_titles;
use crate::model::poll_after_leave;
use crate::model::poll_titles;
use crate::model::same_flag;
use crate::model::voters;
use crate::model::without_vote;
use crate::model::PollOptionView;
use crate::model::PollView;
use crate::model::RaisedView;
use crate::model::RoomView;
use crate::model::UserView;
use vstd::prelude::*;

verus! {

/// A room whose users and polls are as in a room in order, and whose flags
/// differ, is in order.
proof fn lemma_room_sound_by_parts(before: RoomView, after: RoomView)
    requires
        room_sound(before),
        member_ids(after.connected) == member_ids(before.connected),
        flags_distinct(after.raised),
        after.polls == before.polls,
    ensures
        room_sound(after),
{
    assert forall|p: int| 0 <= p < after.polls.len() implies poll_in_order(
        after.connected,
        #[trigger] after.polls[p],
    ) by {
        assert(poll_in_order(before.connected, before.polls[p]));
    }
}

/// A room in which one poll was replaced by a poll in order of the same
/// title is in order.
proof fn lemma_room_sound_with_poll(before: RoomView, i: int, poll: PollView)
    requires
        room_sound(before),
        0 <= i < before.polls.len(),
        poll.title == before.polls[i].title,
        poll_in_order(before.connected, poll),
    ensures
        room_sound(RoomView { polls: before.polls.update(i, poll), ..before }),
{
    let after = RoomView { polls: before.polls.update(i, poll), ..before };
    assert(poll_titles(after.polls) =~= poll_titles(before.polls));
    assert forall|p: int| 0 <= p < after.polls.len() implies poll_in_order(
        after.connected,
        #[trigger] after.polls[p],
    ) by {
        if p != i {
            assert(poll_in_order(before.connected, before.polls[p]));
        }
    }
}

/// Raising a flag keeps a room in order, and its users as they are.
pub proof fn lemma_raise_sound(
    room: RoomView,
    sessions: Seq<u64>,
    object: Seq<char>,
    uid: u64,
    name: Seq<char>,
)
    requires
        room_sound(room),
    ensures
        room_sound(room.raise(sessions, object, uid, name).room),
        room.raise(sessions, object, uid, name).room.connected == room.connected,
{
    let after = room.raise(sessions, object, uid, name).room;
    if !is_raised(room.raised, object, uid) {
        assert forall|a: int, b: int| 0 <= a < b < after.raised.len() implies !same_flag(
            #[trigger] after.raised[a],
            (#[trigger] after.raised[b]).object,
            after.raised[b].owner_id,
        ) by {
            assert(after.raised[a] == room.raised[a]);
            if b < room.raised.len() {
                assert(after.raised[b] == room.raised[b]);
            }
        }
        lemma_room_sound_by_parts(room, after);
    }
}

/// Lowering a flag keeps a room in order, and its users as they are.
pub proof fn lemma_lower_sound(
    room: RoomView,
    sessions: Seq<u64>,
    object: Seq<char>,
    uid: u64,
    name: Seq<char>,
)
    requires
        room_sound(room),
    ensures
        room_sound(room.lower(sessions, object, uid, name).room),
        room.lower(sessions, object, uid, name).room.connected == room.connected,
{
    let after = room.lower(sessions, object, uid, name).room;
    if is_raised(room.raised, object, uid) {
        lemma_filter_distinct(room.raised, |r: RaisedView| !same_flag(r, object, uid));
        lemma_room_sound_by_parts(room, after);
    }
}

/// Opening a poll keeps a room in order, and its users as they are.
pub proof fn lemma_open_poll_sound(
    room: RoomView,
    sessions: Seq<u64>,
    title: Seq<char>,
    uid: u64,
    name: Seq<char>,
    room_name: Seq<char>,
)
    requires
        room_sound(room),
    ensures
        room_sound(room.open_poll(sessions, title, uid, name, room_name).room),
        room.open_poll(sessions, title, uid, name, room_name).room.connected == room.connected,
{
    let after = room.open_poll(sessions, title, uid, name, room_name).room;
    if room.is_elevated(uid) && first_index(poll_titles(room.polls), title) is None {
        lemma_absent(poll_titles(room.polls), title);
        lemma_push_new(poll_titles(room.polls), title);
        assert(poll_titles(after.polls) =~= poll_titles(room.polls).push(title));
        assert forall|p: int| 0 <= p < after.polls.len() implies poll_in_order(
            after.connected,
            #[trigger] after.polls[p],
        ) by {
            if p < room.polls.len() {
                assert(after.polls[p] == room.polls[p]);
                assert(poll_in_order(room.connected, room.polls[p]));
            }
        }
    }
}

/// Adding an option keeps a room in order, and its users as they are.
pub proof fn lemma_add_option_sound(
    room: RoomView,
    sessions: Seq<u64>,
    poll_title: Seq<char>,
    title: Seq<char>,
    uid: u64,
    name: Seq<char>,
    room_name: Seq<char>,
)
    requires
        room_sound(room),
    ensures
        room_sound(room.add_option(sessions, poll_title, title, uid, name, room_name).room),
        room.add_option(sessions, poll_title, title, uid, name, room_name).room.connected
            == room.connected,
{
    lemma_first_index(poll_titles(room.polls), poll_title);
    if room.is_elevated(uid) {
        match first_index(poll_titles(room.polls), poll_title) {
            None => {},
            Some(i) => {
                let poll = room.polls[i];
                assert(poll_in_order(room.connected, room.polls[i]));
                if !poll.closed && first_index(option_titles(poll.options), title) is None {
                    let option = PollOptionView {
                        title,
                        owner_id: uid,
                        owner_name: name,
                        room_name,
                        poll_title,
                    };
                    let next = PollView { options: poll.options.push(option), ..poll };
                    lemma_absent(option_titles(poll.options), title);
                    lemma_push_new(option_titles(poll.options), title);
                    assert(option_titles(next.options) =~= option_titles(poll.options).push(title));
                    assert forall|v: int| 0 <= v < next.votes.len() implies member_ids(
                        room.connected,
                    ).contains(#[trigger] voters(next.votes)[v]) by {
                        assert(member_ids(room.connected).contains(voters(poll.votes)[v]));
                    }
                    lemma_room_sound_with_poll(room, i, next);
                }
            },
        }
    }
}

/// After a vote of `uid` the votes of a poll are the one of `uid` and those
/// of the others, and still nobody has two.
pub proof fn lemma_vote_replaces(votes: Seq<(u64, Seq<char>)>, uid: u64, option: Seq<char>)
    requires
        voters(votes).no_duplicates(),
    ensures
        voters(without_vote(votes, uid).push((uid, option))).no_duplicates(),
        !voters(without_vote(votes, uid)).contains(uid),
        forall|other: u64|
            #[trigger] voters(without_vote(votes, uid).push((uid, option))).contains(other) ==> other
                == uid || voters(votes).contains(other),
        forall|other: u64|
            other != uid && voters(votes).contains(other) ==> #[trigger] voters(
                without_vote(votes, uid),
            ).contains(other),
{
    let ids = voters(votes);
    let kept = without_vote(votes, uid);
    lemma_first_index(ids, uid);
    lemma_absent(ids, uid);
    match first_index(ids, uid) {
        Some(j) => {
            lemma_remove_single(ids, uid);
            assert(voters(kept) =~= ids.remove(j));
        },
        None => {},
    }
    lemma_push_new(voters(kept), uid);
    let after = kept.push((uid, option));
    assert(voters(after) =~= voters(kept).push(uid));
    assert forall|other: u64| #[trigger] voters(after).contains(other) implies other == uid
        || ids.contains(other) by {
        let a = choose|a: int| 0 <= a < voters(after).len() && voters(after)[a] == other;
        if a < voters(kept).len() {
            assert(voters(kept).contains(voters(kept)[a]));
        }
    }
}

/// A vote of a user of the room keeps the room in order, and its users as
/// they are.
pub proof fn lemma_cast_vote_sound(
    room: RoomView,
    sessions: Seq<u64>,
    poll_title: Seq<char>,
    option_title: Seq<char>,
    uid: u64,
    name: Seq<char>,
)
    requires
        room_sound(room),
        in_room(room, uid),
    ensures
        room_sound(room.cast_vote(sessions, poll_title, option_title, uid, name).room),
        room.cast_vote(sessions, poll_title, option_title, uid, name).room.connected
            == room.connected,
{
    lemma_first_index(poll_titles(room.polls), poll_title);
    match first_index(poll_titles(room.polls), poll_title) {
        None => {},
        Some(i) => {
            let poll = room.polls[i];
            assert(poll_in_order(room.connected, room.polls[i]));
            if !poll.closed && first_index(option_titles(poll.options), option_title) is Some {
                let votes = without_vote(poll.votes, uid).push((uid, option_title));
                let next = PollView { votes, ..poll };
                lemma_vote_replaces(poll.votes, uid, option_title);
                assert forall|v: int| 0 <= v < next.votes.len() implies member_ids(
                    room.connected,
                ).contains(#[trigger] voters(next.votes)[v]) by {
                    let other = voters(next.votes)[v];
                    assert(voters(next.votes).contains(other));
                    if other != uid {
                        let w = choose|w: int|
                            0 <= w < voters(poll.votes).len() && voters(poll.votes)[w] == other;
                        assert(member_ids(room.connected).contains(voters(poll.votes)[w]));
                    }
                }
                lemma_room_sound_with_poll(room, i, next);
            }
        },
    }
}

/// Closing a poll keeps a room in order, and its users as they are.
pub proof fn lemma_close_poll_sound(
    room: RoomView,
    sessions: Seq<u64>,
    poll_title: Seq<char>,
    uid: u64,
)
    requires
        room_sound(room),
    ensures
        room_sound(room.close_poll(sessions, poll_title, uid).room),
        room.close_poll(sessions, poll_title, uid).room.connected == room.connected,
{
    lemma_first_index(poll_titles(room.polls), poll_title);
    if room.is_elevated(uid) {
        match first_index(poll_titles(room.polls), poll_title) {
            None => {},
            Some(i) => {
                let poll = room.polls[i];
                assert(poll_in_order(room.connected, room.polls[i]));
                if !poll.closed {
                    lemma_room_sound_with_poll(room, i, PollView { closed: true, ..poll });
                }
            },
        }
    }
}

/// Setting a privilege keeps a room in order, and the ids of its users as
/// they are.
pub proof fn lemma_set_elevated_sound(room: RoomView, uid: u64, elevated: bool)
    requires
        room_sound(room),
    ensures
        room_sound(room.set_elevated(uid, elevated)),
        member_ids(room.set_elevated(uid, elevated).connected) == member_ids(room.connected),
{
    let after = room.set_elevated(uid, elevated);
    lemma_first_index(member_ids(room.connected), uid);
    assert(member_ids(after.connected) =~= member_ids(room.connected));
    lemma_room_sound_by_parts(room, after);
}

/// A request to elevate or recede keeps a room in order, and the ids of its
/// users as they are.
pub proof fn lemma_rerole_sound(
    room: RoomView,
    sessions: Seq<u64>,
    requester: u64,
    target: u64,
    elevated: bool,
)
    requires
        room_sound(room),
    ensures
        room_sound(room.rerole(sessions, requester, target, elevated).room),
        member_ids(room.rerole(sessions, requester, target, elevated).room.connected)
            == member_ids(room.connected),
        room.rerole(sessions, requester, target, elevated).room == room.change_privilege(
            sessions,
            requester,
            target,
            elevated,
        ).room,
{
    lemma_set_elevated_sound(room, target, elevated);
}

/// Entering keeps a room in order; its users are then those before and the
/// one who entered.
pub proof fn lemma_enter_sound(room: RoomView, sessions: Seq<u64>, uid: u64, name: Seq<char>)
    requires
        room_sound(room),
    ensures
        room_sound(room.enter(sessions, uid, name).room),
        forall|other: u64|
            in_room(room.enter(sessions, uid, name).room, other) <==> other == uid || in_room(
                room,
                other,
            ),
{
    let after = room.enter(sessions, uid, name).room;
    let ids = member_ids(room.connected);
    lemma_first_index(ids, uid);
    lemma_absent(ids, uid);
    match room.member_index(uid) {
        Some(i) => {
            assert(member_ids(after.connected) =~= ids);
            assert(ids.contains(ids[i]));
        },
        None => {
            lemma_push_new(ids, uid);
            assert(member_ids(after.connected) =~= ids.push(uid));
            assert(ids.push(uid)[ids.len() as int] == uid);
            assert forall|other: u64| in_room(room, other) implies in_room(after, other) by {
                let a = choose|a: int| 0 <= a < ids.len() && ids[a] == other;
                assert(ids.push(uid)[a] == other);
            }
            assert forall|other: u64| in_room(after, other) implies other == uid || in_room(
                room,
                other,
            ) by {
                let a = choose|a: int| 0 <= a < ids.push(uid).len() && ids.push(uid)[a] == other;
                if a < ids.len() {
                    assert(ids[a] == other);
                }
            }
        },
    }
    assert forall|p: int| 0 <= p < after.polls.len() implies poll_in_order(
        after.connected,
        #[trigger] after.polls[p],
    ) by {
        let poll = room.polls[p];
        assert(poll_in_order(room.connected, poll));
        if !poll.closed {
            assert forall|v: int| 0 <= v < poll.votes.len() implies member_ids(
                after.connected,
            ).contains(#[trigger] voters(poll.votes)[v]) by {
                assert(ids.contains(voters(poll.votes)[v]));
                assert(in_room(room, voters(poll.votes)[v]));
            }
        }
    }
}

/// Leaving keeps a room in order; its users are then those before without
/// the one who left. No flag of that user is left, no open poll holds a
/// vote of that user, and every closed poll is as it was. Those who stay get
/// one snapshot, then the notices of the votes that went.
pub proof fn lemma_leave_sound(room: RoomView, sessions: Seq<u64>, uid: u64)
    requires
        room_sound(room),
    ensures
        room_sound(room.leave(sessions, uid).room),
        forall|other: u64|
            in_room(room.leave(sessions, uid).room, other) <==> other != uid && in_room(
                room,
                other,
            ),
        forall|f: int|
            0 <= f < room.leave(sessions, uid).room.raised.len() ==> (
            #[trigger] room.leave(sessions, uid).room.raised[f]).owner_id != uid,
        room.leave(sessions, uid).room.polls.len() == room.polls.len(),
        room.leave(sessions, uid).sent == fan_out(
            room.leave(sessions, uid).room.connected,
            sessions,
            Policy::All,
            all_text(room.leave(sessions, uid).room.raised, room.leave(sessions, uid).room.connected),
        ) + leave_notices(room.leave(sessions, uid).room.connected, sessions, room.polls, uid),
        forall|p: int|
            0 <= p < room.polls.len() ==> {
                let poll = #[trigger] room.leave(sessions, uid).room.polls[p];
                if room.polls[p].closed {
                    poll == room.polls[p]
                } else {
                    !voters(poll.votes).contains(uid)
                }
            },
{
    let after = room.leave(sessions, uid).room;
    let ids = member_ids(room.connected);
    lemma_first_index(ids, uid);
    lemma_absent(ids, uid);
    match room.member_index(uid) {
        Some(i) => {
            lemma_remove_single(ids, uid);
            assert(member_ids(after.connected) =~= ids.remove(i));
        },
        None => {},
    }
    assert forall|other: u64| in_room(after, other) <==> other != uid && in_room(room, other) by {}
    lemma_filter_distinct(room.raised, |r: RaisedView| r.owner_id != uid);
    assert(poll_titles(after.polls) =~= poll_titles(room.polls));
    assert forall|p: int| 0 <= p < after.polls.len() implies poll_in_order(
        after.connected,
        #[trigger] after.polls[p],
    ) && (if room.polls[p].closed {
        after.polls[p] == room.polls[p]
    } else {
        !voters(after.polls[p].votes).contains(uid)
    }) by {
        let poll = room.polls[p];
        assert(poll_in_order(room.connected, poll));
        assert(after.polls[p] == poll_after_leave(poll, uid));
        if !poll.closed {
            let kept = without_vote(poll.votes, uid);
            lemma_vote_replaces(poll.votes, uid, Seq::empty());
            lemma_first_index(voters(poll.votes), uid);
            match first_index(voters(poll.votes), uid) {
                Some(j) => {
                    lemma_remove_single(voters(poll.votes), uid);
                    assert(voters(kept) =~= voters(poll.votes).remove(j));
                },
                None => {},
            }
            assert forall|v: int| 0 <= v < kept.len() implies member_ids(after.connected).contains(
                #[trigger] voters(kept)[v],
            ) by {
                let other = voters(kept)[v];
                assert(voters(kept).contains(other));
                assert(voters(poll.votes).contains(other));
                let w = choose|w: int|
                    0 <= w < voters(poll.votes).len() && voters(poll.votes)[w] == other;
                assert(ids.contains(voters(poll.votes)[w]));
                assert(in_room(room, other));
                assert(in_room(after, other));
            }
        }
    }
}

/// `uid` is in no room but, at most, the room `room_name`.
pub open spec fn in_no_other_room(s: ServerView, uid: u64, room_name: Seq<char>) -> bool {
    forall|r: int|
        0 <= r < s.rooms.len() && #[trigger] in_room(s.rooms[r].1, uid) ==> s.rooms[r].0
            == room_name
}

/// `uid` is a user of the room `room_name`, if there is such a room.
pub open spec fn votes_at_home(s: ServerView, uid: u64, room_name: Seq<char>) -> bool {
    match s.room_index(room_name) {
        Some(i) => in_room(s.rooms[i].1, uid),
        None => true,
    }
}

/// A command as a session sends it: a session that enters a room is in no
/// other room, and a session votes in the room that it is in.
pub open spec fn admissible(s: ServerView, command: CommandView) -> bool {
    match command {
        CommandView::Join { user_id, user_name, room_name } => in_no_other_room(
            s,
            user_id,
            room_name,
        ),
        CommandView::Vote {
            poll_title,
            option_title,
            owner_id,
            owner_name,
            room_name,
        } => votes_at_home(s, owner_id, room_name),
        _ => true,
    }
}

/// The state after the commands `commands`, one after the other.
pub open spec fn run(s: ServerView, commands: Seq<CommandView>) -> ServerView
    decreases commands.len(),
{
    if commands.len() == 0 {
        s
    } else {
        run(s, commands.drop_last()).step(commands.last()).state
    }
}

/// Each of the commands is admissible in the state that it meets.
pub open spec fn admissible_run(s: ServerView, commands: Seq<CommandView>) -> bool
    decreases commands.len(),
{
    if commands.len() == 0 {
        true
    } else {
        admissible_run(s, commands.drop_last()) && admissible(
            run(s, commands.drop_last()),
            commands.last(),
        )
    }
}

/// A coordinator in order stays in order where one room is replaced by a
/// room in order and the sessions by others, as long as every user of a room
/// has a session and no user of the new room is in another room.
proof fn lemma_rebuild(s: ServerView, sessions: Seq<u64>, i: int, room: RoomView)
    requires
        sound(s),
        sessions.no_duplicates(),
        0 <= i < s.rooms.len(),
        room_sound(room),
        forall|x: u64| in_room(room, x) ==> sessions.contains(x),
        forall|r: int, x: u64|
            0 <= r < s.rooms.len() && r != i && #[trigger] in_room(s.rooms[r].1, x)
                ==> sessions.contains(x) && !in_room(room, x),
    ensures
        sound(ServerView { sessions, rooms: s.rooms.update(i, (s.rooms[i].0, room)) }),
{
    let after = ServerView { sessions, rooms: s.rooms.update(i, (s.rooms[i].0, room)) };
    assert(room_names(after.rooms) =~= room_names(s.rooms));
    assert forall|r: int| 0 <= r < after.rooms.len() implies room_sound(
        (#[trigger] after.rooms[r]).1,
    ) by {
        if r != i {
            assert(after.rooms[r] == s.rooms[r]);
        }
    }
    assert forall|r: int, uid: u64|
        0 <= r < after.rooms.len() && #[trigger] in_room(
            after.rooms[r].1,
            uid,
        ) implies after.sessions.contains(uid) by {
        if r != i {
            assert(after.rooms[r] == s.rooms[r]);
            assert(in_room(s.rooms[r].1, uid));
        }
    }
    assert forall|a: int, b: int, uid: u64|
        0 <= a < after.rooms.len() && 0 <= b < after.rooms.len() && a != b && #[trigger] in_room(
            after.rooms[a].1,
            uid,
        ) implies !#[trigger] in_room(after.rooms[b].1, uid) by {
        if a != i {
            assert(after.rooms[a] == s.rooms[a]);
            assert(in_room(s.rooms[a].1, uid));
        }
        if b != i {
            assert(after.rooms[b] == s.rooms[b]);
            if a == i {
                if in_room(s.rooms[b].1, uid) {
                    assert(!in_room(room, uid));
                }
            }
        }
    }
}

/// A coordinator in order stays in order where one room is replaced by a
/// room in order with the same users.
proof fn lemma_with_room_sound(s: ServerView, i: int, room: RoomView)
    requires
        sound(s),
        0 <= i < s.rooms.len(),
        room_sound(room),
        member_ids(room.connected) == member_ids(s.rooms[i].1.connected),
    ensures
        sound(ServerView { rooms: s.rooms.update(i, (s.rooms[i].0, room)), ..s }),
{
    assert forall|x: u64| in_room(room, x) implies s.sessions.contains(x) by {
        assert(in_room(s.rooms[i].1, x));
    }
    assert forall|r: int, x: u64|
        0 <= r < s.rooms.len() && r != i && #[trigger] in_room(
            s.rooms[r].1,
            x,
        ) implies s.sessions.contains(x) && !in_room(room, x) by {
        if in_room(room, x) {
            assert(in_room(s.rooms[i].1, x));
        }
    }
    lemma_rebuild(s, s.sessions, i, room);
}

/// The coordinator without sessions or rooms is in order.
pub proof fn lemma_empty_sound()
    ensures
        sound(ServerView::empty()),
{
}

/// Where a room has a place, it is the place of a room of that name.
proof fn lemma_room_index(s: ServerView, name: Seq<char>)
    ensures
        match s.room_index(name) {
            Some(i) => 0 <= i < s.rooms.len() && s.rooms[i].0 == name,
            None => forall|r: int| 0 <= r < s.rooms.len() ==> (#[trigger] s.rooms[r]).0 != name,
        },
{
    lemma_first_index(room_names(s.rooms), name);
    match s.room_index(name) {
        Some(i) => {
            assert(room_names(s.rooms)[i] == name);
        },
        None => {
            assert forall|r: int| 0 <= r < s.rooms.len() implies (#[trigger] s.rooms[r]).0
                != name by {
                assert(room_names(s.rooms)[r] != name);
            }
        },
    }
}

/// Entering a room keeps the coordinator in order, for a session that is in
/// no other room.
pub proof fn lemma_join_sound(s: ServerView, uid: u64, name: Seq<char>, room_name: Seq<char>)
    requires
        sound(s),
        admissible(s, CommandView::Join { user_id: uid, user_name: name, room_name }),
    ensures
        sound(s.join(uid, name, room_name).state),
{
    let sessions = if s.sessions.contains(uid) {
        s.sessions
    } else {
        s.sessions.push(uid)
    };
    let rooms = if s.room_index(room_name) is Some {
        s.rooms
    } else {
        s.rooms.push((room_name, RoomView::empty()))
    };
    let noted = ServerView { sessions, rooms };
    lemma_room_index(s, room_name);
    if !s.sessions.contains(uid) {
        lemma_push_new(s.sessions, uid);
    }
    assert forall|x: u64| s.sessions.contains(x) implies sessions.contains(x) by {
        if !s.sessions.contains(uid) {
            let a = choose|a: int| 0 <= a < s.sessions.len() && s.sessions[a] == x;
            assert(sessions[a] == x);
        }
    }
    assert(sessions.contains(uid)) by {
        if !s.sessions.contains(uid) {
            assert(sessions[s.sessions.len() as int] == uid);
        }
    }
    if s.room_index(room_name) is None {
        lemma_absent(room_names(s.rooms), room_name);
        lemma_push_new(room_names(s.rooms), room_name);
        assert(room_names(rooms) =~= room_names(s.rooms).push(room_name));
        lemma_first_index_is(room_names(rooms), room_name, s.rooms.len() as int);
        assert(!in_room(RoomView::empty(), uid));
    }
    assert forall|r: int| 0 <= r < rooms.len() implies room_sound((#[trigger] rooms[r]).1) by {
        if r < s.rooms.len() {
            assert(rooms[r] == s.rooms[r]);
        }
    }
    assert forall|r: int, x: u64|
        0 <= r < rooms.len() && #[trigger] in_room(rooms[r].1, x) implies sessions.contains(
        x,
    ) && r < s.rooms.len() && in_room(s.rooms[r].1, x) by {
        if r < s.rooms.len() {
            assert(rooms[r] == s.rooms[r]);
            assert(in_room(s.rooms[r].1, x));
        }
    }
    assert(rooms_disjoint(noted)) by {
        assert forall|a: int, b: int, x: u64|
            0 <= a < rooms.len() && 0 <= b < rooms.len() && a != b && #[trigger] in_room(
                rooms[a].1,
                x,
            ) implies !#[trigger] in_room(rooms[b].1, x) by {
            if in_room(rooms[b].1, x) {
                assert(in_room(s.rooms[a].1, x));
                assert(in_room(s.rooms[b].1, x));
            }
        }
    }
    assert(sound(noted));
    lemma_room_index(noted, room_name);
    let i = noted.room_index(room_name).unwrap();
    let room = noted.rooms[i].1.enter(sessions, uid, name).room;
    lemma_enter_sound(noted.rooms[i].1, sessions, uid, name);
    assert forall|x: u64| in_room(room, x) implies sessions.contains(x) by {
        if x != uid {
            assert(in_room(noted.rooms[i].1, x));
        }
    }
    assert forall|r: int, x: u64|
        0 <= r < rooms.len() && r != i && #[trigger] in_room(
            rooms[r].1,
            x,
        ) implies sessions.contains(x) && !in_room(room, x) by {
        if in_room(room, x) {
            if x == uid {
                assert(r < s.rooms.len());
                assert(in_room(s.rooms[r].1, uid));
                assert(in_no_other_room(s, uid, room_name));
                assert(s.rooms[r].0 == room_name);
                assert(room_names(rooms)[r] == room_names(rooms)[i]);
            } else {
                assert(in_room(noted.rooms[i].1, x));
            }
        }
    }
    lemma_rebuild(noted, sessions, i, room);
}

/// The end of a session keeps the coordinator in order.
pub proof fn lemma_disconnect_sound(s: ServerView, uid: u64)
    requires
        sound(s),
    ensures
        sound(s.disconnect(uid).state),
{
    lemma_first_index(s.sessions, uid);
    match first_index(s.sessions, uid) {
        None => {},
        Some(k) => {
            let sessions = s.sessions.remove(k);
            lemma_remove_single(s.sessions, uid);
            lemma_first_index(memberships(s.rooms, uid), true);
            match s.room_of(uid) {
                None => {
                    assert forall|r: int| 0 <= r < s.rooms.len() implies !in_room(
                        (#[trigger] s.rooms[r]).1,
                        uid,
                    ) by {
                        assert(memberships(s.rooms, uid)[r] != true);
                        lemma_in_room(s.rooms[r].1, uid);
                    }
                    let after = ServerView { sessions, ..s };
                    assert forall|r: int, x: u64|
                        0 <= r < after.rooms.len() && #[trigger] in_room(
                            after.rooms[r].1,
                            x,
                        ) implies after.sessions.contains(x) by {
                        assert(s.sessions.contains(x));
                        assert(!in_room(s.rooms[r].1, uid));
                    }
                    assert(rooms_disjoint(after));
                    assert(sound(after));
                },
                Some(i) => {
                    assert(memberships(s.rooms, uid)[i] == true);
                    lemma_in_room(s.rooms[i].1, uid);
                    let room = s.rooms[i].1.leave(sessions, uid).room;
                    lemma_leave_sound(s.rooms[i].1, sessions, uid);
                    assert forall|x: u64| in_room(room, x) implies sessions.contains(x) by {
                        assert(in_room(s.rooms[i].1, x));
                        assert(s.sessions.contains(x));
                    }
                    assert forall|r: int, x: u64|
                        0 <= r < s.rooms.len() && r != i && #[trigger] in_room(
                            s.rooms[r].1,
                            x,
                        ) implies sessions.contains(x) && !in_room(room, x) by {
                        assert(s.sessions.contains(x));
                        if x == uid {
                            assert(in_room(s.rooms[i].1, uid));
                        }
                        if in_room(room, x) {
                            assert(in_room(s.rooms[i].1, x));
                        }
                    }
                    lemma_rebuild(s, sessions, i, room);
                },
            }
        },
    }
}

/// Every admissible command keeps the coordinator in order: no session is
/// noted twice, the names of the rooms differ, no user is in a room twice or
/// in two rooms, every user has a live session, no flag is raised twice, the
/// titles of the polls of a room and of the options of a poll differ, nobody
/// has two votes in a poll, and who has voted in an open poll is in the
/// room.
pub proof fn lemma_step_sound(s: ServerView, command: CommandView)
    requires
        sound(s),
        admissible(s, command),
    ensures
        sound(s.step(command).state),
{
    match command {
        CommandView::Join { user_id, user_name, room_name } => {
            lemma_join_sound(s, user_id, user_name, room_name);
        },
        CommandView::Disconnect { id } => {
            lemma_disconnect_sound(s, id);
        },
        CommandView::Raise { object, owner_id, owner_name, room_name } => {
            lemma_room_index(s, room_name);
            if let Some(i) = s.room_index(room_name) {
                lemma_raise_sound(s.rooms[i].1, s.sessions, object, owner_id, owner_name);
                lemma_with_room_sound(
                    s,
                    i,
                    s.rooms[i].1.raise(s.sessions, object, owner_id, owner_name).room,
                );
            }
        },
        CommandView::Lower { object, owner_id, owner_name, room_name } => {
            lemma_room_index(s, room_name);
            if let Some(i) = s.room_index(room_name) {
                lemma_lower_sound(s.rooms[i].1, s.sessions, object, owner_id, owner_name);
                lemma_with_room_sound(
                    s,
                    i,
                    s.rooms[i].1.lower(s.sessions, object, owner_id, owner_name).room,
                );
            }
        },
        CommandView::Instant { object, owner_id, owner_name, room_name } => {
            lemma_room_index(s, room_name);
            if let Some(i) = s.room_index(room_name) {
                lemma_with_room_sound(s, i, s.rooms[i].1);
            }
        },
        CommandView::Poll { title, owner_id, owner_name, room_name } => {
            lemma_room_index(s, room_name);
            if let Some(i) = s.room_index(room_name) {
                lemma_open_poll_sound(
                    s.rooms[i].1,
                    s.sessions,
                    title,
                    owner_id,
                    owner_name,
                    room_name,
                );
                lemma_with_room_sound(
                    s,
                    i,
                    s.rooms[i].1.open_poll(s.sessions, title, owner_id, owner_name, room_name).room,
                );
            }
        },
        CommandView::PollOption { poll_title, title, owner_id, owner_name, room_name } => {
            lemma_room_index(s, room_name);
            if let Some(i) = s.room_index(room_name) {
                lemma_add_option_sound(
                    s.rooms[i].1,
                    s.sessions,
                    poll_title,
                    title,
                    owner_id,
                    owner_name,
                    room_name,
                );
                lemma_with_room_sound(
                    s,
                    i,
                    s.rooms[i].1.add_option(
                        s.sessions,
                        poll_title,
                        title,
                        owner_id,
                        owner_name,
                        room_name,
                    ).room,
                );
            }
        },
        CommandView::Vote { poll_title, option_title, owner_id, owner_name, room_name } => {
            lemma_room_index(s, room_name);
            if let Some(i) = s.room_index(room_name) {
                lemma_cast_vote_sound(
                    s.rooms[i].1,
                    s.sessions,
                    poll_title,
                    option_title,
                    owner_id,
                    owner_name,
                );
                lemma_with_room_sound(
                    s,
                    i,
                    s.rooms[i].1.cast_vote(
                        s.sessions,
                        poll_title,
                        option_title,
                        owner_id,
                        owner_name,
                    ).room,
                );
            }
        },
        CommandView::PollClose { poll_title, sender_id, room_name } => {
            lemma_room_index(s, room_name);
            if let Some(i) = s.room_index(room_name) {
                lemma_close_poll_sound(s.rooms[i].1, s.sessions, poll_title, sender_id);
                lemma_with_room_sound(
                    s,
                    i,
                    s.rooms[i].1.close_poll(s.sessions, poll_title, sender_id).room,
                );
            }
        },
        CommandView::Elevate { target, owner_id, room_name } => {
            lemma_room_index(s, room_name);
            if let Some(i) = s.room_index(room_name) {
                lemma_rerole_sound(s.rooms[i].1, s.sessions, owner_id, target, true);
                lemma_with_room_sound(
                    s,
                    i,
                    s.rooms[i].1.rerole(s.sessions, owner_id, target, true).room,
                );
            }
        },
        CommandView::Recede { target, owner_id, room_name } => {
            lemma_room_index(s, room_name);
            if let Some(i) = s.room_index(room_name) {
                lemma_rerole_sound(s.rooms[i].1, s.sessions, owner_id, target, false);
                lemma_with_room_sound(
                    s,
                    i,
                    s.rooms[i].1.rerole(s.sessions, owner_id, target, false).room,
                );
            }
        },
        CommandView::Relay { id, msg, room } => {},
    }
}

/// A change of privilege keeps the coordinator in order.
pub proof fn lemma_change_privilege_sound(
    s: ServerView,
    room_name: Seq<char>,
    requester: u64,
    target: u64,
    elevated: bool,
)
    requires
        sound(s),
    ensures
        sound(s.change_privilege(room_name, requester, target, elevated).state),
{
    lemma_room_index(s, room_name);
    if let Some(i) = s.room_index(room_name) {
        lemma_rerole_sound(s.rooms[i].1, s.sessions, requester, target, elevated);
        lemma_with_room_sound(
            s,
            i,
            s.rooms[i].1.change_privilege(s.sessions, requester, target, elevated).room,
        );
    }
}

/// A session that is not noted yet is in no room, so it may enter any.
pub proof fn lemma_new_session_may_join(s: ServerView, uid: u64, room_name: Seq<char>)
    requires
        sound(s),
        !s.sessions.contains(uid),
    ensures
        in_no_other_room(s, uid, room_name),
{
}

/// A room that is replaced keeps its name and its place.
proof fn lemma_with_room_keeps_names(s: ServerView, name: Seq<char>, room: RoomView)
    ensures
        match s.room_index(name) {
            Some(i) => room_names(s.rooms.update(i, (s.rooms[i].0, room))) == room_names(s.rooms),
            None => true,
        },
{
    lemma_room_index(s, name);
    if let Some(i) = s.room_index(name) {
        assert(room_names(s.rooms.update(i, (s.rooms[i].0, room))) =~= room_names(s.rooms));
    }
}

/// Rooms stay: after a command every room is where it was, under its name,
/// and a room is added at the end at most.
pub proof fn lemma_step_keeps_rooms(s: ServerView, command: CommandView)
    ensures
        room_names(s.rooms).is_prefix_of(room_names(s.step(command).state.rooms)),
        s.step(command).state.rooms.len() <= s.rooms.len() + 1,
{
    let after = s.step(command).state;
    match command {
        CommandView::Join { user_id, user_name, room_name } => {
            let sessions = if s.sessions.contains(user_id) {
                s.sessions
            } else {
                s.sessions.push(user_id)
            };
            let rooms = if s.room_index(room_name) is Some {
                s.rooms
            } else {
                s.rooms.push((room_name, RoomView::empty()))
            };
            let noted = ServerView { sessions, rooms };
            lemma_room_index(s, room_name);
            if s.room_index(room_name) is None {
                lemma_first_index_is(room_names(rooms), room_name, s.rooms.len() as int);
            }
            let i = noted.room_index(room_name).unwrap();
            lemma_with_room_keeps_names(
                noted,
                room_name,
                noted.rooms[i].1.enter(sessions, user_id, user_name).room,
            );
            assert(room_names(s.rooms) =~= room_names(rooms).subrange(0, s.rooms.len() as int));
        },
        CommandView::Disconnect { id } => {
            lemma_first_index(s.sessions, id);
            lemma_first_index(memberships(s.rooms, id), true);
            assert(room_names(after.rooms) =~= room_names(s.rooms));
        },
        CommandView::Raise { object, owner_id, owner_name, room_name } => {
            if let Some(i) = s.room_index(room_name) {
                lemma_with_room_keeps_names(
                    s,
                    room_name,
                    s.rooms[i].1.raise(s.sessions, object, owner_id, owner_name).room,
                );
            }
        },
        CommandView::Lower { object, owner_id, owner_name, room_name } => {
            if let Some(i) = s.room_index(room_name) {
                lemma_with_room_keeps_names(
                    s,
                    room_name,
                    s.rooms[i].1.lower(s.sessions, object, owner_id, owner_name).room,
                );
            }
        },
        CommandView::Instant { object, owner_id, owner_name, room_name } => {
            if let Some(i) = s.room_index(room_name) {
                lemma_with_room_keeps_names(s, room_name, s.rooms[i].1);
            }
        },
        CommandView::Poll { title, owner_id, owner_name, room_name } => {
            if let Some(i) = s.room_index(room_name) {
                lemma_with_room_keeps_names(
                    s,
                    room_name,
                    s.rooms[i].1.open_poll(s.sessions, title, owner_id, owner_name, room_name).room,
                );
            }
        },
        CommandView::PollOption { poll_title, title, owner_id, owner_name, room_name } => {
            if let Some(i) = s.room_index(room_name) {
                lemma_with_room_keeps_names(
                    s,
                    room_name,
                    s.rooms[i].1.add_option(
                        s.sessions,
                        poll_title,
                        title,
                        owner_id,
                        owner_name,
                        room_name,
                    ).room,
                );
            }
        },
        CommandView::Vote { poll_title, option_title, owner_id, owner_name, room_name } => {
            if let Some(i) = s.room_index(room_name) {
                lemma_with_room_keeps_names(
                    s,
                    room_name,
                    s.rooms[i].1.cast_vote(
                        s.sessions,
                        poll_title,
                        option_title,
                        owner_id,
                        owner_name,
                    ).room,
                );
            }
        },
        CommandView::PollClose { poll_title, sender_id, room_name } => {
            if let Some(i) = s.room_index(room_name) {
                lemma_with_room_keeps_names(
                    s,
                    room_name,
                    s.rooms[i].1.close_poll(s.sessions, poll_title, sender_id).room,
                );
            }
        },
        CommandView::Elevate { target, owner_id, room_name } => {
            if let Some(i) = s.room_index(room_name) {
                lemma_with_room_keeps_names(
                    s,
                    room_name,
                    s.rooms[i].1.rerole(s.sessions, owner_id, target, true).room,
                );
            }
        },
        CommandView::Recede { target, owner_id, room_name } => {
            if let Some(i) = s.room_index(room_name) {
                lemma_with_room_keeps_names(
                    s,
                    room_name,
                    s.rooms[i].1.rerole(s.sessions, owner_id, target, false).room,
                );
            }
        },
        CommandView::Relay { id, msg, room } => {},
    }
}

/// After any sequence of admissible commands, begun with no session and no
/// room, the coordinator is in order.
pub proof fn lemma_run_sound(commands: Seq<CommandView>)
    requires
        admissible_run(ServerView::empty(), commands),
    ensures
        sound(run(ServerView::empty(), commands)),
    decreases commands.len(),
{
    if commands.len() == 0 {
        lemma_empty_sound();
    } else {
        lemma_run_sound(commands.drop_last());
        lemma_step_sound(run(ServerView::empty(), commands.drop_last()), commands.last());
    }
}

/// A flag that is raised and then lowered leaves the room as it was, where
/// the flag was not raised before.
pub proof fn lemma_raise_then_lower(
    room: RoomView,
    sessions: Seq<u64>,
    object: Seq<char>,
    uid: u64,
    name: Seq<char>,
)
    requires
        !is_raised(room.raised, object, uid),
    ensures
        room.raise(sessions, object, uid, name).room.lower(sessions, object, uid, name).room
            == room,
{
    let flag = RaisedView { object, owner_id: uid, owner_name: name };
    let raised = room.raise(sessions, object, uid, name).room;
    let keep = |r: RaisedView| !same_flag(r, object, uid);
    assert(same_flag(raised.raised[room.raised.len() as int], object, uid));
    room.raised.lemma_filter_push(flag, keep);
    assert forall|i: int| 0 <= i < room.raised.len() implies keep(#[trigger] room.raised[i]) by {}
    lemma_filter_all(room.raised, keep);
}

/// A flag that is raised twice is kept once: the second request changes
/// nothing and is answered with the error `already_raised` to its sender
/// alone.
pub proof fn lemma_raise_twice(
    room: RoomView,
    sessions: Seq<u64>,
    object: Seq<char>,
    uid: u64,
    name: Seq<char>,
)
    ensures
        ({
            let once = room.raise(sessions, object, uid, name).room;
            let twice = once.raise(sessions, object, uid, name);
            &&& twice.room == once
            &&& twice.sent == once.reject(
                sessions,
                uid,
                "already_raised"@,
                "Refusing to raise, already raised"@,
            ).sent
            &&& !is_raised(room.raised, object, uid) ==> once.raised == room.raised.push(
                RaisedView { object, owner_id: uid, owner_name: name },
            )
        }),
{
    let once = room.raise(sessions, object, uid, name).room;
    if !is_raised(room.raised, object, uid) {
        assert(same_flag(once.raised[room.raised.len() as int], object, uid));
    }
}

/// A vote overwrites: after a vote that is accepted, the poll holds one vote
/// of the voter, for the option just chosen, and the votes of the others as
/// they were.
pub proof fn lemma_vote_overwrites(
    room: RoomView,
    sessions: Seq<u64>,
    poll_title: Seq<char>,
    option_title: Seq<char>,
    uid: u64,
    name: Seq<char>,
)
    requires
        room_sound(room),
        first_index(poll_titles(room.polls), poll_title) is Some,
        !room.polls[first_index(poll_titles(room.polls), poll_title).unwrap()].closed,
        first_index(
            option_titles(
                room.polls[first_index(poll_titles(room.polls), poll_title).unwrap()].options,
            ),
            option_title,
        ) is Some,
    ensures
        ({
            let i = first_index(poll_titles(room.polls), poll_title).unwrap();
            let votes = room.cast_vote(sessions, poll_title, option_title, uid, name).room.polls[i].votes;
            &&& voters(votes).no_duplicates()
            &&& votes.last() == (uid, option_title)
            &&& votes.drop_last() == without_vote(room.polls[i].votes, uid)
            &&& !voters(votes.drop_last()).contains(uid)
        }),
{
    lemma_first_index(poll_titles(room.polls), poll_title);
    let i = first_index(poll_titles(room.polls), poll_title).unwrap();
    let poll = room.polls[i];
    assert(poll_in_order(room.connected, room.polls[i]));
    lemma_vote_replaces(poll.votes, uid, option_title);
    let votes = room.cast_vote(sessions, poll_title, option_title, uid, name).room.polls[i].votes;
    assert(votes.drop_last() =~= without_vote(poll.votes, uid));
}

/// Who enters an empty room becomes a moderator, who enters another room
/// does not, and the frame `self` tells the newcomer so.
pub proof fn lemma_enter_elevation(room: RoomView, sessions: Seq<u64>, uid: u64, name: Seq<char>)
    ensures
        room.enter(sessions, uid, name).room.elevation(uid) == Some(room.connected.len() == 0),
        sessions.contains(uid) ==> room.enter(sessions, uid, name).sent.contains(
            (uid, permission_text(Types::SelfStatus, uid, room.connected.len() == 0)),
        ),
{
    let after = room.enter(sessions, uid, name).room;
    let ids = member_ids(room.connected);
    lemma_first_index(ids, uid);
    let place = match room.member_index(uid) {
        Some(i) => i,
        None => room.connected.len() as int,
    };
    assert(after.connected[place].0 == uid);
    assert forall|j: int| 0 <= j < place implies member_ids(after.connected)[j] != uid by {
        assert(ids[j] != uid);
    }
    lemma_first_index_is(member_ids(after.connected), uid, place);
    if sessions.contains(uid) {
        let text = permission_text(Types::SelfStatus, uid, room.connected.len() == 0);
        lemma_fan_out_reaches(after.connected, sessions, Policy::Only(uid), text, place);
        let sent = room.enter(sessions, uid, name).sent;
        let part = after.send(sessions, Policy::Only(uid), text);
        let k = choose|k: int| 0 <= k < part.len() && part[k] == (uid, text);
        let before = after.send(
            sessions,
            Policy::Skip(uid),
            crate::messages::outbound::joined_text(uid, name, room.connected.len() == 0),
        ) + after.send(sessions, Policy::Only(uid), after.snapshot());
        assert(sent[before.len() + k] == (uid, text));
    }
}

/// The first user of a new room is a moderator, the second is not.
pub proof fn lemma_first_and_second_joiner(
    sessions: Seq<u64>,
    first: u64,
    first_name: Seq<char>,
    second: u64,
    second_name: Seq<char>,
)
    requires
        first != second,
    ensures
        ({
            let one = RoomView::empty().enter(sessions, first, first_name).room;
            let two = one.enter(sessions, second, second_name).room;
            &&& one.elevation(first) == Some(true)
            &&& two.elevation(second) == Some(false)
            &&& two.elevation(first) == Some(true)
        }),
{
    let one = RoomView::empty().enter(sessions, first, first_name).room;
    let two = one.enter(sessions, second, second_name).room;
    lemma_enter_elevation(RoomView::empty(), sessions, first, first_name);
    lemma_enter_elevation(one, sessions, second, second_name);
    lemma_first_index(member_ids(RoomView::empty().connected), first);
    lemma_first_index(member_ids(one.connected), second);
    assert(one.connected =~= seq![(first, UserView { name: first_name, elevated: true })]);
    assert(member_ids(one.connected)[0] == first);
    assert(one.member_index(second) is None);
    lemma_first_index_is(member_ids(two.connected), first, 0);
}

/// A frame reaches every user of the room whom the policy selects and who
/// has a session.
pub proof fn lemma_fan_out_reaches(
    connected: Seq<(u64, UserView)>,
    sessions: Seq<u64>,
    policy: Policy,
    text: Seq<char>,
    i: int,
)
    requires
        0 <= i < connected.len(),
        receives(sessions, policy, connected[i]),
    ensures
        recipients(connected, sessions, policy).contains(connected[i].0),
        fan_out(connected, sessions, policy, text).contains((connected[i].0, text)),
{
    let pred = |m: (u64, UserView)| receives(sessions, policy, m);
    connected.lemma_filter_contains(pred, i);
    let kept = connected.filter(pred);
    let k = choose|k: int| 0 <= k < kept.len() && kept[k] == connected[i];
    assert(recipients(connected, sessions, policy)[k] == connected[i].0);
    assert(fan_out(connected, sessions, policy, text)[k] == (connected[i].0, text));
}

/// Whom a frame reaches is a user of the room whom the policy selects and
/// who has a session.
pub proof fn lemma_recipient_is_member(
    connected: Seq<(u64, UserView)>,
    sessions: Seq<u64>,
    policy: Policy,
    uid: u64,
)
    requires
        recipients(connected, sessions, policy).contains(uid),
    ensures
        exists|i: int|
            0 <= i < connected.len() && (#[trigger] connected[i]).0 == uid && receives(
                sessions,
                policy,
                connected[i],
            ),
{
    let pred = |m: (u64, UserView)| receives(sessions, policy, m);
    let kept = connected.filter(pred);
    let k = choose|k: int|
        0 <= k < recipients(connected, sessions, policy).len() && recipients(
            connected,
            sessions,
            policy,
        )[k] == uid;
    assert(kept[k].0 == uid);
    connected.lemma_filter_pred(pred, k);
    assert(kept.contains(kept[k]));
    connected.lemma_filter_contains_rev(pred, kept[k]);
    let i = choose|i: int| 0 <= i < connected.len() && connected[i] == kept[k];
    assert(connected[i].0 == uid);
}

/// A frame for one user goes to that user and to nobody else; so an error
/// is for the one who asked alone.
pub proof fn lemma_only_is_local(
    connected: Seq<(u64, UserView)>,
    sessions: Seq<u64>,
    uid: u64,
    text: Seq<char>,
    k: int,
)
    requires
        0 <= k < fan_out(connected, sessions, Policy::Only(uid), text).len(),
    ensures
        fan_out(connected, sessions, Policy::Only(uid), text)[k] == (uid, text),
{
    let to = recipients(connected, sessions, Policy::Only(uid));
    assert(to.contains(to[k]));
    lemma_recipient_is_member(connected, sessions, Policy::Only(uid), to[k]);
}

/// The number of users that a frame for moderators reaches and the number
/// that a frame for the others reaches make the number of users, where all
/// have sessions.
pub proof fn lemma_roles_count(connected: Seq<(u64, UserView)>, sessions: Seq<u64>)
    requires
        forall|i: int| 0 <= i < connected.len() ==> sessions.contains((#[trigger] connected[i]).0),
    ensures
        recipients(connected, sessions, Policy::Elevated).len() + recipients(
            connected,
            sessions,
            Policy::NotElevated,
        ).len() == connected.len(),
    decreases connected.len(),
{
    let up = |m: (u64, UserView)| receives(sessions, Policy::Elevated, m);
    let down = |m: (u64, UserView)| receives(sessions, Policy::NotElevated, m);
    if connected.len() == 0 {
        connected.lemma_filter_len(up);
        connected.lemma_filter_len(down);
    } else {
        let front = connected.drop_last();
        let last = connected.last();
        assert forall|i: int| 0 <= i < front.len() implies sessions.contains(
            (#[trigger] front[i]).0,
        ) by {
            assert(front[i] == connected[i]);
        }
        lemma_roles_count(front, sessions);
        assert(front.push(last) =~= connected);
        front.lemma_filter_push(last, up);
        front.lemma_filter_push(last, down);
        assert(sessions.contains(connected[connected.len() - 1].0));
    }
}

/// The users whom a frame for moderators reaches and those whom a frame for
/// the others reaches part the users of a room: every user is in one of the
/// two, nobody is in both, and nobody else is in either. This holds where no
/// user is in the room twice and all have sessions.
pub proof fn lemma_roles_partition(connected: Seq<(u64, UserView)>, sessions: Seq<u64>, uid: u64)
    requires
        member_ids(connected).no_duplicates(),
        forall|i: int| 0 <= i < connected.len() ==> sessions.contains((#[trigger] connected[i]).0),
    ensures
        member_ids(connected).contains(uid) <==> recipients(
            connected,
            sessions,
            Policy::Elevated,
        ).contains(uid) || recipients(connected, sessions, Policy::NotElevated).contains(uid),
        !(recipients(connected, sessions, Policy::Elevated).contains(uid) && recipients(
            connected,
            sessions,
            Policy::NotElevated,
        ).contains(uid)),
        recipients(connected, sessions, Policy::Elevated).len() + recipients(
            connected,
            sessions,
            Policy::NotElevated,
        ).len() == connected.len(),
{
    lemma_roles_count(connected, sessions);
    let ids = member_ids(connected);
    let up = recipients(connected, sessions, Policy::Elevated);
    let down = recipients(connected, sessions, Policy::NotElevated);
    if ids.contains(uid) {
        let i = choose|i: int| 0 <= i < ids.len() && ids[i] == uid;
        assert(connected[i].0 == uid);
        assert(sessions.contains(connected[i].0));
        if connected[i].1.elevated {
            lemma_fan_out_reaches(connected, sessions, Policy::Elevated, Seq::empty(), i);
        } else {
            lemma_fan_out_reaches(connected, sessions, Policy::NotElevated, Seq::empty(), i);
        }
    }
    if up.contains(uid) {
        lemma_recipient_is_member(connected, sessions, Policy::Elevated, uid);
        let i = choose|i: int|
            0 <= i < connected.len() && (#[trigger] connected[i]).0 == uid && receives(
                sessions,
                Policy::Elevated,
                connected[i],
            );
        assert(ids[i] == uid);
    }
    if down.contains(uid) {
        lemma_recipient_is_member(connected, sessions, Policy::NotElevated, uid);
        let i = choose|i: int|
            0 <= i < connected.len() && (#[trigger] connected[i]).0 == uid && receives(
                sessions,
                Policy::NotElevated,
                connected[i],
            );
        assert(ids[i] == uid);
        if up.contains(uid) {
            let j = choose|j: int|
                0 <= j < connected.len() && (#[trigger] connected[j]).0 == uid && receives(
                    sessions,
                    Policy::Elevated,
                    connected[j],
                );
            assert(ids[j] == uid);
            assert(i == j);
        }
    }
}

} // verus!
