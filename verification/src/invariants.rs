//! What holds of the coordinator's state after every command.
use crate::model::first_index;
use crate::model::lemma_first_index;
use crate::model::member_ids;
use crate::model::option_titles;
use crate::model::poll_titles;
use crate::model::room_names;
use crate::model::same_flag;
use crate::model::voters;
use crate::model::PollView;
use crate::model::RaisedView;
use crate::model::RoomView;
use crate::model::ServerView;
use crate::model::UserView;
use vstd::prelude::*;

verus! {

/// No flag is raised twice: the pairs of object and owner differ.
pub open spec fn flags_distinct(raised: Seq<RaisedView>) -> bool {
    forall|a: int, b: int|
        0 <= a < b < raised.len() ==> !same_flag(
            #[trigger] raised[a],
            (#[trigger] raised[b]).object,
            raised[b].owner_id,
        )
}

/// The titles of the options of a poll differ, and nobody has two votes in
/// it.
pub open spec fn poll_sound(poll: PollView) -> bool {
    option_titles(poll.options).no_duplicates() && voters(poll.votes).no_duplicates()
}

/// Every voter of the poll is among the users `connected`.
pub open spec fn voters_present(connected: Seq<(u64, UserView)>, poll: PollView) -> bool {
    forall|v: int|
        0 <= v < poll.votes.len() ==> member_ids(connected).contains(
            #[trigger] voters(poll.votes)[v],
        )
}

/// A poll of a room is in order: it is sound, and while it is open its
/// voters are users of the room.
pub open spec fn poll_in_order(connected: Seq<(u64, UserView)>, poll: PollView) -> bool {
    poll_sound(poll) && (!poll.closed ==> voters_present(connected, poll))
}

/// A room is in order: no user is in it twice, no flag is raised twice, the
/// titles of its polls differ, and each poll is in order.
pub open spec fn room_sound(room: RoomView) -> bool {
    &&& member_ids(room.connected).no_duplicates()
    &&& flags_distinct(room.raised)
    &&& poll_titles(room.polls).no_duplicates()
    &&& forall|p: int|
        0 <= p < room.polls.len() ==> poll_in_order(room.connected, #[trigger] room.polls[p])
}

/// `uid` is a user of the room.
pub open spec fn in_room(room: RoomView, uid: u64) -> bool {
    member_ids(room.connected).contains(uid)
}

/// Every user of a room has a live session.
pub open spec fn users_have_sessions(s: ServerView) -> bool {
    forall|r: int, uid: u64|
        0 <= r < s.rooms.len() && #[trigger] in_room(s.rooms[r].1, uid) ==> s.sessions.contains(
            uid,
        )
}

/// No user is in two rooms.
pub open spec fn rooms_disjoint(s: ServerView) -> bool {
    forall|a: int, b: int, uid: u64|
        0 <= a < s.rooms.len() && 0 <= b < s.rooms.len() && a != b && #[trigger] in_room(
            s.rooms[a].1,
            uid,
        ) ==> !#[trigger] in_room(s.rooms[b].1, uid)
}

/// The coordinator is in order: no session is noted twice, the names of the
/// rooms differ, every room is in order, every user of a room has a live
/// session, and no user is in two rooms.
pub open spec fn sound(s: ServerView) -> bool {
    &&& s.sessions.no_duplicates()
    &&& room_names(s.rooms).no_duplicates()
    &&& forall|r: int| 0 <= r < s.rooms.len() ==> room_sound((#[trigger] s.rooms[r]).1)
    &&& users_have_sessions(s)
    &&& rooms_disjoint(s)
}

/// To be a user of a room is to have a place among its users.
pub proof fn lemma_in_room(room: RoomView, uid: u64)
    ensures
        in_room(room, uid) == room.is_member(uid),
{
    lemma_first_index(member_ids(room.connected), uid);
    if room.is_member(uid) {
        let i = room.member_index(uid).unwrap();
        assert(member_ids(room.connected)[i] == uid);
    }
}

/// Without its first place, a key that occurred once occurs no more, and the
/// other keys still differ.
pub proof fn lemma_remove_single<K>(keys: Seq<K>, key: K)
    requires
        keys.no_duplicates(),
        first_index(keys, key) is Some,
    ensures
        keys.remove(first_index(keys, key).unwrap()).no_duplicates(),
        !keys.remove(first_index(keys, key).unwrap()).contains(key),
        forall|other: K|
            other != key && keys.contains(other) ==> #[trigger] keys.remove(
                first_index(keys, key).unwrap(),
            ).contains(other),
        forall|other: K|
            #[trigger] keys.remove(first_index(keys, key).unwrap()).contains(other)
                ==> keys.contains(other),
{
    lemma_first_index(keys, key);
    let i = first_index(keys, key).unwrap();
    let rest = keys.remove(i);
    assert forall|a: int, b: int| 0 <= a < rest.len() && 0 <= b < rest.len() && a != b implies rest[a]
        != rest[b] by {
        let x = if a < i {
            a
        } else {
            a + 1
        };
        let y = if b < i {
            b
        } else {
            b + 1
        };
        assert(rest[a] == keys[x] && rest[b] == keys[y]);
    }
    if rest.contains(key) {
        let a = choose|a: int| 0 <= a < rest.len() && rest[a] == key;
        let x = if a < i {
            a
        } else {
            a + 1
        };
        assert(rest[a] == keys[x]);
        assert(false);
    }
    assert forall|other: K| other != key && keys.contains(other) implies #[trigger] rest.contains(
        other,
    ) by {
        let x = choose|x: int| 0 <= x < keys.len() && keys[x] == other;
        let a = if x < i {
            x
        } else {
            x - 1
        };
        assert(rest[a] == other);
    }
    assert forall|other: K| #[trigger] rest.contains(other) implies keys.contains(other) by {
        let a = choose|a: int| 0 <= a < rest.len() && rest[a] == other;
        let x = if a < i {
            a
        } else {
            a + 1
        };
        assert(keys[x] == other);
    }
}

/// A new key after keys that differ: they all still differ.
pub proof fn lemma_push_new<K>(keys: Seq<K>, key: K)
    requires
        keys.no_duplicates(),
        !keys.contains(key),
    ensures
        keys.push(key).no_duplicates(),
{
    let more = keys.push(key);
    assert forall|a: int, b: int| 0 <= a < more.len() && 0 <= b < more.len() && a != b implies more[a]
        != more[b] by {
        if a < keys.len() {
            assert(keys.contains(more[a]));
        }
        if b < keys.len() {
            assert(keys.contains(more[b]));
        }
    }
}

/// A key has no place exactly where it does not occur.
pub proof fn lemma_absent<K>(keys: Seq<K>, key: K)
    ensures
        first_index(keys, key) is None <==> !keys.contains(key),
{
    lemma_first_index(keys, key);
    if first_index(keys, key) is Some {
        assert(keys[first_index(keys, key).unwrap()] == key);
    }
}

/// What is kept of flags that differ still differs.
pub proof fn lemma_filter_distinct(raised: Seq<RaisedView>, keep: spec_fn(RaisedView) -> bool)
    requires
        flags_distinct(raised),
    ensures
        flags_distinct(raised.filter(keep)),
        forall|i: int|
            0 <= i < raised.filter(keep).len() ==> raised.contains(
                #[trigger] raised.filter(keep)[i],
            ) && keep(raised.filter(keep)[i]),
    decreases raised.len(),
{
    reveal(Seq::filter);
    if raised.len() > 0 {
        let front = raised.drop_last();
        let last = raised.last();
        assert forall|a: int, b: int| 0 <= a < b < front.len() implies !same_flag(
            #[trigger] front[a],
            (#[trigger] front[b]).object,
            front[b].owner_id,
        ) by {
            assert(front[a] == raised[a] && front[b] == raised[b]);
        }
        lemma_filter_distinct(front, keep);
        let kept = front.filter(keep);
        let all = raised.filter(keep);
        assert forall|i: int| 0 <= i < all.len() implies raised.contains(#[trigger] all[i]) && keep(
            all[i],
        ) by {
            if i < kept.len() {
                assert(all[i] == kept[i]);
                assert(front.contains(kept[i]));
                let j = choose|j: int| 0 <= j < front.len() && front[j] == kept[i];
                assert(raised[j] == kept[i]);
            } else {
                assert(all[i] == raised[raised.len() - 1]);
            }
        }
        assert forall|a: int, b: int| 0 <= a < b < all.len() implies !same_flag(
            #[trigger] all[a],
            (#[trigger] all[b]).object,
            all[b].owner_id,
        ) by {
            if b < kept.len() {
                assert(all[a] == kept[a] && all[b] == kept[b]);
            } else {
                assert(all[a] == kept[a]);
                assert(front.contains(kept[a]));
                let j = choose|j: int| 0 <= j < front.len() && front[j] == kept[a];
                assert(raised[j] == kept[a]);
                assert(all[b] == raised[raised.len() - 1]);
            }
        }
    }
}

/// Where every element is kept, nothing goes.
pub proof fn lemma_filter_all<A>(s: Seq<A>, keep: spec_fn(A) -> bool)
    requires
        forall|i: int| 0 <= i < s.len() ==> keep(#[trigger] s[i]),
    ensures
        s.filter(keep) == s,
    decreases s.len(),
{
    reveal(Seq::filter);
    if s.len() > 0 {
        let front = s.drop_last();
        assert forall|i: int| 0 <= i < front.len() implies keep(#[trigger] front[i]) by {
            assert(front[i] == s[i]);
        }
        lemma_filter_all(front, keep);
        assert(front.push(s.last()) =~= s);
    }
}

} // verus!
