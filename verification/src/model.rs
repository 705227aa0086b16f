//! The coordinator's state as mathematical values.
use crate::messages::outbound::all_text;
use crate::messages::outbound::error_text;
use crate::messages::outbound::joined_text;
use crate::messages::outbound::owned_text;
use crate::messages::outbound::permission_text;
use crate::messages::outbound::poll_close_text;
use crate::messages::outbound::poll_option_text;
use crate::messages::outbound::poll_text;
use crate::messages::outbound::vote_delete_text;
use crate::messages::outbound::vote_text;
use crate::messages::outbound::Types;
use vstd::prelude::*;

verus! {

/// A user in a room.
pub struct UserView {
    pub name: Seq<char>,
    pub elevated: bool,
}

/// A raised flag. Its identity is `(object, owner_id)`.
pub struct RaisedView {
    pub object: Seq<char>,
    pub owner_id: u64,
    pub owner_name: Seq<char>,
}

/// An option of a poll.
pub struct PollOptionView {
    pub title: Seq<char>,
    pub owner_id: u64,
    pub owner_name: Seq<char>,
    pub room_name: Seq<char>,
    pub poll_title: Seq<char>,
}

/// A poll: its options in the order they were added, and for each voter the
/// title of the option voted for, in the order the votes came.
pub struct PollView {
    pub title: Seq<char>,
    pub owner_id: u64,
    pub owner_name: Seq<char>,
    pub room_name: Seq<char>,
    pub options: Seq<PollOptionView>,
    pub votes: Seq<(u64, Seq<char>)>,
    pub closed: bool,
}

/// A room: raised flags and polls in the order they were made, and the users
/// in the order they joined.
pub struct RoomView {
    pub raised: Seq<RaisedView>,
    pub polls: Seq<PollView>,
    pub connected: Seq<(u64, UserView)>,
}

/// The coordinator: the ids of the live sessions and the rooms by name.
pub struct ServerView {
    pub sessions: Seq<u64>,
    pub rooms: Seq<(Seq<char>, RoomView)>,
}

/// The place of the first `key` among `keys`.
pub open spec fn first_index<K>(keys: Seq<K>, key: K) -> Option<int> {
    keys.index_of_first(key)
}

/// What `first_index` returns: the place of a key is that of its first
/// occurrence, and a key has no place exactly when it does not occur.
pub proof fn lemma_first_index<K>(keys: Seq<K>, key: K)
    ensures
        match first_index(keys, key) {
            Some(i) => 0 <= i < keys.len() && keys[i] == key && forall|j: int|
                0 <= j < i ==> keys[j] != key,
            None => forall|j: int| 0 <= j < keys.len() ==> keys[j] != key,
        },
{
    keys.index_of_first_ensures(key);
}

/// A place that holds `key` with no `key` before it is the first place.
pub proof fn lemma_first_index_is<K>(keys: Seq<K>, key: K, i: int)
    requires
        0 <= i < keys.len(),
        keys[i] == key,
        forall|j: int| 0 <= j < i ==> keys[j] != key,
    ensures
        first_index(keys, key) == Some(i),
{
    keys.index_of_first_ensures(key);
}

/// A key that occurs nowhere has no place.
pub proof fn lemma_first_index_none<K>(keys: Seq<K>, key: K)
    requires
        forall|j: int| 0 <= j < keys.len() ==> keys[j] != key,
    ensures
        first_index(keys, key) is None,
{
    keys.index_of_first_ensures(key);
}

/// Who receives a frame that is sent into a room.
#[derive(Clone, Copy, Debug, PartialEq, Eq, Structural)]
pub enum Policy {
    /// Every user of the room.
    All,
    /// Every user of the room but one.
    Skip(u64),
    /// One user, if in the room.
    Only(u64),
    /// The users with moderator privileges.
    Elevated,
    /// The users without moderator privileges.
    NotElevated,
}

/// What a command leaves behind in one room: the room after it, and the
/// frames to send, each with its recipient, in the order of sending.
pub struct RoomOutcome {
    pub room: RoomView,
    pub sent: Seq<(u64, Seq<char>)>,
}

/// What a command leaves behind: the coordinator after it, and the frames to
/// send, each with its recipient, in the order of sending.
pub struct ServerOutcome {
    pub state: ServerView,
    pub sent: Seq<(u64, Seq<char>)>,
}

/// The policy selects the user `id`.
pub open spec fn admits(policy: Policy, id: u64, user: UserView) -> bool {
    match policy {
        Policy::All => true,
        Policy::Skip(skipped) => id != skipped,
        Policy::Only(one) => id == one,
        Policy::Elevated => user.elevated,
        Policy::NotElevated => !user.elevated,
    }
}

/// The user `m` of a room is selected by the policy and has a live session.
pub open spec fn receives(sessions: Seq<u64>, policy: Policy, m: (u64, UserView)) -> bool {
    admits(policy, m.0, m.1) && sessions.contains(m.0)
}

/// The ids of the users of a room, in the order they joined.
pub open spec fn member_ids(connected: Seq<(u64, UserView)>) -> Seq<u64> {
    connected.map_values(|m: (u64, UserView)| m.0)
}

/// The users that a frame sent under `policy` reaches, in the order they
/// joined.
pub open spec fn recipients(
    connected: Seq<(u64, UserView)>,
    sessions: Seq<u64>,
    policy: Policy,
) -> Seq<u64> {
    member_ids(connected.filter(|m: (u64, UserView)| receives(sessions, policy, m)))
}

/// The deliveries of one frame sent under `policy`.
pub open spec fn fan_out(
    connected: Seq<(u64, UserView)>,
    sessions: Seq<u64>,
    policy: Policy,
    text: Seq<char>,
) -> Seq<(u64, Seq<char>)> {
    recipients(connected, sessions, policy).map_values(|id: u64| (id, text))
}

/// The deliveries of several frames, each sent under `policy`, one frame
/// after the other.
pub open spec fn fan_out_each(
    connected: Seq<(u64, UserView)>,
    sessions: Seq<u64>,
    policy: Policy,
    texts: Seq<Seq<char>>,
) -> Seq<(u64, Seq<char>)>
    decreases texts.len(),
{
    if texts.len() == 0 {
        Seq::empty()
    } else {
        fan_out_each(connected, sessions, policy, texts.drop_last()) + fan_out(
            connected,
            sessions,
            policy,
            texts.last(),
        )
    }
}

/// The flag `r` is the one that `uid` raised on `object`.
pub open spec fn same_flag(r: RaisedView, object: Seq<char>, uid: u64) -> bool {
    r.object == object && r.owner_id == uid
}

/// `uid` has a flag raised on `object`.
pub open spec fn is_raised(raised: Seq<RaisedView>, object: Seq<char>, uid: u64) -> bool {
    exists|i: int| 0 <= i < raised.len() && same_flag(#[trigger] raised[i], object, uid)
}

/// The titles of the polls of a room.
pub open spec fn poll_titles(polls: Seq<PollView>) -> Seq<Seq<char>> {
    polls.map_values(|p: PollView| p.title)
}

/// The titles of the options of a poll.
pub open spec fn option_titles(options: Seq<PollOptionView>) -> Seq<Seq<char>> {
    options.map_values(|o: PollOptionView| o.title)
}

/// The users that have voted in a poll.
pub open spec fn voters(votes: Seq<(u64, Seq<char>)>) -> Seq<u64> {
    votes.map_values(|v: (u64, Seq<char>)| v.0)
}

/// The names of the rooms.
pub open spec fn room_names(rooms: Seq<(Seq<char>, RoomView)>) -> Seq<Seq<char>> {
    rooms.map_values(|e: (Seq<char>, RoomView)| e.0)
}

/// The votes without the vote of `uid`.
pub open spec fn without_vote(votes: Seq<(u64, Seq<char>)>, uid: u64) -> Seq<(u64, Seq<char>)> {
    match first_index(voters(votes), uid) {
        Some(j) => votes.remove(j),
        None => votes,
    }
}

/// The options of a poll as frames.
pub open spec fn option_intros(title: Seq<char>, options: Seq<PollOptionView>) -> Seq<Seq<char>> {
    options.map_values(|o: PollOptionView| poll_option_text(title, o.title))
}

/// The votes of a poll as frames that do not show who voted.
pub open spec fn vote_intros(title: Seq<char>, votes: Seq<(u64, Seq<char>)>) -> Seq<Seq<char>> {
    votes.map_values(|v: (u64, Seq<char>)| vote_text(title, v.1, Seq::empty(), 0))
}

/// What a user who enters sees of one open poll: the poll, its options, and
/// its votes without the voters' identities.
pub open spec fn poll_intro(poll: PollView) -> Seq<Seq<char>> {
    seq![poll_text(poll.title)] + option_intros(poll.title, poll.options) + vote_intros(
        poll.title,
        poll.votes,
    )
}

/// What a user who enters sees of the polls: the open ones, each as
/// `poll_intro` gives it.
pub open spec fn polls_intro(polls: Seq<PollView>) -> Seq<Seq<char>>
    decreases polls.len(),
{
    if polls.len() == 0 {
        Seq::empty()
    } else if polls.last().closed {
        polls_intro(polls.drop_last())
    } else {
        polls_intro(polls.drop_last()) + poll_intro(polls.last())
    }
}

/// The name under which `uid` is in the room; empty for a stranger.
pub open spec fn name_of(connected: Seq<(u64, UserView)>, uid: u64) -> Seq<char> {
    match first_index(member_ids(connected), uid) {
        Some(i) => connected[i].1.name,
        None => Seq::empty(),
    }
}

/// The two frames that show one vote anew to a user whose privilege has
/// changed: the vote as seen before is withdrawn, then cast as seen now. A
/// moderator sees who voted, others see no identity.
pub open spec fn vote_replay(
    connected: Seq<(u64, UserView)>,
    title: Seq<char>,
    vote: (u64, Seq<char>),
    elevated: bool,
) -> Seq<Seq<char>> {
    if elevated {
        seq![
            vote_delete_text(title, vote.1, 0),
            vote_text(title, vote.1, name_of(connected, vote.0), vote.0),
        ]
    } else {
        seq![vote_delete_text(title, vote.1, vote.0), vote_text(title, vote.1, Seq::empty(), 0)]
    }
}

/// The replay of the votes of one poll, vote by vote.
pub open spec fn votes_replay(
    connected: Seq<(u64, UserView)>,
    title: Seq<char>,
    votes: Seq<(u64, Seq<char>)>,
    elevated: bool,
) -> Seq<Seq<char>>
    decreases votes.len(),
{
    if votes.len() == 0 {
        Seq::empty()
    } else {
        votes_replay(connected, title, votes.drop_last(), elevated) + vote_replay(
            connected,
            title,
            votes.last(),
            elevated,
        )
    }
}

/// The replay of the votes of every open poll, poll by poll.
pub open spec fn polls_replay(
    connected: Seq<(u64, UserView)>,
    polls: Seq<PollView>,
    elevated: bool,
) -> Seq<Seq<char>>
    decreases polls.len(),
{
    if polls.len() == 0 {
        Seq::empty()
    } else if polls.last().closed {
        polls_replay(connected, polls.drop_last(), elevated)
    } else {
        polls_replay(connected, polls.drop_last(), elevated) + votes_replay(
            connected,
            polls.last().title,
            polls.last().votes,
            elevated,
        )
    }
}

/// A poll after `uid` has left: an open poll loses the vote of `uid`, a
/// closed poll keeps it.
pub open spec fn poll_after_leave(poll: PollView, uid: u64) -> PollView {
    if poll.closed {
        poll
    } else {
        PollView { votes: without_vote(poll.votes, uid), ..poll }
    }
}

/// The polls after `uid` has left.
pub open spec fn polls_after_leave(polls: Seq<PollView>, uid: u64) -> Seq<PollView> {
    polls.map_values(|p: PollView| poll_after_leave(p, uid))
}

/// The frames that tell of the vote that one poll loses when `uid` leaves:
/// moderators learn whose vote it was, others do not.
pub open spec fn poll_leave_notice(
    connected: Seq<(u64, UserView)>,
    sessions: Seq<u64>,
    poll: PollView,
    uid: u64,
) -> Seq<(u64, Seq<char>)> {
    match first_index(voters(poll.votes), uid) {
        Some(j) if !poll.closed => fan_out(
            connected,
            sessions,
            Policy::Elevated,
            vote_delete_text(poll.title, poll.votes[j].1, uid),
        ) + fan_out(
            connected,
            sessions,
            Policy::NotElevated,
            vote_delete_text(poll.title, poll.votes[j].1, 0),
        ),
        _ => Seq::empty(),
    }
}

/// The notices of all polls, poll by poll.
pub open spec fn leave_notices(
    connected: Seq<(u64, UserView)>,
    sessions: Seq<u64>,
    polls: Seq<PollView>,
    uid: u64,
) -> Seq<(u64, Seq<char>)>
    decreases polls.len(),
{
    if polls.len() == 0 {
        Seq::empty()
    } else {
        leave_notices(connected, sessions, polls.drop_last(), uid) + poll_leave_notice(
            connected,
            sessions,
            polls.last(),
            uid,
        )
    }
}

impl RoomView {
    /// A room without users, flags or polls.
    pub open spec fn empty() -> RoomView {
        RoomView { raised: Seq::empty(), polls: Seq::empty(), connected: Seq::empty() }
    }

    /// The place of `uid` among the users.
    pub open spec fn member_index(self, uid: u64) -> Option<int> {
        first_index(member_ids(self.connected), uid)
    }

    /// `uid` is in the room.
    pub open spec fn is_member(self, uid: u64) -> bool {
        self.member_index(uid) is Some
    }

    /// The privilege of `uid`, where `uid` is in the room.
    pub open spec fn elevation(self, uid: u64) -> Option<bool> {
        match self.member_index(uid) {
            Some(i) => Some(self.connected[i].1.elevated),
            None => None,
        }
    }

    /// `uid` is in the room and a moderator.
    pub open spec fn is_elevated(self, uid: u64) -> bool {
        self.elevation(uid) == Some(true)
    }

    /// The room with the privilege of `uid` set; unchanged for a stranger.
    pub open spec fn set_elevated(self, uid: u64, elevated: bool) -> RoomView {
        match self.member_index(uid) {
            Some(i) => RoomView {
                connected: self.connected.update(
                    i,
                    (uid, UserView { name: self.connected[i].1.name, elevated }),
                ),
                ..self
            },
            None => self,
        }
    }

    /// The room without the flags that `uid` raised.
    pub open spec fn remove_user(self, uid: u64) -> RoomView {
        RoomView { raised: self.raised.filter(|r: RaisedView| r.owner_id != uid), ..self }
    }

    /// The snapshot frame of the room.
    pub open spec fn snapshot(self) -> Seq<char> {
        all_text(self.raised, self.connected)
    }

    /// The deliveries of one frame sent into the room.
    pub open spec fn send(self, sessions: Seq<u64>, policy: Policy, text: Seq<char>) -> Seq<
        (u64, Seq<char>),
    > {
        fan_out(self.connected, sessions, policy, text)
    }

    /// The room unchanged, and an error frame for `uid` alone.
    pub open spec fn reject(
        self,
        sessions: Seq<u64>,
        uid: u64,
        code: Seq<char>,
        description: Seq<char>,
    ) -> RoomOutcome {
        RoomOutcome {
            room: self,
            sent: self.send(sessions, Policy::Only(uid), error_text(code, description)),
        }
    }

    /// `uid` raises a flag on `object`: refused where that flag is raised
    /// already, else announced to all and kept.
    pub open spec fn raise(
        self,
        sessions: Seq<u64>,
        object: Seq<char>,
        uid: u64,
        name: Seq<char>,
    ) -> RoomOutcome {
        if is_raised(self.raised, object, uid) {
            self.reject(sessions, uid, "already_raised"@, "Refusing to raise, already raised"@)
        } else {
            RoomOutcome {
                room: RoomView {
                    raised: self.raised.push(
                        RaisedView { object, owner_id: uid, owner_name: name },
                    ),
                    ..self
                },
                sent: self.send(
                    sessions,
                    Policy::All,
                    owned_text(Types::Raised, uid, name, object, self.is_elevated(uid)),
                ),
            }
        }
    }

    /// `uid` lowers the flag on `object`: refused where `uid` has no such
    /// flag, else the flag goes and all are told.
    pub open spec fn lower(
        self,
        sessions: Seq<u64>,
        object: Seq<char>,
        uid: u64,
        name: Seq<char>,
    ) -> RoomOutcome {
        if !is_raised(self.raised, object, uid) {
            self.reject(sessions, uid, "not_raised"@, "Refusing to lower, is not raised"@)
        } else {
            RoomOutcome {
                room: RoomView {
                    raised: self.raised.filter(|r: RaisedView| !same_flag(r, object, uid)),
                    ..self
                },
                sent: self.send(
                    sessions,
                    Policy::All,
                    owned_text(Types::Lower, uid, name, object, self.is_elevated(uid)),
                ),
            }
        }
    }

    /// `uid` sends a signal: passed on to all, nothing kept.
    pub open spec fn instant(
        self,
        sessions: Seq<u64>,
        object: Seq<char>,
        uid: u64,
        name: Seq<char>,
    ) -> RoomOutcome {
        RoomOutcome {
            room: self,
            sent: self.send(
                sessions,
                Policy::All,
                owned_text(Types::Instant, uid, name, object, self.is_elevated(uid)),
            ),
        }
    }

    /// `uid` opens a poll: for moderators only, and under a new title.
    pub open spec fn open_poll(
        self,
        sessions: Seq<u64>,
        title: Seq<char>,
        uid: u64,
        name: Seq<char>,
        room_name: Seq<char>,
    ) -> RoomOutcome {
        if !self.is_elevated(uid) {
            self.reject(
                sessions,
                uid,
                "no_permission"@,
                "You do not have permission to create polls (because you're not elevated)"@,
            )
        } else if first_index(poll_titles(self.polls), title) is Some {
            self.reject(
                sessions,
                uid,
                "poll_already_exists"@,
                "A poll with that title already exists"@,
            )
        } else {
            RoomOutcome {
                room: RoomView {
                    polls: self.polls.push(
                        PollView {
                            title,
                            owner_id: uid,
                            owner_name: name,
                            room_name,
                            options: Seq::empty(),
                            votes: Seq::empty(),
                            closed: false,
                        },
                    ),
                    ..self
                },
                sent: self.send(sessions, Policy::All, poll_text(title)),
            }
        }
    }

    /// `uid` adds an option to a poll: for moderators only, to an open poll,
    /// under a title that is new in that poll.
    pub open spec fn add_option(
        self,
        sessions: Seq<u64>,
        poll_title: Seq<char>,
        title: Seq<char>,
        uid: u64,
        name: Seq<char>,
        room_name: Seq<char>,
    ) -> RoomOutcome {
        if !self.is_elevated(uid) {
            self.reject(
                sessions,
                uid,
                "no_permission"@,
                "You do not have permission to add poll options (because you're not elevated)"@,
            )
        } else {
            match first_index(poll_titles(self.polls), poll_title) {
                None => self.reject(
                    sessions,
                    uid,
                    "poll_does_not_exist"@,
                    "A poll with that title doesn't exist"@,
                ),
                Some(i) => {
                    let poll = self.polls[i];
                    if poll.closed {
                        self.reject(
                            sessions,
                            uid,
                            "poll_closed"@,
                            "Sorry, the poll is already closed"@,
                        )
                    } else if first_index(option_titles(poll.options), title) is Some {
                        self.reject(
                            sessions,
                            uid,
                            "poll_option_already_exists"@,
                            "A poll-option with that title in this poll does already exist"@,
                        )
                    } else {
                        RoomOutcome {
                            room: RoomView {
                                polls: self.polls.update(
                                    i,
                                    PollView {
                                        options: poll.options.push(
                                            PollOptionView {
                                                title,
                                                owner_id: uid,
                                                owner_name: name,
                                                room_name,
                                                poll_title,
                                            },
                                        ),
                                        ..poll
                                    },
                                ),
                                ..self
                            },
                            sent: self.send(
                                sessions,
                                Policy::All,
                                poll_option_text(poll.title, title),
                            ),
                        }
                    }
                },
            }
        }
    }

    /// `uid` votes: in an open poll, for one of its options. An earlier vote
    /// of `uid` in that poll is withdrawn first. Moderators learn who voted,
    /// others do not.
    pub open spec fn cast_vote(
        self,
        sessions: Seq<u64>,
        poll_title: Seq<char>,
        option_title: Seq<char>,
        uid: u64,
        name: Seq<char>,
    ) -> RoomOutcome {
        match first_index(poll_titles(self.polls), poll_title) {
            None => self.reject(
                sessions,
                uid,
                "poll_does_not_exist"@,
                "A poll with that title doesn't exist"@,
            ),
            Some(i) => {
                let poll = self.polls[i];
                if poll.closed {
                    self.reject(
                        sessions,
                        uid,
                        "poll_closed"@,
                        "Sorry, the poll is already closed"@,
                    )
                } else if first_index(option_titles(poll.options), option_title) is None {
                    self.reject(
                        sessions,
                        uid,
                        "poll_option_does_not_exist"@,
                        "A poll-option with that title in this poll doesn't exist"@,
                    )
                } else {
                    let withdrawn = match first_index(voters(poll.votes), uid) {
                        Some(j) => self.send(
                            sessions,
                            Policy::Elevated,
                            vote_delete_text(poll.title, poll.votes[j].1, uid),
                        ) + self.send(
                            sessions,
                            Policy::NotElevated,
                            vote_delete_text(poll.title, poll.votes[j].1, 0),
                        ),
                        None => Seq::empty(),
                    };
                    RoomOutcome {
                        room: RoomView {
                            polls: self.polls.update(
                                i,
                                PollView {
                                    votes: without_vote(poll.votes, uid).push((uid, option_title)),
                                    ..poll
                                },
                            ),
                            ..self
                        },
                        sent: withdrawn + self.send(
                            sessions,
                            Policy::Elevated,
                            vote_text(poll.title, option_title, name, uid),
                        ) + self.send(
                            sessions,
                            Policy::NotElevated,
                            vote_text(poll.title, option_title, Seq::empty(), 0),
                        ),
                    }
                }
            },
        }
    }

    /// `uid` closes a poll: for moderators only, and once.
    pub open spec fn close_poll(self, sessions: Seq<u64>, poll_title: Seq<char>, uid: u64)
        -> RoomOutcome {
        if !self.is_elevated(uid) {
            self.reject(
                sessions,
                uid,
                "no_permission"@,
                "You do not have permission to close polls (because you're not elevated)"@,
            )
        } else {
            match first_index(poll_titles(self.polls), poll_title) {
                None => self.reject(
                    sessions,
                    uid,
                    "poll_does_not_exist"@,
                    "A poll with that title doesn't exist"@,
                ),
                Some(i) => {
                    let poll = self.polls[i];
                    if poll.closed {
                        self.reject(
                            sessions,
                            uid,
                            "poll_closed"@,
                            "Sorry, the poll is already closed"@,
                        )
                    } else {
                        RoomOutcome {
                            room: RoomView {
                                polls: self.polls.update(i, PollView { closed: true, ..poll }),
                                ..self
                            },
                            sent: self.send(sessions, Policy::All, poll_close_text(poll.title)),
                        }
                    }
                },
            }
        }
    }

    /// The change of privilege is granted: the requester is a moderator of
    /// the room, the target is in the room, and the target's privilege is not
    /// yet what is asked for.
    pub open spec fn grants(self, requester: u64, target: u64, elevated: bool) -> bool {
        self.is_elevated(requester) && self.elevation(target) == Some(!elevated)
    }

    /// A granted change of privilege: the privilege is set, and the target
    /// sees the votes of the open polls anew, as the new role sees them.
    /// Nothing happens where the change is not granted.
    pub open spec fn change_privilege(
        self,
        sessions: Seq<u64>,
        requester: u64,
        target: u64,
        elevated: bool,
    ) -> RoomOutcome {
        if self.grants(requester, target, elevated) {
            let room = self.set_elevated(target, elevated);
            RoomOutcome {
                room,
                sent: fan_out_each(
                    room.connected,
                    sessions,
                    Policy::Only(target),
                    polls_replay(room.connected, room.polls, elevated),
                ),
            }
        } else {
            RoomOutcome { room: self, sent: Seq::empty() }
        }
    }

    /// A request to elevate or recede: where it is granted, the change of
    /// privilege and then the news of it to all; else nothing, not even an
    /// error.
    pub open spec fn rerole(self, sessions: Seq<u64>, requester: u64, target: u64, elevated: bool)
        -> RoomOutcome {
        if self.grants(requester, target, elevated) {
            let changed = self.change_privilege(sessions, requester, target, elevated);
            RoomOutcome {
                room: changed.room,
                sent: changed.sent + changed.room.send(
                    sessions,
                    Policy::All,
                    permission_text(
                        if elevated {
                            Types::Elevated
                        } else {
                            Types::Receded
                        },
                        target,
                        elevated,
                    ),
                ),
            }
        } else {
            RoomOutcome { room: self, sent: Seq::empty() }
        }
    }

    /// The users after `uid` has entered under `name`: the first user of an
    /// empty room is a moderator, every other is not. A user who is in the
    /// room already keeps the place.
    pub open spec fn connected_after_enter(self, uid: u64, name: Seq<char>) -> Seq<
        (u64, UserView),
    > {
        let user = UserView { name, elevated: self.connected.len() == 0 };
        match self.member_index(uid) {
            Some(i) => self.connected.update(i, (uid, user)),
            None => self.connected.push((uid, user)),
        }
    }

    /// `uid` enters: the others learn of it; the newcomer gets the snapshot,
    /// its own privilege, and the open polls without the voters' identities.
    pub open spec fn enter(self, sessions: Seq<u64>, uid: u64, name: Seq<char>) -> RoomOutcome {
        let elevated = self.connected.len() == 0;
        let room = RoomView { connected: self.connected_after_enter(uid, name), ..self };
        RoomOutcome {
            room,
            sent: room.send(sessions, Policy::Skip(uid), joined_text(uid, name, elevated))
                + room.send(sessions, Policy::Only(uid), room.snapshot()) + room.send(
                sessions,
                Policy::Only(uid),
                permission_text(Types::SelfStatus, uid, elevated),
            ) + fan_out_each(
                room.connected,
                sessions,
                Policy::Only(uid),
                polls_intro(room.polls),
            ),
        }
    }

    /// `uid` leaves: the user and the flags of `uid` go, and so do the votes
    /// of `uid` in open polls. Those who stay get the snapshot, then a notice
    /// for each vote that went.
    pub open spec fn leave(self, sessions: Seq<u64>, uid: u64) -> RoomOutcome {
        let connected = match self.member_index(uid) {
            Some(i) => self.connected.remove(i),
            None => self.connected,
        };
        let cleared = RoomView { connected, ..self }.remove_user(uid);
        RoomOutcome {
            room: RoomView {
                polls: polls_after_leave(self.polls, uid),
                ..cleared
            },
            sent: cleared.send(sessions, Policy::All, cleared.snapshot()) + leave_notices(
                connected,
                sessions,
                self.polls,
                uid,
            ),
        }
    }
}

/// For each room, whether `uid` is in it.
pub open spec fn memberships(rooms: Seq<(Seq<char>, RoomView)>, uid: u64) -> Seq<bool> {
    rooms.map_values(|e: (Seq<char>, RoomView)| e.1.is_member(uid))
}

/// A command to the coordinator.
pub enum CommandView {
    Join { user_id: u64, user_name: Seq<char>, room_name: Seq<char> },
    Disconnect { id: u64 },
    Raise { object: Seq<char>, owner_id: u64, owner_name: Seq<char>, room_name: Seq<char> },
    Lower { object: Seq<char>, owner_id: u64, owner_name: Seq<char>, room_name: Seq<char> },
    Instant { object: Seq<char>, owner_id: u64, owner_name: Seq<char>, room_name: Seq<char> },
    Poll { title: Seq<char>, owner_id: u64, owner_name: Seq<char>, room_name: Seq<char> },
    PollOption {
        poll_title: Seq<char>,
        title: Seq<char>,
        owner_id: u64,
        owner_name: Seq<char>,
        room_name: Seq<char>,
    },
    Vote {
        poll_title: Seq<char>,
        option_title: Seq<char>,
        owner_id: u64,
        owner_name: Seq<char>,
        room_name: Seq<char>,
    },
    PollClose { poll_title: Seq<char>, sender_id: u64, room_name: Seq<char> },
    Elevate { target: u64, owner_id: u64, room_name: Seq<char> },
    Recede { target: u64, owner_id: u64, room_name: Seq<char> },
    Relay { id: u64, msg: Seq<char>, room: Seq<char> },
}

impl ServerView {
    /// The coordinator before any command: no session, no room.
    pub open spec fn empty() -> ServerView {
        ServerView { sessions: Seq::empty(), rooms: Seq::empty() }
    }

    /// The place of the room `name`.
    pub open spec fn room_index(self, name: Seq<char>) -> Option<int> {
        first_index(room_names(self.rooms), name)
    }

    /// The place of the first room that `uid` is in.
    pub open spec fn room_of(self, uid: u64) -> Option<int> {
        first_index(memberships(self.rooms, uid), true)
    }

    /// The coordinator with the room at place `i` replaced, and what was sent
    /// in that room.
    pub open spec fn with_room(self, i: int, outcome: RoomOutcome) -> ServerOutcome {
        ServerOutcome {
            state: ServerView {
                rooms: self.rooms.update(i, (self.rooms[i].0, outcome.room)),
                ..self
            },
            sent: outcome.sent,
        }
    }

    /// Nothing changes and nothing is sent.
    pub open spec fn idle(self) -> ServerOutcome {
        ServerOutcome { state: self, sent: Seq::empty() }
    }

    /// A session enters a room. The session is noted, the room is made if
    /// there is none of that name, and the user enters it.
    pub open spec fn join(self, uid: u64, name: Seq<char>, room_name: Seq<char>) -> ServerOutcome {
        let sessions = if self.sessions.contains(uid) {
            self.sessions
        } else {
            self.sessions.push(uid)
        };
        let rooms = if self.room_index(room_name) is Some {
            self.rooms
        } else {
            self.rooms.push((room_name, RoomView::empty()))
        };
        let noted = ServerView { sessions, rooms };
        let i = noted.room_index(room_name).unwrap();
        noted.with_room(i, noted.rooms[i].1.enter(sessions, uid, name))
    }

    /// A session ends. Nothing happens for an unknown session. Else the
    /// session is forgotten, and the user leaves the first room it is in.
    pub open spec fn disconnect(self, uid: u64) -> ServerOutcome {
        match first_index(self.sessions, uid) {
            None => self.idle(),
            Some(k) => {
                let forgotten = ServerView { sessions: self.sessions.remove(k), ..self };
                match self.room_of(uid) {
                    None => forgotten.idle(),
                    Some(i) => forgotten.with_room(
                        i,
                        self.rooms[i].1.leave(forgotten.sessions, uid),
                    ),
                }
            },
        }
    }

    /// A flag is raised in the room `room_name`; nothing happens where there
    /// is no such room.
    pub open spec fn raise(
        self,
        object: Seq<char>,
        uid: u64,
        name: Seq<char>,
        room_name: Seq<char>,
    ) -> ServerOutcome {
        match self.room_index(room_name) {
            Some(i) => self.with_room(i, self.rooms[i].1.raise(self.sessions, object, uid, name)),
            None => self.idle(),
        }
    }

    /// A flag is lowered in the room `room_name`; nothing happens where there
    /// is no such room.
    pub open spec fn lower(
        self,
        object: Seq<char>,
        uid: u64,
        name: Seq<char>,
        room_name: Seq<char>,
    ) -> ServerOutcome {
        match self.room_index(room_name) {
            Some(i) => self.with_room(i, self.rooms[i].1.lower(self.sessions, object, uid, name)),
            None => self.idle(),
        }
    }

    /// A signal is passed on in the room `room_name`; nothing happens where
    /// there is no such room.
    pub open spec fn instant(
        self,
        object: Seq<char>,
        uid: u64,
        name: Seq<char>,
        room_name: Seq<char>,
    ) -> ServerOutcome {
        match self.room_index(room_name) {
            Some(i) => self.with_room(
                i,
                self.rooms[i].1.instant(self.sessions, object, uid, name),
            ),
            None => self.idle(),
        }
    }

    /// A poll is opened in the room `room_name`; nothing happens where there
    /// is no such room.
    pub open spec fn open_poll(
        self,
        title: Seq<char>,
        uid: u64,
        name: Seq<char>,
        room_name: Seq<char>,
    ) -> ServerOutcome {
        match self.room_index(room_name) {
            Some(i) => self.with_room(
                i,
                self.rooms[i].1.open_poll(self.sessions, title, uid, name, room_name),
            ),
            None => self.idle(),
        }
    }

    /// An option is added to a poll of the room `room_name`; nothing happens
    /// where there is no such room.
    pub open spec fn add_option(
        self,
        poll_title: Seq<char>,
        title: Seq<char>,
        uid: u64,
        name: Seq<char>,
        room_name: Seq<char>,
    ) -> ServerOutcome {
        match self.room_index(room_name) {
            Some(i) => self.with_room(
                i,
                self.rooms[i].1.add_option(self.sessions, poll_title, title, uid, name, room_name),
            ),
            None => self.idle(),
        }
    }

    /// A vote is cast in a poll of the room `room_name`; nothing happens
    /// where there is no such room.
    pub open spec fn cast_vote(
        self,
        poll_title: Seq<char>,
        option_title: Seq<char>,
        uid: u64,
        name: Seq<char>,
        room_name: Seq<char>,
    ) -> ServerOutcome {
        match self.room_index(room_name) {
            Some(i) => self.with_room(
                i,
                self.rooms[i].1.cast_vote(self.sessions, poll_title, option_title, uid, name),
            ),
            None => self.idle(),
        }
    }

    /// A poll of the room `room_name` is closed; nothing happens where there
    /// is no such room.
    pub open spec fn close_poll(self, poll_title: Seq<char>, uid: u64, room_name: Seq<char>)
        -> ServerOutcome {
        match self.room_index(room_name) {
            Some(i) => self.with_room(
                i,
                self.rooms[i].1.close_poll(self.sessions, poll_title, uid),
            ),
            None => self.idle(),
        }
    }

    /// The change of privilege is granted in the room `room_name`.
    pub open spec fn grants(self, room_name: Seq<char>, requester: u64, target: u64, elevated: bool)
        -> bool {
        match self.room_index(room_name) {
            Some(i) => self.rooms[i].1.grants(requester, target, elevated),
            None => false,
        }
    }

    /// A change of privilege in the room `room_name`, without the news of
    /// it; nothing happens where it is not granted.
    pub open spec fn change_privilege(
        self,
        room_name: Seq<char>,
        requester: u64,
        target: u64,
        elevated: bool,
    ) -> ServerOutcome {
        match self.room_index(room_name) {
            Some(i) => self.with_room(
                i,
                self.rooms[i].1.change_privilege(self.sessions, requester, target, elevated),
            ),
            None => self.idle(),
        }
    }

    /// A request to elevate or recede in the room `room_name`; nothing
    /// happens where it is not granted.
    pub open spec fn rerole(
        self,
        room_name: Seq<char>,
        requester: u64,
        target: u64,
        elevated: bool,
    ) -> ServerOutcome {
        match self.room_index(room_name) {
            Some(i) => self.with_room(
                i,
                self.rooms[i].1.rerole(self.sessions, requester, target, elevated),
            ),
            None => self.idle(),
        }
    }

    /// What the command `command` leaves behind.
    pub open spec fn step(self, command: CommandView) -> ServerOutcome {
        match command {
            CommandView::Join { user_id, user_name, room_name } => self.join(
                user_id,
                user_name,
                room_name,
            ),
            CommandView::Disconnect { id } => self.disconnect(id),
            CommandView::Raise { object, owner_id, owner_name, room_name } => self.raise(
                object,
                owner_id,
                owner_name,
                room_name,
            ),
            CommandView::Lower { object, owner_id, owner_name, room_name } => self.lower(
                object,
                owner_id,
                owner_name,
                room_name,
            ),
            CommandView::Instant { object, owner_id, owner_name, room_name } => self.instant(
                object,
                owner_id,
                owner_name,
                room_name,
            ),
            CommandView::Poll { title, owner_id, owner_name, room_name } => self.open_poll(
                title,
                owner_id,
                owner_name,
                room_name,
            ),
            CommandView::PollOption {
                poll_title,
                title,
                owner_id,
                owner_name,
                room_name,
            } => self.add_option(poll_title, title, owner_id, owner_name, room_name),
            CommandView::Vote {
                poll_title,
                option_title,
                owner_id,
                owner_name,
                room_name,
            } => self.cast_vote(poll_title, option_title, owner_id, owner_name, room_name),
            CommandView::PollClose { poll_title, sender_id, room_name } => self.close_poll(
                poll_title,
                sender_id,
                room_name,
            ),
            CommandView::Elevate { target, owner_id, room_name } => self.rerole(
                room_name,
                owner_id,
                target,
                true,
            ),
            CommandView::Recede { target, owner_id, room_name } => self.rerole(
                room_name,
                owner_id,
                target,
                false,
            ),
            CommandView::Relay { id, msg, room } => ServerOutcome {
                state: self,
                sent: self.send(room, Policy::Skip(id), msg),
            },
        }
    }

    /// The deliveries of one frame sent into the room `room_name`; none
    /// where there is no such room.
    pub open spec fn send(self, room_name: Seq<char>, policy: Policy, text: Seq<char>) -> Seq<
        (u64, Seq<char>),
    > {
        match self.room_index(room_name) {
            Some(i) => self.rooms[i].1.send(self.sessions, policy, text),
            None => Seq::empty(),
        }
    }
}

} // verus!
