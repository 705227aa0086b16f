//! The coordinator's commands: each finds its room and lets the room act.
use crate::invariants::sound;
use crate::laws::admissible;
use crate::laws::in_no_other_room;
use crate::laws::lemma_join_sound;
use crate::laws::votes_at_home;
use crate::laws::lemma_change_privilege_sound;
use crate::laws::lemma_step_sound;
use crate::model::first_index;
use crate::model::lemma_first_index;
use crate::model::lemma_first_index_is;
use crate::model::lemma_first_index_none;
use crate::model::memberships;
use crate::model::room_names;
use crate::model::CommandView;
use crate::model::Policy;
use crate::model::RoomView;
use crate::model::ServerView;
use crate::room::has_session;
use crate::server::deliveries_view;
use crate::server::rooms_view;
use crate::server::ClientMessage;
use crate::server::Delivery;
use crate::server::Disconnect;
use crate::server::Elevate;
use crate::server::Instant;
use crate::server::Join;
use crate::server::Lower;
use crate::server::Poll;
use crate::server::PollCloseHelper;
use crate::server::PollOption;
use crate::server::PollVoteHelper;
use crate::server::Raise;
use crate::server::Recede;
use crate::server::Room;
use crate::server::WebSocketServer;
use vstd::prelude::*;
use vstd::string::*;

verus! {

/// A command to the coordinator.
#[derive(Debug)]
pub enum Command {
    Join(Join),
    Disconnect(Disconnect),
    Raise(Raise),
    Lower(Lower),
    Instant(Instant),
    Poll(Poll),
    PollOption(PollOption),
    Vote(PollVoteHelper),
    PollClose(PollCloseHelper),
    Elevate(Elevate),
    Recede(Recede),
    Relay(ClientMessage),
}

impl View for Command {
    type V = CommandView;

    open spec fn view(&self) -> CommandView {
        match self {
            Command::Join(m) => CommandView::Join {
                user_id: m.user_id,
                user_name: m.user_name@,
                room_name: m.room_name@,
            },
            Command::Disconnect(m) => CommandView::Disconnect { id: m.id },
            Command::Raise(m) => CommandView::Raise {
                object: m.object@,
                owner_id: m.owner_id,
                owner_name: m.owner_name@,
                room_name: m.room_name@,
            },
            Command::Lower(m) => CommandView::Lower {
                object: m.object@,
                owner_id: m.owner_id,
                owner_name: m.owner_name@,
                room_name: m.room_name@,
            },
            Command::Instant(m) => CommandView::Instant {
                object: m.object@,
                owner_id: m.owner_id,
                owner_name: m.owner_name@,
                room_name: m.room_name@,
            },
            Command::Poll(m) => CommandView::Poll {
                title: m.title@,
                owner_id: m.owner_id,
                owner_name: m.owner_name@,
                room_name: m.room_name@,
            },
            Command::PollOption(m) => CommandView::PollOption {
                poll_title: m.poll_title@,
                title: m.title@,
                owner_id: m.owner_id,
                owner_name: m.owner_name@,
                room_name: m.room_name@,
            },
            Command::Vote(m) => CommandView::Vote {
                poll_title: m.poll_title@,
                option_title: m.option_title@,
                owner_id: m.owner_id,
                owner_name: m.owner_name@,
                room_name: m.room_name@,
            },
            Command::PollClose(m) => CommandView::PollClose {
                poll_title: m.poll_title@,
                sender_id: m.sender_id,
                room_name: m.room_name@,
            },
            Command::Elevate(m) => CommandView::Elevate {
                target: m.object,
                owner_id: m.owner_id,
                room_name: m.room_name@,
            },
            Command::Recede(m) => CommandView::Recede {
                target: m.object,
                owner_id: m.owner_id,
                room_name: m.room_name@,
            },
            Command::Relay(m) => CommandView::Relay { id: m.id, msg: m.msg@, room: m.room@ },
        }
    }
}

impl Default for Room {
    /// A room without users, flags or polls.
    fn default() -> (r: Room)
        ensures
            r@ == RoomView::empty(),
    {
        let r = Room { raised: Vec::new(), polls: Vec::new(), connected: Vec::new() };
        assert(r@.raised =~= Seq::empty());
        assert(r@.polls =~= Seq::empty());
        assert(r@.connected =~= Seq::empty());
        r
    }
}

impl Default for WebSocketServer {
    /// A coordinator without sessions or rooms.
    fn default() -> (r: WebSocketServer)
        ensures
            r@ == ServerView::empty(),
            sound(r@),
    {
        let r = WebSocketServer { sessions: Vec::new(), rooms: Vec::new() };
        assert(r@.rooms =~= Seq::empty());
        r
    }
}

/// Nothing to send.
fn nothing() -> (r: Vec<Delivery>)
    ensures
        deliveries_view(r@) == Seq::<(u64, Seq<char>)>::empty(),
{
    let r: Vec<Delivery> = Vec::new();
    assert(deliveries_view(r@) =~= Seq::<(u64, Seq<char>)>::empty());
    r
}

impl WebSocketServer {
    /// The place of the room `name`.
    pub fn room_index(&self, name: &String) -> (r: Option<usize>)
        ensures
            match r {
                Some(i) => i < self.rooms.len() && self@.room_index(name@) == Some(i as int),
                None => self@.room_index(name@) is None,
            },
    {
        let ghost names = room_names(self@.rooms);
        let mut i: usize = 0;
        while i < self.rooms.len()
            invariant
                i <= self.rooms.len(),
                names == room_names(self@.rooms),
                forall|j: int| 0 <= j < i ==> names[j] != name@,
            decreases self.rooms.len() - i,
        {
            if self.rooms[i].0 == *name {
                proof {
                    lemma_first_index_is(names, name@, i as int);
                }
                return Some(i);
            }
            i += 1;
        }
        proof {
            lemma_first_index_none(names, name@);
        }
        None
    }

    /// The place of the first room that `user_id` is in.
    pub fn room_of(&self, user_id: u64) -> (r: Option<usize>)
        ensures
            match r {
                Some(i) => i < self.rooms.len() && self@.room_of(user_id) == Some(i as int),
                None => self@.room_of(user_id) is None,
            },
    {
        let ghost inside = memberships(self@.rooms, user_id);
        let mut i: usize = 0;
        while i < self.rooms.len()
            invariant
                i <= self.rooms.len(),
                inside == memberships(self@.rooms, user_id),
                forall|j: int| 0 <= j < i ==> inside[j] != true,
            decreases self.rooms.len() - i,
        {
            assert(inside[i as int] == self.rooms@[i as int].1@.is_member(user_id));
            if self.rooms[i].1.member_index(user_id).is_some() {
                proof {
                    lemma_first_index_is(inside, true, i as int);
                }
                return Some(i);
            }
            i += 1;
        }
        proof {
            lemma_first_index_none(inside, true);
        }
        None
    }

    /// The place of the session `user_id` among the live sessions.
    pub fn session_index(&self, user_id: u64) -> (r: Option<usize>)
        ensures
            match r {
                Some(i) => i < self.sessions.len() && first_index(self@.sessions, user_id) == Some(
                    i as int,
                ),
                None => first_index(self@.sessions, user_id) is None,
            },
    {
        let mut i: usize = 0;
        while i < self.sessions.len()
            invariant
                i <= self.sessions.len(),
                forall|j: int| 0 <= j < i ==> self.sessions@[j] != user_id,
            decreases self.sessions.len() - i,
        {
            if self.sessions[i] == user_id {
                proof {
                    lemma_first_index_is(self.sessions@, user_id, i as int);
                }
                return Some(i);
            }
            i += 1;
        }
        proof {
            lemma_first_index_none(self.sessions@, user_id);
        }
        None
    }

    /// The deliveries of `message` sent into `room` under `policy`; none
    /// where there is no such room.
    pub fn send_message(&self, room: &str, message: &str, policy: Policy) -> (r: Vec<Delivery>)
        ensures
            deliveries_view(r@) == self@.send(room@, policy, message@),
    {
        match self.room_index(&room.to_owned()) {
            Some(i) => self.rooms[i].1.send(&self.sessions, policy, message),
            None => nothing(),
        }
    }

    /// send a message to all users in a room but `skip_id`
    pub fn send_message_skip_user(&self, room: &str, message: &str, skip_id: u64) -> (r: Vec<
        Delivery,
    >)
        ensures
            deliveries_view(r@) == self@.send(room@, Policy::Skip(skip_id), message@),
    {
        self.send_message(room, message, Policy::Skip(skip_id))
    }

    /// send a message to all users in a room
    pub fn send_message_all(&self, room: &str, message: &str) -> (r: Vec<Delivery>)
        ensures
            deliveries_view(r@) == self@.send(room@, Policy::All, message@),
    {
        self.send_message(room, message, Policy::All)
    }

    /// send a message to a specific user in a room
    pub fn send_message_user(&self, room: &str, message: &str, user_id: u64) -> (r: Vec<Delivery>)
        ensures
            deliveries_view(r@) == self@.send(room@, Policy::Only(user_id), message@),
    {
        self.send_message(room, message, Policy::Only(user_id))
    }

    /// send a message to all elevated users in a room
    pub fn send_message_all_elevated(&self, room: &str, message: &str) -> (r: Vec<Delivery>)
        ensures
            deliveries_view(r@) == self@.send(room@, Policy::Elevated, message@),
    {
        self.send_message(room, message, Policy::Elevated)
    }

    /// send a message to all non-elevated users in a room
    pub fn send_message_all_not_elevated(&self, room: &str, message: &str) -> (r: Vec<Delivery>)
        ensures
            deliveries_view(r@) == self@.send(room@, Policy::NotElevated, message@),
    {
        self.send_message(room, message, Policy::NotElevated)
    }

    /// send an error message to a specific user in a room
    pub fn send_error_user(
        &self,
        room: &str,
        error_code: &str,
        error_description: &str,
        user_id: u64,
    ) -> (r: Vec<Delivery>)
        ensures
            deliveries_view(r@) == self@.send(
                room@,
                Policy::Only(user_id),
                crate::messages::outbound::error_text(error_code@, error_description@),
            ),
    {
        let frame = crate::messages::outbound::Error {
            kind: crate::messages::outbound::Types::Error,
            object: error_code.to_owned(),
            description: error_description.to_owned(),
        };
        let text = frame.to_json();
        self.send_message_user(room, text.as_str(), user_id)
    }

    /// A session enters a room: the session is noted, the room is made if
    /// there is none of that name, and the user enters it.
    pub fn handle_join(&mut self, msg: Join) -> (r: Vec<Delivery>)
        ensures
            final(self)@ == old(self)@.join(msg.user_id, msg.user_name@, msg.room_name@).state,
            deliveries_view(r@) == old(self)@.join(msg.user_id, msg.user_name@, msg.room_name@).sent,
            sound(old(self)@) && in_no_other_room(old(self)@, msg.user_id, msg.room_name@) ==> sound(
                final(self)@,
            ),
    {
        proof {
            if sound(self@) && in_no_other_room(self@, msg.user_id, msg.room_name@) {
                lemma_join_sound(self@, msg.user_id, msg.user_name@, msg.room_name@);
            }
        }
        if !has_session(&self.sessions, msg.user_id) {
            self.sessions.push(msg.user_id);
        }
        let i = match self.room_index(&msg.room_name) {
            Some(i) => i,
            None => {
                let ghost names = room_names(self@.rooms);
                proof {
                    lemma_first_index(names, msg.room_name@);
                }
                self.rooms.push((msg.room_name.clone(), Room::default()));
                proof {
                    assert(rooms_view(self.rooms@) =~= rooms_view(old(self).rooms@).push(
                        (msg.room_name@, RoomView::empty()),
                    ));
                    assert(room_names(self@.rooms) =~= names.push(msg.room_name@));
                    lemma_first_index_is(
                        room_names(self@.rooms),
                        msg.room_name@,
                        self.rooms.len() - 1,
                    );
                }
                self.rooms.len() - 1
            },
        };
        let ghost noted = self@;
        let out = self.rooms[i].1.enter(&self.sessions, msg.user_id, msg.user_name);
        proof {
            assert(rooms_view(self.rooms@) =~= noted.rooms.update(
                i as int,
                (noted.rooms[i as int].0, self.rooms@[i as int].1@),
            ));
        }
        out
    }

    /// A session ends. Nothing happens for an unknown session. Else the
    /// session is forgotten and the user leaves the room it is in.
    pub fn handle_disconnect(&mut self, msg: Disconnect) -> (r: Vec<Delivery>)
        ensures
            final(self)@ == old(self)@.disconnect(msg.id).state,
            deliveries_view(r@) == old(self)@.disconnect(msg.id).sent,
            sound(old(self)@) ==> sound(final(self)@),
    {
        proof {
            if sound(self@) {
                lemma_step_sound(self@, CommandView::Disconnect { id: msg.id });
            }
        }
        match self.session_index(msg.id) {
            None => {
                return nothing();
            },
            Some(k) => {
                self.sessions.remove(k);
            },
        }
        match self.room_of(msg.id) {
            None => nothing(),
            Some(i) => {
                let out = self.rooms[i].1.leave(&self.sessions, msg.id);
                proof {
                    assert(rooms_view(self.rooms@) =~= old(self)@.rooms.update(
                        i as int,
                        (old(self)@.rooms[i as int].0, self.rooms@[i as int].1@),
                    ));
                }
                out
            },
        }
    }

    /// A frame is relayed to the other users of the room.
    pub fn handle_client_message(&self, msg: ClientMessage) -> (r: Vec<Delivery>)
        ensures
            deliveries_view(r@) == self@.send(msg.room@, Policy::Skip(msg.id), msg.msg@),
    {
        self.send_message_skip_user(msg.room.as_str(), msg.msg.as_str(), msg.id)
    }

    /// A flag is raised; nothing happens where there is no such room.
    pub fn handle_raise(&mut self, msg: Raise) -> (r: Vec<Delivery>)
        ensures
            final(self)@ == old(self)@.raise(
                msg.object@,
                msg.owner_id,
                msg.owner_name@,
                msg.room_name@,
            ).state,
            deliveries_view(r@) == old(self)@.raise(
                msg.object@,
                msg.owner_id,
                msg.owner_name@,
                msg.room_name@,
            ).sent,
            sound(old(self)@) ==> sound(final(self)@),
    {
        proof {
            if sound(self@) {
                lemma_step_sound(
                    self@,
                    CommandView::Raise {
                        object: msg.object@,
                        owner_id: msg.owner_id,
                        owner_name: msg.owner_name@,
                        room_name: msg.room_name@,
                    },
                );
            }
        }
        match self.room_index(&msg.room_name) {
            None => nothing(),
            Some(i) => {
                let out = self.rooms[i].1.raise(&self.sessions, msg);
                proof {
                    assert(rooms_view(self.rooms@) =~= old(self)@.rooms.update(
                        i as int,
                        (old(self)@.rooms[i as int].0, self.rooms@[i as int].1@),
                    ));
                }
                out
            },
        }
    }

    /// A flag is lowered; nothing happens where there is no such room.
    pub fn handle_lower(&mut self, msg: Lower) -> (r: Vec<Delivery>)
        ensures
            final(self)@ == old(self)@.lower(
                msg.object@,
                msg.owner_id,
                msg.owner_name@,
                msg.room_name@,
            ).state,
            deliveries_view(r@) == old(self)@.lower(
                msg.object@,
                msg.owner_id,
                msg.owner_name@,
                msg.room_name@,
            ).sent,
            sound(old(self)@) ==> sound(final(self)@),
    {
        proof {
            if sound(self@) {
                lemma_step_sound(
                    self@,
                    CommandView::Lower {
                        object: msg.object@,
                        owner_id: msg.owner_id,
                        owner_name: msg.owner_name@,
                        room_name: msg.room_name@,
                    },
                );
            }
        }
        match self.room_index(&msg.room_name) {
            None => nothing(),
            Some(i) => {
                let out = self.rooms[i].1.lower(&self.sessions, msg);
                proof {
                    assert(rooms_view(self.rooms@) =~= old(self)@.rooms.update(
                        i as int,
                        (old(self)@.rooms[i as int].0, self.rooms@[i as int].1@),
                    ));
                }
                out
            },
        }
    }

    /// A signal is passed on; nothing happens where there is no such room.
    pub fn handle_instant(&self, msg: Instant) -> (r: Vec<Delivery>)
        ensures
            self@ == self@.instant(
                msg.object@,
                msg.owner_id,
                msg.owner_name@,
                msg.room_name@,
            ).state,
            deliveries_view(r@) == self@.instant(
                msg.object@,
                msg.owner_id,
                msg.owner_name@,
                msg.room_name@,
            ).sent,
    {
        match self.room_index(&msg.room_name) {
            None => nothing(),
            Some(i) => {
                proof {
                    assert(self@.rooms =~= self@.rooms.update(i as int, self@.rooms[i as int]));
                }
                self.rooms[i].1.instant(&self.sessions, msg)
            },
        }
    }

    /// A poll is opened; nothing happens where there is no such room.
    pub fn handle_poll(&mut self, poll: Poll) -> (r: Vec<Delivery>)
        ensures
            final(self)@ == old(self)@.open_poll(
                poll.title@,
                poll.owner_id,
                poll.owner_name@,
                poll.room_name@,
            ).state,
            deliveries_view(r@) == old(self)@.open_poll(
                poll.title@,
                poll.owner_id,
                poll.owner_name@,
                poll.room_name@,
            ).sent,
            sound(old(self)@) ==> sound(final(self)@),
    {
        proof {
            if sound(self@) {
                lemma_step_sound(
                    self@,
                    CommandView::Poll {
                        title: poll.title@,
                        owner_id: poll.owner_id,
                        owner_name: poll.owner_name@,
                        room_name: poll.room_name@,
                    },
                );
            }
        }
        match self.room_index(&poll.room_name) {
            None => nothing(),
            Some(i) => {
                let out = self.rooms[i].1.open_poll(&self.sessions, poll);
                proof {
                    assert(rooms_view(self.rooms@) =~= old(self)@.rooms.update(
                        i as int,
                        (old(self)@.rooms[i as int].0, self.rooms@[i as int].1@),
                    ));
                }
                out
            },
        }
    }

    /// An option is added to a poll; nothing happens where there is no such
    /// room.
    pub fn handle_poll_option(&mut self, poll_option: PollOption) -> (r: Vec<Delivery>)
        ensures
            final(self)@ == old(self)@.add_option(
                poll_option.poll_title@,
                poll_option.title@,
                poll_option.owner_id,
                poll_option.owner_name@,
                poll_option.room_name@,
            ).state,
            deliveries_view(r@) == old(self)@.add_option(
                poll_option.poll_title@,
                poll_option.title@,
                poll_option.owner_id,
                poll_option.owner_name@,
                poll_option.room_name@,
            ).sent,
            sound(old(self)@) ==> sound(final(self)@),
    {
        proof {
            if sound(self@) {
                lemma_step_sound(
                    self@,
                    CommandView::PollOption {
                        poll_title: poll_option.poll_title@,
                        title: poll_option.title@,
                        owner_id: poll_option.owner_id,
                        owner_name: poll_option.owner_name@,
                        room_name: poll_option.room_name@,
                    },
                );
            }
        }
        match self.room_index(&poll_option.room_name) {
            None => nothing(),
            Some(i) => {
                let out = self.rooms[i].1.add_option(&self.sessions, poll_option);
                proof {
                    assert(rooms_view(self.rooms@) =~= old(self)@.rooms.update(
                        i as int,
                        (old(self)@.rooms[i as int].0, self.rooms@[i as int].1@),
                    ));
                }
                out
            },
        }
    }

    /// A vote is cast; nothing happens where there is no such room.
    pub fn handle_vote(&mut self, vote: PollVoteHelper) -> (r: Vec<Delivery>)
        ensures
            final(self)@ == old(self)@.cast_vote(
                vote.poll_title@,
                vote.option_title@,
                vote.owner_id,
                vote.owner_name@,
                vote.room_name@,
            ).state,
            deliveries_view(r@) == old(self)@.cast_vote(
                vote.poll_title@,
                vote.option_title@,
                vote.owner_id,
                vote.owner_name@,
                vote.room_name@,
            ).sent,
            sound(old(self)@) && votes_at_home(old(self)@, vote.owner_id, vote.room_name@) ==> sound(
                final(self)@,
            ),
    {
        proof {
            if sound(self@) && votes_at_home(self@, vote.owner_id, vote.room_name@) {
                lemma_step_sound(
                    self@,
                    CommandView::Vote {
                        poll_title: vote.poll_title@,
                        option_title: vote.option_title@,
                        owner_id: vote.owner_id,
                        owner_name: vote.owner_name@,
                        room_name: vote.room_name@,
                    },
                );
            }
        }
        match self.room_index(&vote.room_name) {
            None => nothing(),
            Some(i) => {
                let out = self.rooms[i].1.cast_vote(&self.sessions, vote);
                proof {
                    assert(rooms_view(self.rooms@) =~= old(self)@.rooms.update(
                        i as int,
                        (old(self)@.rooms[i as int].0, self.rooms@[i as int].1@),
                    ));
                }
                out
            },
        }
    }

    /// A poll is closed; nothing happens where there is no such room.
    pub fn handle_poll_close(&mut self, close: PollCloseHelper) -> (r: Vec<Delivery>)
        ensures
            final(self)@ == old(self)@.close_poll(
                close.poll_title@,
                close.sender_id,
                close.room_name@,
            ).state,
            deliveries_view(r@) == old(self)@.close_poll(
                close.poll_title@,
                close.sender_id,
                close.room_name@,
            ).sent,
            sound(old(self)@) ==> sound(final(self)@),
    {
        proof {
            if sound(self@) {
                lemma_step_sound(
                    self@,
                    CommandView::PollClose {
                        poll_title: close.poll_title@,
                        sender_id: close.sender_id,
                        room_name: close.room_name@,
                    },
                );
            }
        }
        match self.room_index(&close.room_name) {
            None => nothing(),
            Some(i) => {
                let out = self.rooms[i].1.close_poll(&self.sessions, close);
                proof {
                    assert(rooms_view(self.rooms@) =~= old(self)@.rooms.update(
                        i as int,
                        (old(self)@.rooms[i as int].0, self.rooms@[i as int].1@),
                    ));
                }
                out
            },
        }
    }

    /// Changes the privilege of `user_id` at the request of `requester_id`.
    /// It is granted where the room exists, the requester is a moderator of
    /// it, the user is in it, and the user's privilege is not yet `elevated`.
    /// Then the privilege is set, and the frames that show the user the votes
    /// of the open polls anew are returned. Else nothing changes.
    pub fn process_priviliges(
        &mut self,
        room_name: &String,
        requester_id: u64,
        user_id: u64,
        elevated: bool,
    ) -> (r: Result<Vec<Delivery>, &'static str>)
        ensures
            r is Ok <==> old(self)@.grants(room_name@, requester_id, user_id, elevated),
            final(self)@ == old(self)@.change_privilege(
                room_name@,
                requester_id,
                user_id,
                elevated,
            ).state,
            r matches Ok(out) ==> deliveries_view(out@) == old(self)@.change_privilege(
                room_name@,
                requester_id,
                user_id,
                elevated,
            ).sent,
            r matches Err(reason) ==> reason@.len() == 0,
            sound(old(self)@) ==> sound(final(self)@),
    {
        proof {
            reveal_strlit("");
            if sound(self@) {
                lemma_change_privilege_sound(self@, room_name@, requester_id, user_id, elevated);
            }
        }
        match self.room_index(room_name) {
            None => Err(""),
            Some(i) => {
                let out = self.rooms[i].1.change_privilege(
                    &self.sessions,
                    requester_id,
                    user_id,
                    elevated,
                );
                proof {
                    assert(rooms_view(self.rooms@) =~= old(self)@.rooms.update(
                        i as int,
                        (old(self)@.rooms[i as int].0, self.rooms@[i as int].1@),
                    ));
                }
                out
            },
        }
    }

    /// Answers a request to elevate or recede: where the change is granted,
    /// the user sees the votes anew and all learn of the change; else
    /// nothing changes and nothing is sent.
    fn rerole(&mut self, room_name: &String, requester_id: u64, user_id: u64, elevated: bool) -> (r:
        Vec<Delivery>)
        ensures
            final(self)@ == old(self)@.rerole(room_name@, requester_id, user_id, elevated).state,
            deliveries_view(r@) == old(self)@.rerole(
                room_name@,
                requester_id,
                user_id,
                elevated,
            ).sent,
    {
        match self.room_index(room_name) {
            None => nothing(),
            Some(i) => {
                let out = self.rooms[i].1.rerole(&self.sessions, requester_id, user_id, elevated);
                proof {
                    assert(rooms_view(self.rooms@) =~= old(self)@.rooms.update(
                        i as int,
                        (old(self)@.rooms[i as int].0, self.rooms@[i as int].1@),
                    ));
                }
                out
            },
        }
    }

    /// A request to give `msg.object` moderator privileges.
    pub fn handle_elevate(&mut self, msg: Elevate) -> (r: Vec<Delivery>)
        ensures
            final(self)@ == old(self)@.rerole(msg.room_name@, msg.owner_id, msg.object, true).state,
            deliveries_view(r@) == old(self)@.rerole(
                msg.room_name@,
                msg.owner_id,
                msg.object,
                true,
            ).sent,
            sound(old(self)@) ==> sound(final(self)@),
    {
        proof {
            if sound(self@) {
                lemma_step_sound(
                    self@,
                    CommandView::Elevate {
                        target: msg.object,
                        owner_id: msg.owner_id,
                        room_name: msg.room_name@,
                    },
                );
            }
        }
        self.rerole(&msg.room_name, msg.owner_id, msg.object, true)
    }

    /// A request to take moderator privileges from `msg.object`.
    pub fn handle_recede(&mut self, msg: Recede) -> (r: Vec<Delivery>)
        ensures
            final(self)@ == old(self)@.rerole(msg.room_name@, msg.owner_id, msg.object, false).state,
            deliveries_view(r@) == old(self)@.rerole(
                msg.room_name@,
                msg.owner_id,
                msg.object,
                false,
            ).sent,
            sound(old(self)@) ==> sound(final(self)@),
    {
        proof {
            if sound(self@) {
                lemma_step_sound(
                    self@,
                    CommandView::Recede {
                        target: msg.object,
                        owner_id: msg.owner_id,
                        room_name: msg.room_name@,
                    },
                );
            }
        }
        self.rerole(&msg.room_name, msg.owner_id, msg.object, false)
    }

    /// Applies one command and returns the frames to send, each with its
    /// recipient, in the order of sending.
    pub fn handle(&mut self, command: Command) -> (r: Vec<Delivery>)
        ensures
            final(self)@ == old(self)@.step(command@).state,
            deliveries_view(r@) == old(self)@.step(command@).sent,
            sound(old(self)@) && admissible(old(self)@, command@) ==> sound(final(self)@),
    {
        proof {
            if sound(self@) && admissible(self@, command@) {
                lemma_step_sound(self@, command@);
            }
        }
        match command {
            Command::Join(msg) => self.handle_join(msg),
            Command::Disconnect(msg) => self.handle_disconnect(msg),
            Command::Raise(msg) => self.handle_raise(msg),
            Command::Lower(msg) => self.handle_lower(msg),
            Command::Instant(msg) => self.handle_instant(msg),
            Command::Poll(msg) => self.handle_poll(msg),
            Command::PollOption(msg) => self.handle_poll_option(msg),
            Command::Vote(msg) => self.handle_vote(msg),
            Command::PollClose(msg) => self.handle_poll_close(msg),
            Command::Elevate(msg) => self.handle_elevate(msg),
            Command::Recede(msg) => self.handle_recede(msg),
            Command::Relay(msg) => self.handle_client_message(msg),
        }
    }
}

} // verus!
