//! The coordinator: it keeps the live sessions and the rooms, and answers
//! each command with the frames that have to be sent.
use crate::model::PollOptionView;
use crate::model::PollView;
use crate::model::RaisedView;
use crate::model::RoomView;
use crate::model::ServerView;
use crate::model::UserView;
use vstd::prelude::*;

verus! {

/// A text frame for one session.
#[derive(Debug)]
pub struct Message(pub String);

/// A frame on its way to the session of one user.
#[derive(Debug)]
pub struct Delivery {
    pub user_id: u64,
    pub message: Message,
}

/// A session has ended.
#[derive(Debug)]
pub struct Disconnect {
    pub id: u64,
}

/// Request to give the user `object` moderator privileges.
#[derive(Clone, Debug)]
pub struct Elevate {
    pub object: u64,
    pub owner_id: u64,
    pub room_name: String,
}

/// Request to take moderator privileges from the user `object`.
#[derive(Clone, Debug)]
pub struct Recede {
    pub object: u64,
    pub owner_id: u64,
    pub room_name: String,
}

/// A frame that a session relays to the other sessions of its room.
#[derive(Debug)]
pub struct ClientMessage {
    /// Id of the client session
    pub id: u64,
    /// Peer message
    pub msg: String,
    /// Room name
    pub room: String,
}

/// A user in a room.
#[derive(Clone, Debug)]
pub struct User {
    pub name: String,
    pub elevated: bool,
}

/// Request to close a poll.
#[derive(Clone, Debug)]
pub struct PollCloseHelper {
    pub sender_id: u64,
    pub sender_name: String,
    pub room_name: String,
    pub poll_title: String,
}

/// Request to vote for an option of a poll.
#[derive(Clone, Debug)]
pub struct PollVoteHelper {
    pub owner_id: u64,
    pub owner_name: String,
    pub room_name: String,
    pub poll_title: String,
    pub option_title: String,
}

/// An option of a poll; also the request to add it.
#[derive(Clone, Debug)]
pub struct PollOption {
    pub title: String,
    pub owner_id: u64,
    pub owner_name: String,
    pub room_name: String,
    pub poll_title: String,
}

/// A poll; also the request to open it. `votes` holds, for each voter, the
/// title of the option voted for.
#[derive(Clone, Debug)]
pub struct Poll {
    pub title: String,
    pub owner_id: u64,
    pub owner_name: String,
    pub room_name: String,
    pub options: Vec<PollOption>,
    pub votes: Vec<(u64, String)>,
    pub closed: bool,
}

/// Request to raise a flag on `object`, which is JSON text.
#[derive(Clone, Debug)]
pub struct Raise {
    pub object: String,
    pub owner_id: u64,
    pub owner_name: String,
    pub room_name: String,
}

/// A raised flag. `object` is JSON text.
#[derive(Clone, Debug)]
pub struct Raised {
    pub object: String,
    pub owner_id: u64,
    pub owner_name: String,
}

/// Request to lower the flag on `object`.
#[derive(Clone, Debug)]
pub struct Lower {
    pub object: String,
    pub owner_id: u64,
    pub owner_name: String,
    pub room_name: String,
}

/// A signal that is passed on and forgotten. `object` is JSON text.
#[derive(Clone, Debug)]
pub struct Instant {
    pub object: String,
    pub owner_id: u64,
    pub owner_name: String,
    pub room_name: String,
}

/// A session enters a room; the room is made if it does not exist.
#[derive(Debug)]
pub struct Join {
    /// Client id
    pub user_id: u64,
    pub user_name: String,
    /// Room name
    pub room_name: String,
}

/// The state of one room.
#[derive(Clone, Debug)]
pub struct Room {
    pub raised: Vec<Raised>,
    pub polls: Vec<Poll>,
    pub connected: Vec<(u64, User)>,
}

/// The coordinator's state: the ids of the live sessions, and each room with
/// its name.
#[derive(Debug)]
pub struct WebSocketServer {
    pub sessions: Vec<u64>,
    pub rooms: Vec<(String, Room)>,
}

impl View for User {
    type V = UserView;

    open spec fn view(&self) -> UserView {
        UserView { name: self.name@, elevated: self.elevated }
    }
}

impl View for Raised {
    type V = RaisedView;

    open spec fn view(&self) -> RaisedView {
        RaisedView { object: self.object@, owner_id: self.owner_id, owner_name: self.owner_name@ }
    }
}

impl PartialEq for Raised {
    /// Two flags are the same where object and owner are; the owner's name
    /// does not count.
    fn eq(&self, other: &Self) -> (r: bool) {
        self.owner_id == other.owner_id && self.object == other.object
    }
}

impl vstd::std_specs::cmp::PartialEqSpecImpl for Raised {
    open spec fn obeys_eq_spec() -> bool {
        true
    }

    open spec fn eq_spec(&self, other: &Self) -> bool {
        self.owner_id == other.owner_id && self.object@ == other.object@
    }
}

impl View for PollOption {
    type V = PollOptionView;

    open spec fn view(&self) -> PollOptionView {
        PollOptionView {
            title: self.title@,
            owner_id: self.owner_id,
            owner_name: self.owner_name@,
            room_name: self.room_name@,
            poll_title: self.poll_title@,
        }
    }
}

/// The view of a list of raised flags.
pub open spec fn raised_view(v: Seq<Raised>) -> Seq<RaisedView> {
    v.map_values(|r: Raised| r@)
}

/// The view of a list of users with their ids.
pub open spec fn members_view(v: Seq<(u64, User)>) -> Seq<(u64, UserView)> {
    v.map_values(|m: (u64, User)| (m.0, m.1@))
}

/// The view of a list of options.
pub open spec fn options_view(v: Seq<PollOption>) -> Seq<PollOptionView> {
    v.map_values(|o: PollOption| o@)
}

/// The view of a list of votes.
pub open spec fn votes_view(v: Seq<(u64, String)>) -> Seq<(u64, Seq<char>)> {
    v.map_values(|e: (u64, String)| (e.0, e.1@))
}

impl View for Poll {
    type V = PollView;

    open spec fn view(&self) -> PollView {
        PollView {
            title: self.title@,
            owner_id: self.owner_id,
            owner_name: self.owner_name@,
            room_name: self.room_name@,
            options: options_view(self.options@),
            votes: votes_view(self.votes@),
            closed: self.closed,
        }
    }
}

/// The view of a list of polls.
pub open spec fn polls_view(v: Seq<Poll>) -> Seq<PollView> {
    v.map_values(|p: Poll| p@)
}

impl View for Room {
    type V = RoomView;

    open spec fn view(&self) -> RoomView {
        RoomView {
            raised: raised_view(self.raised@),
            polls: polls_view(self.polls@),
            connected: members_view(self.connected@),
        }
    }
}

/// The view of a list of rooms with their names.
pub open spec fn rooms_view(v: Seq<(String, Room)>) -> Seq<(Seq<char>, RoomView)> {
    v.map_values(|e: (String, Room)| (e.0@, e.1@))
}

impl View for WebSocketServer {
    type V = ServerView;

    open spec fn view(&self) -> ServerView {
        ServerView { sessions: self.sessions@, rooms: rooms_view(self.rooms@) }
    }
}

/// The view of a list of deliveries: each recipient with the frame's text.
pub open spec fn deliveries_view(v: Seq<Delivery>) -> Seq<(u64, Seq<char>)> {
    v.map_values(|d: Delivery| (d.user_id, d.message.0@))
}

/// The view of a list of texts.
pub open spec fn texts_view(v: Seq<String>) -> Seq<Seq<char>> {
    v.map_values(|t: String| t@)
}

} // verus!
