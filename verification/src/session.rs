//! The session of one client: it reads the client's frames as commands for
//! the coordinator, and watches the client's heartbeat.
use crate::coordinator::Command;
use crate::json::characters;
use crate::json::decimal_number;
use crate::json::decode_object;
use crate::json::decode_string;
use crate::json::json_object;
use crate::json::json_string;
use crate::json::parse_decimal;
use crate::messages::inbound::type_named;
use crate::messages::inbound::Types;
use crate::model::first_index;
use crate::model::lemma_first_index_is;
use crate::model::lemma_first_index_none;
use crate::model::CommandView;
use crate::server::Disconnect;
use crate::server::Elevate;
use crate::server::Instant;
use crate::server::Join;
use crate::server::Lower;
use crate::server::Poll;
use crate::server::PollCloseHelper;
use crate::server::PollOption;
use crate::server::PollVoteHelper;
use crate::server::Raise;
use crate::server::Recede;
use vstd::prelude::*;
use vstd::string::*;

verus! {

/// The characters that count as white space around a frame.
pub open spec fn is_white_space(c: char) -> bool {
    ('\u{9}' <= c && c <= '\u{d}') || c == ' ' || c == '\u{85}' || c == '\u{a0}' || c
        == '\u{1680}' || ('\u{2000}' <= c && c <= '\u{200a}') || c == '\u{2028}' || c
        == '\u{2029}' || c == '\u{202f}' || c == '\u{205f}' || c == '\u{3000}'
}

/// The number of white space characters that `s` begins with.
pub open spec fn leading_space(s: Seq<char>) -> nat
    decreases s.len(),
{
    if s.len() > 0 && is_white_space(s[0]) {
        1 + leading_space(s.skip(1))
    } else {
        0
    }
}

/// The number of white space characters that `s` ends with.
pub open spec fn trailing_space(s: Seq<char>) -> nat
    decreases s.len(),
{
    if s.len() > 0 && is_white_space(s.last()) {
        1 + trailing_space(s.drop_last())
    } else {
        0
    }
}

/// `s` without the white space that it begins and ends with.
pub open spec fn trimmed(s: Seq<char>) -> Seq<char> {
    let rest = s.skip(leading_space(s) as int);
    rest.take(rest.len() - trailing_space(rest))
}

/// Where white space runs from the start of `s` up to `a` and no further,
/// `s` begins with `a` white space characters.
proof fn lemma_leading_space(s: Seq<char>, a: int)
    requires
        0 <= a <= s.len(),
        forall|i: int| 0 <= i < a ==> is_white_space(s[i]),
        a < s.len() ==> !is_white_space(s[a]),
    ensures
        leading_space(s) == a,
    decreases a,
{
    if a > 0 {
        let rest = s.skip(1);
        assert forall|i: int| 0 <= i < a - 1 implies is_white_space(rest[i]) by {
            assert(rest[i] == s[i + 1]);
        }
        if a - 1 < rest.len() {
            assert(rest[a - 1] == s[a]);
        }
        lemma_leading_space(rest, a - 1);
    }
}

/// Where white space runs from `b` to the end of `s` and starts no earlier,
/// `s` ends with `s.len() - b` white space characters.
proof fn lemma_trailing_space(s: Seq<char>, b: int)
    requires
        0 <= b <= s.len(),
        forall|i: int| b <= i < s.len() ==> is_white_space(s[i]),
        b > 0 ==> !is_white_space(s[b - 1]),
    ensures
        trailing_space(s) == s.len() - b,
    decreases s.len() - b,
{
    if b < s.len() {
        let rest = s.drop_last();
        assert forall|i: int| b <= i < rest.len() implies is_white_space(rest[i]) by {
            assert(rest[i] == s[i]);
        }
        if b > 0 {
            assert(rest[b - 1] == s[b - 1]);
        }
        lemma_trailing_space(rest, b);
    }
}

/// Tells whether `c` counts as white space.
pub fn white_space(c: char) -> (r: bool)
    ensures
        r == is_white_space(c),
{
    ('\u{9}' <= c && c <= '\u{d}') || c == ' ' || c == '\u{85}' || c == '\u{a0}' || c
        == '\u{1680}' || ('\u{2000}' <= c && c <= '\u{200a}') || c == '\u{2028}' || c
        == '\u{2029}' || c == '\u{202f}' || c == '\u{205f}' || c == '\u{3000}'
}

/// Removes the white space that `s` begins and ends with.
pub fn trim(s: &str) -> (r: &str)
    ensures
        r@ == trimmed(s@),
{
    let chars = characters(s);
    let n = chars.len();
    let mut a: usize = 0;
    while a < n && white_space(chars[a])
        invariant
            n == s@.len(),
            chars@ == s@,
            a <= n,
            forall|i: int| 0 <= i < a ==> is_white_space(s@[i]),
        decreases n - a,
    {
        a += 1;
    }
    let mut b: usize = n;
    while b > a && white_space(chars[b - 1])
        invariant
            n == s@.len(),
            chars@ == s@,
            a <= b <= n,
            forall|i: int| b <= i < n ==> is_white_space(s@[i]),
        decreases b,
    {
        b -= 1;
    }
    proof {
        lemma_leading_space(s@, a as int);
        let rest = s@.skip(a as int);
        assert forall|i: int| b - a <= i < rest.len() implies is_white_space(rest[i]) by {
            assert(rest[i] == s@[i + a]);
        }
        if b > a {
            assert(rest[b - a - 1] == s@[b - 1]);
        }
        lemma_trailing_space(rest, b - a);
        assert(rest.take(b - a) =~= s@.subrange(a as int, b as int));
    }
    s.substring_char(a, b)
}

/// One member of a frame: its key, the JSON text of its value, and the
/// string that the value is, where it is one.
#[derive(Clone, Debug)]
pub struct Member {
    pub key: String,
    pub text: String,
    pub string: Option<String>,
}

/// One member of a frame as mathematical values.
pub struct MemberView {
    pub key: Seq<char>,
    pub text: Seq<char>,
    pub string: Option<Seq<char>>,
}

impl View for Member {
    type V = MemberView;

    open spec fn view(&self) -> MemberView {
        MemberView {
            key: self.key@,
            text: self.text@,
            string: match self.string {
                Some(s) => Some(s@),
                None => None,
            },
        }
    }
}

/// The view of a list of members.
pub open spec fn frame_view(members: Seq<Member>) -> Seq<MemberView> {
    members.map_values(|m: Member| m@)
}

/// The keys of the members.
pub open spec fn member_keys(members: Seq<MemberView>) -> Seq<Seq<char>> {
    members.map_values(|m: MemberView| m.key)
}

/// The first member under `key`.
pub open spec fn member(members: Seq<MemberView>, key: Seq<char>) -> Option<MemberView> {
    match first_index(member_keys(members), key) {
        Some(i) => Some(members[i]),
        None => None,
    }
}

/// The string under `key`; none where there is no such member or its value
/// is no string.
pub open spec fn string_member(members: Seq<MemberView>, key: Seq<char>) -> Option<Seq<char>> {
    match member(members, key) {
        Some(m) => m.string,
        None => None,
    }
}

/// The user id under `key`: the value is a string that spells an unsigned
/// decimal number, or it is such a number itself.
pub open spec fn id_member(members: Seq<MemberView>, key: Seq<char>) -> Option<u64> {
    match member(members, key) {
        Some(m) => match m.string {
            Some(s) => decimal_number(s),
            None => decimal_number(m.text),
        },
        None => None,
    }
}

/// The members as `serde_json` hands them out, each with the string that its
/// value is.
pub open spec fn described(pairs: Seq<(Seq<char>, Seq<char>)>) -> Seq<MemberView> {
    pairs.map_values(
        |p: (Seq<char>, Seq<char>)| MemberView { key: p.0, text: p.1, string: json_string(p.1) },
    )
}

/// The command that a frame with these members is, sent by the user `id`
/// who is in `room` under `name`. A frame is no command where its type is
/// missing or unknown or where a member that its type requires is missing
/// or of the wrong kind.
pub open spec fn command_of(
    members: Seq<MemberView>,
    id: u64,
    name: Seq<char>,
    room: Seq<char>,
) -> Option<CommandView> {
    match string_member(members, "type"@) {
        None => None,
        Some(kind) => match type_named(kind) {
            None => None,
            Some(Types::Raise) => match member(members, "raiseobject"@) {
                Some(m) if m.string is Some => Some(
                    CommandView::Raise {
                        object: m.text,
                        owner_id: id,
                        owner_name: name,
                        room_name: room,
                    },
                ),
                _ => None,
            },
            Some(Types::Lower) => match member(members, "lowerobject"@) {
                Some(m) if m.string is Some => Some(
                    CommandView::Lower {
                        object: m.text,
                        owner_id: id,
                        owner_name: name,
                        room_name: room,
                    },
                ),
                _ => None,
            },
            Some(Types::Instant) => match member(members, "instantobject"@) {
                Some(m) => Some(
                    CommandView::Instant {
                        object: m.text,
                        owner_id: id,
                        owner_name: name,
                        room_name: room,
                    },
                ),
                None => None,
            },
            Some(Types::Poll) => match string_member(members, "pollobject"@) {
                Some(title) => Some(
                    CommandView::Poll { title, owner_id: id, owner_name: name, room_name: room },
                ),
                None => None,
            },
            Some(Types::PollOption) => match (
                string_member(members, "polloptionobject"@),
                string_member(members, "pollobject"@),
            ) {
                (Some(title), Some(poll_title)) => Some(
                    CommandView::PollOption {
                        poll_title,
                        title,
                        owner_id: id,
                        owner_name: name,
                        room_name: room,
                    },
                ),
                _ => None,
            },
            Some(Types::Vote) => match (
                string_member(members, "polloptionobject"@),
                string_member(members, "pollobject"@),
            ) {
                (Some(option_title), Some(poll_title)) => Some(
                    CommandView::Vote {
                        poll_title,
                        option_title,
                        owner_id: id,
                        owner_name: name,
                        room_name: room,
                    },
                ),
                _ => None,
            },
            Some(Types::PollClose) => match string_member(members, "pollobject"@) {
                Some(poll_title) => Some(
                    CommandView::PollClose { poll_title, sender_id: id, room_name: room },
                ),
                None => None,
            },
            Some(Types::Elevate) => match id_member(members, "object"@) {
                Some(target) => Some(
                    CommandView::Elevate { target, owner_id: id, room_name: room },
                ),
                None => None,
            },
            Some(Types::Recede) => match id_member(members, "object"@) {
                Some(target) => Some(CommandView::Recede { target, owner_id: id, room_name: room }),
                None => None,
            },
        },
    }
}

/// The command that the text of a frame is: the text without the white
/// space around it is one JSON object, and its members make a command.
pub open spec fn frame_command(text: Seq<char>, id: u64, name: Seq<char>, room: Seq<char>)
    -> Option<CommandView> {
    match json_object(trimmed(text)) {
        Some(pairs) => command_of(described(pairs), id, name, room),
        None => None,
    }
}

/// Reads `text` as one JSON object and describes its members; nothing where
/// the text is no such object.
pub fn read_members(text: &str) -> (r: Option<Vec<Member>>)
    ensures
        match r {
            Some(members) => json_object(text@) is Some && frame_view(members@) == described(
                json_object(text@).unwrap(),
            ),
            None => json_object(text@) is None,
        },
{
    let pairs = match decode_object(text) {
        Some(pairs) => pairs,
        None => {
            return None;
        },
    };
    let ghost all = crate::json::members_view(pairs@);
    let mut out: Vec<Member> = Vec::new();
    let mut i: usize = 0;
    assert(frame_view(out@) =~= described(all.take(0)));
    while i < pairs.len()
        invariant
            i <= pairs.len(),
            all == crate::json::members_view(pairs@),
            frame_view(out@) == described(all.take(i as int)),
        decreases pairs.len() - i,
    {
        let ghost before = out@;
        let string = decode_string(pairs[i].1.as_str());
        out.push(Member { key: pairs[i].0.clone(), text: pairs[i].1.clone(), string });
        proof {
            let next = MemberView {
                key: all[i as int].0,
                text: all[i as int].1,
                string: json_string(all[i as int].1),
            };
            assert(all[i as int] == (pairs@[i as int].0@, pairs@[i as int].1@));
            assert(all.take(i + 1) =~= all.take(i as int).push(all[i as int]));
            assert(frame_view(out@) =~= frame_view(before).push(next));
            assert(described(all.take(i + 1)) =~= described(all.take(i as int)).push(next));
        }
        i += 1;
    }
    proof {
        assert(all.take(i as int) =~= all);
    }
    Some(out)
}

/// The place of the first member under `key`.
pub fn member_index(members: &Vec<Member>, key: &str) -> (r: Option<usize>)
    ensures
        match r {
            Some(i) => i < members.len() && member(frame_view(members@), key@) == Some(
                members@[i as int]@,
            ),
            None => member(frame_view(members@), key@) is None,
        },
{
    let ghost keys = member_keys(frame_view(members@));
    let wanted = key.to_owned();
    let mut i: usize = 0;
    while i < members.len()
        invariant
            i <= members.len(),
            wanted@ == key@,
            keys == member_keys(frame_view(members@)),
            forall|j: int| 0 <= j < i ==> keys[j] != key@,
        decreases members.len() - i,
    {
        if members[i].key == wanted {
            proof {
                lemma_first_index_is(keys, key@, i as int);
            }
            return Some(i);
        }
        i += 1;
    }
    proof {
        lemma_first_index_none(keys, key@);
    }
    None
}

/// The string under `key`.
pub fn string_of(members: &Vec<Member>, key: &str) -> (r: Option<String>)
    ensures
        match r {
            Some(s) => string_member(frame_view(members@), key@) == Some(s@),
            None => string_member(frame_view(members@), key@) is None,
        },
{
    match member_index(members, key) {
        None => None,
        Some(i) => match &members[i].string {
            Some(s) => Some(s.clone()),
            None => None,
        },
    }
}

/// The user id under `key`.
pub fn id_of(members: &Vec<Member>, key: &str) -> (r: Option<u64>)
    ensures
        r == id_member(frame_view(members@), key@),
{
    match member_index(members, key) {
        None => None,
        Some(i) => match &members[i].string {
            Some(s) => parse_decimal(s.as_str()),
            None => parse_decimal(members[i].text.as_str()),
        },
    }
}

/// The command that a frame with these members is, sent by the user `id`
/// who is in `room` under `name`; nothing where the frame is no command.
pub fn classify(members: &Vec<Member>, id: u64, name: &String, room: &String) -> (r: Option<
    Command,
>)
    ensures
        match r {
            Some(command) => command_of(frame_view(members@), id, name@, room@) == Some(command@),
            None => command_of(frame_view(members@), id, name@, room@) is None,
        },
{
    let kind = match string_of(members, "type") {
        None => {
            return None;
        },
        Some(kind) => kind,
    };
    let kind = match Types::named(kind.as_str()) {
        Err(_) => {
            return None;
        },
        Ok(kind) => kind,
    };
    match kind {
        Types::Raise => match member_index(members, "raiseobject") {
            Some(i) => {
                if members[i].string.is_some() {
                    Some(
                        Command::Raise(
                            Raise {
                                object: members[i].text.clone(),
                                owner_id: id,
                                owner_name: name.clone(),
                                room_name: room.clone(),
                            },
                        ),
                    )
                } else {
                    None
                }
            },
            None => None,
        },
        Types::Lower => match member_index(members, "lowerobject") {
            Some(i) => {
                if members[i].string.is_some() {
                    Some(
                        Command::Lower(
                            Lower {
                                object: members[i].text.clone(),
                                owner_id: id,
                                owner_name: name.clone(),
                                room_name: room.clone(),
                            },
                        ),
                    )
                } else {
                    None
                }
            },
            None => None,
        },
        Types::Instant => match member_index(members, "instantobject") {
            Some(i) => Some(
                Command::Instant(
                    Instant {
                        object: members[i].text.clone(),
                        owner_id: id,
                        owner_name: name.clone(),
                        room_name: room.clone(),
                    },
                ),
            ),
            None => None,
        },
        Types::Poll => match string_of(members, "pollobject") {
            Some(title) => Some(
                Command::Poll(
                    Poll {
                        title,
                        owner_id: id,
                        owner_name: name.clone(),
                        room_name: room.clone(),
                        options: Vec::new(),
                        votes: Vec::new(),
                        closed: false,
                    },
                ),
            ),
            None => None,
        },
        Types::PollOption => {
            let option = string_of(members, "polloptionobject");
            let poll = string_of(members, "pollobject");
            match (option, poll) {
                (Some(title), Some(poll_title)) => Some(
                    Command::PollOption(
                        PollOption {
                            title,
                            owner_id: id,
                            owner_name: name.clone(),
                            room_name: room.clone(),
                            poll_title,
                        },
                    ),
                ),
                _ => None,
            }
        },
        Types::Vote => {
            let option = string_of(members, "polloptionobject");
            let poll = string_of(members, "pollobject");
            match (option, poll) {
                (Some(option_title), Some(poll_title)) => Some(
                    Command::Vote(
                        PollVoteHelper {
                            owner_id: id,
                            owner_name: name.clone(),
                            room_name: room.clone(),
                            poll_title,
                            option_title,
                        },
                    ),
                ),
                _ => None,
            }
        },
        Types::PollClose => match string_of(members, "pollobject") {
            Some(poll_title) => Some(
                Command::PollClose(
                    PollCloseHelper {
                        sender_id: id,
                        sender_name: name.clone(),
                        room_name: room.clone(),
                        poll_title,
                    },
                ),
            ),
            None => None,
        },
        Types::Elevate => match id_of(members, "object") {
            Some(object) => Some(
                Command::Elevate(Elevate { object, owner_id: id, room_name: room.clone() }),
            ),
            None => None,
        },
        Types::Recede => match id_of(members, "object") {
            Some(object) => Some(
                Command::Recede(Recede { object, owner_id: id, room_name: room.clone() }),
            ),
            None => None,
        },
    }
}

/// Reads the text of a frame from the user `id`, who is in `room` under
/// `name`, as a command; nothing where the frame is malformed.
pub fn parse_frame(text: &str, id: u64, name: &String, room: &String) -> (r: Option<Command>)
    ensures
        match r {
            Some(command) => frame_command(text@, id, name@, room@) == Some(command@),
            None => frame_command(text@, id, name@, room@) is None,
        },
{
    match read_members(trim(text)) {
        Some(members) => classify(&members, id, name, room),
        None => None,
    }
}

/// How often heartbeat pings are sent, in milliseconds.
pub const HEARTBEAT_INTERVAL: u64 = 5000;

/// How long before lack of client response causes a timeout, in
/// milliseconds.
pub const CLIENT_TIMEOUT: u64 = 10000;

/// Where a session stands. `Terminating` is final.
#[derive(Clone, Copy, Debug, PartialEq, Eq, Structural)]
pub enum Phase {
    Connecting,
    Live,
    Terminating,
}

/// The session of one client. `hb` is the time of the client's last ping or
/// pong, in milliseconds.
#[derive(Debug)]
pub struct Session {
    pub id: u64,
    pub hb: u64,
    pub room: String,
    pub name: String,
    pub phase: Phase,
}

/// What happens to a session.
#[derive(Debug)]
pub enum Event {
    /// The socket is open.
    Started,
    /// The client sent a ping with this payload.
    Ping(Vec<u8>),
    /// The client answered a ping.
    Pong,
    /// The client sent a text frame.
    Text(String),
    /// The client sent a binary frame.
    Binary,
    /// The client closed the socket.
    Close,
    /// The client sent a continuation frame.
    Continuation,
    /// The socket went on without a frame.
    Nop,
    /// The client broke the protocol.
    ProtocolError,
    /// The heartbeat interval has passed.
    Tick,
    /// The coordinator cannot be reached.
    MailboxFailure,
}

/// What a session does in answer to an event.
#[derive(Debug)]
pub enum Action {
    /// Nothing.
    Nothing,
    /// Enter the room: goes to the coordinator.
    Join(Join),
    /// A command of the client: goes to the coordinator.
    Forward(Command),
    /// Answer the client's ping with its payload.
    Pong(Vec<u8>),
    /// Send the client an empty ping.
    Ping,
    /// The session is over: goes to the coordinator, and the socket closes.
    Disconnect(Disconnect),
}

/// A session as mathematical values.
pub struct SessionView {
    pub id: u64,
    pub hb: u64,
    pub room: Seq<char>,
    pub name: Seq<char>,
    pub phase: Phase,
}

/// An event as mathematical values.
pub enum EventView {
    Started,
    Ping(Seq<u8>),
    Pong,
    Text(Seq<char>),
    Binary,
    Close,
    Continuation,
    Nop,
    ProtocolError,
    Tick,
    MailboxFailure,
}

/// An action as mathematical values.
pub enum ActionView {
    Nothing,
    Join { user_id: u64, user_name: Seq<char>, room_name: Seq<char> },
    Forward(CommandView),
    Pong(Seq<u8>),
    Ping,
    Disconnect { id: u64 },
}

impl View for Session {
    type V = SessionView;

    open spec fn view(&self) -> SessionView {
        SessionView {
            id: self.id,
            hb: self.hb,
            room: self.room@,
            name: self.name@,
            phase: self.phase,
        }
    }
}

impl View for Event {
    type V = EventView;

    open spec fn view(&self) -> EventView {
        match self {
            Event::Started => EventView::Started,
            Event::Ping(payload) => EventView::Ping(payload@),
            Event::Pong => EventView::Pong,
            Event::Text(text) => EventView::Text(text@),
            Event::Binary => EventView::Binary,
            Event::Close => EventView::Close,
            Event::Continuation => EventView::Continuation,
            Event::Nop => EventView::Nop,
            Event::ProtocolError => EventView::ProtocolError,
            Event::Tick => EventView::Tick,
            Event::MailboxFailure => EventView::MailboxFailure,
        }
    }
}

impl View for Action {
    type V = ActionView;

    open spec fn view(&self) -> ActionView {
        match self {
            Action::Nothing => ActionView::Nothing,
            Action::Join(join) => ActionView::Join {
                user_id: join.user_id,
                user_name: join.user_name@,
                room_name: join.room_name@,
            },
            Action::Forward(command) => ActionView::Forward(command@),
            Action::Pong(payload) => ActionView::Pong(payload@),
            Action::Ping => ActionView::Ping,
            Action::Disconnect(disconnect) => ActionView::Disconnect { id: disconnect.id },
        }
    }
}

/// The client has been silent for too long: more than `CLIENT_TIMEOUT` has
/// passed since its last ping or pong.
pub open spec fn timed_out(hb: u64, now: u64) -> bool {
    now > hb && now - hb > CLIENT_TIMEOUT
}

impl SessionView {
    /// The session after it has ended.
    pub open spec fn ended(self) -> SessionView {
        SessionView { phase: Phase::Terminating, ..self }
    }

    /// The session after the event `event` at the time `now`.
    ///
    /// A session that is connecting goes live when the socket is open. A live
    /// session notes the time of every ping and pong, and ends when the
    /// socket closes, on a continuation frame, on a protocol error, when the
    /// coordinator cannot be reached, and on a tick after the client has
    /// timed out. A session that has ended stays as it is.
    pub open spec fn after(self, event: EventView, now: u64) -> SessionView {
        match self.phase {
            Phase::Terminating => self,
            Phase::Connecting => match event {
                EventView::Started => SessionView { phase: Phase::Live, ..self },
                EventView::MailboxFailure => self.ended(),
                _ => self,
            },
            Phase::Live => match event {
                EventView::Ping(_) => SessionView { hb: now, ..self },
                EventView::Pong => SessionView { hb: now, ..self },
                EventView::Close => self.ended(),
                EventView::Continuation => self.ended(),
                EventView::ProtocolError => self.ended(),
                EventView::MailboxFailure => self.ended(),
                EventView::Tick => if timed_out(self.hb, now) {
                    self.ended()
                } else {
                    self
                },
                _ => self,
            },
        }
    }

    /// What the session does in answer to the event `event` at the time
    /// `now`.
    ///
    /// A session that goes live enters its room. A live session answers a
    /// ping with a pong of the same payload, passes the command of a text
    /// frame on, drops a text frame that is no command, and sends a ping on a
    /// tick. A session that ends tells the coordinator so. Nothing else is
    /// done.
    pub open spec fn answer(self, event: EventView, now: u64) -> ActionView {
        match self.phase {
            Phase::Terminating => ActionView::Nothing,
            Phase::Connecting => match event {
                EventView::Started => ActionView::Join {
                    user_id: self.id,
                    user_name: self.name,
                    room_name: self.room,
                },
                EventView::MailboxFailure => ActionView::Disconnect { id: self.id },
                _ => ActionView::Nothing,
            },
            Phase::Live => match event {
                EventView::Ping(payload) => ActionView::Pong(payload),
                EventView::Text(text) => match frame_command(text, self.id, self.name, self.room) {
                    Some(command) => ActionView::Forward(command),
                    None => ActionView::Nothing,
                },
                EventView::Close => ActionView::Disconnect { id: self.id },
                EventView::Continuation => ActionView::Disconnect { id: self.id },
                EventView::ProtocolError => ActionView::Disconnect { id: self.id },
                EventView::MailboxFailure => ActionView::Disconnect { id: self.id },
                EventView::Tick => if timed_out(self.hb, now) {
                    ActionView::Disconnect { id: self.id }
                } else {
                    ActionView::Ping
                },
                _ => ActionView::Nothing,
            },
        }
    }
}

impl Session {
    /// A session that is connecting, for the client `id` who enters `room`
    /// under `name` at the time `now`.
    pub fn new(id: u64, room: String, name: String, now: u64) -> (r: Session)
        ensures
            r@ == (SessionView { id, hb: now, room: room@, name: name@, phase: Phase::Connecting }),
    {
        Session { id, hb: now, room, name, phase: Phase::Connecting }
    }

    /// Tells whether the client has been silent for too long at the time
    /// `now`.
    pub fn timed_out(&self, now: u64) -> (r: bool)
        ensures
            r == timed_out(self.hb, now),
    {
        now > self.hb && now - self.hb > CLIENT_TIMEOUT
    }

    /// Takes the event `event` at the time `now`, and says what to do.
    pub fn handle(&mut self, event: Event, now: u64) -> (r: Action)
        ensures
            final(self)@ == old(self)@.after(event@, now),
            r@ == old(self)@.answer(event@, now),
    {
        match self.phase {
            Phase::Terminating => Action::Nothing,
            Phase::Connecting => match event {
                Event::Started => {
                    self.phase = Phase::Live;
                    Action::Join(
                        Join {
                            user_id: self.id,
                            user_name: self.name.clone(),
                            room_name: self.room.clone(),
                        },
                    )
                },
                Event::MailboxFailure => {
                    self.phase = Phase::Terminating;
                    Action::Disconnect(Disconnect { id: self.id })
                },
                _ => Action::Nothing,
            },
            Phase::Live => match event {
                Event::Ping(payload) => {
                    self.hb = now;
                    Action::Pong(payload)
                },
                Event::Pong => {
                    self.hb = now;
                    Action::Nothing
                },
                Event::Text(text) => match parse_frame(
                    text.as_str(),
                    self.id,
                    &self.name,
                    &self.room,
                ) {
                    Some(command) => Action::Forward(command),
                    None => Action::Nothing,
                },
                Event::Close => {
                    self.phase = Phase::Terminating;
                    Action::Disconnect(Disconnect { id: self.id })
                },
                Event::Continuation => {
                    self.phase = Phase::Terminating;
                    Action::Disconnect(Disconnect { id: self.id })
                },
                Event::ProtocolError => {
                    self.phase = Phase::Terminating;
                    Action::Disconnect(Disconnect { id: self.id })
                },
                Event::MailboxFailure => {
                    self.phase = Phase::Terminating;
                    Action::Disconnect(Disconnect { id: self.id })
                },
                Event::Tick => {
                    if self.timed_out(now) {
                        self.phase = Phase::Terminating;
                        Action::Disconnect(Disconnect { id: self.id })
                    } else {
                        Action::Ping
                    }
                },
                _ => Action::Nothing,
            },
        }
    }
}

/// Issues session ids: they start at one and grow, so none is zero and none
/// comes twice.
#[derive(Debug)]
pub struct SessionIds {
    pub next: u64,
}

impl SessionIds {
    /// A source that has issued no id yet.
    pub fn new() -> (r: SessionIds)
        ensures
            r.next == 1,
    {
        SessionIds { next: 1 }
    }

    /// Issues the next id; nothing where the ids are used up.
    pub fn issue(&mut self) -> (r: Option<u64>)
        ensures
            match r {
                Some(id) => id == old(self).next && id != 0 && final(self).next == id + 1,
                None => old(self).next == 0 || old(self).next == u64::MAX,
            },
            r is None ==> final(self).next == old(self).next,
    {
        if self.next == 0 || self.next == u64::MAX {
            None
        } else {
            let id = self.next;
            self.next = id + 1;
            Some(id)
        }
    }
}

} // verus!
