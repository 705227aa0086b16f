//! Frames from the server to a client: their shapes and their JSON text.
//!
//! Every frame is one JSON object. Its members are written in the order of
//! their keys, without white space.
use crate::json::decimal;
use crate::json::decimal_text;
use crate::json::json_string_literal;
use crate::json::quote;
use crate::model::RaisedView;
use crate::model::UserView;
use crate::server::members_view;
use crate::server::raised_view;
use crate::server::texts_view;
use crate::server::Raised;
use vstd::prelude::*;
use vstd::string::*;

verus! {

/// Error if message has unknown message type
#[derive(Debug)]
pub struct InvalidMessageType;

impl InvalidMessageType {
    /// What the error says.
    pub fn message(&self) -> (r: String)
        ensures
            r@ == "Invalid message type"@,
    {
        String::from_str("Invalid message type")
    }
}

/// All known types of outgoing messages
#[derive(Clone, Copy, Debug, PartialEq, Eq, Structural)]
pub enum Types {
    Joined,
    All,
    SelfStatus,
    Raised,
    Lower,
    Instant,
    Elevated,
    Receded,
    Error,
    VoteDelete,
    Poll,
    PollOption,
    Vote,
    PollClose,
}

/// Get type of any message struct
pub trait GetMessageType {
    /// The type that the skeleton carries.
    fn get_type(&self) -> (r: Result<Types, InvalidMessageType>)
        ensures
            r matches Ok(t) && t == self.carried_type(),
    ;

    /// What the skeleton holds as its type.
    spec fn carried_type(&self) -> Types;
}

/// The value of the member `type` in a frame of type `t`.
pub open spec fn wire_name(t: Types) -> Seq<char> {
    match t {
        Types::Joined => "joined"@,
        Types::All => "all"@,
        Types::SelfStatus => "self"@,
        Types::Raised => "raised"@,
        Types::Lower => "lower"@,
        Types::Instant => "instant"@,
        Types::Elevated => "elevated"@,
        Types::Receded => "receded"@,
        Types::Error => "error"@,
        Types::VoteDelete => "deletevote"@,
        Types::Poll => "poll"@,
        Types::PollOption => "polloption"@,
        Types::Vote => "vote"@,
        Types::PollClose => "closepoll"@,
    }
}

impl Types {
    /// The value of the member `type` in a frame of this type.
    pub fn name(&self) -> (r: &'static str)
        ensures
            r@ == wire_name(*self),
    {
        match self {
            Types::Joined => "joined",
            Types::All => "all",
            Types::SelfStatus => "self",
            Types::Raised => "raised",
            Types::Lower => "lower",
            Types::Instant => "instant",
            Types::Elevated => "elevated",
            Types::Receded => "receded",
            Types::Error => "error",
            Types::VoteDelete => "deletevote",
            Types::Poll => "poll",
            Types::PollOption => "polloption",
            Types::Vote => "vote",
            Types::PollClose => "closepoll",
        }
    }
}

/// The JSON text of a truth value.
pub open spec fn bool_text(b: bool) -> Seq<char> {
    if b {
        "true"@
    } else {
        "false"@
    }
}

/// The last member of every frame, with the comma before it and the brace
/// after it.
pub open spec fn type_tail(t: Types) -> Seq<char> {
    ",\"type\":\""@ + wire_name(t) + "\"}"@
}

/// The frame `joined`, from the user's name as a JSON string literal.
pub open spec fn joined_frame(id: u64, name: Seq<char>, elevated: bool) -> Seq<char> {
    "{\"object\":{\"elevated\":"@ + bool_text(elevated) + ",\"id\":"@ + decimal(id as nat)
        + ",\"name\":"@ + name + "}"@ + type_tail(Types::Joined)
}

/// `joined`: a user has entered the room.
pub open spec fn joined_text(id: u64, name: Seq<char>, elevated: bool) -> Seq<char> {
    joined_frame(id, json_string_literal(name), elevated)
}

/// One raised flag in a snapshot, from the owner's name as a JSON string
/// literal.
pub open spec fn raised_entry_frame(object: Seq<char>, owner_id: u64, owner_name: Seq<char>) -> Seq<
    char,
> {
    "{\"object\":"@ + object + ",\"owner_id\":"@ + decimal(owner_id as nat)
        + ",\"owner_name\":"@ + owner_name + "}"@
}

/// One raised flag in a snapshot.
pub open spec fn raised_entry_text(r: RaisedView) -> Seq<char> {
    raised_entry_frame(r.object, r.owner_id, json_string_literal(r.owner_name))
}

/// One user in a snapshot, under the id as key, from the user's name as a
/// JSON string literal.
pub open spec fn member_entry_frame(id: u64, name: Seq<char>, elevated: bool) -> Seq<char> {
    "\""@ + decimal(id as nat) + "\":{\"elevated\":"@ + bool_text(elevated) + ",\"name\":"@
        + name + "}"@
}

/// One user in a snapshot, under the id as key.
pub open spec fn member_entry_text(m: (u64, UserView)) -> Seq<char> {
    member_entry_frame(m.0, json_string_literal(m.1.name), m.1.elevated)
}

/// The items one after the other, with commas between them.
pub open spec fn comma_joined(items: Seq<Seq<char>>) -> Seq<char>
    decreases items.len(),
{
    if items.len() == 0 {
        Seq::empty()
    } else if items.len() == 1 {
        items[0]
    } else {
        comma_joined(items.drop_last()) + ","@ + items.last()
    }
}

/// The raised flags of a snapshot, one entry each.
pub open spec fn raised_entries(raised: Seq<RaisedView>) -> Seq<Seq<char>> {
    raised.map_values(|r: RaisedView| raised_entry_text(r))
}

/// The users of a snapshot, one entry each.
pub open spec fn member_entries(joined: Seq<(u64, UserView)>) -> Seq<Seq<char>> {
    joined.map_values(|m: (u64, UserView)| member_entry_text(m))
}

/// The frame `all`, from the entries of the users and of the raised flags.
pub open spec fn all_frame(joined: Seq<Seq<char>>, raised: Seq<Seq<char>>) -> Seq<char> {
    "{\"joined\":{"@ + comma_joined(joined) + "},\"raised\":["@ + comma_joined(raised) + "]"@
        + type_tail(Types::All)
}

/// `all`: the snapshot of a room, its raised flags and its users.
pub open spec fn all_text(raised: Seq<RaisedView>, joined: Seq<(u64, UserView)>) -> Seq<char> {
    all_frame(member_entries(joined), raised_entries(raised))
}

/// `self`, `elevated` and `receded`: the privilege of the user `object`.
pub open spec fn permission_text(kind: Types, object: u64, elevated: bool) -> Seq<char> {
    "{\"elevated\":"@ + bool_text(elevated) + ",\"object\":"@ + decimal(object as nat) + type_tail(
        kind,
    )
}

/// The frames `raised`, `lower` and `instant`, from the owner's name as a
/// JSON string literal.
pub open spec fn owned_frame(
    kind: Types,
    owner_id: u64,
    owner_name: Seq<char>,
    object: Seq<char>,
    elevated: bool,
) -> Seq<char> {
    "{\"elevated\":"@ + bool_text(elevated) + ",\"object\":"@ + object + ",\"owner_id\":"@
        + decimal(owner_id as nat) + ",\"owner_name\":"@ + owner_name + type_tail(kind)
}

/// `raised`, `lower` and `instant`: an object with its owner. `elevated` is
/// the owner's privilege.
pub open spec fn owned_text(
    kind: Types,
    owner_id: u64,
    owner_name: Seq<char>,
    object: Seq<char>,
    elevated: bool,
) -> Seq<char> {
    owned_frame(kind, owner_id, json_string_literal(owner_name), object, elevated)
}

/// The frame `error`, from the code and the description as JSON string
/// literals.
pub open spec fn error_frame(code: Seq<char>, description: Seq<char>) -> Seq<char> {
    "{\"description\":"@ + description + ",\"object\":"@ + code + type_tail(Types::Error)
}

/// `error`: a code and its description, for the requester alone.
pub open spec fn error_text(code: Seq<char>, description: Seq<char>) -> Seq<char> {
    error_frame(json_string_literal(code), json_string_literal(description))
}

/// The frame `deletevote`, from the titles as JSON string literals.
pub open spec fn vote_delete_frame(
    pollobject: Seq<char>,
    polloptionobject: Seq<char>,
    userid: u64,
) -> Seq<char> {
    "{\"pollobject\":"@ + pollobject + ",\"polloptionobject\":"@ + polloptionobject
        + ",\"type\":\"deletevote\",\"userid\":"@ + decimal(userid as nat) + "}"@
}

/// `deletevote`: a vote is withdrawn.
pub open spec fn vote_delete_text(
    pollobject: Seq<char>,
    polloptionobject: Seq<char>,
    userid: u64,
) -> Seq<char> {
    vote_delete_frame(
        json_string_literal(pollobject),
        json_string_literal(polloptionobject),
        userid,
    )
}

/// The frames `poll` and `closepoll`, from the title as a JSON string
/// literal.
pub open spec fn titled_frame(kind: Types, object: Seq<char>) -> Seq<char> {
    "{\"object\":"@ + object + type_tail(kind)
}

/// `poll`: a poll is open.
pub open spec fn poll_text(object: Seq<char>) -> Seq<char> {
    titled_frame(Types::Poll, json_string_literal(object))
}

/// The frame `polloption`, from the titles as JSON string literals.
pub open spec fn poll_option_frame(pollobject: Seq<char>, polloptionobject: Seq<char>) -> Seq<
    char,
> {
    "{\"pollobject\":"@ + pollobject + ",\"polloptionobject\":"@ + polloptionobject + type_tail(
        Types::PollOption,
    )
}

/// `polloption`: a poll has one more option.
pub open spec fn poll_option_text(pollobject: Seq<char>, polloptionobject: Seq<char>) -> Seq<
    char,
> {
    poll_option_frame(json_string_literal(pollobject), json_string_literal(polloptionobject))
}

/// The frame `vote`, from the titles and the name as JSON string literals.
pub open spec fn vote_frame(
    pollobject: Seq<char>,
    polloptionobject: Seq<char>,
    username: Seq<char>,
    userid: u64,
) -> Seq<char> {
    "{\"pollobject\":"@ + pollobject + ",\"polloptionobject\":"@ + polloptionobject
        + ",\"type\":\"vote\",\"userid\":"@ + decimal(userid as nat) + ",\"username\":"@
        + username + "}"@
}

/// `vote`: a vote was cast.
pub open spec fn vote_text(
    pollobject: Seq<char>,
    polloptionobject: Seq<char>,
    username: Seq<char>,
    userid: u64,
) -> Seq<char> {
    vote_frame(
        json_string_literal(pollobject),
        json_string_literal(polloptionobject),
        json_string_literal(username),
        userid,
    )
}

/// `closepoll`: a poll is closed.
pub open spec fn poll_close_text(object: Seq<char>) -> Seq<char> {
    titled_frame(Types::PollClose, json_string_literal(object))
}

/// Appends the decimal numeral of `n`.
fn put_number(out: &mut String, n: u64)
    ensures
        final(out)@ == old(out)@ + decimal(n as nat),
{
    let d = decimal_text(n);
    out.append(d.as_str());
}

/// Appends `true` or `false`.
fn put_bool(out: &mut String, b: bool)
    ensures
        final(out)@ == old(out)@ + bool_text(b),
{
    if b {
        out.append("true");
    } else {
        out.append("false");
    }
}

/// Appends the member `type` and closes the frame.
fn put_tail(out: &mut String, t: Types)
    ensures
        final(out)@ == old(out)@ + type_tail(t),
{
    let ghost before = out@;
    out.append(",\"type\":\"");
    out.append(t.name());
    out.append("\"}");
    assert(out@ =~= before + type_tail(t));
}

/// Writes the frame `joined`; `name` is a JSON string literal.
pub fn write_joined(id: u64, name: &str, elevated: bool) -> (r: String)
    ensures
        r@ == joined_frame(id, name@, elevated),
{
    let mut out = String::from_str("{\"object\":{\"elevated\":");
    put_bool(&mut out, elevated);
    out.append(",\"id\":");
    put_number(&mut out, id);
    out.append(",\"name\":");
    out.append(name);
    out.append("}");
    put_tail(&mut out, Types::Joined);
    out
}

/// Writes one raised flag of a snapshot; `object` is JSON text and
/// `owner_name` a JSON string literal.
pub fn write_raised_entry(object: &str, owner_id: u64, owner_name: &str) -> (r: String)
    ensures
        r@ == raised_entry_frame(object@, owner_id, owner_name@),
{
    let mut out = String::from_str("{\"object\":");
    out.append(object);
    out.append(",\"owner_id\":");
    put_number(&mut out, owner_id);
    out.append(",\"owner_name\":");
    out.append(owner_name);
    out.append("}");
    out
}

/// Writes one user of a snapshot; `name` is a JSON string literal.
pub fn write_member_entry(id: u64, name: &str, elevated: bool) -> (r: String)
    ensures
        r@ == member_entry_frame(id, name@, elevated),
{
    let mut out = String::from_str("\"");
    put_number(&mut out, id);
    out.append("\":{\"elevated\":");
    put_bool(&mut out, elevated);
    out.append(",\"name\":");
    out.append(name);
    out.append("}");
    out
}

/// Writes the items one after the other, with commas between them.
pub fn join_with_commas(items: &Vec<String>) -> (r: String)
    ensures
        r@ == comma_joined(texts_view(items@)),
{
    let ghost all = texts_view(items@);
    let mut out = String::new();
    let mut i: usize = 0;
    assert(all.take(0) =~= Seq::<Seq<char>>::empty());
    while i < items.len()
        invariant
            i <= items.len(),
            all == texts_view(items@),
            out@ == comma_joined(all.take(i as int)),
        decreases items.len() - i,
    {
        let ghost before = out@;
        if i > 0 {
            out.append(",");
        }
        out.append(items[i].as_str());
        proof {
            let next = all.take(i + 1);
            assert(next.drop_last() =~= all.take(i as int));
            assert(next.last() == items@[i as int]@);
            if i == 0 {
                assert(out@ =~= next[0]);
            } else {
                assert(out@ =~= before + ","@ + next.last());
            }
        }
        i += 1;
    }
    assert(all.take(items.len() as int) =~= all);
    out
}

/// Writes the frame `all` from the entries of the users and of the raised
/// flags.
pub fn write_all(joined: &Vec<String>, raised: &Vec<String>) -> (r: String)
    ensures
        r@ == all_frame(texts_view(joined@), texts_view(raised@)),
{
    let mut out = String::from_str("{\"joined\":{");
    let users = join_with_commas(joined);
    out.append(users.as_str());
    out.append("},\"raised\":[");
    let flags = join_with_commas(raised);
    out.append(flags.as_str());
    out.append("]");
    put_tail(&mut out, Types::All);
    out
}

/// Writes the frames `self`, `elevated` and `receded`.
pub fn write_permission(kind: Types, object: u64, elevated: bool) -> (r: String)
    ensures
        r@ == permission_text(kind, object, elevated),
{
    let mut out = String::from_str("{\"elevated\":");
    put_bool(&mut out, elevated);
    out.append(",\"object\":");
    put_number(&mut out, object);
    put_tail(&mut out, kind);
    out
}

/// Writes the frames `raised`, `lower` and `instant`; `object` is JSON text
/// and `owner_name` a JSON string literal.
pub fn write_owned(kind: Types, owner_id: u64, owner_name: &str, object: &str, elevated: bool)
    -> (r: String)
    ensures
        r@ == owned_frame(kind, owner_id, owner_name@, object@, elevated),
{
    let mut out = String::from_str("{\"elevated\":");
    put_bool(&mut out, elevated);
    out.append(",\"object\":");
    out.append(object);
    out.append(",\"owner_id\":");
    put_number(&mut out, owner_id);
    out.append(",\"owner_name\":");
    out.append(owner_name);
    put_tail(&mut out, kind);
    out
}

/// Writes the frame `error`; both arguments are JSON string literals.
pub fn write_error(code: &str, description: &str) -> (r: String)
    ensures
        r@ == error_frame(code@, description@),
{
    let mut out = String::from_str("{\"description\":");
    out.append(description);
    out.append(",\"object\":");
    out.append(code);
    put_tail(&mut out, Types::Error);
    out
}

/// Writes the frame `deletevote`; the titles are JSON string literals.
pub fn write_vote_delete(pollobject: &str, polloptionobject: &str, userid: u64) -> (r: String)
    ensures
        r@ == vote_delete_frame(pollobject@, polloptionobject@, userid),
{
    let mut out = String::from_str("{\"pollobject\":");
    out.append(pollobject);
    out.append(",\"polloptionobject\":");
    out.append(polloptionobject);
    out.append(",\"type\":\"deletevote\",\"userid\":");
    put_number(&mut out, userid);
    out.append("}");
    out
}

/// Writes the frames `poll` and `closepoll`; `object` is a JSON string
/// literal.
pub fn write_titled(kind: Types, object: &str) -> (r: String)
    ensures
        r@ == titled_frame(kind, object@),
{
    let mut out = String::from_str("{\"object\":");
    out.append(object);
    put_tail(&mut out, kind);
    out
}

/// Writes the frame `polloption`; the titles are JSON string literals.
pub fn write_poll_option(pollobject: &str, polloptionobject: &str) -> (r: String)
    ensures
        r@ == poll_option_frame(pollobject@, polloptionobject@),
{
    let mut out = String::from_str("{\"pollobject\":");
    out.append(pollobject);
    out.append(",\"polloptionobject\":");
    out.append(polloptionobject);
    put_tail(&mut out, Types::PollOption);
    out
}

/// Writes the frame `vote`; the titles and the name are JSON string
/// literals.
pub fn write_vote(pollobject: &str, polloptionobject: &str, username: &str, userid: u64) -> (r:
    String)
    ensures
        r@ == vote_frame(pollobject@, polloptionobject@, username@, userid),
{
    let mut out = String::from_str("{\"pollobject\":");
    out.append(pollobject);
    out.append(",\"polloptionobject\":");
    out.append(polloptionobject);
    out.append(",\"type\":\"vote\",\"userid\":");
    put_number(&mut out, userid);
    out.append(",\"username\":");
    out.append(username);
    out.append("}");
    out
}

/// Message skeleton containing the current state of a room
#[derive(Debug)]
pub struct All {
    pub kind: Types,
    pub raised: Vec<crate::server::Raised>,
    pub joined: Vec<(u64, crate::server::User)>,
}

/// A user as the frame `joined` shows it.
#[derive(Debug)]
pub struct UserFormat {
    pub id: u64,
    pub name: String,
    pub elevated: bool,
}

/// Message skeleton containing the current state of a user
#[derive(Debug)]
pub struct User {
    pub kind: Types,
    pub object: UserFormat,
}

/// Message skeleton representing an object and its metadata. `object` is
/// JSON text.
#[derive(Debug)]
pub struct OwnedObject {
    pub kind: Types,
    pub owner_id: u64,
    pub owner_name: String,
    pub object: String,
    pub elevated: bool,
}

/// Message skeleton to show a user's permissions
#[derive(Debug)]
pub struct PermissionChange {
    pub kind: Types,
    pub object: u64,
    pub elevated: bool,
}

/// Message skeleton to send an error
#[derive(Debug)]
pub struct Error {
    pub kind: Types,
    pub object: String,
    pub description: String,
}

/// Message skeleton to delete a user's vote
#[derive(Debug)]
pub struct VoteDelete {
    pub kind: Types,
    pub pollobject: String,
    pub polloptionobject: String,
    pub userid: u64,
}

/// Message skeleton to send a poll
#[derive(Debug)]
pub struct Poll {
    pub kind: Types,
    pub object: String,
}

/// Message skeleton to send a poll-option
#[derive(Debug)]
pub struct PollOption {
    pub kind: Types,
    pub pollobject: String,
    pub polloptionobject: String,
}

/// Message skeleton to send a vote
#[derive(Debug)]
pub struct Vote {
    pub kind: Types,
    pub pollobject: String,
    pub polloptionobject: String,
    pub username: String,
    pub userid: u64,
}

/// Message skeleton to close a poll
#[derive(Debug)]
pub struct PollClose {
    pub kind: Types,
    pub object: String,
}

/// Writes the snapshot of a room from its raised flags and its users.
pub fn snapshot_json(raised: &Vec<Raised>, joined: &Vec<(u64, crate::server::User)>) -> (r: String)
    ensures
        r@ == all_text(raised_view(raised@), members_view(joined@)),
{
    let ghost rv = raised_view(raised@);
    let ghost jv = members_view(joined@);
    let mut users: Vec<String> = Vec::new();
    let mut i: usize = 0;
    assert(texts_view(users@) =~= member_entries(jv.take(0)));
    while i < joined.len()
        invariant
            i <= joined.len(),
            jv == members_view(joined@),
            texts_view(users@) == member_entries(jv.take(i as int)),
        decreases joined.len() - i,
    {
        let ghost before = users@;
        let name = quote(joined[i].1.name.as_str());
        users.push(write_member_entry(joined[i].0, name.as_str(), joined[i].1.elevated));
        proof {
            assert(jv[i as int] == (joined@[i as int].0, joined@[i as int].1@));
            assert(jv.take(i + 1) =~= jv.take(i as int).push(jv[i as int]));
            assert(member_entries(jv.take(i + 1)) =~= member_entries(jv.take(i as int)).push(
                member_entry_text(jv[i as int]),
            ));
            assert(texts_view(users@) =~= texts_view(before).push(member_entry_text(jv[i as int])));
        }
        i += 1;
    }
    assert(jv.take(joined.len() as int) =~= jv);
    let mut flags: Vec<String> = Vec::new();
    let mut k: usize = 0;
    assert(texts_view(flags@) =~= raised_entries(rv.take(0)));
    while k < raised.len()
        invariant
            k <= raised.len(),
            rv == raised_view(raised@),
            texts_view(flags@) == raised_entries(rv.take(k as int)),
        decreases raised.len() - k,
    {
        let ghost before = flags@;
        let name = quote(raised[k].owner_name.as_str());
        flags.push(
            write_raised_entry(raised[k].object.as_str(), raised[k].owner_id, name.as_str()),
        );
        proof {
            assert(rv[k as int] == raised@[k as int]@);
            assert(rv.take(k + 1) =~= rv.take(k as int).push(rv[k as int]));
            assert(raised_entries(rv.take(k + 1)) =~= raised_entries(rv.take(k as int)).push(
                raised_entry_text(rv[k as int]),
            ));
            assert(texts_view(flags@) =~= texts_view(before).push(raised_entry_text(rv[k as int])));
        }
        k += 1;
    }
    assert(rv.take(raised.len() as int) =~= rv);
    write_all(&users, &flags)
}

impl All {
    /// The frame's JSON text.
    pub fn to_json(&self) -> (r: String)
        ensures
            r@ == all_text(raised_view(self.raised@), members_view(self.joined@)),
    {
        snapshot_json(&self.raised, &self.joined)
    }
}

impl User {
    /// The frame's JSON text.
    pub fn to_json(&self) -> (r: String)
        ensures
            r@ == joined_text(self.object.id, self.object.name@, self.object.elevated),
    {
        let name = quote(self.object.name.as_str());
        write_joined(self.object.id, name.as_str(), self.object.elevated)
    }
}

impl OwnedObject {
    /// The frame's JSON text.
    pub fn to_json(&self) -> (r: String)
        ensures
            r@ == owned_text(
                self.kind,
                self.owner_id,
                self.owner_name@,
                self.object@,
                self.elevated,
            ),
    {
        let name = quote(self.owner_name.as_str());
        write_owned(self.kind, self.owner_id, name.as_str(), self.object.as_str(), self.elevated)
    }
}

impl PermissionChange {
    /// The frame's JSON text.
    pub fn to_json(&self) -> (r: String)
        ensures
            r@ == permission_text(self.kind, self.object, self.elevated),
    {
        write_permission(self.kind, self.object, self.elevated)
    }
}

impl Error {
    /// The frame's JSON text.
    pub fn to_json(&self) -> (r: String)
        ensures
            r@ == error_text(self.object@, self.description@),
    {
        let code = quote(self.object.as_str());
        let description = quote(self.description.as_str());
        write_error(code.as_str(), description.as_str())
    }
}

impl VoteDelete {
    /// The frame's JSON text.
    pub fn to_json(&self) -> (r: String)
        ensures
            r@ == vote_delete_text(self.pollobject@, self.polloptionobject@, self.userid),
    {
        let poll = quote(self.pollobject.as_str());
        let option = quote(self.polloptionobject.as_str());
        write_vote_delete(poll.as_str(), option.as_str(), self.userid)
    }
}

impl Poll {
    /// The frame's JSON text.
    pub fn to_json(&self) -> (r: String)
        ensures
            r@ == poll_text(self.object@),
    {
        let title = quote(self.object.as_str());
        write_titled(Types::Poll, title.as_str())
    }
}

impl PollOption {
    /// The frame's JSON text.
    pub fn to_json(&self) -> (r: String)
        ensures
            r@ == poll_option_text(self.pollobject@, self.polloptionobject@),
    {
        let poll = quote(self.pollobject.as_str());
        let option = quote(self.polloptionobject.as_str());
        write_poll_option(poll.as_str(), option.as_str())
    }
}

impl Vote {
    /// The frame's JSON text.
    pub fn to_json(&self) -> (r: String)
        ensures
            r@ == vote_text(self.pollobject@, self.polloptionobject@, self.username@, self.userid),
    {
        let poll = quote(self.pollobject.as_str());
        let option = quote(self.polloptionobject.as_str());
        let name = quote(self.username.as_str());
        write_vote(poll.as_str(), option.as_str(), name.as_str(), self.userid)
    }
}

impl PollClose {
    /// The frame's JSON text.
    pub fn to_json(&self) -> (r: String)
        ensures
            r@ == poll_close_text(self.object@),
    {
        let title = quote(self.object.as_str());
        write_titled(Types::PollClose, title.as_str())
    }
}

impl GetMessageType for All {
    open spec fn carried_type(&self) -> Types {
        self.kind
    }

    fn get_type(&self) -> (r: Result<Types, InvalidMessageType>) {
        Ok(self.kind)
    }
}

impl GetMessageType for User {
    open spec fn carried_type(&self) -> Types {
        self.kind
    }

    fn get_type(&self) -> (r: Result<Types, InvalidMessageType>) {
        Ok(self.kind)
    }
}

impl GetMessageType for OwnedObject {
    open spec fn carried_type(&self) -> Types {
        self.kind
    }

    fn get_type(&self) -> (r: Result<Types, InvalidMessageType>) {
        Ok(self.kind)
    }
}

impl GetMessageType for PermissionChange {
    open spec fn carried_type(&self) -> Types {
        self.kind
    }

    fn get_type(&self) -> (r: Result<Types, InvalidMessageType>) {
        Ok(self.kind)
    }
}

impl GetMessageType for Error {
    open spec fn carried_type(&self) -> Types {
        self.kind
    }

    fn get_type(&self) -> (r: Result<Types, InvalidMessageType>) {
        Ok(self.kind)
    }
}

impl GetMessageType for VoteDelete {
    open spec fn carried_type(&self) -> Types {
        self.kind
    }

    fn get_type(&self) -> (r: Result<Types, InvalidMessageType>) {
        Ok(self.kind)
    }
}

impl GetMessageType for Poll {
    open spec fn carried_type(&self) -> Types {
        self.kind
    }

    fn get_type(&self) -> (r: Result<Types, InvalidMessageType>) {
        Ok(self.kind)
    }
}

impl GetMessageType for PollOption {
    open spec fn carried_type(&self) -> Types {
        self.kind
    }

    fn get_type(&self) -> (r: Result<Types, InvalidMessageType>) {
        Ok(self.kind)
    }
}

impl GetMessageType for Vote {
    open spec fn carried_type(&self) -> Types {
        self.kind
    }

    fn get_type(&self) -> (r: Result<Types, InvalidMessageType>) {
        Ok(self.kind)
    }
}

impl GetMessageType for PollClose {
    open spec fn carried_type(&self) -> Types {
        self.kind
    }

    fn get_type(&self) -> (r: Result<Types, InvalidMessageType>) {
        Ok(self.kind)
    }
}

} // verus!
