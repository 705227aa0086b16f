//! Moderator privileges in one room: granting them and taking them away.
use crate::messages::outbound::PermissionChange;
use crate::messages::outbound::Types;
use crate::messages::outbound::Vote;
use crate::messages::outbound::VoteDelete;
use crate::model::name_of;
use crate::model::polls_replay;
use crate::model::vote_replay;
use crate::model::votes_replay;
use crate::model::Policy;
use crate::server::deliveries_view;
use crate::server::texts_view;
use crate::server::votes_view;
use crate::server::Delivery;
use crate::server::Room;
use vstd::prelude::*;
use vstd::string::*;

verus! {

impl Room {
    /// The name under which `user_id` is in the room; empty for a stranger.
    pub fn name_of(&self, user_id: u64) -> (r: String)
        ensures
            r@ == name_of(self@.connected, user_id),
    {
        match self.member_index(user_id) {
            Some(i) => self.connected[i].1.name.clone(),
            None => String::new(),
        }
    }

    /// The frames that show the votes of the open polls anew to a user whose
    /// privilege is now `elevated`.
    pub fn replay_texts(&self, elevated: bool) -> (r: Vec<String>)
        ensures
            texts_view(r@) == polls_replay(self@.connected, self@.polls, elevated),
    {
        let ghost connected = self@.connected;
        let ghost polls = self@.polls;
        let mut out: Vec<String> = Vec::new();
        let mut i: usize = 0;
        proof {
            assert(polls.take(0) =~= Seq::empty());
            assert(texts_view(out@) =~= Seq::<Seq<char>>::empty());
        }
        while i < self.polls.len()
            invariant
                i <= self.polls.len(),
                connected == self@.connected,
                polls == self@.polls,
                texts_view(out@) == polls_replay(connected, polls.take(i as int), elevated),
            decreases self.polls.len() - i,
        {
            let ghost done = texts_view(out@);
            proof {
                assert(polls.take(i + 1).drop_last() =~= polls.take(i as int));
                assert(polls.take(i + 1).last() == polls[i as int]);
                assert(polls[i as int] == self.polls@[i as int]@);
            }
            if !self.polls[i].closed {
                let ghost title = self.polls@[i as int].title@;
                let ghost votes = votes_view(self.polls@[i as int].votes@);
                let mut j: usize = 0;
                proof {
                    assert(votes.take(0) =~= Seq::empty());
                    assert(texts_view(out@) =~= done + votes_replay(
                        connected,
                        title,
                        votes.take(0),
                        elevated,
                    ));
                }
                while j < self.polls[i].votes.len()
                    invariant
                        i < self.polls.len(),
                        j <= self.polls@[i as int].votes.len(),
                        connected == self@.connected,
                        title == self.polls@[i as int].title@,
                        votes == votes_view(self.polls@[i as int].votes@),
                        texts_view(out@) == done + votes_replay(
                            connected,
                            title,
                            votes.take(j as int),
                            elevated,
                        ),
                    decreases self.polls@[i as int].votes.len() - j,
                {
                    let ghost before = out@;
                    let voter = self.polls[i].votes[j].0;
                    let withdrawn = VoteDelete {
                        kind: Types::VoteDelete,
                        pollobject: self.polls[i].title.clone(),
                        polloptionobject: self.polls[i].votes[j].1.clone(),
                        userid: if elevated {
                            0
                        } else {
                            voter
                        },
                    };
                    let cast = Vote {
                        kind: Types::Vote,
                        pollobject: self.polls[i].title.clone(),
                        polloptionobject: self.polls[i].votes[j].1.clone(),
                        username: if elevated {
                            self.name_of(voter)
                        } else {
                            String::new()
                        },
                        userid: if elevated {
                            voter
                        } else {
                            0
                        },
                    };
                    out.push(withdrawn.to_json());
                    out.push(cast.to_json());
                    proof {
                        assert(votes.take(j + 1).drop_last() =~= votes.take(j as int));
                        assert(votes.take(j + 1).last() == votes[j as int]);
                        assert(votes[j as int] == (voter, self.polls@[i as int].votes@[j as int].1@));
                        assert(texts_view(out@) =~= texts_view(before) + vote_replay(
                            connected,
                            title,
                            votes[j as int],
                            elevated,
                        ));
                    }
                    j += 1;
                }
                assert(votes.take(j as int) =~= votes);
            }
            i += 1;
        }
        assert(polls.take(i as int) =~= polls);
        out
    }

    /// Changes the privilege of `user_id` at the request of `requester_id`.
    /// It is granted where the requester is a moderator of the room, the user
    /// is in the room, and the user's privilege is not yet `elevated`. Then
    /// the privilege is set, and the frames that show the user the votes of
    /// the open polls anew are returned. Else nothing changes.
    pub fn change_privilege(
        &mut self,
        sessions: &Vec<u64>,
        requester_id: u64,
        user_id: u64,
        elevated: bool,
    ) -> (r: Result<Vec<Delivery>, &'static str>)
        ensures
            r is Ok <==> old(self)@.grants(requester_id, user_id, elevated),
            final(self)@ == old(self)@.change_privilege(
                sessions@,
                requester_id,
                user_id,
                elevated,
            ).room,
            r matches Ok(out) ==> deliveries_view(out@) == old(self)@.change_privilege(
                sessions@,
                requester_id,
                user_id,
                elevated,
            ).sent,
            r matches Err(reason) ==> reason@.len() == 0,
    {
        proof {
            reveal_strlit("");
        }
        if !self.has_moderator(requester_id) {
            return Err("");
        }
        match self.is_elevated(&user_id) {
            Err(reason) => {
                return Err(reason);
            },
            Ok(now) => {
                if now == elevated {
                    return Err("");
                }
            },
        }
        self.set_elevated(&user_id, elevated);
        let texts = self.replay_texts(elevated);
        Ok(self.send_each(sessions, Policy::Only(user_id), &texts))
    }

    /// Answers a request to elevate or recede `user_id`: where the change is
    /// granted, the user sees the votes anew and all learn of the change;
    /// else nothing changes and nothing is sent.
    pub fn rerole(&mut self, sessions: &Vec<u64>, requester_id: u64, user_id: u64, elevated: bool)
        -> (r: Vec<Delivery>)
        ensures
            final(self)@ == old(self)@.rerole(sessions@, requester_id, user_id, elevated).room,
            deliveries_view(r@) == old(self)@.rerole(
                sessions@,
                requester_id,
                user_id,
                elevated,
            ).sent,
    {
        match self.change_privilege(sessions, requester_id, user_id, elevated) {
            Err(_) => {
                let out: Vec<Delivery> = Vec::new();
                assert(deliveries_view(out@) =~= Seq::<(u64, Seq<char>)>::empty());
                out
            },
            Ok(replay) => {
                let mut out = replay;
                let frame = PermissionChange {
                    kind: if elevated {
                        Types::Elevated
                    } else {
                        Types::Receded
                    },
                    object: user_id,
                    elevated,
                };
                let text = frame.to_json();
                let mut news = self.send(sessions, Policy::All, text.as_str());
                let ghost a = out@;
                let ghost b = news@;
                out.append(&mut news);
                assert(deliveries_view(out@) =~= deliveries_view(a) + deliveries_view(b));
                out
            },
        }
    }
}

} // verus!
