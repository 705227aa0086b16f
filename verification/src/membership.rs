//! Users entering and leaving one room.
use crate::messages::outbound::snapshot_json;
use crate::messages::outbound::PermissionChange;
use crate::messages::outbound::Types;
use crate::messages::outbound::UserFormat;
use crate::messages::outbound::Vote;
use crate::messages::outbound::VoteDelete;
use crate::model::leave_notices;
use crate::model::option_intros;
use crate::model::poll_after_leave;
use crate::model::poll_intro;
use crate::model::poll_leave_notice;
use crate::model::polls_after_leave;
use crate::model::polls_intro;
use crate::model::vote_intros;
use crate::model::Policy;
use crate::model::UserView;
use crate::server::deliveries_view;
use crate::server::members_view;
use crate::server::options_view;
use crate::server::polls_view;
use crate::server::texts_view;
use crate::server::votes_view;
use crate::server::Delivery;
use crate::server::Poll;
use crate::server::Room;
use crate::server::User;
use vstd::prelude::*;

verus! {

impl Poll {
    /// Appends what a user who enters sees of this poll: the poll, its
    /// options, and its votes without the voters' identities.
    pub fn intro_texts(&self, out: &mut Vec<String>)
        ensures
            texts_view(final(out)@) == texts_view(old(out)@) + poll_intro(self@),
    {
        let ghost base = texts_view(out@);
        let ghost title = self.title@;
        let ghost options = options_view(self.options@);
        let ghost votes = votes_view(self.votes@);
        let frame = crate::messages::outbound::Poll { kind: Types::Poll, object: self.title.clone() };
        out.push(frame.to_json());
        let ghost head = base + seq![crate::messages::outbound::poll_text(title)];
        let mut k: usize = 0;
        proof {
            assert(options.take(0) =~= Seq::empty());
            assert(texts_view(out@) =~= head + option_intros(title, options.take(0)));
        }
        while k < self.options.len()
            invariant
                k <= self.options.len(),
                title == self.title@,
                options == options_view(self.options@),
                texts_view(out@) == head + option_intros(title, options.take(k as int)),
            decreases self.options.len() - k,
        {
            let ghost before = out@;
            let frame = crate::messages::outbound::PollOption {
                kind: Types::PollOption,
                pollobject: self.title.clone(),
                polloptionobject: self.options[k].title.clone(),
            };
            out.push(frame.to_json());
            proof {
                assert(options.take(k + 1) =~= options.take(k as int).push(options[k as int]));
                assert(option_intros(title, options.take(k + 1)) =~= option_intros(
                    title,
                    options.take(k as int),
                ).push(crate::messages::outbound::poll_option_text(title, options[k as int].title)));
                assert(texts_view(out@) =~= texts_view(before).push(
                    crate::messages::outbound::poll_option_text(title, options[k as int].title),
                ));
            }
            k += 1;
        }
        assert(options.take(k as int) =~= options);
        let ghost middle = head + option_intros(title, options);
        let mut j: usize = 0;
        proof {
            assert(votes.take(0) =~= Seq::empty());
            assert(texts_view(out@) =~= middle + vote_intros(title, votes.take(0)));
        }
        while j < self.votes.len()
            invariant
                j <= self.votes.len(),
                title == self.title@,
                votes == votes_view(self.votes@),
                texts_view(out@) == middle + vote_intros(title, votes.take(j as int)),
            decreases self.votes.len() - j,
        {
            let ghost before = out@;
            let frame = Vote {
                kind: Types::Vote,
                pollobject: self.title.clone(),
                polloptionobject: self.votes[j].1.clone(),
                username: String::new(),
                userid: 0,
            };
            out.push(frame.to_json());
            proof {
                let text = crate::messages::outbound::vote_text(
                    title,
                    votes[j as int].1,
                    Seq::empty(),
                    0,
                );
                assert(votes.take(j + 1) =~= votes.take(j as int).push(votes[j as int]));
                assert(vote_intros(title, votes.take(j + 1)) =~= vote_intros(
                    title,
                    votes.take(j as int),
                ).push(text));
                assert(texts_view(out@) =~= texts_view(before).push(text));
            }
            j += 1;
        }
        proof {
            assert(votes.take(j as int) =~= votes);
            assert(texts_view(out@) =~= base + poll_intro(self@));
        }
    }
}

impl Room {
    /// What a user who enters sees of the polls: the open ones, in the order
    /// they were opened.
    pub fn intro_texts(&self) -> (r: Vec<String>)
        ensures
            texts_view(r@) == polls_intro(self@.polls),
    {
        let ghost polls = self@.polls;
        let mut out: Vec<String> = Vec::new();
        let mut i: usize = 0;
        proof {
            assert(polls.take(0) =~= Seq::empty());
            assert(texts_view(out@) =~= Seq::<Seq<char>>::empty());
        }
        while i < self.polls.len()
            invariant
                i <= self.polls.len(),
                polls == self@.polls,
                texts_view(out@) == polls_intro(polls.take(i as int)),
            decreases self.polls.len() - i,
        {
            proof {
                assert(polls.take(i + 1).drop_last() =~= polls.take(i as int));
                assert(polls.take(i + 1).last() == self.polls@[i as int]@);
            }
            if !self.polls[i].closed {
                self.polls[i].intro_texts(&mut out);
            }
            i += 1;
        }
        assert(polls.take(i as int) =~= polls);
        out
    }

    /// A user enters. The first user of an empty room becomes a moderator,
    /// every other does not. The others get `joined`; the newcomer gets the
    /// snapshot `all`, then `self` with its privilege, then the open polls
    /// with their options and their votes, the votes without identities.
    pub fn enter(&mut self, sessions: &Vec<u64>, user_id: u64, user_name: String) -> (r: Vec<
        Delivery,
    >)
        ensures
            final(self)@ == old(self)@.enter(sessions@, user_id, user_name@).room,
            deliveries_view(r@) == old(self)@.enter(sessions@, user_id, user_name@).sent,
    {
        let elevated = self.connected.len() == 0;
        let joined = crate::messages::outbound::User {
            kind: Types::Joined,
            object: UserFormat { id: user_id, name: user_name.clone(), elevated },
        };
        let joined_text = joined.to_json();
        let ghost user = UserView { name: user_name@, elevated };
        assert(members_view(self.connected@).len() == self.connected@.len());
        match self.member_index(user_id) {
            Some(i) => {
                self.connected[i] = (user_id, User { name: user_name, elevated });
                assert(members_view(self.connected@) =~= old(self)@.connected.update(
                    i as int,
                    (user_id, user),
                ));
            },
            None => {
                self.connected.push((user_id, User { name: user_name, elevated }));
                assert(members_view(self.connected@) =~= old(self)@.connected.push(
                    (user_id, user),
                ));
            },
        }
        let mut out = self.send(sessions, Policy::Skip(user_id), joined_text.as_str());
        let snapshot = snapshot_json(&self.raised, &self.connected);
        let mut second = self.send(sessions, Policy::Only(user_id), snapshot.as_str());
        let status = PermissionChange { kind: Types::SelfStatus, object: user_id, elevated };
        let status_text = status.to_json();
        let mut third = self.send(sessions, Policy::Only(user_id), status_text.as_str());
        let intro = self.intro_texts();
        let mut fourth = self.send_each(sessions, Policy::Only(user_id), &intro);
        let ghost a = out@;
        let ghost b = second@;
        let ghost c = third@;
        let ghost d = fourth@;
        out.append(&mut second);
        out.append(&mut third);
        out.append(&mut fourth);
        assert(deliveries_view(out@) =~= deliveries_view(a) + deliveries_view(b) + deliveries_view(c)
            + deliveries_view(d));
        out
    }

    /// A user leaves. The user goes, with the flags it raised and with its
    /// votes in open polls; closed polls keep their votes. Those who stay get
    /// the snapshot `all`, then for each vote that went one `deletevote`:
    /// moderators with the id of the user, others without.
    pub fn leave(&mut self, sessions: &Vec<u64>, user_id: u64) -> (r: Vec<Delivery>)
        ensures
            final(self)@ == old(self)@.leave(sessions@, user_id).room,
            deliveries_view(r@) == old(self)@.leave(sessions@, user_id).sent,
    {
        assert(members_view(self.connected@).len() == self.connected@.len());
        match self.member_index(user_id) {
            Some(i) => {
                self.connected.remove(i);
                assert(members_view(self.connected@) =~= old(self)@.connected.remove(i as int));
            },
            None => {},
        }
        self.remove_user(&user_id);
        let snapshot = snapshot_json(&self.raised, &self.connected);
        let mut out = self.send(sessions, Policy::All, snapshot.as_str());
        let ghost head = deliveries_view(out@);
        let ghost connected = self@.connected;
        let ghost polls = old(self)@.polls;
        let ghost cleared = self@;
        let mut i: usize = 0;
        proof {
            assert(polls.take(0) =~= Seq::empty());
            assert(deliveries_view(out@) =~= head + leave_notices(
                connected,
                sessions@,
                polls.take(0),
                user_id,
            ));
        }
        while i < self.polls.len()
            invariant
                i <= self.polls.len(),
                polls == old(self)@.polls,
                self.polls.len() == polls.len(),
                self@.connected == connected,
                self@.raised == cleared.raised,
                forall|j: int| 0 <= j < i ==> (#[trigger] self.polls@[j])@ == poll_after_leave(polls[j], user_id),
                forall|j: int| i <= j < polls.len() ==> (#[trigger] self.polls@[j])@ == polls[j],
                deliveries_view(out@) == head + leave_notices(
                    connected,
                    sessions@,
                    polls.take(i as int),
                    user_id,
                ),
            decreases self.polls.len() - i,
        {
            let ghost before = out@;
            let ghost poll = polls[i as int];
            proof {
                assert(polls.take(i + 1).drop_last() =~= polls.take(i as int));
                assert(polls.take(i + 1).last() == poll);
                assert(self.polls@[i as int]@ == poll);
            }
            if !self.polls[i].closed {
                match self.polls[i].vote_index(user_id) {
                    None => {},
                    Some(j) => {
                        let gone = self.polls[i].votes.remove(j);
                        let seen = VoteDelete {
                            kind: Types::VoteDelete,
                            pollobject: self.polls[i].title.clone(),
                            polloptionobject: gone.1.clone(),
                            userid: user_id,
                        };
                        let hidden = VoteDelete {
                            kind: Types::VoteDelete,
                            pollobject: self.polls[i].title.clone(),
                            polloptionobject: gone.1,
                            userid: 0,
                        };
                        let seen_text = seen.to_json();
                        let hidden_text = hidden.to_json();
                        let mut first = self.send(sessions, Policy::Elevated, seen_text.as_str());
                        let mut second = self.send(
                            sessions,
                            Policy::NotElevated,
                            hidden_text.as_str(),
                        );
                        let ghost a = first@;
                        let ghost b = second@;
                        out.append(&mut first);
                        out.append(&mut second);
                        proof {
                            assert(gone.1@ == poll.votes[j as int].1);
                            assert(votes_view(self.polls@[i as int].votes@) =~= poll.votes.remove(
                                j as int,
                            ));
                            assert(deliveries_view(out@) =~= deliveries_view(before)
                                + deliveries_view(a) + deliveries_view(b));
                        }
                    },
                }
            }
            proof {
                assert(self.polls@[i as int]@ == poll_after_leave(poll, user_id));
                assert(deliveries_view(out@) =~= deliveries_view(before) + poll_leave_notice(
                    connected,
                    sessions@,
                    poll,
                    user_id,
                ));
            }
            i += 1;
        }
        proof {
            assert(polls.take(i as int) =~= polls);
            assert(polls_view(self.polls@) =~= polls_after_leave(polls, user_id));
        }
        out
    }
}

} // verus!
