//! Polls in one room: opening, options, votes and closing.
use crate::messages::outbound::Types;
use crate::messages::outbound::Vote;
use crate::messages::outbound::VoteDelete;
use crate::model::first_index;
use crate::model::lemma_first_index_is;
use crate::model::lemma_first_index_none;
use crate::model::option_titles;
use crate::model::poll_titles;
use crate::model::voters;
use crate::model::without_vote;
use crate::model::Policy;
use crate::model::PollOptionView;
use crate::model::PollView;
use crate::server::deliveries_view;
use crate::server::options_view;
use crate::server::polls_view;
use crate::server::votes_view;
use crate::server::Delivery;
use crate::server::Poll;
use crate::server::PollCloseHelper;
use crate::server::PollOption;
use crate::server::PollVoteHelper;
use crate::server::Room;
use vstd::prelude::*;

verus! {

impl Poll {
    /// The place of the option `title` among the options of the poll.
    pub fn option_index(&self, title: &String) -> (r: Option<usize>)
        ensures
            match r {
                Some(i) => i < self.options.len() && first_index(
                    option_titles(self@.options),
                    title@,
                ) == Some(i as int),
                None => first_index(option_titles(self@.options), title@) is None,
            },
    {
        let ghost titles = option_titles(self@.options);
        let mut i: usize = 0;
        while i < self.options.len()
            invariant
                i <= self.options.len(),
                titles == option_titles(self@.options),
                forall|j: int| 0 <= j < i ==> titles[j] != title@,
            decreases self.options.len() - i,
        {
            if self.options[i].title == *title {
                proof {
                    lemma_first_index_is(titles, title@, i as int);
                }
                return Some(i);
            }
            i += 1;
        }
        proof {
            lemma_first_index_none(titles, title@);
        }
        None
    }

    /// The place of the vote of `user_id` among the votes of the poll.
    pub fn vote_index(&self, user_id: u64) -> (r: Option<usize>)
        ensures
            match r {
                Some(i) => i < self.votes.len() && first_index(voters(self@.votes), user_id)
                    == Some(i as int),
                None => first_index(voters(self@.votes), user_id) is None,
            },
    {
        let ghost ids = voters(self@.votes);
        let mut i: usize = 0;
        while i < self.votes.len()
            invariant
                i <= self.votes.len(),
                ids == voters(self@.votes),
                forall|j: int| 0 <= j < i ==> ids[j] != user_id,
            decreases self.votes.len() - i,
        {
            if self.votes[i].0 == user_id {
                proof {
                    lemma_first_index_is(ids, user_id, i as int);
                }
                return Some(i);
            }
            i += 1;
        }
        proof {
            lemma_first_index_none(ids, user_id);
        }
        None
    }
}

impl Room {
    /// The place of the poll `title` among the polls of the room.
    pub fn poll_index(&self, title: &String) -> (r: Option<usize>)
        ensures
            match r {
                Some(i) => i < self.polls.len() && first_index(poll_titles(self@.polls), title@)
                    == Some(i as int),
                None => first_index(poll_titles(self@.polls), title@) is None,
            },
    {
        let ghost titles = poll_titles(self@.polls);
        let mut i: usize = 0;
        while i < self.polls.len()
            invariant
                i <= self.polls.len(),
                titles == poll_titles(self@.polls),
                forall|j: int| 0 <= j < i ==> titles[j] != title@,
            decreases self.polls.len() - i,
        {
            if self.polls[i].title == *title {
                proof {
                    lemma_first_index_is(titles, title@, i as int);
                }
                return Some(i);
            }
            i += 1;
        }
        proof {
            lemma_first_index_none(titles, title@);
        }
        None
    }

    /// Opens a poll without options or votes, and tells all. Refused with
    /// `no_permission` for one who is no moderator of the room, and with
    /// `poll_already_exists` where the room has a poll of that title.
    pub fn open_poll(&mut self, sessions: &Vec<u64>, poll: Poll) -> (r: Vec<Delivery>)
        ensures
            final(self)@ == old(self)@.open_poll(
                sessions@,
                poll.title@,
                poll.owner_id,
                poll.owner_name@,
                poll.room_name@,
            ).room,
            deliveries_view(r@) == old(self)@.open_poll(
                sessions@,
                poll.title@,
                poll.owner_id,
                poll.owner_name@,
                poll.room_name@,
            ).sent,
    {
        if !self.has_moderator(poll.owner_id) {
            return self.reject(
                sessions,
                poll.owner_id,
                "no_permission",
                "You do not have permission to create polls (because you're not elevated)",
            );
        }
        if self.poll_index(&poll.title).is_some() {
            return self.reject(
                sessions,
                poll.owner_id,
                "poll_already_exists",
                "A poll with that title already exists",
            );
        }
        let frame = crate::messages::outbound::Poll { kind: Types::Poll, object: poll.title.clone() };
        let text = frame.to_json();
        let opened = Poll {
            title: poll.title,
            owner_id: poll.owner_id,
            owner_name: poll.owner_name,
            room_name: poll.room_name,
            options: Vec::new(),
            votes: Vec::new(),
            closed: false,
        };
        proof {
            assert(opened@.options =~= Seq::<PollOptionView>::empty());
            assert(opened@.votes =~= Seq::<(u64, Seq<char>)>::empty());
        }
        self.polls.push(opened);
        assert(polls_view(self.polls@) =~= polls_view(old(self).polls@).push(opened@));
        self.send(sessions, Policy::All, text.as_str())
    }

    /// Adds an option to a poll and tells all. Refused with `no_permission`
    /// for one who is no moderator of the room, with `poll_does_not_exist`
    /// where the room has no poll of that title, with `poll_closed` where
    /// that poll is closed, and with `poll_option_already_exists` where the
    /// poll has an option of that title; in this order.
    pub fn add_option(&mut self, sessions: &Vec<u64>, option: PollOption) -> (r: Vec<Delivery>)
        ensures
            final(self)@ == old(self)@.add_option(
                sessions@,
                option.poll_title@,
                option.title@,
                option.owner_id,
                option.owner_name@,
                option.room_name@,
            ).room,
            deliveries_view(r@) == old(self)@.add_option(
                sessions@,
                option.poll_title@,
                option.title@,
                option.owner_id,
                option.owner_name@,
                option.room_name@,
            ).sent,
    {
        if !self.has_moderator(option.owner_id) {
            return self.reject(
                sessions,
                option.owner_id,
                "no_permission",
                "You do not have permission to add poll options (because you're not elevated)",
            );
        }
        let i = match self.poll_index(&option.poll_title) {
            None => {
                return self.reject(
                    sessions,
                    option.owner_id,
                    "poll_does_not_exist",
                    "A poll with that title doesn't exist",
                );
            },
            Some(i) => i,
        };
        if self.polls[i].closed {
            return self.reject(
                sessions,
                option.owner_id,
                "poll_closed",
                "Sorry, the poll is already closed",
            );
        }
        if self.polls[i].option_index(&option.title).is_some() {
            return self.reject(
                sessions,
                option.owner_id,
                "poll_option_already_exists",
                "A poll-option with that title in this poll does already exist",
            );
        }
        let frame = crate::messages::outbound::PollOption {
            kind: Types::PollOption,
            pollobject: self.polls[i].title.clone(),
            polloptionobject: option.title.clone(),
        };
        let text = frame.to_json();
        let ghost poll = old(self)@.polls[i as int];
        self.polls[i].options.push(option);
        proof {
            assert(options_view(self.polls@[i as int].options@) =~= poll.options.push(option@));
            assert(polls_view(self.polls@) =~= old(self)@.polls.update(
                i as int,
                PollView { options: poll.options.push(option@), ..poll },
            ));
        }
        self.send(sessions, Policy::All, text.as_str())
    }

    /// Casts a vote. An earlier vote of the same user in that poll is
    /// withdrawn first, which moderators learn with the user's id and others
    /// without. Then the vote is told: to moderators with the user's name and
    /// id, to others without. Refused with `poll_does_not_exist` where the
    /// room has no poll of that title, with `poll_closed` where that poll is
    /// closed, and with `poll_option_does_not_exist` where the poll has no
    /// option of that title; in this order.
    pub fn cast_vote(&mut self, sessions: &Vec<u64>, vote: PollVoteHelper) -> (r: Vec<Delivery>)
        ensures
            final(self)@ == old(self)@.cast_vote(
                sessions@,
                vote.poll_title@,
                vote.option_title@,
                vote.owner_id,
                vote.owner_name@,
            ).room,
            deliveries_view(r@) == old(self)@.cast_vote(
                sessions@,
                vote.poll_title@,
                vote.option_title@,
                vote.owner_id,
                vote.owner_name@,
            ).sent,
    {
        let i = match self.poll_index(&vote.poll_title) {
            None => {
                return self.reject(
                    sessions,
                    vote.owner_id,
                    "poll_does_not_exist",
                    "A poll with that title doesn't exist",
                );
            },
            Some(i) => i,
        };
        if self.polls[i].closed {
            return self.reject(
                sessions,
                vote.owner_id,
                "poll_closed",
                "Sorry, the poll is already closed",
            );
        }
        if self.polls[i].option_index(&vote.option_title).is_none() {
            return self.reject(
                sessions,
                vote.owner_id,
                "poll_option_does_not_exist",
                "A poll-option with that title in this poll doesn't exist",
            );
        }
        let ghost poll = old(self)@.polls[i as int];
        let mut out: Vec<Delivery> = Vec::new();
        assert(deliveries_view(out@) =~= Seq::<(u64, Seq<char>)>::empty());
        match self.polls[i].vote_index(vote.owner_id) {
            None => {},
            Some(j) => {
                let earlier = self.polls[i].votes.remove(j);
                let seen = VoteDelete {
                    kind: Types::VoteDelete,
                    pollobject: self.polls[i].title.clone(),
                    polloptionobject: earlier.1.clone(),
                    userid: vote.owner_id,
                };
                let hidden = VoteDelete {
                    kind: Types::VoteDelete,
                    pollobject: self.polls[i].title.clone(),
                    polloptionobject: earlier.1,
                    userid: 0,
                };
                let seen_text = seen.to_json();
                let hidden_text = hidden.to_json();
                let mut first = self.send(sessions, Policy::Elevated, seen_text.as_str());
                let mut second = self.send(sessions, Policy::NotElevated, hidden_text.as_str());
                let ghost a = first@;
                let ghost b = second@;
                out.append(&mut first);
                out.append(&mut second);
                proof {
                    assert(earlier.1@ == poll.votes[j as int].1);
                    assert(votes_view(self.polls@[i as int].votes@) =~= poll.votes.remove(j as int));
                    assert(deliveries_view(out@) =~= deliveries_view(a) + deliveries_view(b));
                }
            },
        }
        assert(votes_view(self.polls@[i as int].votes@) == without_vote(poll.votes, vote.owner_id));
        let seen = Vote {
            kind: Types::Vote,
            pollobject: self.polls[i].title.clone(),
            polloptionobject: vote.option_title.clone(),
            username: vote.owner_name,
            userid: vote.owner_id,
        };
        let hidden = Vote {
            kind: Types::Vote,
            pollobject: self.polls[i].title.clone(),
            polloptionobject: vote.option_title.clone(),
            username: String::new(),
            userid: 0,
        };
        let seen_text = seen.to_json();
        let hidden_text = hidden.to_json();
        let ghost kept = self.polls@[i as int].votes@;
        self.polls[i].votes.push((vote.owner_id, vote.option_title));
        let mut first = self.send(sessions, Policy::Elevated, seen_text.as_str());
        let mut second = self.send(sessions, Policy::NotElevated, hidden_text.as_str());
        let ghost withdrawn = out@;
        let ghost a = first@;
        let ghost b = second@;
        out.append(&mut first);
        out.append(&mut second);
        proof {
            assert(votes_view(self.polls@[i as int].votes@) =~= votes_view(kept).push(
                (vote.owner_id, vote.option_title@),
            ));
            assert(polls_view(self.polls@) =~= old(self)@.polls.update(
                i as int,
                PollView {
                    votes: without_vote(poll.votes, vote.owner_id).push(
                        (vote.owner_id, vote.option_title@),
                    ),
                    ..poll
                },
            ));
            assert(deliveries_view(out@) =~= deliveries_view(withdrawn) + deliveries_view(a)
                + deliveries_view(b));
        }
        out
    }

    /// Closes a poll and tells all. Refused with `no_permission` for one who
    /// is no moderator of the room, with `poll_does_not_exist` where the room
    /// has no poll of that title, and with `poll_closed` where that poll is
    /// closed already; in this order.
    pub fn close_poll(&mut self, sessions: &Vec<u64>, close: PollCloseHelper) -> (r: Vec<Delivery>)
        ensures
            final(self)@ == old(self)@.close_poll(
                sessions@,
                close.poll_title@,
                close.sender_id,
            ).room,
            deliveries_view(r@) == old(self)@.close_poll(
                sessions@,
                close.poll_title@,
                close.sender_id,
            ).sent,
    {
        if !self.has_moderator(close.sender_id) {
            return self.reject(
                sessions,
                close.sender_id,
                "no_permission",
                "You do not have permission to close polls (because you're not elevated)",
            );
        }
        let i = match self.poll_index(&close.poll_title) {
            None => {
                return self.reject(
                    sessions,
                    close.sender_id,
                    "poll_does_not_exist",
                    "A poll with that title doesn't exist",
                );
            },
            Some(i) => i,
        };
        if self.polls[i].closed {
            return self.reject(
                sessions,
                close.sender_id,
                "poll_closed",
                "Sorry, the poll is already closed",
            );
        }
        self.polls[i].closed = true;
        let frame = crate::messages::outbound::PollClose {
            kind: Types::PollClose,
            object: self.polls[i].title.clone(),
        };
        let text = frame.to_json();
        proof {
            let poll = old(self)@.polls[i as int];
            assert(polls_view(self.polls@) =~= old(self)@.polls.update(
                i as int,
                PollView { closed: true, ..poll },
            ));
        }
        self.send(sessions, Policy::All, text.as_str())
    }
}

} // verus!
