//! What one room does: who receives a frame, and the room's part in each
//! command.
use crate::model::admits;
use crate::model::fan_out;
use crate::model::fan_out_each;
use crate::model::lemma_first_index;
use crate::model::lemma_first_index_is;
use crate::model::lemma_first_index_none;
use crate::model::member_ids;
use crate::model::receives;
use crate::model::Policy;
use crate::model::RaisedView;
use crate::model::UserView;
use crate::server::deliveries_view;
use crate::server::members_view;
use crate::server::raised_view;
use crate::server::texts_view;
use crate::server::Delivery;
use crate::server::Message;
use crate::server::Room;
use crate::server::User;
use vstd::prelude::*;

verus! {

/// Sending to one user more: the frame reaches that user too where the
/// policy selects the user and the user has a session.
pub proof fn lemma_fan_out_push(
    connected: Seq<(u64, UserView)>,
    m: (u64, UserView),
    sessions: Seq<u64>,
    policy: Policy,
    text: Seq<char>,
)
    ensures
        fan_out(connected.push(m), sessions, policy, text) == if receives(sessions, policy, m) {
            fan_out(connected, sessions, policy, text).push((m.0, text))
        } else {
            fan_out(connected, sessions, policy, text)
        },
{
    let pred = |m: (u64, UserView)| receives(sessions, policy, m);
    connected.lemma_filter_push(m, pred);
    if receives(sessions, policy, m) {
        assert(fan_out(connected.push(m), sessions, policy, text) =~= fan_out(
            connected,
            sessions,
            policy,
            text,
        ).push((m.0, text)));
    }
}

/// Nothing is sent into a room without users.
pub proof fn lemma_fan_out_empty(sessions: Seq<u64>, policy: Policy, text: Seq<char>)
    ensures
        fan_out(Seq::empty(), sessions, policy, text) == Seq::<(u64, Seq<char>)>::empty(),
{
    let pred = |m: (u64, UserView)| receives(sessions, policy, m);
    Seq::<(u64, UserView)>::empty().lemma_filter_len(pred);
    assert(fan_out(Seq::empty(), sessions, policy, text) =~= Seq::<(u64, Seq<char>)>::empty());
}

/// Tells whether `id` has a live session.
pub fn has_session(sessions: &Vec<u64>, id: u64) -> (r: bool)
    ensures
        r == sessions@.contains(id),
{
    let mut i: usize = 0;
    while i < sessions.len()
        invariant
            i <= sessions.len(),
            forall|j: int| 0 <= j < i ==> sessions@[j] != id,
        decreases sessions.len() - i,
    {
        if sessions[i] == id {
            return true;
        }
        i += 1;
    }
    false
}

/// Tells whether the policy selects the user.
pub fn selects(policy: Policy, id: u64, user: &User) -> (r: bool)
    ensures
        r == admits(policy, id, user@),
{
    match policy {
        Policy::All => true,
        Policy::Skip(skipped) => id != skipped,
        Policy::Only(one) => id == one,
        Policy::Elevated => user.elevated,
        Policy::NotElevated => !user.elevated,
    }
}

impl Room {
    /// The deliveries of one frame sent into the room under `policy`: one for
    /// each user that the policy selects and that has a live session, in the
    /// order the users joined.
    pub fn send(&self, sessions: &Vec<u64>, policy: Policy, message: &str) -> (r: Vec<Delivery>)
        ensures
            deliveries_view(r@) == self@.send(sessions@, policy, message@),
    {
        let mut out: Vec<Delivery> = Vec::new();
        let ghost connected = members_view(self.connected@);
        let mut i: usize = 0;
        proof {
            assert(connected.take(0) =~= Seq::<(u64, UserView)>::empty());
            lemma_fan_out_empty(sessions@, policy, message@);
            assert(deliveries_view(out@) =~= Seq::<(u64, Seq<char>)>::empty());
        }
        while i < self.connected.len()
            invariant
                i <= self.connected.len(),
                connected == members_view(self.connected@),
                deliveries_view(out@) == fan_out(
                    connected.take(i as int),
                    sessions@,
                    policy,
                    message@,
                ),
            decreases self.connected.len() - i,
        {
            let id = self.connected[i].0;
            let ghost before = out@;
            proof {
                assert(connected.take(i + 1) =~= connected.take(i as int).push(connected[i as int]));
                lemma_fan_out_push(
                    connected.take(i as int),
                    connected[i as int],
                    sessions@,
                    policy,
                    message@,
                );
            }
            if selects(policy, id, &self.connected[i].1) && has_session(sessions, id) {
                out.push(Delivery { user_id: id, message: Message(message.to_owned()) });
                assert(deliveries_view(out@) =~= deliveries_view(before).push((id, message@)));
            }
            i += 1;
        }
        assert(connected.take(self.connected.len() as int) =~= connected);
        out
    }

    /// The deliveries of several frames, each sent into the room under
    /// `policy`, one frame after the other.
    pub fn send_each(&self, sessions: &Vec<u64>, policy: Policy, texts: &Vec<String>) -> (r: Vec<
        Delivery,
    >)
        ensures
            deliveries_view(r@) == fan_out_each(
                self@.connected,
                sessions@,
                policy,
                texts_view(texts@),
            ),
    {
        let mut out: Vec<Delivery> = Vec::new();
        let ghost all = texts_view(texts@);
        let mut i: usize = 0;
        proof {
            assert(all.take(0) =~= Seq::<Seq<char>>::empty());
            assert(deliveries_view(out@) =~= Seq::<(u64, Seq<char>)>::empty());
        }
        while i < texts.len()
            invariant
                i <= texts.len(),
                all == texts_view(texts@),
                deliveries_view(out@) == fan_out_each(
                    self@.connected,
                    sessions@,
                    policy,
                    all.take(i as int),
                ),
            decreases texts.len() - i,
        {
            let ghost before = out@;
            let mut more = self.send(sessions, policy, texts[i].as_str());
            let ghost added = more@;
            out.append(&mut more);
            proof {
                assert(all.take(i + 1).drop_last() =~= all.take(i as int));
                assert(all.take(i + 1).last() == texts@[i as int]@);
                assert(deliveries_view(out@) =~= deliveries_view(before) + deliveries_view(added));
            }
            i += 1;
        }
        assert(all.take(texts.len() as int) =~= all);
        out
    }

    /// The place of `user_id` among the users of the room.
    pub fn member_index(&self, user_id: u64) -> (r: Option<usize>)
        ensures
            match r {
                Some(i) => i < self.connected.len() && self@.member_index(user_id) == Some(
                    i as int,
                ),
                None => self@.member_index(user_id) is None,
            },
    {
        let ghost ids = member_ids(self@.connected);
        let mut i: usize = 0;
        while i < self.connected.len()
            invariant
                i <= self.connected.len(),
                ids == member_ids(self@.connected),
                forall|j: int| 0 <= j < i ==> ids[j] != user_id,
            decreases self.connected.len() - i,
        {
            if self.connected[i].0 == user_id {
                proof {
                    lemma_first_index_is(ids, user_id, i as int);
                }
                return Some(i);
            }
            i += 1;
        }
        proof {
            lemma_first_index_none(ids, user_id);
        }
        None
    }

    /// The privilege of `user_id`, or an error for a user who is not in the
    /// room.
    pub fn is_elevated(&self, user_id: &u64) -> (r: Result<bool, &'static str>)
        ensures
            match r {
                Ok(elevated) => self@.elevation(*user_id) == Some(elevated),
                Err(reason) => self@.elevation(*user_id) is None && reason@.len() == 0,
            },
    {
        match self.member_index(*user_id) {
            None => {
                proof {
                    reveal_strlit("");
                }
                Err("")
            },
            Some(i) => Ok(self.connected[i].1.elevated),
        }
    }

    /// Tells whether `user_id` is in the room and a moderator.
    pub fn has_moderator(&self, user_id: u64) -> (r: bool)
        ensures
            r == self@.is_elevated(user_id),
    {
        match self.is_elevated(&user_id) {
            Ok(elevated) => elevated,
            Err(_) => false,
        }
    }

    /// Sets the privilege of `user_id`; nothing changes for a user who is not
    /// in the room.
    pub fn set_elevated(&mut self, user_id: &u64, elevated: bool)
        ensures
            final(self)@ == old(self)@.set_elevated(*user_id, elevated),
    {
        match self.member_index(*user_id) {
            None => {},
            Some(i) => {
                proof {
                    lemma_first_index(member_ids(self@.connected), *user_id);
                }
                self.connected[i].1.elevated = elevated;
                assert(members_view(self.connected@) =~= members_view(old(self).connected@).update(
                    i as int,
                    (
                        *user_id,
                        UserView { name: old(self)@.connected[i as int].1.name, elevated },
                    ),
                ));
            },
        }
    }

    /// Removes every flag that `user_id` raised.
    pub fn remove_user(&mut self, user_id: &u64)
        ensures
            final(self)@ == old(self)@.remove_user(*user_id),
    {
        let ghost all = raised_view(self.raised@);
        let ghost keep = |r: RaisedView| r.owner_id != *user_id;
        let ghost mut done: int = 0;
        let mut i: usize = 0;
        proof {
            reveal(Seq::filter);
            assert(all.take(0) =~= Seq::<RaisedView>::empty());
            assert(raised_view(self.raised@) =~= all.take(0).filter(keep) + all.skip(0));
        }
        while i < self.raised.len()
            invariant
                all == raised_view(old(self).raised@),
                keep == |r: RaisedView| r.owner_id != *user_id,
                self.polls == old(self).polls,
                self.connected == old(self).connected,
                0 <= done <= all.len(),
                i == all.take(done).filter(keep).len(),
                raised_view(self.raised@) == all.take(done).filter(keep) + all.skip(done),
            decreases all.len() - done,
        {
            let ghost kept = all.take(done).filter(keep);
            proof {
                assert(raised_view(self.raised@).len() == self.raised@.len());
                assert(done < all.len());
                assert(raised_view(self.raised@)[i as int] == all.skip(done)[0]);
                assert(self.raised@[i as int]@ == all[done]);
                assert(all.take(done + 1) =~= all.take(done).push(all[done]));
                all.take(done).lemma_filter_push(all[done], keep);
            }
            if self.raised[i].owner_id != *user_id {
                i += 1;
                assert(raised_view(self.raised@) =~= kept.push(all[done]) + all.skip(done + 1));
            } else {
                let ghost before = self.raised@;
                self.raised.remove(i);
                assert(raised_view(self.raised@) =~= raised_view(before).remove(i as int));
                assert(raised_view(self.raised@) =~= kept + all.skip(done + 1));
            }
            proof {
                done = done + 1;
            }
        }
        proof {
            assert(raised_view(self.raised@).len() == self.raised@.len());
            assert(done == all.len());
            assert(all.take(done) =~= all);
            assert(raised_view(self.raised@) =~= all.filter(keep));
        }
    }
}

} // verus!
