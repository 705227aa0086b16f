//! Raised flags and instant signals in one room.
use crate::messages::outbound::Error;
use crate::messages::outbound::OwnedObject;
use crate::messages::outbound::Types;
use crate::model::is_raised;
use crate::model::same_flag;
use crate::model::Policy;
use crate::model::RaisedView;
use crate::model::RoomView;
use crate::server::deliveries_view;
use crate::server::raised_view;
use crate::server::Delivery;
use crate::server::Instant;
use crate::server::Lower;
use crate::server::Raise;
use crate::server::Raised;
use crate::server::Room;
use vstd::prelude::*;

verus! {

impl Room {
    /// Tells whether `owner_id` has a flag raised on `object`.
    pub fn has_raised(&self, object: &String, owner_id: u64) -> (r: bool)
        ensures
            r == is_raised(self@.raised, object@, owner_id),
    {
        let ghost all = raised_view(self.raised@);
        let mut i: usize = 0;
        while i < self.raised.len()
            invariant
                i <= self.raised.len(),
                all == raised_view(self.raised@),
                forall|j: int| 0 <= j < i ==> !same_flag(#[trigger] all[j], object@, owner_id),
            decreases self.raised.len() - i,
        {
            if self.raised[i].owner_id == owner_id && self.raised[i].object == *object {
                assert(same_flag(all[i as int], object@, owner_id));
                return true;
            }
            i += 1;
        }
        false
    }

    /// The error frame for `user_id` alone.
    pub fn reject(&self, sessions: &Vec<u64>, user_id: u64, code: &str, description: &str) -> (r:
        Vec<Delivery>)
        ensures
            deliveries_view(r@) == self@.reject(sessions@, user_id, code@, description@).sent,
    {
        let frame = Error {
            kind: Types::Error,
            object: code.to_owned(),
            description: description.to_owned(),
        };
        let text = frame.to_json();
        self.send(sessions, Policy::Only(user_id), text.as_str())
    }

    /// Raises a flag: refused with `already_raised` where the owner has that
    /// flag raised already, else announced to all and kept.
    pub fn raise(&mut self, sessions: &Vec<u64>, msg: Raise) -> (r: Vec<Delivery>)
        ensures
            final(self)@ == old(self)@.raise(
                sessions@,
                msg.object@,
                msg.owner_id,
                msg.owner_name@,
            ).room,
            deliveries_view(r@) == old(self)@.raise(
                sessions@,
                msg.object@,
                msg.owner_id,
                msg.owner_name@,
            ).sent,
    {
        if self.has_raised(&msg.object, msg.owner_id) {
            return self.reject(
                sessions,
                msg.owner_id,
                "already_raised",
                "Refusing to raise, already raised",
            );
        }
        let frame = OwnedObject {
            kind: Types::Raised,
            owner_id: msg.owner_id,
            owner_name: msg.owner_name.clone(),
            object: msg.object.clone(),
            elevated: self.has_moderator(msg.owner_id),
        };
        let text = frame.to_json();
        let out = self.send(sessions, Policy::All, text.as_str());
        self.raised.push(
            Raised { object: msg.object, owner_id: msg.owner_id, owner_name: msg.owner_name },
        );
        assert(raised_view(self.raised@) =~= raised_view(old(self).raised@).push(
            RaisedView {
                object: msg.object@,
                owner_id: msg.owner_id,
                owner_name: msg.owner_name@,
            },
        ));
        out
    }

    /// Removes the flags of `owner_id` on `object`.
    fn drop_flag(&mut self, object: &String, owner_id: u64)
        ensures
            final(self)@ == (RoomView {
                raised: old(self)@.raised.filter(|r: RaisedView| !same_flag(r, object@, owner_id)),
                ..old(self)@
            }),
    {
        let ghost all = raised_view(self.raised@);
        let ghost keep = |r: RaisedView| !same_flag(r, object@, owner_id);
        let ghost mut done: int = 0;
        let mut i: usize = 0;
        proof {
            reveal(Seq::filter);
            assert(all.take(0) =~= Seq::<RaisedView>::empty());
            assert(raised_view(self.raised@) =~= all.take(0).filter(keep) + all.skip(0));
        }
        while i < self.raised.len()
            invariant
                all == raised_view(old(self).raised@),
                keep == |r: RaisedView| !same_flag(r, object@, owner_id),
                self.polls == old(self).polls,
                self.connected == old(self).connected,
                0 <= done <= all.len(),
                i == all.take(done).filter(keep).len(),
                raised_view(self.raised@) == all.take(done).filter(keep) + all.skip(done),
            decreases all.len() - done,
        {
            let ghost kept = all.take(done).filter(keep);
            proof {
                assert(raised_view(self.raised@).len() == self.raised@.len());
                assert(done < all.len());
                assert(raised_view(self.raised@)[i as int] == all.skip(done)[0]);
                assert(self.raised@[i as int]@ == all[done]);
                assert(all.take(done + 1) =~= all.take(done).push(all[done]));
                all.take(done).lemma_filter_push(all[done], keep);
            }
            if self.raised[i].owner_id == owner_id && self.raised[i].object == *object {
                let ghost before = self.raised@;
                self.raised.remove(i);
                assert(raised_view(self.raised@) =~= raised_view(before).remove(i as int));
                assert(raised_view(self.raised@) =~= kept + all.skip(done + 1));
            } else {
                i += 1;
                assert(raised_view(self.raised@) =~= kept.push(all[done]) + all.skip(done + 1));
            }
            proof {
                done = done + 1;
            }
        }
        proof {
            assert(raised_view(self.raised@).len() == self.raised@.len());
            assert(done == all.len());
            assert(all.take(done) =~= all);
            assert(raised_view(self.raised@) =~= all.filter(keep));
        }
    }

    /// Lowers a flag: refused with `not_raised` where the owner has no such
    /// flag, else the flag goes and all are told.
    pub fn lower(&mut self, sessions: &Vec<u64>, msg: Lower) -> (r: Vec<Delivery>)
        ensures
            final(self)@ == old(self)@.lower(
                sessions@,
                msg.object@,
                msg.owner_id,
                msg.owner_name@,
            ).room,
            deliveries_view(r@) == old(self)@.lower(
                sessions@,
                msg.object@,
                msg.owner_id,
                msg.owner_name@,
            ).sent,
    {
        if !self.has_raised(&msg.object, msg.owner_id) {
            return self.reject(
                sessions,
                msg.owner_id,
                "not_raised",
                "Refusing to lower, is not raised",
            );
        }
        self.drop_flag(&msg.object, msg.owner_id);
        let frame = OwnedObject {
            kind: Types::Lower,
            owner_id: msg.owner_id,
            owner_name: msg.owner_name,
            object: msg.object,
            elevated: self.has_moderator(msg.owner_id),
        };
        let text = frame.to_json();
        self.send(sessions, Policy::All, text.as_str())
    }

    /// Passes a signal on to all; the room keeps nothing of it.
    pub fn instant(&self, sessions: &Vec<u64>, msg: Instant) -> (r: Vec<Delivery>)
        ensures
            deliveries_view(r@) == self@.instant(
                sessions@,
                msg.object@,
                msg.owner_id,
                msg.owner_name@,
            ).sent,
    {
        let frame = OwnedObject {
            kind: Types::Instant,
            owner_id: msg.owner_id,
            owner_name: msg.owner_name,
            object: msg.object,
            elevated: self.has_moderator(msg.owner_id),
        };
        let text = frame.to_json();
        self.send(sessions, Policy::All, text.as_str())
    }
}

} // verus!
