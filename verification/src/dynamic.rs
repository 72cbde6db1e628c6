//! The dynamic subscription set: the membership of item keys for one
//! long-lived market subscription, mutable at runtime.
//!
//! The underlying protocol cannot change a running subscription's item list,
//! so a membership change while connected must tear the connection down and
//! rebuild it from the current membership. The decisions live here: whether a
//! change altered membership (and only then is a reconnect due), and the
//! descriptor the next connection subscribes with. The locking, channels and
//! timers sit outside this core.

use vstd::prelude::*;

use crate::errors::StreamError;
use crate::streaming::StreamingMarketField;
use crate::subscription::{
    SubscriptionDescriptor, build_market_subscription, is_market_descriptor, strs_view,
};
use crate::text::str_eq;

verus! {

/// How long a reconnect waits for the old connection to unwind, in
/// milliseconds.
pub const RECONNECT_GRACE_MS: u64 = 500;

/// The decision core of the dynamic market streamer: the desired item keys,
/// the fields every rebuilt subscription asks for, whether a connection is
/// currently established, and whether the single update receiver was already
/// handed out.
pub struct DynamicStreamerCore {
    /// The desired item keys, each held once.
    pub epics: Vec<String>,
    /// The market fields every rebuilt subscription asks for.
    pub fields: Vec<StreamingMarketField>,
    /// Whether a connection is currently established.
    pub is_connected: bool,
    /// Whether the update receiver was handed out already.
    pub receiver_taken: bool,
}

impl DynamicStreamerCore {
    /// Membership holds each key at most once.
    pub open spec fn wf(self) -> bool {
        forall|i: int, j: int|
            0 <= i < self.epics@.len() && 0 <= j < self.epics@.len() && self.epics@[i]@
                == self.epics@[j]@ ==> i == j
    }

    /// Whether `k` is a member of the desired item keys.
    pub open spec fn has_epic(self, k: Seq<char>) -> bool {
        exists|i: int| 0 <= i < self.epics@.len() && self.epics@[i]@ == k
    }

    /// A fresh core: empty membership, not connected, receiver not yet
    /// handed out.
    pub fn new(fields: Vec<StreamingMarketField>) -> (c: DynamicStreamerCore)
        ensures
            c.wf(),
            c.epics@.len() == 0,
            c.fields == fields,
            !c.is_connected,
            !c.receiver_taken,
    {
        DynamicStreamerCore { epics: Vec::new(), fields, is_connected: false, receiver_taken: false }
    }

    fn position_of(&self, epic: &str) -> (r: Option<usize>)
        ensures
            match r {
                Some(i) => i < self.epics@.len() && self.epics@[i as int]@ == epic@,
                None => !self.has_epic(epic@),
            },
    {
        let len = self.epics.len();
        let mut i: usize = 0;
        while i < len
            invariant
                len == self.epics@.len(),
                i <= len,
                forall|k: int| 0 <= k < i ==> self.epics@[k]@ != epic@,
            decreases len - i,
        {
            if str_eq(self.epics[i].as_str(), epic) {
                return Some(i);
            }
            i = i + 1;
        }
        None
    }

    /// Adds an item key to the membership. Adding a key that is already a
    /// member changes nothing. A reconnect is due exactly when membership
    /// changed while a connection is established.
    pub fn add(&mut self, epic: String) -> (reconnect: bool)
        requires
            old(self).wf(),
        ensures
            final(self).wf(),
            final(self).has_epic(epic@),
            forall|k: Seq<char>| k != epic@ ==> final(self).has_epic(k) == old(self).has_epic(k),
            old(self).has_epic(epic@) ==> final(self).epics@ == old(self).epics@,
            !old(self).has_epic(epic@) ==> final(self).epics@ == old(self).epics@.push(epic),
            reconnect == (!old(self).has_epic(epic@) && old(self).is_connected),
            final(self).fields == old(self).fields,
            final(self).is_connected == old(self).is_connected,
            final(self).receiver_taken == old(self).receiver_taken,
    {
        match self.position_of(epic.as_str()) {
            Some(i) => {
                assert(self.has_epic(epic@)) by {
                    assert(self.epics@[i as int]@ == epic@);
                }
                false
            },
            None => {
                let ghost pre = self.epics@;
                self.epics.push(epic);
                assert(self.has_epic(epic@)) by {
                    assert(self.epics@[pre.len() as int]@ == epic@);
                }
                assert forall|a: int, b: int|
                    0 <= a < self.epics@.len() && 0 <= b < self.epics@.len() && self.epics@[a]@
                        == self.epics@[b]@ implies a == b by {
                    if a < pre.len() && b < pre.len() {
                        assert(pre[a]@ == pre[b]@);
                    } else if a < pre.len() && b == pre.len() {
                        assert(pre[a]@ == epic@);
                    } else if a == pre.len() && b < pre.len() {
                        assert(pre[b]@ == epic@);
                    }
                }
                assert forall|k: Seq<char>| k != epic@ implies self.has_epic(k) == old(
                    self,
                ).has_epic(k) by {
                    if self.has_epic(k) {
                        let i = choose|i: int|
                            0 <= i < self.epics@.len() && self.epics@[i]@ == k;
                        assert(i < pre.len());
                        assert(pre[i]@ == k);
                    }
                    if old(self).has_epic(k) {
                        let i = choose|i: int| 0 <= i < pre.len() && pre[i]@ == k;
                        assert(self.epics@[i]@ == k);
                    }
                }
                self.is_connected
            },
        }
    }

    /// Removes an item key from the membership. Removing a key that is not a
    /// member is a no-op and never triggers a reconnect. A reconnect is due
    /// exactly when membership changed while a connection is established.
    pub fn remove(&mut self, epic: &str) -> (reconnect: bool)
        requires
            old(self).wf(),
        ensures
            final(self).wf(),
            !final(self).has_epic(epic@),
            forall|k: Seq<char>| k != epic@ ==> final(self).has_epic(k) == old(self).has_epic(k),
            !old(self).has_epic(epic@) ==> final(self).epics@ == old(self).epics@,
            old(self).has_epic(epic@) ==> final(self).epics@.len() == old(self).epics@.len() - 1,
            reconnect == (old(self).has_epic(epic@) && old(self).is_connected),
            final(self).fields == old(self).fields,
            final(self).is_connected == old(self).is_connected,
            final(self).receiver_taken == old(self).receiver_taken,
    {
        match self.position_of(epic) {
            None => false,
            Some(i) => {
                let ghost pre = self.epics@;
                let _ = self.epics.remove(i);
                assert forall|a: int, b: int|
                    0 <= a < self.epics@.len() && 0 <= b < self.epics@.len() && self.epics@[a]@
                        == self.epics@[b]@ implies a == b by {
                    let pa: int = if a < i { a } else { a + 1 };
                    let pb: int = if b < i { b } else { b + 1 };
                    assert(pre[pa]@ == self.epics@[a]@);
                    assert(pre[pb]@ == self.epics@[b]@);
                }
                assert forall|k: Seq<char>| k != epic@ implies self.has_epic(k) == old(
                    self,
                ).has_epic(k) by {
                    if old(self).has_epic(k) {
                        let j = choose|j: int| 0 <= j < pre.len() && pre[j]@ == k;
                        if j < i {
                            assert(self.epics@[j]@ == k);
                        } else {
                            assert(j > i);
                            assert(self.epics@[j - 1]@ == k);
                        }
                    }
                    if self.has_epic(k) {
                        let j = choose|j: int|
                            0 <= j < self.epics@.len() && self.epics@[j]@ == k;
                        if j < i {
                            assert(pre[j]@ == k);
                        } else {
                            assert(pre[j + 1]@ == k);
                        }
                    }
                }
                assert(!self.has_epic(epic@)) by {
                    if self.has_epic(epic@) {
                        let j = choose|j: int|
                            0 <= j < self.epics@.len() && self.epics@[j]@ == epic@;
                        if j < i {
                            assert(pre[j]@ == epic@ && pre[i as int]@ == epic@);
                        } else {
                            assert(pre[j + 1]@ == epic@ && pre[i as int]@ == epic@);
                        }
                    }
                }
                self.is_connected
            },
        }
    }

    /// Empties the membership. The protocol offers no immediate server-side
    /// unsubscription, so this only clears the desired set; no reconnect is
    /// triggered.
    pub fn clear(&mut self)
        requires
            old(self).wf(),
        ensures
            final(self).wf(),
            final(self).epics@.len() == 0,
            forall|k: Seq<char>| !final(self).has_epic(k),
            final(self).fields == old(self).fields,
            final(self).is_connected == old(self).is_connected,
            final(self).receiver_taken == old(self).receiver_taken,
    {
        self.epics.clear();
    }

    /// The current membership, in insertion order.
    pub fn get_epics(&self) -> (v: Vec<String>)
        ensures
            v@.len() == self.epics@.len(),
            forall|i: int| 0 <= i < v@.len() ==> v@[i]@ == self.epics@[i]@,
    {
        let mut out: Vec<String> = Vec::new();
        let len = self.epics.len();
        let mut i: usize = 0;
        while i < len
            invariant
                len == self.epics@.len(),
                i <= len,
                out@.len() == i,
                forall|k: int| 0 <= k < i ==> out@[k]@ == self.epics@[k]@,
            decreases len - i,
        {
            out.push(self.epics[i].clone());
            i = i + 1;
        }
        out
    }

    /// Claims the single update receiver. The receiving end cannot be
    /// duplicated, so a second claim is a usage error, not a retryable
    /// condition.
    pub fn claim_receiver(&mut self) -> (r: Result<(), StreamError>)
        ensures
            r is Ok <==> !old(self).receiver_taken,
            final(self).receiver_taken,
            r matches Err(e) ==> e matches StreamError::InvalidInput(m) && m@
                == "Receiver already taken"@,
            final(self).epics@ == old(self).epics@,
            final(self).fields == old(self).fields,
            final(self).is_connected == old(self).is_connected,
    {
        if self.receiver_taken {
            Err(StreamError::InvalidInput("Receiver already taken".to_owned()))
        } else {
            self.receiver_taken = true;
            Ok(())
        }
    }

    /// Records whether a connection is currently established.
    pub fn set_connected(&mut self, connected: bool)
        ensures
            final(self).is_connected == connected,
            final(self).epics@ == old(self).epics@,
            final(self).fields == old(self).fields,
            final(self).receiver_taken == old(self).receiver_taken,
    {
        self.is_connected = connected;
    }

    /// The descriptor the next connection subscribes with: the market
    /// subscription over the current membership, or nothing when the
    /// membership is empty (an empty subscription is never started).
    pub fn rebuild_descriptor(&self) -> (r: Option<SubscriptionDescriptor>)
        ensures
            r is Some <==> self.epics@.len() > 0,
            r matches Some(d) ==> is_market_descriptor(d, strs_view(self.epics@), self.fields@),
    {
        if self.epics.len() == 0 {
            None
        } else {
            Some(build_market_subscription(&self.epics, &self.fields))
        }
    }
}

} // verus!
