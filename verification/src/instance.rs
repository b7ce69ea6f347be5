//! What the cooperative scheduler keeps for each clip, as plain values, and
//! how that changes.

use crate::config::PlaybackWindow;
use crate::sampler::Interval;
use crate::time::MAX_NANOS;
use vstd::prelude::*;

verus! {

/// Names one instance. No two instances of a registry ever share an id, not
/// even when one came after the other had gone.
#[derive(Clone, Copy, Debug, PartialEq, Eq, Hash, Structural)]
pub struct InstanceId {
    pub serial: u64,
}

/// Names one wait of one instance. A registry hands out each token once.
#[derive(Clone, Copy, Debug, PartialEq, Eq, Hash, Structural)]
pub struct TimerToken {
    pub serial: u64,
}

/// One clip and its schedule, as plain values.
pub struct InstanceState {
    pub id: InstanceId,
    /// What is played.
    pub window: PlaybackWindow,
    /// How long the clip is known to last, in nanoseconds.
    pub clip: nat,
    /// The wait that is under way, if one is.
    pub pending: Option<TimerToken>,
}

/// A registry as plain values.
pub struct RegistryState {
    /// Where the waits between two plays of a clip are drawn from.
    pub range: Interval,
    /// The live instances, oldest first.
    pub instances: Seq<InstanceState>,
    /// How many ids and tokens have been handed out so far.
    pub issued: nat,
}

/// Something that happens to a registry.
pub enum Event {
    /// A clip is activated.
    Activate { window: PlaybackWindow, clip: nat },
    /// An instance gets a new window and clip length.
    Reconfigure { id: InstanceId, window: PlaybackWindow, clip: nat },
    /// The pending wait of an instance is cancelled.
    Cancel { id: InstanceId },
    /// A wait runs out.
    Expire { id: InstanceId, token: TimerToken },
    /// An instance is closed.
    Deactivate { id: InstanceId },
    /// Every instance is closed.
    DeactivateAll,
}

impl RegistryState {
    /// Whether an instance of this id is live.
    pub open spec fn live(self, id: InstanceId) -> bool {
        exists|i: int| 0 <= i < self.instances.len() && (#[trigger] self.instances[i]).id == id
    }

    /// Where the live instance of this id stands among the instances.
    pub open spec fn slot(self, id: InstanceId) -> int {
        choose|i: int| 0 <= i < self.instances.len() && (#[trigger] self.instances[i]).id == id
    }

    /// The live instance of this id.
    pub open spec fn instance(self, id: InstanceId) -> InstanceState {
        self.instances[self.slot(id)]
    }

    /// Whether the wait named by `token` is the one that instance `id` is
    /// in: only then does its running out lead to a play.
    pub open spec fn awaits(self, id: InstanceId, token: TimerToken) -> bool {
        self.live(id) && self.instance(id).pending == Some(token)
    }

    /// Whether a sleep of any wait from the range, followed by a clip of
    /// this length, is still a span.
    pub open spec fn fits(self, clip: nat) -> bool {
        clip + self.range.max <= MAX_NANOS
    }

    /// How many ids and tokens are left to hand out.
    pub open spec fn spare(self) -> nat {
        (u64::MAX - self.issued) as nat
    }

    /// What holds of every registry: the range is not empty; ids grow along
    /// the instances, so that no two are equal; every id and token in use
    /// has been handed out; every clip fits.
    pub open spec fn wf(self) -> bool {
        &&& self.range.min < self.range.max <= MAX_NANOS
        &&& self.issued <= u64::MAX
        &&& forall|i: int, j: int|
            0 <= i < j < self.instances.len() ==> (#[trigger] self.instances[i]).id.serial < (
            #[trigger] self.instances[j]).id.serial
        &&& forall|i: int|
            0 <= i < self.instances.len() ==> {
                &&& (#[trigger] self.instances[i]).id.serial < self.issued
                &&& self.fits(self.instances[i].clip)
                &&& self.instances[i].pending matches Some(token) ==> token.serial < self.issued
            }
    }

    /// A registry with no instance.
    pub open spec fn empty(range: Interval) -> RegistryState {
        RegistryState { range, instances: Seq::empty(), issued: 0 }
    }

    /// The registry after a clip has been activated: a new instance stands
    /// last, under the next id, in a wait under the token after that.
    pub open spec fn activated(self, window: PlaybackWindow, clip: nat) -> RegistryState {
        RegistryState {
            instances: self.instances.push(
                InstanceState {
                    id: InstanceId { serial: self.issued as u64 },
                    window,
                    clip,
                    pending: Some(TimerToken { serial: (self.issued + 1) as u64 }),
                },
            ),
            issued: self.issued + 2,
            ..self
        }
    }

    /// The registry after instance `id` has been given a new window and clip
    /// length: whatever wait it was in is replaced by one under the next
    /// token. An id that is not live changes nothing.
    pub open spec fn reconfigured(
        self,
        id: InstanceId,
        window: PlaybackWindow,
        clip: nat,
    ) -> RegistryState {
        if self.live(id) {
            RegistryState {
                instances: self.instances.update(
                    self.slot(id),
                    InstanceState {
                        id,
                        window,
                        clip,
                        pending: Some(TimerToken { serial: self.issued as u64 }),
                    },
                ),
                issued: self.issued + 1,
                ..self
            }
        } else {
            self
        }
    }

    /// The registry after the pending wait of instance `id` has been
    /// cancelled: the instance stays, in no wait.
    pub open spec fn cancelled(self, id: InstanceId) -> RegistryState {
        if self.live(id) {
            RegistryState {
                instances: self.instances.update(
                    self.slot(id),
                    InstanceState { pending: None, ..self.instance(id) },
                ),
                ..self
            }
        } else {
            self
        }
    }

    /// The registry after the wait named by `token` has run out on instance
    /// `id`. Where that is the wait the instance is in, the next wait begins
    /// under the next token. Any other wait running out changes nothing.
    pub open spec fn expired(self, id: InstanceId, token: TimerToken) -> RegistryState {
        if self.awaits(id, token) {
            RegistryState {
                instances: self.instances.update(
                    self.slot(id),
                    InstanceState {
                        pending: Some(TimerToken { serial: self.issued as u64 }),
                        ..self.instance(id)
                    },
                ),
                issued: self.issued + 1,
                ..self
            }
        } else {
            self
        }
    }

    /// The registry after instance `id` has been closed.
    pub open spec fn deactivated(self, id: InstanceId) -> RegistryState {
        if self.live(id) {
            RegistryState { instances: self.instances.remove(self.slot(id)), ..self }
        } else {
            self
        }
    }

    /// The registry after every instance has been closed.
    pub open spec fn cleared(self) -> RegistryState {
        RegistryState { instances: Seq::empty(), ..self }
    }

    /// Whether the registry can take the event: the id and the tokens that
    /// the event hands out are left, and a clip that comes with it fits.
    pub open spec fn admits(self, event: Event) -> bool {
        match event {
            Event::Activate { window, clip } => self.spare() >= 2 && self.fits(clip),
            Event::Reconfigure { id, window, clip } => self.spare() >= 1 && self.fits(clip),
            Event::Expire { id, token } => self.spare() >= 1,
            _ => true,
        }
    }

    /// The registry after the event.
    pub open spec fn after(self, event: Event) -> RegistryState {
        match event {
            Event::Activate { window, clip } => self.activated(window, clip),
            Event::Reconfigure { id, window, clip } => self.reconfigured(id, window, clip),
            Event::Cancel { id } => self.cancelled(id),
            Event::Expire { id, token } => self.expired(id, token),
            Event::Deactivate { id } => self.deactivated(id),
            Event::DeactivateAll => self.cleared(),
        }
    }

    /// Whether the registry can take the events one after the other.
    pub open spec fn admits_all(self, events: Seq<Event>) -> bool
        decreases events.len(),
    {
        events.len() > 0 ==> self.admits(events[0]) && self.after(events[0]).admits_all(
            events.drop_first(),
        )
    }

    /// The registry after the events, one after the other.
    pub open spec fn after_all(self, events: Seq<Event>) -> RegistryState
        decreases events.len(),
    {
        if events.len() == 0 {
            self
        } else {
            self.after(events[0]).after_all(events.drop_first())
        }
    }

    /// In a well-formed registry the slot of a live id holds that id, and no
    /// other slot does.
    pub proof fn lemma_slot(self, id: InstanceId)
        requires
            self.wf(),
            self.live(id),
        ensures
            0 <= self.slot(id) < self.instances.len(),
            self.instance(id).id == id,
            forall|i: int|
                0 <= i < self.instances.len() && (#[trigger] self.instances[i]).id == id ==> i
                    == self.slot(id),
    {
        let s = self.slot(id);
        assert forall|i: int|
            0 <= i < self.instances.len() && (#[trigger] self.instances[i]).id == id implies i
            == s by {
            if i < s {
                assert(self.instances[i].id.serial < self.instances[s].id.serial);
            } else if s < i {
                assert(self.instances[s].id.serial < self.instances[i].id.serial);
            }
        }
    }

    /// Every event that a well-formed registry admits leaves it well-formed.
    pub proof fn lemma_after_wf(self, event: Event)
        requires
            self.wf(),
            self.admits(event),
        ensures
            self.after(event).wf(),
    {
        let next = self.after(event);
        match event {
            Event::Activate { window, clip } => {
                assert forall|i: int, j: int| 0 <= i < j < next.instances.len() implies (
                #[trigger] next.instances[i]).id.serial < (#[trigger] next.instances[j]).id.serial by {
                    assert(next.instances[i] == self.instances[i]);
                    if j < self.instances.len() {
                        assert(next.instances[j] == self.instances[j]);
                    }
                }
                assert forall|i: int| 0 <= i < next.instances.len() implies {
                    &&& (#[trigger] next.instances[i]).id.serial < next.issued
                    &&& next.fits(next.instances[i].clip)
                    &&& next.instances[i].pending matches Some(token) ==> token.serial
                        < next.issued
                } by {
                    if i < self.instances.len() {
                        assert(next.instances[i] == self.instances[i]);
                    }
                }
            },
            Event::Reconfigure { id, window, clip } => {
                if self.live(id) {
                    self.lemma_slot(id);
                    self.lemma_updated_wf(
                        self.slot(id),
                        InstanceState {
                            id,
                            window,
                            clip,
                            pending: Some(TimerToken { serial: self.issued as u64 }),
                        },
                        self.issued + 1,
                    );
                }
            },
            Event::Cancel { id } => {
                if self.live(id) {
                    self.lemma_slot(id);
                    self.lemma_updated_wf(
                        self.slot(id),
                        InstanceState { pending: None, ..self.instance(id) },
                        self.issued,
                    );
                }
            },
            Event::Expire { id, token } => {
                if self.awaits(id, token) {
                    self.lemma_slot(id);
                    self.lemma_updated_wf(
                        self.slot(id),
                        InstanceState {
                            pending: Some(TimerToken { serial: self.issued as u64 }),
                            ..self.instance(id)
                        },
                        self.issued + 1,
                    );
                }
            },
            Event::Deactivate { id } => {
                if self.live(id) {
                    self.lemma_slot(id);
                    let s = self.slot(id);
                    assert forall|i: int, j: int| 0 <= i < j < next.instances.len() implies (
                    #[trigger] next.instances[i]).id.serial < (
                    #[trigger] next.instances[j]).id.serial by {
                        let a = if i < s {
                            i
                        } else {
                            i + 1
                        };
                        let b = if j < s {
                            j
                        } else {
                            j + 1
                        };
                        assert(next.instances[i] == self.instances[a]);
                        assert(next.instances[j] == self.instances[b]);
                    }
                    assert forall|i: int| 0 <= i < next.instances.len() implies {
                        &&& (#[trigger] next.instances[i]).id.serial < next.issued
                        &&& next.fits(next.instances[i].clip)
                        &&& next.instances[i].pending matches Some(token) ==> token.serial
                            < next.issued
                    } by {
                        let a = if i < s {
                            i
                        } else {
                            i + 1
                        };
                        assert(next.instances[i] == self.instances[a]);
                    }
                }
            },
            Event::DeactivateAll => {},
        }
    }

    /// Putting a record with the same id, a clip that fits and a token that
    /// has been handed out in place of another keeps a registry well-formed.
    proof fn lemma_updated_wf(self, slot: int, record: InstanceState, issued: nat)
        requires
            self.wf(),
            0 <= slot < self.instances.len(),
            record.id == self.instances[slot].id,
            self.fits(record.clip),
            self.issued <= issued <= u64::MAX,
            record.pending matches Some(token) ==> token.serial < issued,
        ensures
            (RegistryState { instances: self.instances.update(slot, record), issued, ..self }).wf(),
    {
        let next = RegistryState { instances: self.instances.update(slot, record), issued, ..self };
        assert forall|i: int, j: int| 0 <= i < j < next.instances.len() implies (
        #[trigger] next.instances[i]).id.serial < (#[trigger] next.instances[j]).id.serial by {
            assert(next.instances[i].id == self.instances[i].id);
            assert(next.instances[j].id == self.instances[j].id);
        }
        assert forall|i: int| 0 <= i < next.instances.len() implies {
            &&& (#[trigger] next.instances[i]).id.serial < next.issued
            &&& next.fits(next.instances[i].clip)
            &&& next.instances[i].pending matches Some(token) ==> token.serial < next.issued
        } by {
            if i != slot {
                assert(next.instances[i] == self.instances[i]);
            }
        }
    }

    /// Once the pending wait of an instance is cancelled, no wait running
    /// out on that instance leads to a play, and none changes the registry.
    pub proof fn lemma_cancelled_never_plays(self, id: InstanceId, token: TimerToken)
        requires
            self.wf(),
        ensures
            !self.cancelled(id).awaits(id, token),
            self.cancelled(id).expired(id, token) == self.cancelled(id),
    {
        if self.live(id) {
            let next = self.cancelled(id);
            let s = self.slot(id);
            self.lemma_slot(id);
            self.lemma_after_wf(Event::Cancel { id });
            assert(next.instances[s].id == id);
            next.lemma_slot(id);
        }
    }

    /// Once an instance is closed, no wait running out on it leads to a
    /// play. The same holds of every instance once all are closed.
    pub proof fn lemma_closed_never_plays(self, id: InstanceId, token: TimerToken)
        requires
            self.wf(),
        ensures
            !self.deactivated(id).live(id),
            !self.deactivated(id).awaits(id, token),
            !self.cleared().awaits(id, token),
    {
        if self.live(id) {
            let next = self.deactivated(id);
            let s = self.slot(id);
            self.lemma_slot(id);
            assert forall|i: int| 0 <= i < next.instances.len() implies (
            #[trigger] next.instances[i]).id != id by {
                let a = if i < s {
                    i
                } else {
                    i + 1
                };
                assert(next.instances[i] == self.instances[a]);
            }
        }
    }

    /// A token that has been handed out and names no wait that instance
    /// `id` is in does not come to name one through any event.
    pub proof fn lemma_stale_after(self, id: InstanceId, token: TimerToken, event: Event)
        requires
            self.wf(),
            self.admits(event),
            token.serial < self.issued,
            !self.awaits(id, token),
        ensures
            self.after(event).wf(),
            token.serial < self.after(event).issued,
            !self.after(event).awaits(id, token),
    {
        let next = self.after(event);
        self.lemma_after_wf(event);
        if next.awaits(id, token) {
            next.lemma_slot(id);
            let n = next.slot(id);
            match event {
                Event::Activate { window, clip } => {
                    if n < self.instances.len() {
                        assert(next.instances[n] == self.instances[n]);
                        self.lemma_slot(id);
                    }
                },
                Event::Reconfigure { id: other, window, clip } => {
                    if self.live(other) {
                        self.lemma_slot(other);
                        if n != self.slot(other) {
                            assert(next.instances[n] == self.instances[n]);
                            self.lemma_slot(id);
                        }
                    }
                },
                Event::Cancel { id: other } => {
                    if self.live(other) {
                        self.lemma_slot(other);
                        if n != self.slot(other) {
                            assert(next.instances[n] == self.instances[n]);
                            self.lemma_slot(id);
                        }
                    }
                },
                Event::Expire { id: other, token: fired } => {
                    if self.awaits(other, fired) {
                        self.lemma_slot(other);
                        if n != self.slot(other) {
                            assert(next.instances[n] == self.instances[n]);
                            self.lemma_slot(id);
                        }
                    }
                },
                Event::Deactivate { id: other } => {
                    if self.live(other) {
                        self.lemma_slot(other);
                        let s = self.slot(other);
                        let a = if n < s {
                            n
                        } else {
                            n + 1
                        };
                        assert(next.instances[n] == self.instances[a]);
                        self.lemma_slot(id);
                    }
                },
                Event::DeactivateAll => {},
            }
        }
    }

    /// A wait that was cancelled never leads to a play: a token that has
    /// been handed out and names no wait that instance `id` is in names none
    /// after any run of events, whatever is activated, reconfigured,
    /// cancelled or closed on the way and whichever waits run out.
    pub proof fn lemma_stale_stays_stale(
        self,
        id: InstanceId,
        token: TimerToken,
        events: Seq<Event>,
    )
        requires
            self.wf(),
            self.admits_all(events),
            token.serial < self.issued,
            !self.awaits(id, token),
        ensures
            self.after_all(events).wf(),
            !self.after_all(events).awaits(id, token),
            self.after_all(events).expired(id, token) == self.after_all(events),
        decreases events.len(),
    {
        if events.len() > 0 {
            self.lemma_stale_after(id, token, events[0]);
            self.after(events[0]).lemma_stale_stays_stale(id, token, events.drop_first());
        }
    }
}

} // verus!
