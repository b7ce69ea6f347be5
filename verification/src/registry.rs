//! The cooperative scheduler: many clips on one event loop, each rearming
//! its own one-shot timer and none ever blocking.

use crate::config::AudioConfig;
use crate::instance::{InstanceId, InstanceState, RegistryState, TimerToken};
use crate::sampler::WaitRange;
use crate::time::{TimeSpan, MAX_NANOS};
use vstd::prelude::*;

verus! {

/// A one-shot timer to set: when `delay` has passed, report `token` as run
/// out.
#[derive(Clone, Copy, Debug, PartialEq, Eq, Structural)]
pub struct Arm {
    pub token: TimerToken,
    pub delay: TimeSpan,
}

/// What follows from activating a clip: its id, and its first timer.
#[derive(Clone, Copy, Debug, PartialEq, Eq, Structural)]
pub struct Activation {
    pub id: InstanceId,
    pub arm: Arm,
}

/// What follows from reconfiguring an instance: first the timer to cancel,
/// if one was set, then the timer to set in its place.
#[derive(Clone, Copy, Debug, PartialEq, Eq, Structural)]
pub struct Rearm {
    pub cancel: Option<TimerToken>,
    pub arm: Arm,
}

/// What follows from a wait running out.
#[derive(Clone, Copy, Debug, PartialEq, Eq, Structural)]
pub enum Expiry {
    /// The wait had been cancelled or replaced: do nothing.
    Stale,
    /// Queue the clip on the instance's own output, without blocking, and
    /// set the next timer.
    Play(Arm),
}

/// What follows from closing an instance: the timer to cancel, if one was
/// set, and the instance whose output is to be released.
#[derive(Clone, Copy, Debug, PartialEq, Eq, Structural)]
pub struct Teardown {
    pub id: InstanceId,
    pub cancel: Option<TimerToken>,
}

/// One clip and its schedule: what is played, how long it lasts, and the
/// one wait that may be under way.
#[derive(Debug)]
pub struct SchedulerInstance {
    id: InstanceId,
    config: AudioConfig,
    clip: TimeSpan,
    pending: Option<TimerToken>,
}

impl View for SchedulerInstance {
    type V = InstanceState;

    closed spec fn view(&self) -> InstanceState {
        InstanceState { id: self.id, window: self.config@, clip: self.clip@, pending: self.pending }
    }
}

impl SchedulerInstance {
    /// The id of the instance.
    pub fn id(&self) -> (r: InstanceId)
        ensures
            r == self@.id,
    {
        self.id
    }

    /// What the instance plays.
    pub fn config(&self) -> (r: &AudioConfig)
        ensures
            r@ == self@.window,
    {
        &self.config
    }

    /// How long the clip is known to last.
    pub fn clip(&self) -> (r: TimeSpan)
        ensures
            r@ == self@.clip,
    {
        self.clip
    }

    /// The wait that the instance is in, if it is in one.
    pub fn pending(&self) -> (r: Option<TimerToken>)
        ensures
            r == self@.pending,
    {
        self.pending
    }
}

/// The live instances of the cooperative scheduler.
#[derive(Debug)]
pub struct InstanceRegistry {
    range: WaitRange,
    instances: Vec<SchedulerInstance>,
    issued: u64,
}

/// The states of the instances, in their order.
pub closed spec fn states(instances: Seq<SchedulerInstance>) -> Seq<InstanceState> {
    instances.map_values(|i: SchedulerInstance| i@)
}

/// What closing each of the instances leads to, in their order.
pub open spec fn teardowns(instances: Seq<InstanceState>) -> Seq<Teardown> {
    instances.map_values(|i: InstanceState| Teardown { id: i.id, cancel: i.pending })
}

impl View for InstanceRegistry {
    type V = RegistryState;

    closed spec fn view(&self) -> RegistryState {
        RegistryState {
            range: self.range@,
            instances: states(self.instances@),
            issued: self.issued as nat,
        }
    }
}

impl InstanceRegistry {
    /// Every registry is well-formed, as [`RegistryState::wf`] says.
    #[verifier::type_invariant]
    pub closed spec fn wf(self) -> bool {
        self@.wf()
    }

    /// A registry with no instance, whose waits are drawn from `range`.
    pub fn new(range: WaitRange) -> (r: InstanceRegistry)
        ensures
            r@ == RegistryState::empty(range@),
    {
        proof {
            use_type_invariant(range);
        }
        let r = InstanceRegistry { range, instances: Vec::new(), issued: 0 };
        assert(r@.instances =~= Seq::empty());
        r
    }

    /// How many instances are live.
    pub fn len(&self) -> (r: usize)
        ensures
            r == self@.instances.len(),
    {
        self.instances.len()
    }

    /// How many ids and tokens are left to hand out. An activation takes
    /// two of them, a new wait one.
    pub fn spare(&self) -> (r: u64)
        ensures
            r == self@.spare(),
    {
        u64::MAX - self.issued
    }

    /// Whether a clip of this length fits: whether its length and any wait
    /// from the range still add up to a span.
    pub fn fits(&self, clip: TimeSpan) -> (r: bool)
        ensures
            r == self@.fits(clip@),
    {
        proof {
            use_type_invariant(self);
        }
        clip.as_nanos() <= MAX_NANOS - self.range.max().as_nanos()
    }

    /// Where the instance of this id stands, if it is live.
    fn find(&self, id: InstanceId) -> (r: Option<usize>)
        ensures
            r is Some <==> self@.live(id),
            r matches Some(i) ==> i == self@.slot(id) && i < self.instances.len()
                && self.instances[i as int]@ == self@.instance(id),
    {
        proof {
            use_type_invariant(self);
        }
        let mut i: usize = 0;
        while i < self.instances.len()
            invariant
                i <= self.instances.len(),
                self@.wf(),
                forall|j: int| 0 <= j < i ==> (#[trigger] self@.instances[j]).id != id,
            decreases self.instances.len() - i,
        {
            assert(self@.instances[i as int] == self.instances[i as int]@);
            if self.instances[i].id.serial == id.serial {
                proof {
                    assert(self@.instances[i as int].id == id);
                    self@.lemma_slot(id);
                }
                return Some(i);
            }
            i = i + 1;
        }
        None
    }

    /// Whether an instance of this id is live.
    pub fn is_live(&self, id: InstanceId) -> (r: bool)
        ensures
            r == self@.live(id),
    {
        self.find(id).is_some()
    }

    /// The instance of this id, if it is live.
    pub fn get(&self, id: InstanceId) -> (r: Option<&SchedulerInstance>)
        ensures
            r is Some <==> self@.live(id),
            r matches Some(instance) ==> instance@ == self@.instance(id),
    {
        match self.find(id) {
            Some(i) => Some(&self.instances[i]),
            None => None,
        }
    }

    /// The range that the waits are drawn from.
    pub fn range(&self) -> (r: WaitRange)
        ensures
            r@ == self@.range,
    {
        self.range
    }

    /// The wait that instance `id` is in, if it is live and in one.
    pub fn pending(&self, id: InstanceId) -> (r: Option<TimerToken>)
        ensures
            r == if self@.live(id) {
                self@.instance(id).pending
            } else {
                None
            },
    {
        match self.find(id) {
            Some(i) => self.instances[i].pending,
            None => None,
        }
    }

    /// Activates a clip, `wait` being the wait drawn for it: the clip gets
    /// the next id, and its first timer runs for the wait and then the
    /// length of the clip, so that it does not sound at once.
    pub fn activate_with(&mut self, config: AudioConfig, clip: TimeSpan, wait: TimeSpan) -> (r:
        Activation)
        requires
            old(self)@.spare() >= 2,
            old(self)@.fits(clip@),
            old(self)@.range.contains(wait@),
        ensures
            final(self)@ == old(self)@.activated(config@, clip@),
            r.id.serial == old(self)@.issued,
            r.arm.token.serial == old(self)@.issued + 1,
            r.arm.delay@ == wait@ + clip@,
    {
        proof {
            use_type_invariant(&*self);
            old(self)@.lemma_after_wf(
                crate::instance::Event::Activate { window: config@, clip: clip@ },
            );
        }
        let id = InstanceId { serial: self.issued };
        let token = TimerToken { serial: self.issued + 1 };
        let delay = wait.checked_add(clip).unwrap();
        let instance = SchedulerInstance { id, config, clip, pending: Some(token) };
        let mut instances: Vec<SchedulerInstance> = Vec::new();
        assert(states(instances@) =~= Seq::empty());
        core::mem::swap(&mut self.instances, &mut instances);
        assert(states(instances@.push(instance)) =~= states(instances@).push(instance@));
        instances.push(instance);
        self.issued = self.issued + 2;
        self.instances = instances;
        Activation { id, arm: Arm { token, delay } }
    }

    /// Activates a clip after a wait drawn from the range. The registry
    /// changes as in [`InstanceRegistry::activate_with`]; the first timer
    /// runs for some wait from the range and then the length of the clip.
    pub fn activate(&mut self, config: AudioConfig, clip: TimeSpan) -> (r: Activation)
        requires
            old(self)@.spare() >= 2,
            old(self)@.fits(clip@),
        ensures
            final(self)@ == old(self)@.activated(config@, clip@),
            r.id.serial == old(self)@.issued,
            r.arm.token.serial == old(self)@.issued + 1,
            old(self)@.range.contains((r.arm.delay@ - clip@) as nat),
            r.arm.delay@ >= clip@,
    {
        let wait = self.range.next_wait();
        self.activate_with(config, clip, wait)
    }

    /// Cancels the wait that instance `id` is in and gives its token, so
    /// that the timer can be cancelled too. The instance stays live.
    pub fn cancel(&mut self, id: InstanceId) -> (r: Option<TimerToken>)
        ensures
            final(self)@ == old(self)@.cancelled(id),
            r == if old(self)@.live(id) {
                old(self)@.instance(id).pending
            } else {
                None
            },
    {
        proof {
            use_type_invariant(&*self);
            old(self)@.lemma_after_wf(crate::instance::Event::Cancel { id });
        }
        match self.find(id) {
            Some(i) => {
                let mut instances: Vec<SchedulerInstance> = Vec::new();
                assert(states(instances@) =~= Seq::empty());
                core::mem::swap(&mut self.instances, &mut instances);
                let ghost before = instances@;
                let instance = instances.remove(i);
                let pending = instance.pending;
                let instance = SchedulerInstance {
                    id: instance.id,
                    config: instance.config,
                    clip: instance.clip,
                    pending: None,
                };
                instances.insert(i, instance);
                assert(states(instances@) =~= states(before).update(i as int, instance@));
                self.instances = instances;
                pending
            },
            None => None,
        }
    }

    /// Gives instance `id` a new window and clip length, `wait` being the
    /// wait drawn for it. The wait it was in, if any, is cancelled first and
    /// replaced by a new one, so that the instance is never in two. `None`
    /// where no such instance is live.
    pub fn reconfigure_with(
        &mut self,
        id: InstanceId,
        config: AudioConfig,
        clip: TimeSpan,
        wait: TimeSpan,
    ) -> (r: Option<Rearm>)
        requires
            old(self)@.spare() >= 1,
            old(self)@.fits(clip@),
            old(self)@.range.contains(wait@),
        ensures
            final(self)@ == old(self)@.reconfigured(id, config@, clip@),
            r is Some <==> old(self)@.live(id),
            r matches Some(rearm) ==> {
                &&& rearm.cancel == old(self)@.instance(id).pending
                &&& rearm.arm.token.serial == old(self)@.issued
                &&& rearm.arm.delay@ == wait@ + clip@
            },
    {
        proof {
            use_type_invariant(&*self);
            old(self)@.lemma_after_wf(
                crate::instance::Event::Reconfigure { id, window: config@, clip: clip@ },
            );
        }
        match self.find(id) {
            Some(i) => {
                let token = TimerToken { serial: self.issued };
                let delay = wait.checked_add(clip).unwrap();
                let mut instances: Vec<SchedulerInstance> = Vec::new();
                assert(states(instances@) =~= Seq::empty());
                core::mem::swap(&mut self.instances, &mut instances);
                let ghost before = instances@;
                let cancel = instances.remove(i).pending;
                let instance = SchedulerInstance { id, config, clip, pending: Some(token) };
                instances.insert(i, instance);
                assert(states(instances@) =~= states(before).update(i as int, instance@));
                self.issued = self.issued + 1;
                self.instances = instances;
                Some(Rearm { cancel, arm: Arm { token, delay } })
            },
            None => None,
        }
    }

    /// Gives instance `id` a new window and clip length, after a wait drawn
    /// from the range. The registry changes as in
    /// [`InstanceRegistry::reconfigure_with`]; the new timer runs for some
    /// wait from the range and then the length of the clip.
    pub fn reconfigure(&mut self, id: InstanceId, config: AudioConfig, clip: TimeSpan) -> (r:
        Option<Rearm>)
        requires
            old(self)@.spare() >= 1,
            old(self)@.fits(clip@),
        ensures
            final(self)@ == old(self)@.reconfigured(id, config@, clip@),
            r is Some <==> old(self)@.live(id),
            r matches Some(rearm) ==> {
                &&& rearm.cancel == old(self)@.instance(id).pending
                &&& rearm.arm.token.serial == old(self)@.issued
                &&& rearm.arm.delay@ >= clip@
                &&& old(self)@.range.contains((rearm.arm.delay@ - clip@) as nat)
            },
    {
        let wait = self.range.next_wait();
        self.reconfigure_with(id, config, clip, wait)
    }

    /// Takes note that the wait named by `token` has run out on instance
    /// `id`, `wait` being the wait drawn for what follows. Where that is the
    /// wait the instance is in, the clip is to be played and the next timer
    /// runs for `wait` and then the length of the clip. A wait that was
    /// cancelled or replaced, or one of an instance that is gone, is stale
    /// and changes nothing.
    pub fn expire_with(&mut self, id: InstanceId, token: TimerToken, wait: TimeSpan) -> (r: Expiry)
        requires
            old(self)@.spare() >= 1,
            old(self)@.range.contains(wait@),
        ensures
            final(self)@ == old(self)@.expired(id, token),
            match r {
                Expiry::Stale => !old(self)@.awaits(id, token),
                Expiry::Play(arm) => {
                    &&& old(self)@.awaits(id, token)
                    &&& arm.token.serial == old(self)@.issued
                    &&& arm.delay@ == wait@ + old(self)@.instance(id).clip
                },
            },
    {
        proof {
            use_type_invariant(&*self);
            old(self)@.lemma_after_wf(crate::instance::Event::Expire { id, token });
        }
        match self.find(id) {
            Some(i) => {
                match self.instances[i].pending {
                    Some(pending) => {
                        if pending.serial != token.serial {
                            return Expiry::Stale;
                        }
                    },
                    None => {
                        return Expiry::Stale;
                    },
                }
                let next = TimerToken { serial: self.issued };
                let mut instances: Vec<SchedulerInstance> = Vec::new();
                assert(states(instances@) =~= Seq::empty());
                core::mem::swap(&mut self.instances, &mut instances);
                let ghost before = instances@;
                let instance = instances.remove(i);
                proof {
                    use_type_invariant(&instance.clip);
                    assert(states(before)[i as int] == before[i as int]@);
                }
                let delay = wait.checked_add(instance.clip).unwrap();
                let instance = SchedulerInstance {
                    id: instance.id,
                    config: instance.config,
                    clip: instance.clip,
                    pending: Some(next),
                };
                instances.insert(i, instance);
                assert(states(instances@) =~= states(before).update(i as int, instance@));
                self.issued = self.issued + 1;
                self.instances = instances;
                Expiry::Play(Arm { token: next, delay })
            },
            None => Expiry::Stale,
        }
    }

    /// Takes note that the wait named by `token` has run out on instance
    /// `id`. The registry changes as in [`InstanceRegistry::expire_with`];
    /// where the clip is to be played, the next timer runs for some wait
    /// from the range and then the length of the clip. No wait is drawn for
    /// a stale token.
    pub fn expire(&mut self, id: InstanceId, token: TimerToken) -> (r: Expiry)
        requires
            old(self)@.spare() >= 1,
        ensures
            final(self)@ == old(self)@.expired(id, token),
            match r {
                Expiry::Stale => !old(self)@.awaits(id, token),
                Expiry::Play(arm) => {
                    &&& old(self)@.awaits(id, token)
                    &&& arm.token.serial == old(self)@.issued
                    &&& arm.delay@ >= old(self)@.instance(id).clip
                    &&& old(self)@.range.contains(
                        (arm.delay@ - old(self)@.instance(id).clip) as nat,
                    )
                },
            },
    {
        match self.pending(id) {
            Some(pending) => {
                if pending.serial == token.serial {
                    let wait = self.range.next_wait();
                    self.expire_with(id, token, wait)
                } else {
                    Expiry::Stale
                }
            },
            None => Expiry::Stale,
        }
    }

    /// Closes instance `id`: it is live no longer. Gives the timer to
    /// cancel, if the instance was in a wait, and the id whose output is to
    /// be released. `None` where no such instance is live.
    pub fn deactivate(&mut self, id: InstanceId) -> (r: Option<Teardown>)
        ensures
            final(self)@ == old(self)@.deactivated(id),
            r == if old(self)@.live(id) {
                Some(Teardown { id, cancel: old(self)@.instance(id).pending })
            } else {
                None
            },
    {
        proof {
            use_type_invariant(&*self);
            old(self)@.lemma_after_wf(crate::instance::Event::Deactivate { id });
        }
        match self.find(id) {
            Some(i) => {
                let mut instances: Vec<SchedulerInstance> = Vec::new();
                assert(states(instances@) =~= Seq::empty());
                core::mem::swap(&mut self.instances, &mut instances);
                let ghost before = instances@;
                let instance = instances.remove(i);
                assert(states(instances@) =~= states(before).remove(i as int));
                self.instances = instances;
                Some(Teardown { id, cancel: instance.pending })
            },
            None => None,
        }
    }

    /// Closes every instance. Gives, for each in turn, oldest first, the
    /// timer to cancel and the id whose output is to be released.
    pub fn deactivate_all(&mut self) -> (r: Vec<Teardown>)
        ensures
            final(self)@ == old(self)@.cleared(),
            r@ == teardowns(old(self)@.instances),
    {
        proof {
            use_type_invariant(&*self);
        }
        let mut instances: Vec<SchedulerInstance> = Vec::new();
        assert(states(instances@) =~= Seq::empty());
        core::mem::swap(&mut self.instances, &mut instances);
        let mut closed: Vec<Teardown> = Vec::new();
        let mut i: usize = 0;
        while i < instances.len()
            invariant
                i <= instances.len(),
                closed@ == teardowns(states(instances@).subrange(0, i as int)),
            decreases instances.len() - i,
        {
            let ghost done = states(instances@).subrange(0, i as int);
            let ghost more = states(instances@).subrange(0, i + 1);
            closed.push(Teardown { id: instances[i].id, cancel: instances[i].pending });
            assert(more =~= done.push(instances[i as int]@));
            assert(teardowns(more) =~= teardowns(done).push(
                Teardown { id: instances[i as int]@.id, cancel: instances[i as int]@.pending },
            ));
            i = i + 1;
        }
        assert(states(instances@).subrange(0, i as int) =~= states(instances@));
        closed
    }
}

} // verus!
