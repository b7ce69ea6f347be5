use silence_with_sound::config::{Args, AudioConfig};
use silence_with_sound::gain::Gain;
use silence_with_sound::instance::{InstanceId, TimerToken};
use silence_with_sound::registry::{Activation, Arm, Expiry, InstanceRegistry, Rearm, Teardown};
use silence_with_sound::sampler::WaitRange;
use silence_with_sound::time::TimeSpan;

fn config(file: &str, volume: f32) -> AudioConfig {
    AudioConfig::try_from(Args {
        audio_file: String::from(file),
        volume: Some(Gain::from_bits(volume.to_bits())),
        audio_start: None,
        audio_end: None,
        audio_duration: None,
    })
    .unwrap()
}

fn secs(s: u64) -> TimeSpan {
    TimeSpan::from_secs(s)
}

fn id(serial: u64) -> InstanceId {
    InstanceId { serial }
}

fn token(serial: u64) -> TimerToken {
    TimerToken { serial }
}

#[test]
fn a_new_registry_is_empty() {
    let registry = InstanceRegistry::new(WaitRange::brief());
    assert_eq!(registry.len(), 0);
    assert_eq!(registry.spare(), u64::MAX);
    assert_eq!(registry.range(), WaitRange::brief());
    assert!(!registry.is_live(id(0)));
    assert!(registry.get(id(0)).is_none());
    assert_eq!(registry.pending(id(0)), None);
}

#[test]
fn activation_arms_for_the_wait_and_the_clip() {
    let mut registry = InstanceRegistry::new(WaitRange::brief());
    let a = registry.activate_with(config("a.ogg", 1.0), secs(3), secs(2));
    assert_eq!(a, Activation { id: id(0), arm: Arm { token: token(1), delay: secs(5) } });
    assert_eq!(registry.spare(), u64::MAX - 2);
    assert_eq!(registry.len(), 1);
    assert!(registry.is_live(id(0)));
    assert_eq!(registry.pending(id(0)), Some(token(1)));
    let instance = registry.get(id(0)).unwrap();
    assert_eq!(instance.id(), id(0));
    assert_eq!(instance.clip(), secs(3));
    assert_eq!(instance.pending(), Some(token(1)));
    assert_eq!(instance.config().file_name(), "a.ogg");
}

#[test]
fn activation_draws_a_wait_from_the_range() {
    let range = WaitRange::new(secs(1), secs(4)).unwrap();
    let mut registry = InstanceRegistry::new(range);
    for n in 0..200u64 {
        let a = registry.activate(config("a.ogg", 1.0), secs(10));
        assert_eq!(a.id, id(2 * n));
        assert_eq!(a.arm.token, token(2 * n + 1));
        let wait = a.arm.delay.checked_sub(secs(10)).unwrap();
        assert!(range.contains(wait));
    }
    assert_eq!(registry.len(), 200);
}

#[test]
fn a_wait_that_runs_out_plays_and_rearms() {
    let mut registry = InstanceRegistry::new(WaitRange::brief());
    let a = registry.activate_with(config("a.ogg", 1.0), secs(3), secs(2));
    let e = registry.expire_with(a.id, a.arm.token, secs(4));
    assert_eq!(e, Expiry::Play(Arm { token: token(2), delay: secs(7) }));
    assert_eq!(registry.pending(a.id), Some(token(2)));
    let e = registry.expire_with(a.id, token(2), secs(0));
    assert_eq!(e, Expiry::Play(Arm { token: token(3), delay: secs(3) }));
    assert_eq!(registry.pending(a.id), Some(token(3)));
}

#[test]
fn a_wait_that_runs_out_draws_the_next_from_the_range() {
    let range = WaitRange::new(secs(1), secs(4)).unwrap();
    let mut registry = InstanceRegistry::new(range);
    let a = registry.activate(config("a.ogg", 1.0), secs(10));
    let mut current = a.arm.token;
    for _ in 0..200 {
        match registry.expire(a.id, current) {
            Expiry::Play(arm) => {
                assert!(range.contains(arm.delay.checked_sub(secs(10)).unwrap()));
                assert_ne!(arm.token, current);
                current = arm.token;
            }
            Expiry::Stale => panic!("the pending wait must play"),
        }
    }
}

#[test]
fn a_wait_that_was_replaced_is_stale() {
    let mut registry = InstanceRegistry::new(WaitRange::brief());
    let a = registry.activate_with(config("a.ogg", 1.0), secs(3), secs(2));
    let first = a.arm.token;
    assert!(matches!(registry.expire_with(a.id, first, secs(1)), Expiry::Play(_)));
    assert_eq!(registry.expire_with(a.id, first, secs(1)), Expiry::Stale);
    assert_eq!(registry.expire(a.id, first), Expiry::Stale);
    assert_eq!(registry.pending(a.id), Some(token(2)));
}

#[test]
fn a_cancelled_wait_never_plays() {
    let mut registry = InstanceRegistry::new(WaitRange::brief());
    let a = registry.activate_with(config("a.ogg", 1.0), secs(3), secs(2));
    assert_eq!(registry.cancel(a.id), Some(a.arm.token));
    assert_eq!(registry.pending(a.id), None);
    assert!(registry.is_live(a.id));
    assert_eq!(registry.expire_with(a.id, a.arm.token, secs(1)), Expiry::Stale);
    assert_eq!(registry.expire(a.id, a.arm.token), Expiry::Stale);
    assert_eq!(registry.pending(a.id), None);
    assert_eq!(registry.cancel(a.id), None);
}

#[test]
fn a_cancelled_wait_never_plays_whatever_happens_afterwards() {
    for cancel_after in 0..20u64 {
        let mut registry = InstanceRegistry::new(WaitRange::brief());
        let a = registry.activate_with(config("a.ogg", 1.0), secs(3), secs(2));
        let b = registry.activate_with(config("b.ogg", 1.0), secs(1), secs(0));
        let mut current = a.arm.token;
        for _ in 0..cancel_after {
            match registry.expire_with(a.id, current, secs(1)) {
                Expiry::Play(arm) => current = arm.token,
                Expiry::Stale => panic!("the pending wait must play"),
            }
        }
        let cancelled = registry.cancel(a.id).unwrap();
        assert_eq!(cancelled, current);
        assert_eq!(registry.expire_with(a.id, cancelled, secs(1)), Expiry::Stale);
        assert!(matches!(registry.expire_with(b.id, b.arm.token, secs(1)), Expiry::Play(_)));
        assert_eq!(registry.expire_with(a.id, cancelled, secs(1)), Expiry::Stale);
        let rearm = registry.reconfigure_with(a.id, config("a.ogg", 0.5), secs(3), secs(2)).unwrap();
        assert_eq!(rearm.cancel, None);
        assert_ne!(rearm.arm.token, cancelled);
        assert_eq!(registry.expire_with(a.id, cancelled, secs(1)), Expiry::Stale);
        assert_eq!(registry.expire_with(b.id, cancelled, secs(1)), Expiry::Stale);
        assert_eq!(registry.pending(a.id), Some(rearm.arm.token));
        registry.deactivate(a.id);
        assert_eq!(registry.expire_with(a.id, cancelled, secs(1)), Expiry::Stale);
        assert_eq!(registry.expire_with(a.id, rearm.arm.token, secs(1)), Expiry::Stale);
    }
}

#[test]
fn reconfiguring_replaces_the_pending_wait() {
    let mut registry = InstanceRegistry::new(WaitRange::brief());
    let a = registry.activate_with(config("a.ogg", 1.0), secs(3), secs(2));
    let r = registry.reconfigure_with(a.id, config("a.ogg", 0.25), secs(8), secs(1));
    assert_eq!(
        r,
        Some(Rearm { cancel: Some(token(1)), arm: Arm { token: token(2), delay: secs(9) } })
    );
    assert_eq!(registry.len(), 1);
    let instance = registry.get(a.id).unwrap();
    assert_eq!(instance.clip(), secs(8));
    assert_eq!(instance.pending(), Some(token(2)));
    assert_eq!(instance.config().volume(), Gain::from_bits(0.25f32.to_bits()));
    assert_eq!(registry.expire_with(a.id, token(1), secs(1)), Expiry::Stale);
    assert_eq!(
        registry.expire_with(a.id, token(2), secs(1)),
        Expiry::Play(Arm { token: token(3), delay: secs(9) })
    );
}

#[test]
fn reconfiguring_draws_a_wait_from_the_range() {
    let range = WaitRange::new(secs(1), secs(4)).unwrap();
    let mut registry = InstanceRegistry::new(range);
    let a = registry.activate(config("a.ogg", 1.0), secs(10));
    let mut pending = a.arm.token;
    for _ in 0..200 {
        let r = registry.reconfigure(a.id, config("a.ogg", 2.0), secs(6)).unwrap();
        assert_eq!(r.cancel, Some(pending));
        assert!(range.contains(r.arm.delay.checked_sub(secs(6)).unwrap()));
        pending = r.arm.token;
    }
    assert_eq!(registry.len(), 1);
}

#[test]
fn an_unknown_instance_changes_nothing() {
    let mut registry = InstanceRegistry::new(WaitRange::brief());
    let a = registry.activate_with(config("a.ogg", 1.0), secs(3), secs(2));
    let ghost = id(77);
    assert_eq!(registry.reconfigure_with(ghost, config("x.ogg", 1.0), secs(1), secs(1)), None);
    assert_eq!(registry.reconfigure(ghost, config("x.ogg", 1.0), secs(1)), None);
    assert_eq!(registry.cancel(ghost), None);
    assert_eq!(registry.deactivate(ghost), None);
    assert_eq!(registry.expire_with(ghost, a.arm.token, secs(1)), Expiry::Stale);
    assert_eq!(registry.len(), 1);
    assert_eq!(registry.pending(a.id), Some(a.arm.token));
    let next = registry.activate_with(config("b.ogg", 1.0), secs(3), secs(2));
    assert_eq!(next.id, id(2));
    assert_eq!(next.arm.token, token(3));
}

#[test]
fn instances_are_independent() {
    let mut registry = InstanceRegistry::new(WaitRange::brief());
    let a = registry.activate_with(config("a.ogg", 1.0), secs(3), secs(2));
    let b = registry.activate_with(config("b.ogg", 1.0), secs(30), secs(4));
    assert_eq!(b, Activation { id: id(2), arm: Arm { token: token(3), delay: secs(34) } });
    assert_eq!(registry.expire_with(a.id, b.arm.token, secs(1)), Expiry::Stale);
    assert_eq!(registry.expire_with(b.id, a.arm.token, secs(1)), Expiry::Stale);
    assert_eq!(registry.cancel(a.id), Some(a.arm.token));
    assert_eq!(registry.pending(b.id), Some(b.arm.token));
    assert_eq!(
        registry.expire_with(b.id, b.arm.token, secs(1)),
        Expiry::Play(Arm { token: token(4), delay: secs(31) })
    );
    assert_eq!(registry.pending(a.id), None);
}

#[test]
fn closing_an_instance_cancels_its_wait() {
    let mut registry = InstanceRegistry::new(WaitRange::brief());
    let a = registry.activate_with(config("a.ogg", 1.0), secs(3), secs(2));
    let b = registry.activate_with(config("b.ogg", 1.0), secs(3), secs(2));
    let c = registry.activate_with(config("c.ogg", 1.0), secs(3), secs(2));
    assert_eq!(registry.deactivate(b.id), Some(Teardown { id: b.id, cancel: Some(b.arm.token) }));
    assert_eq!(registry.len(), 2);
    assert!(registry.is_live(a.id));
    assert!(!registry.is_live(b.id));
    assert!(registry.is_live(c.id));
    assert_eq!(registry.expire_with(b.id, b.arm.token, secs(1)), Expiry::Stale);
    assert_eq!(registry.deactivate(b.id), None);
    assert_eq!(registry.pending(a.id), Some(a.arm.token));
    assert_eq!(registry.pending(c.id), Some(c.arm.token));
    registry.cancel(c.id);
    assert_eq!(registry.deactivate(c.id), Some(Teardown { id: c.id, cancel: None }));
    assert_eq!(registry.deactivate(a.id), Some(Teardown { id: a.id, cancel: Some(a.arm.token) }));
    assert_eq!(registry.len(), 0);
}

#[test]
fn closing_all_cancels_every_wait() {
    let mut registry = InstanceRegistry::new(WaitRange::brief());
    let a = registry.activate_with(config("a.ogg", 1.0), secs(3), secs(2));
    let b = registry.activate_with(config("b.ogg", 1.0), secs(3), secs(2));
    let c = registry.activate_with(config("c.ogg", 1.0), secs(3), secs(2));
    registry.cancel(b.id);
    let closed = registry.deactivate_all();
    assert_eq!(
        closed,
        vec![
            Teardown { id: a.id, cancel: Some(a.arm.token) },
            Teardown { id: b.id, cancel: None },
            Teardown { id: c.id, cancel: Some(c.arm.token) },
        ]
    );
    assert_eq!(registry.len(), 0);
    for x in [a, b, c] {
        assert!(!registry.is_live(x.id));
        assert_eq!(registry.expire_with(x.id, x.arm.token, secs(1)), Expiry::Stale);
    }
    assert_eq!(registry.deactivate_all(), vec![]);
    let d = registry.activate_with(config("d.ogg", 1.0), secs(3), secs(2));
    assert_eq!(d.id, id(6));
}

#[test]
fn a_clip_fits_up_to_the_longest_span() {
    let registry = InstanceRegistry::new(WaitRange::brief());
    assert!(registry.fits(secs(0)));
    assert!(registry.fits(secs(u64::MAX - 5)));
    assert!(registry.fits(TimeSpan::new(u64::MAX - 5, 999_999_999).unwrap()));
    assert!(!registry.fits(secs(u64::MAX - 4)));
    assert!(!registry.fits(TimeSpan::max()));
}

#[test]
fn the_longest_clip_that_fits_arms_without_overflow() {
    let mut registry = InstanceRegistry::new(WaitRange::brief());
    let clip = TimeSpan::new(u64::MAX - 5, 999_999_999).unwrap();
    let wait = TimeSpan::new(4, 999_999_999).unwrap();
    let a = registry.activate_with(config("a.ogg", 1.0), clip, wait);
    assert_eq!(a.arm.delay, TimeSpan::new(u64::MAX, 999_999_998).unwrap());
}

#[test]
fn ids_and_tokens_key_a_map() {
    let mut registry = InstanceRegistry::new(WaitRange::brief());
    let a = registry.activate_with(config("a.ogg", 1.0), secs(3), secs(2));
    let b = registry.activate_with(config("b.ogg", 1.0), secs(3), secs(2));
    let mut outputs = std::collections::HashMap::new();
    outputs.insert(a.id, "a");
    outputs.insert(b.id, "b");
    let mut timers = std::collections::HashMap::new();
    timers.insert(a.arm.token, 1);
    timers.insert(b.arm.token, 2);
    for teardown in registry.deactivate_all() {
        assert!(outputs.remove(&teardown.id).is_some());
        assert!(teardown.cancel.and_then(|t| timers.remove(&t)).is_some());
    }
    assert!(outputs.is_empty());
    assert!(timers.is_empty());
}
