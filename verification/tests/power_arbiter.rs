use badge_core::power::{Arbiter, Client};

#[test]
fn free_rail_is_taken() {
    let mut arbiter = Arbiter::new();
    assert!(arbiter.is_free());
    let guard = arbiter.try_acquire(Client::Display).unwrap();
    assert_eq!(guard.held_by(), Client::Display);
    assert_eq!(arbiter.holder, Some(Client::Display));
    assert!(!arbiter.is_free());
}

#[test]
fn held_rail_gives_no_second_guard() {
    let mut arbiter = Arbiter::new();
    let guard = arbiter.try_acquire(Client::Display).unwrap();
    assert!(arbiter.try_acquire(Client::Sync).is_none());
    assert!(arbiter.try_acquire(Client::Clock).is_none());
    assert_eq!(arbiter.holder, Some(Client::Display));
    arbiter.release(guard);
    assert!(arbiter.is_free());
    let guard = arbiter.try_acquire(Client::Sync).unwrap();
    assert_eq!(guard.held_by(), Client::Sync);
    assert!(arbiter.try_acquire(Client::Display).is_none());
}

#[test]
fn holder_cannot_take_the_rail_again() {
    let mut arbiter = Arbiter::new();
    let guard = arbiter.try_acquire(Client::Sync).unwrap();
    assert!(arbiter.try_acquire(Client::Sync).is_none());
    assert_eq!(arbiter.holder, Some(Client::Sync));
    arbiter.release(guard);
    assert!(arbiter.is_free());
}

#[test]
fn guard_of_one_rail_does_not_free_another() {
    let mut first = Arbiter::new();
    let mut second = Arbiter::new();
    let of_first = first.try_acquire(Client::Display).unwrap();
    let of_second = second.try_acquire(Client::Sync).unwrap();
    first.release(of_second);
    assert_eq!(first.holder, Some(Client::Display));
    first.release(of_first);
    assert!(first.is_free());
}

#[test]
fn never_two_guards_under_interleaved_attempts() {
    let clients = [Client::Display, Client::Sync, Client::Clock];
    let mut arbiter = Arbiter::new();
    let mut guards: Vec<badge_core::power::PowerGuard> = Vec::new();
    let mut seed: u32 = 12345;
    for _ in 0..2000 {
        seed = seed.wrapping_mul(1664525).wrapping_add(1013904223);
        let who = clients[(seed >> 16) as usize % 3];
        if (seed >> 8) % 3 == 0 {
            if let Some(guard) = guards.pop() {
                arbiter.release(guard);
            }
        } else if let Some(guard) = arbiter.try_acquire(who) {
            guards.push(guard);
        }
        assert!(guards.len() <= 1);
        assert_eq!(arbiter.holder, guards.first().map(|guard| guard.held_by()));
    }
}
