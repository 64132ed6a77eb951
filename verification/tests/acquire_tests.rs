use hymo_minimal::{
    AcquireSchedule, AttemptPlan, CapabilityCache, HymoFS, Mechanism,
};

/// A mock of the two acquisition mechanisms: the process-control call
/// always fails, the disguised call succeeds on the fifth total attempt.
struct MockMechanisms {
    total_attempts: u32,
}

impl MockMechanisms {
    fn attempt(&mut self, mechanism: Mechanism) -> i32 {
        self.total_attempts += 1;
        match mechanism {
            Mechanism::ProcessControl => -1,
            Mechanism::MagicSyscall => {
                if self.total_attempts == 5 {
                    7
                } else {
                    -1
                }
            }
        }
    }
}

#[test]
fn schedule_shape() {
    let mut schedule = AcquireSchedule::new();
    let mut plans: Vec<AttemptPlan> = Vec::new();
    while let Some(plan) = schedule.next_attempt() {
        plans.push(plan);
    }
    assert_eq!(plans.len(), 12);
    for round in 0..4 {
        let first = plans[3 * round];
        assert_eq!(first.mechanism, Mechanism::ProcessControl);
        assert_eq!(first.sleep_before_ms, if round == 0 { 0 } else { 1000 });
        let second = plans[3 * round + 1];
        assert_eq!(second.mechanism, Mechanism::MagicSyscall);
        assert_eq!(second.sleep_before_ms, 0);
        let third = plans[3 * round + 2];
        assert_eq!(third.mechanism, Mechanism::MagicSyscall);
        assert_eq!(third.sleep_before_ms, 80);
    }
    // Spent schedules stay spent.
    assert!(schedule.exhausted());
    assert!(schedule.next_attempt().is_none());
}

#[test]
fn acquisition_succeeds_on_fifth_attempt_and_is_cached() {
    let mut mock = MockMechanisms { total_attempts: 0 };
    let mut cache = CapabilityCache::new();
    let mut schedule = AcquireSchedule::new();

    assert!(cache.needs_acquisition());
    while cache.needs_acquisition() {
        match schedule.next_attempt() {
            Some(plan) => {
                let fd = mock.attempt(plan.mechanism);
                if hymo_minimal::is_valid_descriptor(fd) {
                    cache.install_handle(fd);
                }
            }
            None => cache.mark_unavailable(),
        }
    }

    assert_eq!(mock.total_attempts, 5);
    assert_eq!(cache.handle(), Some(7));

    // A second lookup consults the cache and re-invokes neither mechanism.
    assert!(!cache.needs_acquisition());
    assert_eq!(cache.handle(), Some(7));
    assert_eq!(mock.total_attempts, 5);
}

#[test]
fn exhausted_schedule_resolves_to_unavailable() {
    let mut cache = CapabilityCache::new();
    let mut schedule = AcquireSchedule::new();
    let mut attempts = 0u32;
    while cache.needs_acquisition() {
        match schedule.next_attempt() {
            Some(plan) => {
                // Both mechanisms fail on every attempt.
                let _ = plan;
                attempts += 1;
            }
            None => cache.mark_unavailable(),
        }
    }
    assert_eq!(attempts, 12);
    assert_eq!(cache.handle(), None);
    // The failure verdict is as sticky as a success would be.
    assert!(!cache.needs_acquisition());
}

#[test]
fn client_resolution_is_sticky() {
    let mut client = HymoFS::new();
    assert!(client.needs_acquisition());
    client.install_handle(3);
    assert!(!client.needs_acquisition());
    assert!(client.clear_rules().is_ok());

    let mut failed = HymoFS::new();
    failed.mark_unavailable();
    assert!(!failed.needs_acquisition());
    assert!(failed.clear_rules().is_err());
}
