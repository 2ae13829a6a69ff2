use cash_tracker::resilience::service_manager::{
    FailureReport, RestartPolicy, ServiceManager, ServiceSlot, SlotAction, SlotEvent, SlotPhase,
};
use cash_tracker::resilience::{Error, ERROR_CHANNEL_CAPACITY};

fn crash(text: &str) -> SlotEvent {
    SlotEvent::Finished(Err(Error::new(text)))
}

#[test]
fn the_error_channel_holds_a_hundred() {
    assert_eq!(ERROR_CHANNEL_CAPACITY, 100);
}

#[test]
fn errors_keep_their_description() {
    assert_eq!(Error::new("boom").message(), "boom");
    assert_eq!(Error::new("").message(), "");
    let parse = "x".parse::<i64>().unwrap_err();
    assert_eq!(Error::from(parse.clone()).message(), parse.to_string());
    assert_eq!(Error::new("same"), Error::new("same"));
}

#[test]
fn a_new_slot_constructs_first() {
    let slot = ServiceSlot::new("telegram", RestartPolicy::Forever);
    assert_eq!(slot.phase(), SlotPhase::Constructing);
    assert_eq!(slot.policy(), RestartPolicy::Forever);
    assert_eq!(slot.service(), "telegram");
    assert_eq!(slot.pending(), SlotAction::Construct);
    assert!(!slot.is_terminated());
}

#[test]
fn forever_slot_is_rebuilt_after_every_crash() {
    for crashes in [0u32, 1, 5, 100] {
        let mut manager = ServiceManager::new(());
        let slot = manager.spawn("telegram");
        let mut constructions = 0;
        let mut action = manager.pending(slot);
        for n in 0..crashes {
            assert_eq!(action, SlotAction::Construct);
            constructions += 1;
            assert_eq!(manager.advance(slot, SlotEvent::Constructed), SlotAction::Run);
            assert_eq!(manager.wait(), None);
            action = manager.advance(slot, crash(&format!("crash {}", n)));
            assert_eq!(manager.wait(), None);
        }
        assert_eq!(action, SlotAction::Construct);
        constructions += 1;
        assert_eq!(constructions, crashes + 1);
        assert_eq!(manager.wait(), None);
    }
}

#[test]
fn forever_slot_is_rebuilt_after_it_completes() {
    let mut slot = ServiceSlot::new("telegram", RestartPolicy::Forever);
    assert_eq!(slot.advance(SlotEvent::Constructed), SlotAction::Run);
    assert_eq!(slot.phase(), SlotPhase::Running);
    assert_eq!(slot.advance(SlotEvent::Finished(Ok(()))), SlotAction::Construct);
    assert_eq!(slot.phase(), SlotPhase::Constructing);
}

#[test]
fn first_crash_under_the_receiver_policy_is_reported_once() {
    let mut manager = ServiceManager::new(());
    let slot = manager.spawn_with_error_receiver("alerts");
    assert_eq!(manager.pending(slot), SlotAction::Construct);
    assert_eq!(manager.advance(slot, SlotEvent::Constructed), SlotAction::Run);
    assert_eq!(manager.wait(), None);
    let action = manager.advance(slot, crash("channel closed"));
    assert_eq!(
        action,
        SlotAction::Report(FailureReport {
            service: "alerts".to_string(),
            description: "channel closed".to_string(),
        })
    );
    assert_eq!(manager.wait(), Some(Err(Error::new("Internal Service Error"))));
    assert_eq!(manager.pending(slot), SlotAction::Stop);
    assert_eq!(manager.advance(slot, SlotEvent::Constructed), SlotAction::Stop);
    assert_eq!(manager.advance(slot, crash("again")), SlotAction::Stop);
    assert_eq!(manager.advance(slot, SlotEvent::Finished(Ok(()))), SlotAction::Stop);
    assert_eq!(manager.wait(), Some(Err(Error::new("Internal Service Error"))));
}

#[test]
fn receiver_policy_runs_again_after_success() {
    let mut slot = ServiceSlot::new("alerts", RestartPolicy::UntilFailure);
    for _ in 0..3 {
        assert_eq!(slot.advance(SlotEvent::Constructed), SlotAction::Run);
        assert_eq!(slot.advance(SlotEvent::Finished(Ok(()))), SlotAction::Construct);
    }
    assert_eq!(slot.advance(SlotEvent::Constructed), SlotAction::Run);
    assert!(matches!(slot.advance(crash("late")), SlotAction::Report(_)));
    assert_eq!(slot.phase(), SlotPhase::Terminated);
    assert!(slot.is_terminated());
    assert_eq!(slot.pending(), SlotAction::Stop);
}

#[test]
fn events_that_do_not_answer_the_phase_change_nothing() {
    let mut slot = ServiceSlot::new("telegram", RestartPolicy::Forever);
    assert_eq!(slot.advance(crash("early")), SlotAction::Construct);
    assert_eq!(slot.advance(SlotEvent::Finished(Ok(()))), SlotAction::Construct);
    assert_eq!(slot.phase(), SlotPhase::Constructing);
    assert_eq!(slot.advance(SlotEvent::Constructed), SlotAction::Run);
    assert_eq!(slot.advance(SlotEvent::Constructed), SlotAction::Run);
    assert_eq!(slot.phase(), SlotPhase::Running);
}

#[test]
fn wait_with_no_slot_is_over_without_failure() {
    let manager: ServiceManager<u8> = ServiceManager::new(3);
    assert_eq!(manager.len(), 0);
    assert_eq!(manager.wait(), Some(Ok(())));
    assert_eq!(*manager.context(), 3);
}

#[test]
fn slots_are_kept_apart() {
    let mut manager = ServiceManager::new("context".to_string());
    let alerts = manager.spawn_with_error_receiver("alerts");
    let telegram = manager.spawn("telegram");
    assert_eq!((alerts, telegram), (0, 1));
    assert_eq!(manager.len(), 2);
    assert_eq!(manager.context(), "context");
    assert_eq!(manager.advance(telegram, SlotEvent::Constructed), SlotAction::Run);
    assert_eq!(manager.pending(alerts), SlotAction::Construct);
    assert_eq!(manager.advance(telegram, crash("one")), SlotAction::Construct);
    assert_eq!(manager.wait(), None);
    assert_eq!(manager.advance(alerts, SlotEvent::Constructed), SlotAction::Run);
    assert!(matches!(manager.advance(alerts, crash("two")), SlotAction::Report(_)));
    assert_eq!(manager.pending(telegram), SlotAction::Construct);
    assert_eq!(manager.wait(), Some(Err(Error::new("Internal Service Error"))));
}

#[test]
fn a_slot_that_does_not_exist_has_nothing_to_do() {
    let mut manager = ServiceManager::new(());
    assert_eq!(manager.pending(0), SlotAction::Stop);
    assert_eq!(manager.advance(0, SlotEvent::Constructed), SlotAction::Stop);
    manager.spawn("telegram");
    assert_eq!(manager.advance(1, SlotEvent::Constructed), SlotAction::Stop);
    assert_eq!(manager.pending(0), SlotAction::Construct);
    assert_eq!(manager.len(), 1);
}
