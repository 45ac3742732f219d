use settings_subscriptions::command::{drain_and_execute, Command, NativeAction};
use settings_subscriptions::identity::IdentityTable;
use settings_subscriptions::listener::{ListenerHandle, ListenerSet, Session};
use settings_subscriptions::mainloop::{step, SessionEffect, SessionEvent, SessionPhase};
use settings_subscriptions::outbound::{DeliveryPolicy, OutboundBuffer, SendOutcome};

#[test]
fn live_count_tracks_adds_and_removes() {
    let mut table: IdentityTable<&'static str> = IdentityTable::new();
    assert_eq!(table.len(), 0);
    assert_eq!(table.upsert(1, 101, "alpha"), None);
    assert_eq!(table.upsert(2, 102, "beta"), None);
    assert_eq!(table.len(), 2);
    // an update in place neither grows nor shrinks the table
    assert_eq!(table.upsert(1, 101, "alpha prime"), Some(101));
    assert_eq!(table.len(), 2);
    // removing an unknown native id is a no-op, never an error
    assert_eq!(table.remove(99), None);
    assert_eq!(table.len(), 2);
    assert_eq!(table.remove(1), Some(101));
    assert_eq!(table.len(), 1);
    // a second removal of the same id no longer matches anything
    assert_eq!(table.remove(1), None);
    assert_eq!(table.len(), 1);
    assert_eq!(table.remove(2), Some(102));
    assert_eq!(table.len(), 0);
}

#[test]
fn lookup_by_native_and_domain_id() {
    let mut table: IdentityTable<u32> = IdentityTable::new();
    table.upsert(7, 700, 1);
    table.upsert(8, 800, 2);
    assert_eq!(table.get(7).unwrap().domain_id, 700);
    assert_eq!(table.get(7).unwrap().record, 1);
    assert!(table.get(9).is_none());
    let by_domain = table.find_by_domain(800).unwrap();
    assert_eq!(by_domain.native_id, 8);
    assert!(table.find_by_domain(900).is_none());
}

#[test]
fn clear_resets_the_table_wholesale() {
    let mut table: IdentityTable<u32> = IdentityTable::new();
    table.upsert(1, 10, 0);
    table.upsert(2, 20, 0);
    table.clear();
    assert_eq!(table.len(), 0);
    assert!(table.get(1).is_none());
}

#[test]
fn command_drain_is_exact() {
    let mut table: IdentityTable<()> = IdentityTable::new();
    table.upsert(5, 500, ());
    table.upsert(6, 600, ());
    let commands = vec![
        Command::SetControl { domain_id: 500, value: 40 },
        Command::SetControl { domain_id: 999, value: 1 },
        Command::Refresh,
        Command::SetControl { domain_id: 600, value: -3 },
    ];
    let n = commands.len();
    let outcome = drain_and_execute(commands, &table);
    // every command became exactly one action or one silent drop
    assert_eq!(outcome.actions.len() + outcome.dropped, n);
    assert_eq!(outcome.dropped, 1);
    assert_eq!(
        outcome.actions,
        vec![
            NativeAction::SetControl { native_id: 5, domain_id: 500, value: 40 },
            NativeAction::Rescan,
            NativeAction::SetControl { native_id: 6, domain_id: 600, value: -3 },
        ]
    );
}

#[test]
fn command_drain_of_empty_batch() {
    let table: IdentityTable<()> = IdentityTable::new();
    let outcome = drain_and_execute(Vec::new(), &table);
    assert_eq!(outcome.actions.len(), 0);
    assert_eq!(outcome.dropped, 0);
}

#[test]
fn stale_target_is_dropped_silently() {
    let mut table: IdentityTable<()> = IdentityTable::new();
    table.upsert(5, 500, ());
    table.remove(5);
    let outcome = drain_and_execute(
        vec![Command::SetControl { domain_id: 500, value: 1 }],
        &table,
    );
    assert_eq!(outcome.actions.len(), 0);
    assert_eq!(outcome.dropped, 1);
}

#[test]
fn backpressure_blocking_policy_is_deterministic() {
    let capacity = 3;
    let mut buffer: OutboundBuffer<u32> = OutboundBuffer::new(capacity, DeliveryPolicy::Block);
    for i in 0..capacity as u32 {
        assert_eq!(buffer.send(i), SendOutcome::Sent);
    }
    // the stalled consumer takes nothing; the (C + 1)-th offer blocks,
    // and keeps blocking on every retry
    assert_eq!(buffer.send(99), SendOutcome::WouldBlock);
    assert_eq!(buffer.send(99), SendOutcome::WouldBlock);
    assert_eq!(buffer.pending(), capacity);
}

#[test]
fn backpressure_dropping_policy_is_deterministic() {
    let capacity = 3;
    let mut buffer: OutboundBuffer<u32> =
        OutboundBuffer::new(capacity, DeliveryPolicy::DropNewest);
    for i in 0..capacity as u32 {
        assert_eq!(buffer.send(i), SendOutcome::Sent);
    }
    assert_eq!(buffer.send(99), SendOutcome::DroppedNewest);
    assert_eq!(buffer.pending(), capacity);
    // the buffered events survive, in order; the overflow event is gone
    assert_eq!(buffer.take_next(), Some(0));
    assert_eq!(buffer.take_next(), Some(1));
    assert_eq!(buffer.take_next(), Some(2));
    assert_eq!(buffer.take_next(), None);
}

#[test]
fn zero_capacity_buffer_never_accepts() {
    let mut buffer: OutboundBuffer<u32> = OutboundBuffer::new(0, DeliveryPolicy::Block);
    assert_eq!(buffer.send(1), SendOutcome::WouldBlock);
    let mut dropping: OutboundBuffer<u32> = OutboundBuffer::new(0, DeliveryPolicy::DropNewest);
    assert_eq!(dropping.send(1), SendOutcome::DroppedNewest);
    assert_eq!(dropping.take_next(), None);
}

#[test]
fn closed_buffer_reports_no_consumer() {
    let mut buffer: OutboundBuffer<u32> = OutboundBuffer::new(2, DeliveryPolicy::Block);
    assert_eq!(buffer.send(1), SendOutcome::Sent);
    buffer.close();
    assert_eq!(buffer.send(2), SendOutcome::Closed);
    assert_eq!(buffer.pending(), 1);
}

#[test]
fn session_state_machine_follows_the_table() {
    assert_eq!(
        step(SessionPhase::Disconnected, SessionEvent::RetryDelayElapsed),
        (SessionPhase::Connecting, SessionEffect::OpenNativeSession)
    );
    assert_eq!(
        step(SessionPhase::Connecting, SessionEvent::ConnectSucceeded),
        (SessionPhase::Enumerating, SessionEffect::PopulateTable)
    );
    assert_eq!(
        step(SessionPhase::Connecting, SessionEvent::ConnectFailed),
        (SessionPhase::Disconnected, SessionEffect::DiscardSessionState)
    );
    assert_eq!(
        step(SessionPhase::Enumerating, SessionEvent::EnumerationComplete),
        (SessionPhase::Subscribed, SessionEffect::SubscribeAndDrain)
    );
    assert_eq!(
        step(SessionPhase::Subscribed, SessionEvent::NativeFatalError),
        (SessionPhase::Disconnected, SessionEffect::DiscardSessionState)
    );
    assert_eq!(
        step(SessionPhase::Subscribed, SessionEvent::ConsumerClosed),
        (SessionPhase::Terminated, SessionEffect::ExitThread)
    );
}

#[test]
fn irrelevant_events_hold_and_terminated_absorbs() {
    assert_eq!(
        step(SessionPhase::Disconnected, SessionEvent::NativeFatalError),
        (SessionPhase::Disconnected, SessionEffect::Hold)
    );
    assert_eq!(
        step(SessionPhase::Connecting, SessionEvent::EnumerationComplete),
        (SessionPhase::Connecting, SessionEffect::Hold)
    );
    assert_eq!(
        step(SessionPhase::Enumerating, SessionEvent::ConnectSucceeded),
        (SessionPhase::Enumerating, SessionEffect::Hold)
    );
    assert_eq!(
        step(SessionPhase::Terminated, SessionEvent::RetryDelayElapsed),
        (SessionPhase::Terminated, SessionEffect::Hold)
    );
    assert_eq!(
        step(SessionPhase::Terminated, SessionEvent::NativeFatalError),
        (SessionPhase::Terminated, SessionEffect::Hold)
    );
}

#[test]
fn at_most_one_listener_per_object() {
    let mut listeners = ListenerSet::new();
    let first = listeners.attach(4);
    assert_eq!(first, Some(ListenerHandle { native_id: 4 }));
    // a second attach for the same live id is ignored
    assert_eq!(listeners.attach(4), None);
    assert!(listeners.is_attached(4));
    assert!(listeners.detach(4));
    assert!(!listeners.is_attached(4));
    // detaching an unknown id is a no-op
    assert!(!listeners.detach(4));
}

#[test]
fn no_callback_fires_after_teardown() {
    let mut session: Session<u32> = Session::new();
    assert!(session.on_added(1, 100, 7));
    assert!(session.on_added(2, 200, 8));
    // a re-announcement is not a fresh addition
    assert!(!session.on_added(1, 100, 9));
    let handles = [ListenerHandle { native_id: 1 }, ListenerHandle { native_id: 2 }];
    assert_eq!(session.deliver(handles[0]).unwrap().record, 9);

    // a session-fatal error tears everything down: listeners first,
    // then the table
    session.teardown();
    let mut fired = 0;
    for handle in handles {
        if session.deliver(handle).is_some() {
            fired += 1;
        }
    }
    assert_eq!(fired, 0);
}

#[test]
fn removed_object_makes_late_callbacks_silent() {
    let mut session: Session<u32> = Session::new();
    session.on_added(1, 100, 7);
    let handle = ListenerHandle { native_id: 1 };
    assert!(session.deliver(handle).is_some());
    assert_eq!(session.on_removed(1), Some(100));
    // the callback raced the removal: a safe, silent no-op
    assert!(session.deliver(handle).is_none());
    assert_eq!(session.on_removed(1), None);
}
