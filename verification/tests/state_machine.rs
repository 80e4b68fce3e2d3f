use restate_core::actions::{
    Action, Completion, CompletionResult, InvokerEffect, InvokerEffectKind, JournalEntryKind,
    NbisEffect, NbisEffects, OutboxMessage, TimerValue,
};
use restate_core::commands::{
    AckCommand, AckKind, AckResponse, AckTarget, Command, DeduplicationSource,
};
use restate_core::identifiers::{FullInvocationId, InvocationUuid};
use restate_core::invocation::{
    GenerationalNodeId, InvocationResponse, InvocationTermination, MaybeFullInvocationId,
    ResponseResult, ServiceInvocation, Source, SpanRelation,
};
use restate_core::state_machine::{PartitionError, PartitionStateMachine};

fn node() -> GenerationalNodeId {
    GenerationalNodeId { id: 1, generation: 1 }
}

fn invocation(service: &str, key: &[u8], uuid_random: u128) -> ServiceInvocation {
    ServiceInvocation::new(
        FullInvocationId::new(
            service.to_string(),
            key.to_vec(),
            InvocationUuid::from_parts(1, uuid_random),
        ),
        "greet".to_string(),
        Vec::new(),
        Source::Ingress,
        None,
        SpanRelation::Unrelated,
    )
}

fn ingress_dedup(seq: u64) -> DeduplicationSource {
    DeduplicationSource::ingress(node(), "req-1".to_string(), seq)
}

#[test]
fn first_ingress_command_applies_then_duplicate_is_suppressed() {
    // scenario: two commands from source "req-1", seq 1 then seq 1 again
    let mut machine = PartitionStateMachine::new();
    let si = invocation("greeter", b"k", 7);

    let first = machine
        .on_ack_command(AckCommand::dedup(Command::Invocation(si.clone()), ingress_dedup(1)))
        .unwrap();
    assert_eq!(2, first.len());
    assert!(matches!(first[0], Action::Invoke { .. }));
    assert_eq!(
        Action::SendAckResponse(ingress_dedup(1).acknowledge()),
        first[1]
    );
    match &first[1] {
        Action::SendAckResponse(AckResponse::Ingress(ack)) => {
            assert_eq!(AckKind::Acknowledge(1), ack.kind);
            assert_eq!(Some("req-1".to_string()), ack.dedup_source);
        }
        other => panic!("unexpected acknowledgement: {:?}", other),
    }

    // the duplicate neither reapplies nor changes any state
    let snapshot = machine.clone();
    let second = machine
        .on_ack_command(AckCommand::dedup(Command::Invocation(si), ingress_dedup(1)))
        .unwrap();
    assert_eq!(snapshot, machine);
    assert_eq!(1, second.len());
    match &second[0] {
        Action::SendAckResponse(AckResponse::Ingress(ack)) => {
            assert_eq!(
                AckKind::Duplicate { seq_number: 1, last_known_seq_number: 1 },
                ack.kind
            );
        }
        other => panic!("unexpected response: {:?}", other),
    }
}

#[test]
fn next_in_sequence_applies_and_gap_is_refused() {
    let mut machine = PartitionStateMachine::new();
    machine
        .on_ack_command(AckCommand::dedup(
            Command::Invocation(invocation("greeter", b"a", 1)),
            ingress_dedup(1),
        ))
        .unwrap();
    // seq 2 is next: applied
    machine
        .on_ack_command(AckCommand::dedup(
            Command::Invocation(invocation("greeter", b"b", 2)),
            ingress_dedup(2),
        ))
        .unwrap();
    // seq 4 skips 3: refused, nothing applied
    let snapshot = machine.clone();
    let err = machine
        .on_ack_command(AckCommand::dedup(
            Command::Invocation(invocation("greeter", b"c", 3)),
            ingress_dedup(4),
        ))
        .unwrap_err();
    assert_eq!(
        PartitionError::SequenceGap { last_applied: 2, seq_number: 4 },
        err
    );
    assert_eq!(snapshot, machine);
}

#[test]
fn shuffle_and_ingress_sequences_are_tracked_separately() {
    let mut machine = PartitionStateMachine::new();
    let shuffle = DeduplicationSource::shuffle(9, 3, 1);
    let out = machine
        .on_ack_command(AckCommand::dedup(
            Command::Invocation(invocation("greeter", b"a", 1)),
            shuffle.clone(),
        ))
        .unwrap();
    match out.last().unwrap() {
        Action::SendAckResponse(AckResponse::Shuffle(resp)) => {
            assert_eq!(9, resp.shuffle_target);
            assert_eq!(AckKind::Acknowledge(1), resp.kind);
        }
        other => panic!("unexpected response: {:?}", other),
    }
    // the ingress source with seq 1 is still fresh
    let out = machine
        .on_ack_command(AckCommand::dedup(
            Command::Invocation(invocation("greeter", b"b", 2)),
            ingress_dedup(1),
        ))
        .unwrap();
    assert!(matches!(out[0], Action::Invoke { .. }));
}

#[test]
fn plain_ack_and_no_ack_modes() {
    let mut machine = PartitionStateMachine::new();
    let out = machine
        .on_ack_command(AckCommand::ack(
            Command::Invocation(invocation("greeter", b"a", 1)),
            AckTarget::ingress(node(), 5),
        ))
        .unwrap();
    assert_eq!(
        Action::SendAckResponse(AckTarget::ingress(node(), 5).acknowledge()),
        *out.last().unwrap()
    );

    let out = machine
        .on_ack_command(AckCommand::no_ack(Command::Invocation(invocation(
            "greeter", b"b", 2,
        ))))
        .unwrap();
    assert_eq!(1, out.len());
    assert!(matches!(out[0], Action::Invoke { .. }));
}

#[test]
fn busy_instance_queues_and_end_starts_next() {
    let mut machine = PartitionStateMachine::new();
    let first = invocation("greeter", b"k", 1);
    let second = invocation("greeter", b"k", 2);

    let out = machine
        .on_ack_command(AckCommand::no_ack(Command::Invocation(first.clone())))
        .unwrap();
    assert_eq!(1, out.len());

    // same instance is busy: the second invocation waits, no action
    let out = machine
        .on_ack_command(AckCommand::no_ack(Command::Invocation(second.clone())))
        .unwrap();
    assert!(out.is_empty());

    // a different key of the same service starts at once
    let other_key = invocation("greeter", b"other", 3);
    let out = machine
        .on_ack_command(AckCommand::no_ack(Command::Invocation(other_key)))
        .unwrap();
    assert_eq!(1, out.len());

    // when the first ends, the queued invocation takes over
    let out = machine
        .on_ack_command(AckCommand::no_ack(Command::Invoker(InvokerEffect {
            full_invocation_id: first.fid.clone(),
            kind: InvokerEffectKind::End,
        })))
        .unwrap();
    assert_eq!(
        vec![Action::Invoke { full_invocation_id: second.fid.clone() }],
        out
    );
}

#[test]
fn set_timer_then_fire_completes_and_deletes() {
    let mut machine = PartitionStateMachine::new();
    let si = invocation("alarms", b"k", 1);
    machine
        .on_ack_command(AckCommand::no_ack(Command::Invocation(si.clone())))
        .unwrap();

    let out = machine
        .on_ack_command(AckCommand::no_ack(Command::Invoker(InvokerEffect {
            full_invocation_id: si.fid.clone(),
            kind: InvokerEffectKind::JournalEntry {
                entry_index: 3,
                entry: JournalEntryKind::SetTimer { wake_up_time: 1000 },
            },
        })))
        .unwrap();
    assert_eq!(2, out.len());
    assert!(matches!(out[0], Action::RegisterTimer { .. }));
    assert!(matches!(out[1], Action::AckStoredEntry { entry_index: 3, .. }));

    // a stale fire (wrong wake-up time) is dropped
    let out = machine
        .on_ack_command(AckCommand::no_ack(Command::Timer(TimerValue {
            full_invocation_id: si.fid.clone(),
            entry_index: 3,
            wake_up_time: 999,
        })))
        .unwrap();
    assert!(out.is_empty());

    // the registered timer fires: its entry completes, the timer goes
    let out = machine
        .on_ack_command(AckCommand::no_ack(Command::Timer(TimerValue {
            full_invocation_id: si.fid.clone(),
            entry_index: 3,
            wake_up_time: 1000,
        })))
        .unwrap();
    assert_eq!(2, out.len());
    match &out[0] {
        Action::ForwardCompletion { completion, .. } => {
            assert_eq!(
                &Completion { entry_index: 3, result: CompletionResult::Empty },
                completion
            );
        }
        other => panic!("unexpected action: {:?}", other),
    }
    assert!(matches!(out[1], Action::DeleteTimer { .. }));

    // firing again finds nothing registered
    let out = machine
        .on_ack_command(AckCommand::no_ack(Command::Timer(TimerValue {
            full_invocation_id: si.fid,
            entry_index: 3,
            wake_up_time: 1000,
        })))
        .unwrap();
    assert!(out.is_empty());
}

#[test]
fn background_invoke_parks_in_outbox_and_truncation_drops_it() {
    let mut machine = PartitionStateMachine::new();
    let si = invocation("caller", b"k", 1);
    machine
        .on_ack_command(AckCommand::no_ack(Command::Invocation(si.clone())))
        .unwrap();

    let target = invocation("callee", b"x", 2);
    let out = machine
        .on_ack_command(AckCommand::no_ack(Command::Invoker(InvokerEffect {
            full_invocation_id: si.fid.clone(),
            kind: InvokerEffectKind::JournalEntry {
                entry_index: 1,
                entry: JournalEntryKind::BackgroundInvoke(target),
            },
        })))
        .unwrap();
    assert_eq!(2, out.len());
    match &out[0] {
        Action::NewOutboxMessage { seq_number, message } => {
            assert_eq!(0, *seq_number);
            assert!(matches!(message, OutboxMessage::ServiceInvocation(_)));
        }
        other => panic!("unexpected action: {:?}", other),
    }
    assert_eq!(1, machine.state.outbox.len());

    // confirmed-delivered entries are dropped
    let out = machine
        .on_ack_command(AckCommand::no_ack(Command::OutboxTruncation(0)))
        .unwrap();
    assert!(out.is_empty());
    assert!(machine.state.outbox.is_empty());
    // sequence numbers keep counting up
    assert_eq!(1, machine.state.outbox_next_seq);
}

#[test]
fn response_forwards_to_invoker_backed_invocation() {
    let mut machine = PartitionStateMachine::new();
    let si = invocation("greeter", b"k", 1);
    machine
        .on_ack_command(AckCommand::no_ack(Command::Invocation(si.clone())))
        .unwrap();

    let out = machine
        .on_ack_command(AckCommand::no_ack(Command::Response(InvocationResponse {
            id: MaybeFullInvocationId::Full(si.fid.clone()),
            entry_index: 2,
            result: ResponseResult::Success(b"ok".to_vec()),
        })))
        .unwrap();
    assert_eq!(1, out.len());
    match &out[0] {
        Action::ForwardCompletion { full_invocation_id, completion } => {
            assert_eq!(si.fid, *full_invocation_id);
            assert_eq!(2, completion.entry_index);
            assert_eq!(CompletionResult::Success(b"ok".to_vec()), completion.result);
        }
        other => panic!("unexpected action: {:?}", other),
    }

    // a response to an unknown invocation is a harmless no-op
    let snapshot = machine.clone();
    let out = machine
        .on_ack_command(AckCommand::no_ack(Command::Response(InvocationResponse {
            id: MaybeFullInvocationId::Partial(
                restate_core::identifiers::InvocationId::new(1, InvocationUuid::from_parts(9, 9)),
            ),
            entry_index: 0,
            result: ResponseResult::Success(Vec::new()),
        })))
        .unwrap();
    assert!(out.is_empty());
    assert_eq!(snapshot, machine);
}

#[test]
fn kill_aborts_and_drops_journal_state() {
    let mut machine = PartitionStateMachine::new();
    let si = invocation("greeter", b"k", 1);
    machine
        .on_ack_command(AckCommand::no_ack(Command::Invocation(si.clone())))
        .unwrap();
    // a registered timer belongs to the invocation's journal
    machine
        .on_ack_command(AckCommand::no_ack(Command::Invoker(InvokerEffect {
            full_invocation_id: si.fid.clone(),
            kind: InvokerEffectKind::JournalEntry {
                entry_index: 1,
                entry: JournalEntryKind::SetTimer { wake_up_time: 50 },
            },
        })))
        .unwrap();
    assert_eq!(1, machine.state.timers.len());

    let out = machine
        .on_ack_command(AckCommand::no_ack(Command::TerminateInvocation(
            InvocationTermination::kill(MaybeFullInvocationId::Full(si.fid.clone())),
        )))
        .unwrap();
    assert_eq!(vec![Action::AbortInvocation(si.fid.clone())], out);
    assert!(machine.state.timers.is_empty());

    // the instance is free again
    let out = machine
        .on_ack_command(AckCommand::no_ack(Command::Invocation(invocation(
            "greeter", b"k", 2,
        ))))
        .unwrap();
    assert_eq!(1, out.len());
}

#[test]
fn virtual_journal_completion_and_cancel() {
    let mut machine = PartitionStateMachine::new();
    let owner = invocation("vjournal", b"k", 1);
    let uuid = InvocationUuid::from_parts(4, 4);

    // a built-in service opens a virtual journal
    let out = machine
        .on_ack_command(AckCommand::no_ack(Command::BuiltInInvoker(NbisEffects {
            full_invocation_id: owner.fid.clone(),
            effects: vec![NbisEffect::CreateVirtualJournal {
                service_id: owner.fid.service_id.clone(),
                method_name: "run".to_string(),
                invocation_uuid: uuid,
            }],
        })))
        .unwrap();
    assert!(out.is_empty());

    // a response to it notifies the journal's owner
    let out = machine
        .on_ack_command(AckCommand::no_ack(Command::Response(InvocationResponse {
            id: MaybeFullInvocationId::Partial(
                restate_core::identifiers::InvocationId::new(
                    owner.fid.service_id.partition_key,
                    uuid,
                ),
            ),
            entry_index: 1,
            result: ResponseResult::Success(b"done".to_vec()),
        })))
        .unwrap();
    assert_eq!(1, out.len());
    match &out[0] {
        Action::NotifyVirtualJournalCompletion { method_name, invocation_uuid, .. } => {
            assert_eq!("run", method_name);
            assert_eq!(uuid, *invocation_uuid);
        }
        other => panic!("unexpected action: {:?}", other),
    }

    // a graceful cancel also goes through the journal
    let out = machine
        .on_ack_command(AckCommand::no_ack(Command::TerminateInvocation(
            InvocationTermination::cancel(MaybeFullInvocationId::Partial(
                restate_core::identifiers::InvocationId::new(
                    owner.fid.service_id.partition_key,
                    uuid,
                ),
            )),
        )))
        .unwrap();
    assert_eq!(1, out.len());
    assert!(matches!(out[0], Action::NotifyVirtualJournalCompletion { .. }));
}

#[test]
fn builtin_outbox_effects_emit_in_order() {
    let mut machine = PartitionStateMachine::new();
    let owner = invocation("vjournal", b"k", 1);
    let out = machine
        .on_ack_command(AckCommand::no_ack(Command::BuiltInInvoker(NbisEffects {
            full_invocation_id: owner.fid.clone(),
            effects: vec![
                NbisEffect::OutboxMessage(OutboxMessage::IngressResponse {
                    to_node: node(),
                    response: ResponseResult::Success(b"1".to_vec()),
                }),
                NbisEffect::OutboxMessage(OutboxMessage::IngressResponse {
                    to_node: node(),
                    response: ResponseResult::Success(b"2".to_vec()),
                }),
            ],
        })))
        .unwrap();
    assert_eq!(2, out.len());
    match (&out[0], &out[1]) {
        (
            Action::NewOutboxMessage { seq_number: s0, .. },
            Action::NewOutboxMessage { seq_number: s1, .. },
        ) => {
            assert_eq!((0, 1), (*s0, *s1));
        }
        other => panic!("unexpected actions: {:?}", other),
    }
    assert_eq!(2, machine.state.outbox.len());
}

#[test]
fn command_kind_names() {
    let cmd = Command::OutboxTruncation(0);
    assert_eq!("OutboxTruncation", cmd.type_human());
    let cmd = Command::Invocation(invocation("a", b"b", 1));
    assert_eq!("ServiceInvocation", cmd.type_human());
}
