use restate_core::actions::{Action, OutboxMessage};
use restate_core::commands::{AckCommand, AckMode, Command, DeduplicationSource};
use restate_core::identifiers::{FullInvocationId, InvocationUuid};
use restate_core::invocation::{
    GenerationalNodeId, MaybeFullInvocationId, ResponseResult, ServiceInvocation,
    ServiceInvocationResponseSink, ServiceInvocationSpanContext, Source, SpanContext, SpanRelation,
};
use restate_core::meta::{ModifyServiceRequest, ModifyServiceStateRequest};
use restate_core::network::{
    ConsensusOrIngressTarget, ConsensusOrShuffleTarget, FindPartition, PartitionTableError,
    ShuffleOrIngressTarget, TargetConsensusOrIngress, TargetShuffle,
};
use restate_core::state_machine::PartitionStateMachine;
use restate_core::state_mutation::ExternalStateMutation;
use restate_core::status::{InvocationState, JournalEntry, JournalEntryType, ServiceMethodUsage};

fn fid(service: &str, key: &[u8], random: u128) -> FullInvocationId {
    FullInvocationId::new(
        service.to_string(),
        key.to_vec(),
        InvocationUuid::from_parts(1, random),
    )
}

#[test]
fn state_mutation_applies_without_precondition() {
    let mut machine = PartitionStateMachine::new();
    let sid = fid("store", b"k", 1).service_id;
    let out = machine
        .on_ack_command(AckCommand::no_ack(Command::ExternalStateMutation(
            ExternalStateMutation {
                service_id: sid.clone(),
                version: Some("v1".to_string()),
                state: vec![(b"color".to_vec(), b"green".to_vec())],
                response_sink: None,
            },
        )))
        .unwrap();
    assert!(out.is_empty());
    assert_eq!(1, machine.state.user_states.len());
    assert_eq!(Some("v1".to_string()), machine.state.user_states[0].version);
    assert_eq!(
        vec![(b"color".to_vec(), b"green".to_vec())],
        machine.state.user_states[0].entries
    );
}

#[test]
fn state_mutation_version_conflict_is_reported_not_dropped() {
    let mut machine = PartitionStateMachine::new();
    let sid = fid("store", b"k", 1).service_id;
    machine
        .on_ack_command(AckCommand::no_ack(Command::ExternalStateMutation(
            ExternalStateMutation {
                service_id: sid.clone(),
                version: Some("v1".to_string()),
                state: vec![(b"color".to_vec(), b"green".to_vec())],
                response_sink: None,
            },
        )))
        .unwrap();

    // the stored version is v1; a precondition on v0 must not apply
    let caller = fid("caller", b"c", 9);
    let out = machine
        .on_ack_command(AckCommand::no_ack(Command::ExternalStateMutation(
            ExternalStateMutation {
                service_id: sid.clone(),
                version: Some("v0".to_string()),
                state: vec![(b"color".to_vec(), b"red".to_vec())],
                response_sink: Some(ServiceInvocationResponseSink::PartitionProcessor {
                    caller: caller.clone(),
                    entry_index: 4,
                }),
            },
        )))
        .unwrap();
    assert_eq!(1, out.len());
    match &out[0] {
        Action::NewOutboxMessage { message: OutboxMessage::ServiceResponse(resp), .. } => {
            assert_eq!(4, resp.entry_index);
            match &resp.result {
                ResponseResult::Failure(code, msg) => {
                    assert_eq!(9, *code);
                    assert_eq!("state version conflict", msg);
                }
                other => panic!("unexpected result: {:?}", other),
            }
        }
        other => panic!("unexpected action: {:?}", other),
    }
    // the state is untouched
    assert_eq!(
        vec![(b"color".to_vec(), b"green".to_vec())],
        machine.state.user_states[0].entries
    );

    // a matching precondition applies
    let out = machine
        .on_ack_command(AckCommand::no_ack(Command::ExternalStateMutation(
            ExternalStateMutation {
                service_id: sid,
                version: Some("v1".to_string()),
                state: vec![(b"color".to_vec(), b"blue".to_vec())],
                response_sink: None,
            },
        )))
        .unwrap();
    assert!(out.is_empty());
    assert_eq!(
        vec![(b"color".to_vec(), b"blue".to_vec())],
        machine.state.user_states[0].entries
    );
}

#[test]
fn span_context_start_is_deterministic() {
    let f = fid("traced", b"k", 0xABCD);
    let parent = SpanContext::new(7, 9, 1, false, String::new());
    let a = ServiceInvocationSpanContext::start(&f, SpanRelation::Parent(parent.clone()));
    let b = ServiceInvocationSpanContext::start(&f, SpanRelation::Parent(parent.clone()));
    assert_eq!(a, b);
    assert!(a.is_sampled());
    assert_eq!(7, a.trace_id());

    // an unsampled cause stores nothing
    let unsampled = SpanContext::new(7, 9, 0, false, String::new());
    let c = ServiceInvocationSpanContext::start(&f, SpanRelation::Linked(unsampled));
    assert_eq!(ServiceInvocationSpanContext::empty(), c);
    assert!(!c.is_sampled());

    // a linked cause roots a fresh trace in the invocation id
    let linked = SpanContext::new(7, 9, 1, false, String::new());
    let d = ServiceInvocationSpanContext::start(&f, SpanRelation::Linked(linked));
    assert_eq!(f.invocation_uuid.0, d.trace_id());
    let rebuilt = d.causing_span_relation();
    match rebuilt {
        SpanRelation::Linked(ctx) => assert_eq!(7, ctx.trace_id),
        other => panic!("unexpected relation: {:?}", other),
    }
}

#[test]
fn service_invocation_new_attaches_span_context() {
    let f = fid("traced", b"k", 3);
    let parent = SpanContext::new(1, 2, 1, false, String::new());
    let si = ServiceInvocation::new(
        f.clone(),
        "m".to_string(),
        b"arg".to_vec(),
        Source::Service(fid("parent", b"p", 4)),
        None,
        SpanRelation::Parent(parent),
    );
    assert_eq!(f, si.fid);
    assert_eq!("m", si.method_name);
    assert_eq!(1, si.span_context.trace_id());
}

#[test]
fn invocation_state_round_trips_through_names() {
    let all = [
        InvocationState::Pending,
        InvocationState::Ready,
        InvocationState::Running,
        InvocationState::Suspended,
        InvocationState::BackingOff,
    ];
    for state in all {
        assert_eq!(state, InvocationState::from_str(state.name()));
    }
    assert_eq!(InvocationState::Unknown, InvocationState::from_str("anything"));
    assert_eq!("unknown", InvocationState::Unknown.name());
}

#[test]
fn journal_entries_present_and_complete() {
    let sleep = JournalEntry {
        seq: 0,
        entry_type: JournalEntryType::Sleep { wakeup_at: Some(12) },
        completed: false,
    };
    assert!(!sleep.is_completed());
    assert!(sleep.should_present());

    let set_state = JournalEntry {
        seq: 1,
        entry_type: JournalEntryType::SetState,
        completed: false,
    };
    assert!(set_state.is_completed());
    assert!(!set_state.should_present());

    // a state read completes later, like a call, but is not shown
    let get_state = JournalEntry {
        seq: 2,
        entry_type: JournalEntryType::GetState,
        completed: false,
    };
    assert!(!get_state.is_completed());
    assert!(!get_state.should_present());

    // unrecognized entry kinds count as done and stay hidden
    let other = JournalEntry {
        seq: 3,
        entry_type: JournalEntryType::Other("custom".to_string()),
        completed: false,
    };
    assert!(other.is_completed());
    assert!(!other.should_present());
}

struct OutboundAck {
    peer: u64,
}

impl TargetShuffle for OutboundAck {
    fn shuffle_target(&self) -> u64 {
        self.peer
    }
}

enum Outbound {
    ToConsensus(u32),
    ToIngress(String),
}

impl TargetConsensusOrIngress<u32, String> for Outbound {
    fn into_target(self) -> ConsensusOrIngressTarget<u32, String> {
        match self {
            Outbound::ToConsensus(x) => ConsensusOrIngressTarget::Consensus(x),
            Outbound::ToIngress(s) => ConsensusOrIngressTarget::Ingress(s),
        }
    }
}

struct EvenPartitions;

impl FindPartition for EvenPartitions {
    fn find_partition_id(&self, partition_key: u64) -> Result<u64, PartitionTableError> {
        if partition_key % 2 == 0 {
            Ok(partition_key / 2)
        } else {
            Err(PartitionTableError(partition_key))
        }
    }
}

#[test]
fn network_targets_route_messages() {
    assert_eq!(3, OutboundAck { peer: 3 }.shuffle_target());
    match Outbound::ToConsensus(7).into_target() {
        ConsensusOrIngressTarget::Consensus(x) => assert_eq!(7, x),
        ConsensusOrIngressTarget::Ingress(_) => panic!("wrong target"),
    }
    let s: ShuffleOrIngressTarget<u8, u8> = ShuffleOrIngressTarget::Shuffle(1);
    assert!(matches!(s, ShuffleOrIngressTarget::Shuffle(1)));
    let c: ConsensusOrShuffleTarget<u8, u8> = ConsensusOrShuffleTarget::Shuffle(2);
    assert!(matches!(c, ConsensusOrShuffleTarget::Shuffle(2)));
    assert_eq!(Ok(2), EvenPartitions.find_partition_id(4));
    assert_eq!(Err(PartitionTableError(5)), EvenPartitions.find_partition_id(5));
}

#[test]
fn meta_request_shapes() {
    let request = ModifyServiceRequest { public: true };
    assert!(request.public);
    let request = ModifyServiceStateRequest {
        version: Some("v1".to_string()),
        service_key: "key".to_string(),
        new_state: vec![("color".to_string(), b"green".to_vec())],
    };
    assert_eq!("key", request.service_key);
    assert_eq!(1, request.new_state.len());

    let usage = ServiceMethodUsage {
        service: "greeter".to_string(),
        method: "greet".to_string(),
        inv_count: 3,
    };
    assert_eq!(3, usage.inv_count);
    let _ = GenerationalNodeId { id: 0, generation: 0 };
}

#[test]
fn envelope_and_projection_accessors() {
    let f = fid("greeter", b"k", 6);
    let cmd = Command::OutboxTruncation(3);
    let (inner, mode) = AckCommand::no_ack(cmd.clone()).into_inner();
    assert_eq!(cmd, inner);
    assert_eq!(AckMode::NoAck, mode);

    let source = DeduplicationSource::shuffle(2, 5, 8);
    assert_eq!(8, source.seq_number());
    let (inner, mode) = AckCommand::dedup(cmd.clone(), source.clone()).into_inner();
    assert_eq!(cmd, inner);
    assert_eq!(AckMode::Dedup(source), mode);

    // projecting a full id drops the service name and key but keeps the rest
    let short = f.to_invocation_id();
    assert_eq!(f.service_id.partition_key, short.partition_key);
    assert_eq!(f.invocation_uuid, short.invocation_uuid());
    assert_eq!(f.to_string(), short.to_string());
    assert_eq!(f.to_invocation_id_bytes(), short.to_bytes());
    assert_eq!(
        short,
        MaybeFullInvocationId::Full(f.clone()).to_invocation_id()
    );
    assert_eq!(
        short,
        MaybeFullInvocationId::Partial(short).to_invocation_id()
    );
}
