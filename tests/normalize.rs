use logs_pipeline::audit::select_entry;
use logs_pipeline::event::{EventWithSource, FieldValues, GatewayEvent, Origin};
use logs_pipeline::fleet::ProcessorFleet;
use logs_pipeline::latch::{AuditLogLatch, CombinedAuditLogEntry, LatchRead};
use logs_pipeline::processor::{read_audit_log, ProcessingError, Processor, SplitProcessor};

fn json(text: &str) -> serde_json::Value {
    serde_json::from_str(text).unwrap()
}

fn gateway_event(event_type: &str, payload: &serde_json::Value) -> GatewayEvent {
    GatewayEvent {
        id: String::from("e1"),
        ingress_timestamp: 1700000000000,
        event_type: String::from(event_type),
        guild_id: 42,
        inner: rmp_serde::to_vec(payload).unwrap(),
    }
}

fn field_values() -> FieldValues {
    FieldValues {
        event_type: 3,
        id_params: vec![100],
        timestamp: 1700000000000,
        reason: Some(String::from("spam")),
        channel: None,
        agent: Some(json(r#"{"id":"5"}"#)),
        subject: Some(json(r#"{"id":"6"}"#)),
        auxiliary: None,
        content: json(r#"{"text":"hi"}"#),
    }
}

fn ban_entry() -> CombinedAuditLogEntry {
    CombinedAuditLogEntry { id: 7, json: json(r#"{"id":"7","action_type":22}"#) }
}

type TestProcessor = Processor<u8, u8, u8>;

fn fleet() -> ProcessorFleet<TestProcessor> {
    let mut fleet = ProcessorFleet::new();
    fleet.register(String::from("MESSAGE_CREATE"), Processor::Direct(1));
    fleet.register(String::from("MEMBER_BAN_ADD"), Processor::Split(SplitProcessor::new(2, Some(9))));
    fleet
}

#[test]
fn is_unexpected_for_every_kind_but_drop() {
    assert!(ProcessingError::SubProcessorNotFound(String::from("X")).is_unexpected());
    assert!(ProcessingError::FatalSourceError(String::from("boom")).is_unexpected());
    assert!(ProcessingError::NoAuditLogEntry(String::from("X")).is_unexpected());
    assert!(!ProcessingError::Drop.is_unexpected());
}

#[test]
fn decode_keeps_event_and_payload() {
    let payload = json(r#"{"id":"100","content":"hi"}"#);
    let decoded = EventWithSource::decode(gateway_event("MESSAGE_CREATE", &payload)).unwrap();
    assert_eq!(decoded.gateway_event().id, "e1");
    assert_eq!(decoded.gateway_event().guild_id, 42);
    assert_eq!(decoded.source(), &payload);
}

#[test]
fn decode_rejects_truncated_payload() {
    let mut event = gateway_event("MESSAGE_CREATE", &json(r#"{"id":"100"}"#));
    event.inner.truncate(3);
    assert!(EventWithSource::decode(event).is_err());
}

#[test]
fn direct_processor_without_audit_log() {
    let fleet = fleet();
    let processor = fleet.route(&String::from("MESSAGE_CREATE")).ok().unwrap();
    assert!(matches!(processor, Processor::Direct(1)));
    assert!(!processor.uses_audit_log());

    let split: SplitProcessor<u8, u8> = SplitProcessor::new(0, None);
    let payload = json(r#"{"id":"100","content":"hi"}"#);
    let event = EventWithSource::decode(gateway_event("MESSAGE_CREATE", &payload)).unwrap();
    let mut latch = split.begin();
    assert!(matches!(latch.read(), LatchRead::Ready(None)));
    assert!(split.finish_audit_log_load(&mut latch, Ok(None)).is_ok());
    let normalized = split.assemble(event, Ok(field_values()), latch).ok().unwrap();
    assert_eq!(normalized.audit_log_id, None);
    assert_eq!(normalized.guild_id, 42);
    assert_eq!(normalized.timestamp, 1700000000000);
    assert_eq!(normalized.id_params, vec![100]);
    assert_eq!(normalized.origin, Origin::Gateway);
    assert_eq!(normalized.source.gateway, Some(payload));
    assert_eq!(normalized.source.audit_log, None);
}

#[test]
fn split_processor_with_audit_log_entry() {
    let fleet = fleet();
    let processor = fleet.route(&String::from("MEMBER_BAN_ADD")).ok().unwrap();
    assert!(processor.uses_audit_log());
    let split = match processor {
        Processor::Split(split) => split,
        Processor::Direct(_) => panic!("expected a split processor"),
    };
    let event = EventWithSource::decode(gateway_event("MEMBER_BAN_ADD", &json(r#"{"user":{"id":"6"}}"#))).unwrap();
    let event_type = String::from("MEMBER_BAN_ADD");

    let mut latch = split.begin();
    assert!(read_audit_log(&latch, &event_type).is_none());
    assert!(split.finish_audit_log_load(&mut latch, Ok(Some(ban_entry()))).is_ok());
    let read = read_audit_log(&latch, &event_type).unwrap().ok().unwrap();
    assert_eq!(read, &ban_entry().json);

    let normalized = split.assemble(event, Ok(field_values()), latch).ok().unwrap();
    assert_eq!(normalized.audit_log_id, Some(7));
    assert_eq!(normalized.source.audit_log, Some(ban_entry().json));
    assert_eq!(normalized.origin, Origin::Hybrid);
    assert_eq!(normalized.reason, Some(String::from("spam")));
}

#[test]
fn split_processor_without_audit_log_entry() {
    let split: SplitProcessor<u8, u8> = SplitProcessor::new(2, Some(9));
    let event = EventWithSource::decode(gateway_event("MEMBER_BAN_ADD", &json(r#"{"user":{"id":"6"}}"#))).unwrap();
    let event_type = String::from("MEMBER_BAN_ADD");

    let mut latch = split.begin();
    assert!(split.finish_audit_log_load(&mut latch, Ok(None)).is_ok());
    let err = read_audit_log(&latch, &event_type).unwrap().err().unwrap();
    assert!(matches!(&err, ProcessingError::NoAuditLogEntry(t) if t == "MEMBER_BAN_ADD"));

    let result = split.assemble(event, Err(err), latch);
    assert!(matches!(result, Err(ProcessingError::NoAuditLogEntry(t)) if t == "MEMBER_BAN_ADD"));
}

#[test]
fn unknown_event_type_is_not_routed() {
    let fleet = fleet();
    let result = fleet.route(&String::from("UNKNOWN"));
    assert!(matches!(result, Err(ProcessingError::SubProcessorNotFound(t)) if t == "UNKNOWN"));
}

#[test]
fn register_replaces_earlier_processor() {
    let mut fleet = fleet();
    fleet.register(String::from("MESSAGE_CREATE"), Processor::Direct(5));
    assert!(matches!(fleet.route(&String::from("MESSAGE_CREATE")), Ok(Processor::Direct(5))));
    assert!(matches!(fleet.route(&String::from("MEMBER_BAN_ADD")), Ok(Processor::Split(_))));
}

#[test]
fn failed_loader_releases_latch_empty_and_fails_run() {
    let split: SplitProcessor<u8, u8> = SplitProcessor::new(2, Some(9));
    let event = EventWithSource::decode(gateway_event("MEMBER_BAN_ADD", &json("{}"))).unwrap();
    let mut latch = split.begin();
    let loaded = split.finish_audit_log_load(&mut latch, Err(ProcessingError::FatalSourceError(String::from("timeout"))));
    assert!(matches!(&loaded, Err(ProcessingError::FatalSourceError(m)) if m == "timeout"));
    assert!(matches!(latch.read(), LatchRead::Ready(None)));
    let result = split.assemble(event, Err(loaded.err().unwrap()), latch);
    assert!(matches!(result, Err(ProcessingError::FatalSourceError(_))));
}

#[test]
fn dropped_event_yields_no_normalized_event() {
    let split: SplitProcessor<u8, u8> = SplitProcessor::new(2, None);
    let event = EventWithSource::decode(gateway_event("TYPING_START", &json("{}"))).unwrap();
    let latch = split.begin();
    let result = split.assemble(event, Err(ProcessingError::Drop), latch);
    assert!(matches!(result, Err(ProcessingError::Drop)));
}

#[test]
fn assembly_twice_gives_equal_events() {
    let split: SplitProcessor<u8, u8> = SplitProcessor::new(2, Some(9));
    let payload = json(r#"{"user":{"id":"6"}}"#);
    let run = || {
        let event = EventWithSource::decode(gateway_event("MEMBER_BAN_ADD", &payload)).unwrap();
        let mut latch = split.begin();
        split.finish_audit_log_load(&mut latch, Ok(Some(ban_entry()))).ok().unwrap();
        split.assemble(event, Ok(field_values()), latch).ok().unwrap()
    };
    let a = run();
    let b = run();
    assert_eq!(a.id_params, b.id_params);
    assert_eq!(a.timestamp, b.timestamp);
    assert_eq!(a.source.gateway, b.source.gateway);
    assert_eq!(a.source.audit_log, b.source.audit_log);
    assert_eq!(a.origin, b.origin);
    assert_eq!(a.event_type, b.event_type);
    assert_eq!(a.guild_id, b.guild_id);
    assert_eq!(a.reason, b.reason);
    assert_eq!(a.audit_log_id, b.audit_log_id);
    assert_eq!(a.channel, b.channel);
    assert_eq!(a.agent, b.agent);
    assert_eq!(a.subject, b.subject);
    assert_eq!(a.auxiliary, b.auxiliary);
    assert_eq!(a.content, b.content);
}

#[test]
fn latch_has_a_single_writer_that_installs_once() {
    let mut latch = AuditLogLatch::new();
    assert!(latch.acquire_writer());
    assert!(!latch.acquire_writer());
    assert!(matches!(latch.read(), LatchRead::Blocked));
    assert!(latch.install(Some(ban_entry())));
    assert!(!latch.install(None));
    match latch.read() {
        LatchRead::Ready(Some(entry)) => assert_eq!(entry.id, 7),
        _ => panic!("expected the installed entry"),
    }
    latch.release();
    assert_eq!(latch.into_entry().map(|e| e.id), Some(7));
}

#[test]
fn cancelled_writer_releases_latch_empty() {
    let mut latch = AuditLogLatch::new();
    assert!(latch.acquire_writer());
    latch.release();
    assert!(matches!(latch.read(), LatchRead::Ready(None)));
    assert!(!latch.install(Some(ban_entry())));
    assert!(latch.into_entry().is_none());
}

#[test]
fn select_entry_takes_first_match() {
    let entries = vec![(1u64, 20u8), (7, 22), (9, 22)];
    assert_eq!(select_entry(entries.clone(), &|e: &(u64, u8)| e.1 == 22), Some((7, 22)));
    assert_eq!(select_entry(entries, &|e: &(u64, u8)| e.1 == 23), None);
    assert_eq!(select_entry(Vec::<(u64, u8)>::new(), &|_e: &(u64, u8)| true), None);
}
