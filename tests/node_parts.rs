use maple::config::{MapleConfig, RuntimeMode, VectorDb};
use maple::envelope::create_map_message;
use maple::llm::{LLMConfig, MapleLLM, MapleLLMConfig, LLM};
use maple::p2p::{step, task_topic, TransportAction, TransportEvent, TransportState};
use maple::ual::parse_ual;

#[test]
fn test_llm_generate() {
    let config = LLMConfig { model: "mistral-7b".to_string(), endpoint: "".to_string() };
    let llm = LLM::new(config);
    let response = llm.generate("Hello");
    assert!(response.contains("mistral-7b"));
}

#[test]
fn test_govern() {
    let config = MapleLLMConfig { version: "1.0".to_string() };
    let llm = MapleLLM::new(config);
    let decision = llm.govern("agent conflict");
    assert!(decision.contains("1.0"));
}

#[test]
fn generate_and_govern_text() {
    let llm = LLM::new(LLMConfig { model: "m".to_string(), endpoint: "e".to_string() });
    assert_eq!(llm.generate("Hi"), "Generated response for 'Hi': m");
    let g = MapleLLM::new(MapleLLMConfig { version: "2".to_string() });
    assert_eq!(g.govern("c"), "Governing with version 2: c");
}

#[test]
fn default_config_is_distributed() {
    assert_eq!(MapleConfig::default().node_mode, "distributed");
    let _ = VectorDb::new();
}

#[test]
fn envelope_wraps_statement() {
    let stmt = parse_ual("EXEC deploy system_engineer region=us-east").unwrap();
    let m = create_map_message(stmt.clone(), "maple-node");
    assert_eq!(m.type_, "TaskAssignment");
    assert_eq!(m.sender, "maple-node");
    assert_eq!(m.receiver, "system_engineer");
    assert_eq!(m.payload, stmt);
}

#[test]
fn transport_lifecycle() {
    assert_eq!(task_topic(), "maple-tasks");
    let (s, a) = step(TransportState::Idle, TransportEvent::Bound);
    assert_eq!(s, TransportState::Listening);
    assert!(matches!(a, TransportAction::Nothing));
    let (s, _) = step(s, TransportEvent::LoopStarted);
    assert_eq!(s, TransportState::Running);
    let (s, a) = step(s, TransportEvent::Discovered(vec!["/ip4/10.0.0.2/tcp/4001".to_string()]));
    assert!(matches!(a, TransportAction::Dial(ref v) if v.len() == 1));
    let (s, a) = step(s, TransportEvent::DialFailed("/ip4/10.0.0.2/tcp/4001".to_string()));
    assert!(matches!(a, TransportAction::Report(ref l) if l == "dial failed: /ip4/10.0.0.2/tcp/4001"));
    let (s, a) = step(s, TransportEvent::Inbound(None));
    assert!(matches!(a, TransportAction::Report(_)));
    let m = create_map_message(parse_ual("EXEC t agent1").unwrap(), "peer");
    let (s, a) = step(s, TransportEvent::Inbound(Some(m.clone())));
    assert!(matches!(a, TransportAction::Route(ref st) if st.destination == "agent1"));
    let (s, a) = step(s, TransportEvent::Outbound(m));
    assert!(matches!(a, TransportAction::Publish(_)));
    let (s, _) = step(s, TransportEvent::Stop);
    assert_eq!(s, TransportState::Stopped);
}

#[test]
fn transport_bind_failure_exits() {
    let (s, a) = step(TransportState::Idle, TransportEvent::BindFailed);
    assert_eq!(s, TransportState::Stopped);
    assert!(matches!(a, TransportAction::Exit));
    let (s, a) = step(TransportState::Listening, TransportEvent::Bound);
    assert_eq!(s, TransportState::Listening);
    assert!(matches!(a, TransportAction::Nothing));
}

#[test]
fn node_mode_by_name() {
    assert_eq!(RuntimeMode::from_name("enterprise"), RuntimeMode::Enterprise);
    assert_eq!(RuntimeMode::from_name("distributed"), RuntimeMode::Distributed);
    assert_eq!(RuntimeMode::from_name("other"), RuntimeMode::Distributed);
}
