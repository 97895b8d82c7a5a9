use maple::agent::{Agent, AgentConfig};
use maple::snapshot::{decode_snapshot, encode_snapshot, FormatError};

fn sample() -> Vec<u8> {
    encode_snapshot("did:maple:agent:1234", b"{\"name\":\"a\",\"role\":\"r\"}", &[1, 2, 3])
}

#[test]
fn encode_layout() {
    let b = sample();
    assert_eq!(&b[0..8], b"MAPLEDNA");
    assert_eq!(&b[8..10], &[0, 1]);
    assert_eq!(&b[10..30], b"did:maple:agent:1234");
    assert!(b[30..46].iter().all(|x| *x == 0));
    assert_eq!(&b[46..50], &[0, 0, 0, 23]);
    assert_eq!(&b[50..73], b"{\"name\":\"a\",\"role\":\"r\"}");
    assert_eq!(&b[73..77], &[0, 0, 0, 3]);
    assert_eq!(&b[77..], &[1, 2, 3]);
}

#[test]
fn snapshot_round_trip() {
    let s = decode_snapshot(&sample()).unwrap();
    assert_eq!(s.version, 1);
    assert_eq!(s.did, "did:maple:agent:1234");
    assert_eq!(s.config, b"{\"name\":\"a\",\"role\":\"r\"}".to_vec());
    assert_eq!(s.state, vec![1, 2, 3]);
}

#[test]
fn snapshot_round_trip_empty_parts() {
    let b = encode_snapshot("", b"", b"");
    assert_eq!(b.len(), 54);
    let s = decode_snapshot(&b).unwrap();
    assert_eq!(s.did, "");
    assert!(s.config.is_empty());
    assert!(s.state.is_empty());
}

#[test]
fn long_did_is_cut_to_field() {
    let did = "did:maple:agent:0123456789abcdef0123456789abcdef";
    let s = decode_snapshot(&encode_snapshot(did, b"{}", b"")).unwrap();
    assert_eq!(s.did, &did[..36]);
}

#[test]
fn bad_magic_is_refused() {
    let mut b = sample();
    b[7] = b'B';
    assert!(matches!(decode_snapshot(&b), Err(FormatError::InvalidFormat)));
    assert!(matches!(decode_snapshot(b"MAPLE"), Err(FormatError::InvalidFormat)));
    assert!(matches!(decode_snapshot(b""), Err(FormatError::InvalidFormat)));
}

#[test]
fn truncated_buffers_are_refused() {
    let b = sample();
    for cut in [8usize, 10, 46, 49, 50, 72, 73, 76, 79] {
        assert!(matches!(decode_snapshot(&b[..cut]), Err(FormatError::Truncated)), "cut {}", cut);
    }
    let mut big = b.clone();
    big[46] = 0xff;
    assert!(matches!(decode_snapshot(&big), Err(FormatError::Truncated)));
}

#[test]
fn trailing_bytes_are_ignored() {
    let mut b = sample();
    b.extend_from_slice(&[9, 9]);
    assert_eq!(decode_snapshot(&b).unwrap().state, vec![1, 2, 3]);
}

#[test]
fn invalid_did_is_refused() {
    let mut b = sample();
    b[10] = 0xff;
    assert!(matches!(decode_snapshot(&b), Err(FormatError::InvalidDid)));
}

#[test]
fn agent_dump_and_restore() {
    let config = AgentConfig { name: "test-agent".to_string(), role: "test".to_string() };
    let mut agent = Agent::new(config.clone());
    agent.did = "did:maple:agent:short".to_string();
    agent.state = vec![7, 8];
    let bytes = agent.dump(b"{\"name\":\"test-agent\",\"role\":\"test\"}");
    let snap = decode_snapshot(&bytes).unwrap();
    let restored = Agent::from_snapshot(snap, config);
    assert_eq!(restored.did, agent.did);
    assert_eq!(restored.state, agent.state);
    assert_eq!(restored.config.name, "test-agent");
}

#[test]
fn new_agent_did_format() {
    let a = Agent::new(AgentConfig { name: "n".to_string(), role: "r".to_string() });
    let b = Agent::new(AgentConfig { name: "n".to_string(), role: "r".to_string() });
    assert!(a.did.starts_with("did:maple:agent:"));
    assert_eq!(a.did.len(), 52);
    let u = &a.did[16..];
    for (i, c) in u.chars().enumerate() {
        if [8, 13, 18, 23].contains(&i) {
            assert_eq!(c, '-');
        } else {
            assert!(c.is_ascii_hexdigit() && !c.is_ascii_uppercase());
        }
    }
    assert_ne!(a.did, b.did);
    assert!(a.state.is_empty());
}
