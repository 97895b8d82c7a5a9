use vstd::prelude::*;
use vstd::slice::{slice_subrange, slice_to_vec};
use vstd::string::StringSliceAdditionalSpecFns;
use vstd::utf8::{decode_utf8, encode_utf8, encode_utf8_decode_utf8, encode_utf8_valid_utf8, valid_utf8};

verus! {

/// The format version that `encode_snapshot` writes.
pub const SNAPSHOT_VERSION: u16 = 1;

/// Width of the zero-padded DID field.
pub const DID_FIELD_LEN: usize = 36;

/// The eight ASCII bytes `MAPLEDNA` that open every snapshot.
pub open spec fn magic() -> Seq<u8> {
    seq![0x4du8, 0x41u8, 0x50u8, 0x4cu8, 0x45u8, 0x44u8, 0x4eu8, 0x41u8]
}

pub open spec fn be16(v: u16) -> Seq<u8> {
    seq![(v / 0x100) as u8, (v % 0x100) as u8]
}

pub open spec fn be32(v: nat) -> Seq<u8> {
    seq![
        (v / 0x1000000 % 0x100) as u8,
        (v / 0x10000 % 0x100) as u8,
        (v / 0x100 % 0x100) as u8,
        (v % 0x100) as u8,
    ]
}

/// The number that four bytes give, most significant first.
pub open spec fn be32_value(b: Seq<u8>) -> nat {
    (b[0] as nat) * 0x1000000 + (b[1] as nat) * 0x10000 + (b[2] as nat) * 0x100 + (b[3] as nat)
}

/// The DID bytes cut or padded with zeros to the field's width.
pub open spec fn did_field(did: Seq<u8>) -> Seq<u8> {
    if did.len() >= DID_FIELD_LEN {
        did.take(DID_FIELD_LEN as int)
    } else {
        did + Seq::new((DID_FIELD_LEN - did.len()) as nat, |i: int| 0u8)
    }
}

/// The bytes of a snapshot: magic, version, DID field, then the configuration
/// and the state, each after its length.
pub open spec fn snapshot_bytes(version: u16, did: Seq<u8>, config: Seq<u8>, state: Seq<u8>) -> Seq<
    u8,
> {
    magic() + be16(version) + did_field(did) + be32(config.len()) + config + be32(state.len())
        + state
}

/// `b` without its trailing zero bytes.
pub open spec fn trim_zeros(b: Seq<u8>) -> Seq<u8>
    decreases b.len(),
{
    if b.len() > 0 && b.last() == 0 {
        trim_zeros(b.drop_last())
    } else {
        b
    }
}

/// Why a buffer is not a snapshot.
#[derive(Debug, Clone, Copy, PartialEq, Eq, Structural)]
pub enum FormatError {
    /// The buffer does not open with `MAPLEDNA`.
    InvalidFormat,
    /// A field or a length runs past the end of the buffer.
    Truncated,
    /// The DID field is not UTF-8.
    InvalidDid,
    /// The configuration bytes do not decode into a configuration.
    ConfigDecode,
}

/// A decoded snapshot. The configuration is kept as the bytes it was stored as.
pub struct Snapshot {
    pub version: u16,
    pub did: String,
    pub config: Vec<u8>,
    pub state: Vec<u8>,
}

pub struct SnapshotView {
    pub version: u16,
    pub did: Seq<char>,
    pub config: Seq<u8>,
    pub state: Seq<u8>,
}

impl View for Snapshot {
    type V = SnapshotView;

    open spec fn view(&self) -> SnapshotView {
        SnapshotView {
            version: self.version,
            did: self.did@,
            config: self.config@,
            state: self.state@,
        }
    }
}

pub open spec fn has_magic(buf: Seq<u8>) -> bool {
    buf.len() >= 8 && buf.take(8) == magic()
}

/// Where the configuration ends, past the header and its length field.
pub open spec fn config_end(buf: Seq<u8>) -> int {
    54 + be32_value(buf.subrange(46, 50)) as int
}

/// What a buffer decodes to.
pub open spec fn spec_decode(buf: Seq<u8>) -> Result<SnapshotView, FormatError> {
    if !has_magic(buf) {
        Err(FormatError::InvalidFormat)
    } else if buf.len() < 50 || buf.len() < config_end(buf) {
        Err(FormatError::Truncated)
    } else {
        let ce = config_end(buf);
        let slen = be32_value(buf.subrange(ce - 4, ce));
        let did = trim_zeros(buf.subrange(10, 46));
        if buf.len() < ce + slen {
            Err(FormatError::Truncated)
        } else if !valid_utf8(did) {
            Err(FormatError::InvalidDid)
        } else {
            Ok(
                SnapshotView {
                    version: (buf[8] as nat * 0x100 + buf[9] as nat) as u16,
                    did: decode_utf8(did),
                    config: buf.subrange(50, ce - 4),
                    state: buf.subrange(ce, ce + slen),
                },
            )
        }
    }
}

/// Relies on `String::from_utf8`: it succeeds exactly on valid UTF-8 and then
/// holds the decoded text.
#[verifier::external_body]
pub(crate) fn string_from_utf8(b: Vec<u8>) -> (r: Option<String>)
    ensures
        r is Some <==> valid_utf8(b@),
        r matches Some(s) ==> s@ == decode_utf8(b@),
{
    String::from_utf8(b).ok()
}

fn push_be32(out: &mut Vec<u8>, v: u32)
    ensures
        final(out)@ == old(out)@ + be32(v as nat),
{
    out.push((v / 0x1000000 % 0x100) as u8);
    out.push((v / 0x10000 % 0x100) as u8);
    out.push((v / 0x100 % 0x100) as u8);
    out.push((v % 0x100) as u8);
    assert(final(out)@ =~= old(out)@ + be32(v as nat));
}

fn push_all(out: &mut Vec<u8>, b: &[u8])
    ensures
        final(out)@ == old(out)@ + b@,
{
    let ghost start = out@;
    let mut i: usize = 0;
    while i < b.len()
        invariant
            i <= b@.len(),
            out@ == start + b@.take(i as int),
        decreases b@.len() - i,
    {
        out.push(b[i]);
        i = i + 1;
        assert(out@ =~= start + b@.take(i as int));
    }
    assert(b@.take(i as int) =~= b@);
}

fn read_be32(buf: &[u8], at: usize) -> (r: u32)
    requires
        at + 4 <= buf@.len(),
    ensures
        r as nat == be32_value(buf@.subrange(at as int, at + 4)),
{
    let v = (buf[at] as u32) * 0x1000000 + (buf[at + 1] as u32) * 0x10000 + (buf[at + 2] as u32)
        * 0x100 + (buf[at + 3] as u32);
    v
}

/// Whether `buf` opens with `MAPLEDNA`.
pub fn starts_with_magic(buf: &[u8]) -> (r: bool)
    ensures
        r == has_magic(buf@),
{
    if buf.len() < 8 || buf[0] != 0x4d || buf[1] != 0x41 || buf[2] != 0x50 || buf[3] != 0x4c
        || buf[4] != 0x45 || buf[5] != 0x44 || buf[6] != 0x4e || buf[7] != 0x41 {
        proof {
            if buf@.len() >= 8 && buf@.take(8) == magic() {
                assert(buf@[0] == buf@.take(8)[0]);
                assert(buf@[1] == buf@.take(8)[1]);
                assert(buf@[2] == buf@.take(8)[2]);
                assert(buf@[3] == buf@.take(8)[3]);
                assert(buf@[4] == buf@.take(8)[4]);
                assert(buf@[5] == buf@.take(8)[5]);
                assert(buf@[6] == buf@.take(8)[6]);
                assert(buf@[7] == buf@.take(8)[7]);
            }
        }
        false
    } else {
        assert(buf@.take(8) =~= magic());
        true
    }
}

/// Writes a snapshot of the given identity, configuration bytes and state.
/// A DID longer than the field is cut to its first 36 bytes.
pub fn encode_snapshot(did: &str, config: &[u8], state: &[u8]) -> (r: Vec<u8>)
    requires
        config@.len() <= u32::MAX,
        state@.len() <= u32::MAX,
    ensures
        r@ == snapshot_bytes(SNAPSHOT_VERSION, did.spec_bytes(), config@, state@),
{
    let mut out: Vec<u8> = Vec::new();
    out.push(0x4d);
    out.push(0x41);
    out.push(0x50);
    out.push(0x4c);
    out.push(0x45);
    out.push(0x44);
    out.push(0x4e);
    out.push(0x41);
    out.push((SNAPSHOT_VERSION / 0x100) as u8);
    out.push((SNAPSHOT_VERSION % 0x100) as u8);
    assert(out@ =~= magic() + be16(SNAPSHOT_VERSION));
    let d = did.as_bytes();
    let mut i: usize = 0;
    while i < DID_FIELD_LEN
        invariant
            i <= DID_FIELD_LEN,
            d@ == did.spec_bytes(),
            out@ =~= magic() + be16(SNAPSHOT_VERSION) + did_field(d@).take(i as int),
        decreases DID_FIELD_LEN - i,
    {
        let b = if i < d.len() {
            d[i]
        } else {
            0u8
        };
        assert(did_field(d@)[i as int] == b);
        out.push(b);
        i = i + 1;
        assert(out@ =~= magic() + be16(SNAPSHOT_VERSION) + did_field(d@).take(i as int));
    }
    assert(did_field(d@).take(DID_FIELD_LEN as int) =~= did_field(d@));
    push_be32(&mut out, config.len() as u32);
    push_all(&mut out, config);
    push_be32(&mut out, state.len() as u32);
    push_all(&mut out, state);
    assert(out@ =~= snapshot_bytes(SNAPSHOT_VERSION, did.spec_bytes(), config@, state@));
    out
}

/// Reads a snapshot. The magic is checked before anything else; every length
/// is checked against what is left of the buffer before it is used; the DID
/// loses its zero padding; the state is copied as it stands. Bytes past the
/// state are ignored.
pub fn decode_snapshot(buf: &[u8]) -> (r: Result<Snapshot, FormatError>)
    ensures
        match spec_decode(buf@) {
            Ok(v) => r is Ok && r->Ok_0@ == v,
            Err(e) => r == Err::<Snapshot, FormatError>(e),
        },
{
    let n = buf.len();
    if !starts_with_magic(buf) {
        return Err(FormatError::InvalidFormat);
    }
    if n < 50 {
        return Err(FormatError::Truncated);
    }
    let clen = read_be32(buf, 46);
    if n < 54 || clen as u64 > (n - 54) as u64 {
        return Err(FormatError::Truncated);
    }
    let ce: usize = 54 + clen as usize;
    let slen = read_be32(buf, ce - 4);
    if slen as u64 > (n - ce) as u64 {
        return Err(FormatError::Truncated);
    }
    let se: usize = ce + slen as usize;
    let version: u16 = (buf[8] as u16) * 0x100 + buf[9] as u16;
    let mut e: usize = 46;
    while e > 10 && buf[e - 1] == 0
        invariant
            10 <= e <= 46,
            46 <= n,
            n == buf@.len(),
            trim_zeros(buf@.subrange(10, e as int)) == trim_zeros(buf@.subrange(10, 46)),
        decreases e,
    {
        assert(buf@.subrange(10, e as int).drop_last() =~= buf@.subrange(10, e - 1));
        e = e - 1;
    }
    let did_bytes = slice_to_vec(slice_subrange(buf, 10, e));
    proof {
        if e > 10 {
            assert(did_bytes@.last() == buf@[e - 1]);
        }
        assert(did_bytes@ =~= buf@.subrange(10, e as int));
    }
    let did = match string_from_utf8(did_bytes) {
        Some(s) => s,
        None => {
            return Err(FormatError::InvalidDid);
        },
    };
    let config = slice_to_vec(slice_subrange(buf, 50, ce - 4));
    let state = slice_to_vec(slice_subrange(buf, ce, se));
    Ok(Snapshot { version, did, config, state })
}

proof fn lemma_be32_round_trip(v: nat)
    requires
        v <= u32::MAX,
    ensures
        be32_value(be32(v)) == v,
{
    assert(be32_value(be32(v)) == v) by (nonlinear_arith)
        requires
            v <= u32::MAX,
    ;
}

/// Decoding what `encode_snapshot` wrote gives back the same identity,
/// configuration and state, wherever the DID fits its field and does not end
/// in a zero byte.
#[verifier::rlimit(40)]
pub proof fn lemma_snapshot_round_trip(did: Seq<char>, config: Seq<u8>, state: Seq<u8>)
    requires
        encode_utf8(did).len() <= DID_FIELD_LEN,
        encode_utf8(did).len() == 0 || encode_utf8(did).last() != 0,
        config.len() <= u32::MAX,
        state.len() <= u32::MAX,
    ensures
        spec_decode(snapshot_bytes(SNAPSHOT_VERSION, encode_utf8(did), config, state)) == Ok::<
            SnapshotView,
            FormatError,
        >(SnapshotView { version: SNAPSHOT_VERSION, did, config, state }),
{
    let d = encode_utf8(did);
    let field = did_field(d);
    let head = magic() + be16(SNAPSHOT_VERSION) + field;
    let with_config_len = head + be32(config.len());
    let with_config = with_config_len + config;
    let with_state_len = with_config + be32(state.len());
    let buf = with_state_len + state;
    assert(buf == snapshot_bytes(SNAPSHOT_VERSION, d, config, state));
    let ce: int = 54 + config.len() as int;
    assert(head.len() == 46);
    assert(with_state_len.len() == ce);
    assert(buf.take(8) =~= magic());
    assert(buf[8] == 0 && buf[9] == 1);
    assert(buf.subrange(46, 50) =~= be32(config.len()));
    lemma_be32_round_trip(config.len());
    assert(config_end(buf) == ce);
    assert(buf.subrange(ce - 4, ce) =~= be32(state.len()));
    lemma_be32_round_trip(state.len());
    assert(buf.subrange(10, 46) =~= field);
    lemma_trim_padding(d, (DID_FIELD_LEN - d.len()) as nat);
    assert(field =~= d + Seq::new((DID_FIELD_LEN - d.len()) as nat, |i: int| 0u8));
    encode_utf8_valid_utf8(did);
    encode_utf8_decode_utf8(did);
    assert(buf.subrange(50, ce - 4) =~= config);
    assert(buf.subrange(ce, ce + state.len() as int) =~= state);
}

proof fn lemma_trim_padding(d: Seq<u8>, k: nat)
    requires
        d.len() == 0 || d.last() != 0,
    ensures
        trim_zeros(d + Seq::new(k, |i: int| 0u8)) == d,
    decreases k,
{
    let padded = d + Seq::new(k, |i: int| 0u8);
    if k == 0 {
        assert(padded =~= d);
    } else {
        assert(padded.drop_last() =~= d + Seq::new((k - 1) as nat, |i: int| 0u8));
        lemma_trim_padding(d, (k - 1) as nat);
    }
}

/// A buffer that does not open with `MAPLEDNA` is refused as `InvalidFormat`,
/// whatever follows.
pub proof fn lemma_rejects_bad_magic(buf: Seq<u8>)
    requires
        !has_magic(buf),
    ensures
        spec_decode(buf) == Err::<SnapshotView, FormatError>(FormatError::InvalidFormat),
{
}

} // verus!
