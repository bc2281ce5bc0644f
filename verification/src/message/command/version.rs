//! The "version" command and its payload: the handshake message carrying the
//! peer's protocol version, services, addresses, nonce, user agent, best
//! block height and relay flag.
//!
//! The user-agent and relay fields are optional on the wire; both are encoded
//! at fixed positions relative to the end of the payload, so the decoder
//! tells the four shapes apart by the payload length and the length prefix.

use vstd::prelude::*;

use crate::error::{CodecError, CodecErrorView};
use crate::wire::{
    be128_of, be128_val, be16_of, be16_val, be32_of, be32_val, be64_of, be64_val, i32_repr,
    i32_unrepr, i64_repr, i64_unrepr, lemma_be128_roundtrip, lemma_be16_roundtrip,
    lemma_be32_roundtrip, lemma_be64_roundtrip, lemma_i32_roundtrip, lemma_i64_roundtrip,
    push_bytes, push_i32_be, push_i64_be, push_u128_be, push_u16_be, push_u64_be, read_i32_be,
    read_i64_be, read_u128_be, read_u16_be, read_u64_be, sub_vec,
};

verus! {

/// The 12 wire bytes of "version", NUL-padded on the right.
pub open spec fn name_seq() -> Seq<u8> {
    seq![0x76u8, 0x65u8, 0x72u8, 0x73u8, 0x69u8, 0x6fu8, 0x6eu8, 0u8, 0u8, 0u8, 0u8, 0u8]
}

/// The fixed wire name of this command.
pub fn command_name() -> (r: [u8; 12])
    ensures
        r@ == name_seq(),
{
    let r = [0x76u8, 0x65u8, 0x72u8, 0x73u8, 0x69u8, 0x6fu8, 0x6eu8, 0u8, 0u8, 0u8, 0u8, 0u8];
    proof {
        assert(r@ =~= name_seq());
    }
    r
}

/// The highest protocol version this implementation understands.
pub const LATEST_VERSION: i32 = 70015;

/// IPv6-mapped 127.0.0.1, used when the transmitting address is unknown.
pub const UNKNOWN_IP_ADDR: u128 = 0xffff_7f00_0001;

/// A user agent longer than this cannot be encoded: its length must fit the
/// single-byte length prefix's reserved range.
pub const MAX_USER_AGENT_LEN: usize = 0xFC;

/// A network endpoint as the wire carries it: a 16-byte IPv6 (or IPv4-mapped)
/// address in big-endian order, and a port.
#[derive(Debug, Clone, Copy, PartialEq, Eq, Structural)]
pub struct NetAddr {
    /// The 16 address bytes, read as one big-endian 128-bit value.
    pub ip: u128,
    pub port: u16,
}

/// The services a node advertises, as a closed bitfield.
#[derive(Debug, Clone, Copy, PartialEq, Eq, Structural)]
pub enum Service {
    /// Not a full node: may only be able to serve its own transactions.
    NotFullNode,
    /// A full node: can be asked for full blocks.
    FullNode,
}

/// The 8-byte bitfield value of a service level.
pub open spec fn service_bits(s: Service) -> u64 {
    match s {
        Service::NotFullNode => 0x00,
        Service::FullNode => 0x01,
    }
}

/// Which service level, if any, an 8-byte bitfield value stands for.
pub open spec fn parse_service(x: u64) -> Option<Service> {
    if x == 0x00 {
        Some(Service::NotFullNode)
    } else if x == 0x01 {
        Some(Service::FullNode)
    } else {
        None
    }
}

impl Service {
    /// The bitfield value this service level is encoded as.
    pub fn bytes(&self) -> (r: u64)
        ensures
            r == service_bits(*self),
    {
        match self {
            Service::NotFullNode => 0x00,
            Service::FullNode => 0x01,
        }
    }
}

/// Reads a service bitfield value back; unknown bits are malformed.
fn read_service(x: u64) -> (r: Result<Service, CodecError>)
    ensures
        match parse_service(x) {
            Some(s) => r == Ok::<Service, CodecError>(s),
            None => (r matches Err(e) && e@ == CodecErrorView::PayloadDecodeError),
        },
{
    if x == 0x00 {
        Ok(Service::NotFullNode)
    } else if x == 0x01 {
        Ok(Service::FullNode)
    } else {
        Err(CodecError::PayloadDecodeError)
    }
}

/// Payload of a "version" command.
#[derive(Debug, Clone, PartialEq, Eq)]
pub struct VersionPayload {
    /// The highest protocol version understood by the transmitting node.
    pub version: i32,
    /// The services supported by the transmitting node.
    pub services: Service,
    /// Unix epoch seconds according to the transmitting node's clock.
    pub timestamp: i64,
    /// The services of the receiving node as perceived by the transmitter.
    pub recv_services: Service,
    /// The receiving node's address as perceived by the transmitter.
    pub addr_recv: NetAddr,
    /// The transmitting node's own address.
    pub addr_trans: NetAddr,
    /// A random nonce that lets a node detect a connection to itself;
    /// 0 means the field is ignored.
    pub nonce: u64,
    /// Optional user agent, at most `MAX_USER_AGENT_LEN` bytes.
    pub user_agent: Option<Vec<u8>>,
    /// The height of the transmitting node's best block chain.
    pub start_height: i32,
    /// Optional transaction-relay flag.
    pub relay: Option<bool>,
}

/// Mathematical model of a `VersionPayload`.
#[verifier::ext_equal]
pub ghost struct VersionPayloadView {
    pub version: i32,
    pub services: Service,
    pub timestamp: i64,
    pub recv_services: Service,
    pub addr_recv: NetAddr,
    pub addr_trans: NetAddr,
    pub nonce: u64,
    pub user_agent: Option<Seq<u8>>,
    pub start_height: i32,
    pub relay: Option<bool>,
}

impl View for VersionPayload {
    type V = VersionPayloadView;

    open spec fn view(&self) -> VersionPayloadView {
        VersionPayloadView {
            version: self.version,
            services: self.services,
            timestamp: self.timestamp,
            recv_services: self.recv_services,
            addr_recv: self.addr_recv,
            addr_trans: self.addr_trans,
            nonce: self.nonce,
            user_agent: match self.user_agent {
                Some(ref ua) => Some(ua@),
                None => None,
            },
            start_height: self.start_height,
            relay: self.relay,
        }
    }
}

/// Whether a version payload can be encoded: a user agent, when present,
/// must be shorter than 0xFD bytes, else encoding fails rather than silently
/// truncating the length prefix.
pub open spec fn version_encodable(v: VersionPayloadView) -> bool {
    match v.user_agent {
        Some(ua) => ua.len() <= MAX_USER_AGENT_LEN,
        None => true,
    }
}

/// The wire bytes of the optional user-agent field: absent, or a one-byte
/// length prefix followed by the agent bytes.
pub open spec fn ua_field(ua: Option<Seq<u8>>) -> Seq<u8> {
    match ua {
        Some(s) => seq![s.len() as u8] + s,
        None => Seq::<u8>::empty(),
    }
}

/// The wire bytes of the optional relay flag.
pub open spec fn relay_field(r: Option<bool>) -> Seq<u8> {
    match r {
        Some(b) => seq![
            if b {
                1u8
            } else {
                0u8
            },
        ],
        None => Seq::<u8>::empty(),
    }
}

/// The 18 wire bytes of a network endpoint: the address, then the port.
pub open spec fn net_addr_bytes(a: NetAddr) -> Seq<u8> {
    be128_of(a.ip) + be16_of(a.port)
}

/// Appends a network endpoint's 18 wire bytes.
fn encode_addr(addr: NetAddr, dst: &mut Vec<u8>)
    ensures
        final(dst)@ == old(dst)@ + net_addr_bytes(addr),
{
    push_u128_be(dst, addr.ip);
    push_u16_be(dst, addr.port);
    assert(final(dst)@ =~= old(dst)@ + net_addr_bytes(addr));
}

/// The 80 fixed leading bytes of a version payload, through the nonce. The
/// transmitting address is preceded by a repeat of the transmitter's own
/// services field.
pub open spec fn fixed_bytes(v: VersionPayloadView) -> Seq<u8> {
    be32_of(i32_repr(v.version)) + be64_of(service_bits(v.services)) + be64_of(
        i64_repr(v.timestamp),
    ) + be64_of(service_bits(v.recv_services)) + net_addr_bytes(v.addr_recv) + be64_of(
        service_bits(v.services),
    ) + net_addr_bytes(v.addr_trans) + be64_of(v.nonce)
}

/// The full wire bytes of a version payload.
pub open spec fn version_payload_bytes(v: VersionPayloadView) -> Seq<u8> {
    fixed_bytes(v) + ua_field(v.user_agent) + be32_of(i32_repr(v.start_height)) + relay_field(
        v.relay,
    )
}

/// What a version payload byte string decodes to.
///
/// After the 80 fixed bytes come, in order: an optional user agent (one
/// length byte, then that many bytes), the 4-byte start height, and an
/// optional relay byte. The remaining length, together with the byte at
/// offset 80 read as a length prefix, picks the shape; a length that fits no
/// shape is malformed. A remainder of exactly 5 whose prefix byte fits no
/// user-agent shape is read as start height plus relay byte.
pub open spec fn version_payload_decoded(p: Seq<u8>) -> Result<
    VersionPayloadView,
    CodecErrorView,
> {
    if p.len() < 84 {
        Err(CodecErrorView::PayloadDecodeError)
    } else {
        match parse_service(be64_val(p.subrange(4, 12))) {
            None => Err(CodecErrorView::PayloadDecodeError),
            Some(services) => match parse_service(be64_val(p.subrange(20, 28))) {
                None => Err(CodecErrorView::PayloadDecodeError),
                Some(recv_services) => {
                    let rem = p.len() - 80;
                    let l = p[80] as int;
                    if rem == 4 {
                        Ok(version_view_of(p, services, recv_services, None, i32_unrepr(be32_val(p.subrange(80, 84))), None))
                    } else if 1 + l + 4 == rem {
                        Ok(version_view_of(p, services, recv_services, Some(p.subrange(81, 81 + l)), i32_unrepr(be32_val(p.subrange(81 + l, 85 + l))), None))
                    } else if 1 + l + 4 + 1 == rem {
                        Ok(version_view_of(p, services, recv_services, Some(p.subrange(81, 81 + l)), i32_unrepr(be32_val(p.subrange(81 + l, 85 + l))), Some(p[p.len() - 1] != 0)))
                    } else if rem == 5 {
                        Ok(version_view_of(p, services, recv_services, None, i32_unrepr(be32_val(p.subrange(80, 84))), Some(p[84] != 0)))
                    } else {
                        Err(CodecErrorView::PayloadDecodeError)
                    }
                },
            },
        }
    }
}

/// The view a decoded version payload assembles: the fixed fields always come
/// from the same offsets; the shape-dependent fields are passed in.
pub open spec fn version_view_of(
    p: Seq<u8>,
    services: Service,
    recv_services: Service,
    user_agent: Option<Seq<u8>>,
    start_height: i32,
    relay: Option<bool>,
) -> VersionPayloadView {
    VersionPayloadView {
        version: i32_unrepr(be32_val(p.subrange(0, 4))),
        services,
        timestamp: i64_unrepr(be64_val(p.subrange(12, 20))),
        recv_services,
        addr_recv: NetAddr {
            ip: be128_val(p.subrange(28, 44)),
            port: be16_val(p.subrange(44, 46)),
        },
        addr_trans: NetAddr {
            ip: be128_val(p.subrange(54, 70)),
            port: be16_val(p.subrange(70, 72)),
        },
        nonce: be64_val(p.subrange(72, 80)),
        user_agent,
        start_height,
        relay,
    }
}

/// Encodes a version payload into its wire bytes; an oversized user agent is
/// rejected rather than truncated.
pub fn encode(version: VersionPayload) -> (r: Result<Vec<u8>, CodecError>)
    ensures
        version_encodable(version@) ==> (r matches Ok(p) && p@ == version_payload_bytes(version@)),
        !version_encodable(version@) ==> (r matches Err(e) && e@
            == CodecErrorView::PayloadEncodeError),
{
    let mut buf: Vec<u8> = Vec::new();
    push_i32_be(&mut buf, version.version);
    push_u64_be(&mut buf, version.services.bytes());
    push_i64_be(&mut buf, version.timestamp);
    push_u64_be(&mut buf, version.recv_services.bytes());
    encode_addr(version.addr_recv, &mut buf);
    // The transmitting address's service field repeats `services`.
    push_u64_be(&mut buf, version.services.bytes());
    encode_addr(version.addr_trans, &mut buf);
    push_u64_be(&mut buf, version.nonce);
    assert(buf@ =~= fixed_bytes(version@));

    match &version.user_agent {
        Some(ua) => {
            if ua.len() > MAX_USER_AGENT_LEN {
                return Err(CodecError::PayloadEncodeError);
            }
            buf.push(ua.len() as u8);
            push_bytes(&mut buf, ua);
            assert(buf@ =~= fixed_bytes(version@) + ua_field(version@.user_agent));
        },
        None => {
            assert(buf@ =~= fixed_bytes(version@) + ua_field(version@.user_agent));
        },
    }

    push_i32_be(&mut buf, version.start_height);

    match &version.relay {
        Some(relay) => {
            buf.push(if *relay {
                1u8
            } else {
                0u8
            });
        },
        None => {},
    }
    assert(buf@ =~= version_payload_bytes(version@));
    Ok(buf)
}

/// Decodes a version payload from its wire bytes.
pub fn decode(payload: Vec<u8>) -> (r: Result<VersionPayload, CodecError>)
    ensures
        match version_payload_decoded(payload@) {
            Ok(v) => (r matches Ok(p) && p@ == v),
            Err(e) => (r matches Err(er) && er@ == e),
        },
{
    let n = payload.len();
    if n < 84 {
        return Err(CodecError::PayloadDecodeError);
    }
    let services = match read_service(read_u64_be(&payload, 4)) {
        Ok(s) => s,
        Err(e) => {
            return Err(e);
        },
    };
    let recv_services = match read_service(read_u64_be(&payload, 20)) {
        Ok(s) => s,
        Err(e) => {
            return Err(e);
        },
    };

    let rem = n - 80;
    let l = payload[80] as usize;
    let (user_agent, start_height, relay): (Option<Vec<u8>>, i32, Option<bool>) = if rem == 4 {
        (None, read_i32_be(&payload, 80), None)
    } else if 1 + l + 4 == rem {
        (Some(sub_vec(&payload, 81, 81 + l)), read_i32_be(&payload, 81 + l), None)
    } else if 1 + l + 4 + 1 == rem {
        (
            Some(sub_vec(&payload, 81, 81 + l)),
            read_i32_be(&payload, 81 + l),
            Some(payload[n - 1] != 0),
        )
    } else if rem == 5 {
        (None, read_i32_be(&payload, 80), Some(payload[84] != 0))
    } else {
        return Err(CodecError::PayloadDecodeError);
    };

    let decoded = VersionPayload {
        version: read_i32_be(&payload, 0),
        services,
        timestamp: read_i64_be(&payload, 12),
        recv_services,
        addr_recv: NetAddr { ip: read_u128_be(&payload, 28), port: read_u16_be(&payload, 44) },
        addr_trans: NetAddr { ip: read_u128_be(&payload, 54), port: read_u16_be(&payload, 70) },
        nonce: read_u64_be(&payload, 72),
        user_agent,
        start_height,
        relay,
    };
    proof {
        assert(version_payload_decoded(payload@) matches Ok(v) && decoded@ =~= v);
    }
    Ok(decoded)
}

} // verus!

verus! {

/// Whether a version payload's wire bytes can only be read back one way.
///
/// The one ambiguous shape: with no user agent, a relay byte present, and a
/// start height whose top byte is zero, the five trailing bytes also parse as
/// an empty user agent followed by a start height. The decoder prefers the
/// user-agent reading there, so such a payload does not round-trip.
pub open spec fn version_wire_unambiguous(v: VersionPayloadView) -> bool {
    v.user_agent is Some || v.relay is None || be32_of(i32_repr(v.start_height))[0] != 0
}

/// Round trip at the payload level: decoding the encoding of an encodable,
/// wire-unambiguous version payload gives the payload back.
#[verifier::rlimit(60)]
pub proof fn lemma_version_round_trip(v: VersionPayloadView)
    requires
        version_encodable(v),
        version_wire_unambiguous(v),
    ensures
        version_payload_decoded(version_payload_bytes(v)) == Ok::<
            VersionPayloadView,
            CodecErrorView,
        >(v),
{
    let p = version_payload_bytes(v);
    let fx = fixed_bytes(v);
    assert(fx.len() == 80);
    assert(p.subrange(0, 4) =~= be32_of(i32_repr(v.version)));
    assert(p.subrange(4, 12) =~= be64_of(service_bits(v.services)));
    assert(p.subrange(12, 20) =~= be64_of(i64_repr(v.timestamp)));
    assert(p.subrange(20, 28) =~= be64_of(service_bits(v.recv_services)));
    assert(p.subrange(28, 44) =~= be128_of(v.addr_recv.ip));
    assert(p.subrange(44, 46) =~= be16_of(v.addr_recv.port));
    assert(p.subrange(54, 70) =~= be128_of(v.addr_trans.ip));
    assert(p.subrange(70, 72) =~= be16_of(v.addr_trans.port));
    assert(p.subrange(72, 80) =~= be64_of(v.nonce));
    lemma_be32_roundtrip(i32_repr(v.version));
    lemma_i32_roundtrip(v.version);
    lemma_be64_roundtrip(service_bits(v.services));
    lemma_be64_roundtrip(i64_repr(v.timestamp));
    lemma_i64_roundtrip(v.timestamp);
    lemma_be64_roundtrip(service_bits(v.recv_services));
    lemma_be128_roundtrip(v.addr_recv.ip);
    lemma_be16_roundtrip(v.addr_recv.port);
    lemma_be128_roundtrip(v.addr_trans.ip);
    lemma_be16_roundtrip(v.addr_trans.port);
    lemma_be64_roundtrip(v.nonce);
    lemma_be32_roundtrip(i32_repr(v.start_height));
    lemma_i32_roundtrip(v.start_height);
    assert(parse_service(service_bits(v.services)) == Some(v.services));
    assert(parse_service(service_bits(v.recv_services)) == Some(v.recv_services));
    let sh = be32_of(i32_repr(v.start_height));
    match v.user_agent {
        None => {
            match v.relay {
                None => {
                    assert(p.len() == 84);
                    assert(p.subrange(80, 84) =~= sh);
                    assert(version_payload_decoded(p) matches Ok(w) && w =~= v);
                },
                Some(b) => {
                    assert(p.len() == 85);
                    assert(p.subrange(80, 84) =~= sh);
                    assert(p[80] == sh[0]);
                    assert(p[80] != 0);
                    assert(p[84] == relay_field(v.relay)[0]);
                    assert(version_payload_decoded(p) matches Ok(w) && w =~= v);
                },
            }
        },
        Some(ua) => {
            assert(ua.len() <= 0xFC);
            assert(p[80] == (ua.len() as u8));
            assert((ua.len() as u8) as int == ua.len() as int);
            let l = ua.len() as int;
            assert(p.subrange(81, 81 + l) =~= ua);
            assert(p.subrange(81 + l, 85 + l) =~= sh);
            match v.relay {
                None => {
                    assert(p.len() == 85 + l);
                    assert(version_payload_decoded(p) matches Ok(w) && w =~= v);
                },
                Some(b) => {
                    assert(p.len() == 86 + l);
                    assert(p[p.len() - 1] == relay_field(v.relay)[0]);
                    assert(version_payload_decoded(p) matches Ok(w) && w =~= v);
                },
            }
        },
    }
}

/// Relies on std::time::SystemTime::now, read as seconds since the Unix
/// epoch: total on every clock state — a pre-epoch clock yields 0 rather
/// than a panic. Nothing is assumed of the value.
#[verifier::external_body]
fn unix_time_now() -> i64 {
    match std::time::SystemTime::now().duration_since(std::time::UNIX_EPOCH) {
        Ok(d) => d.as_secs() as i64,
        Err(_) => 0,
    }
}

/// The wire bytes of the default user agent, "/BitcoinR:0.0/Rust:1.19-stable/".
pub open spec fn default_user_agent() -> Seq<u8> {
    seq![
        0x2fu8, 0x42u8, 0x69u8, 0x74u8, 0x63u8, 0x6fu8, 0x69u8, 0x6eu8, 0x52u8, 0x3au8, 0x30u8,
        0x2eu8, 0x30u8, 0x2fu8, 0x52u8, 0x75u8, 0x73u8, 0x74u8, 0x3au8, 0x31u8, 0x2eu8, 0x31u8,
        0x39u8, 0x2du8, 0x73u8, 0x74u8, 0x61u8, 0x62u8, 0x6cu8, 0x65u8, 0x2fu8,
    ]
}

/// The default user agent, as a byte vector.
pub fn default_user_agent_bytes() -> (r: Vec<u8>)
    ensures
        r@ == default_user_agent(),
{
    let r = vec![
        0x2fu8, 0x42u8, 0x69u8, 0x74u8, 0x63u8, 0x6fu8, 0x69u8, 0x6eu8, 0x52u8, 0x3au8, 0x30u8,
        0x2eu8, 0x30u8, 0x2fu8, 0x52u8, 0x75u8, 0x73u8, 0x74u8, 0x3au8, 0x31u8, 0x2eu8, 0x31u8,
        0x39u8, 0x2du8, 0x73u8, 0x74u8, 0x61u8, 0x62u8, 0x6cu8, 0x65u8, 0x2fu8,
    ];
    proof {
        assert(r@ =~= default_user_agent());
    }
    r
}

impl Default for VersionPayload {
    /// A payload ready to send: latest protocol version, no services, the
    /// clock's current time, placeholder addresses meant to be overwritten,
    /// an ignored nonce, and the default user agent.
    fn default() -> (r: VersionPayload)
        ensures
            r.version == LATEST_VERSION,
            r.services == Service::NotFullNode,
            r.recv_services == Service::NotFullNode,
            r.addr_recv == (NetAddr { ip: 0xffff_0000_0000, port: 8333 }),
            r.addr_trans == (NetAddr { ip: 0xffff_0000_0000, port: 3333 }),
            r.nonce == 0,
            r@.user_agent == Some(default_user_agent()),
            r.start_height == 0,
            r.relay is None,
    {
        VersionPayload {
            version: LATEST_VERSION,
            services: Service::NotFullNode,
            timestamp: unix_time_now(),
            recv_services: Service::NotFullNode,
            addr_recv: NetAddr { ip: 0xffff_0000_0000, port: 8333 },
            addr_trans: NetAddr { ip: 0xffff_0000_0000, port: 3333 },
            nonce: 0,
            user_agent: Some(default_user_agent_bytes()),
            start_height: 0,
            relay: None,
        }
    }
}

} // verus!
