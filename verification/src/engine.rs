//! A structural model of the secure-channel primitive that the handshake
//! drives.
//!
//! The handshake orchestration needs four operations from its channel
//! primitive — initiate, parse, respond, finalize — together with fixed
//! message lengths that are pure functions of the payload length. This
//! module realizes exactly that boundary over plain bytes: a first message
//! carries the initiator's ephemeral and static key material plus an
//! optional payload, a response carries the responder's ephemeral
//! contribution, and each protected section ends in a fixed-size trailer
//! that binds its length, standing in for an authentication tag. Parsing and
//! finalizing fail on any length or trailer mismatch, so a message produced
//! for one payload length is rejected by an endpoint expecting another.
//!
//! The primitive performs no cryptography: key material and payload travel
//! in the clear, and the trailer is not a cryptographic tag. It gives the
//! policy layer the exact message-length and failure behaviour it must be
//! verified against, not confidentiality.

use crate::key::{copy_bytes, KEY_LEN, PeerStaticKey};
use vstd::prelude::*;

verus! {

/// Number of bytes in the trailer that closes each protected section.
pub const TAG_LEN: usize = 16;

/// Largest payload a first message may embed: the trailer records the
/// payload length in a single byte.
pub const MAX_PAYLOAD: usize = 255;

/// Offset of the initiator's static key inside a first message.
pub const STATIC_OFFSET: usize = KEY_LEN;

/// Offset of the trailer protecting the static key.
pub const STATIC_TAG_OFFSET: usize = KEY_LEN + KEY_LEN;

/// Offset of the embedded payload inside a first message.
pub const PAYLOAD_OFFSET: usize = KEY_LEN + KEY_LEN + TAG_LEN;

/// The trailer closing a protected section: `TAG_LEN` copies of the length
/// marker of that section.
pub open spec fn tag_bytes(marker: u8) -> Seq<u8> {
    Seq::new(TAG_LEN as nat, |i: int| marker)
}

/// Length of the first handshake message as a function of its payload
/// length: ephemeral key, static key and its trailer, payload and its
/// trailer.
pub open spec fn spec_init_msg_len(payload_len: int) -> int {
    PAYLOAD_OFFSET + payload_len + TAG_LEN
}

/// Length of the response message as a function of its payload length:
/// ephemeral key, payload and its trailer.
pub open spec fn spec_resp_msg_len(payload_len: int) -> int {
    KEY_LEN + payload_len + TAG_LEN
}

/// The first handshake message built from the given key material and
/// payload.
pub open spec fn spec_init_message(e: Seq<u8>, s: Seq<u8>, payload: Seq<u8>) -> Seq<u8> {
    e + s + tag_bytes(KEY_LEN as u8) + payload + tag_bytes(payload.len() as u8)
}

/// The response message built from the given ephemeral contribution; the
/// responder sends no payload in this protocol.
pub open spec fn spec_resp_message(e: Seq<u8>) -> Seq<u8> {
    e + tag_bytes(0)
}

/// Whether a received first message is acceptable: long enough for the
/// fixed sections, short enough for a one-byte payload-length marker, and
/// with both trailers matching the lengths they protect.
pub open spec fn init_msg_wf(m: Seq<u8>) -> bool {
    &&& PAYLOAD_OFFSET + TAG_LEN <= m.len()
    &&& m.len() <= PAYLOAD_OFFSET + TAG_LEN + MAX_PAYLOAD
    &&& m.subrange(STATIC_TAG_OFFSET as int, PAYLOAD_OFFSET as int) == tag_bytes(KEY_LEN as u8)
    &&& m.subrange(m.len() - TAG_LEN, m.len() as int) == tag_bytes(
        (m.len() - PAYLOAD_OFFSET - TAG_LEN) as u8,
    )
}

/// The static key a first message claims for its initiator.
pub open spec fn claimed_static(m: Seq<u8>) -> Seq<u8> {
    m.subrange(STATIC_OFFSET as int, STATIC_TAG_OFFSET as int)
}

/// The payload a first message embeds.
pub open spec fn init_payload(m: Seq<u8>) -> Seq<u8> {
    m.subrange(PAYLOAD_OFFSET as int, m.len() - TAG_LEN)
}

/// Whether a received response message is acceptable: exactly the
/// payload-free response length, with a matching trailer.
pub open spec fn resp_msg_wf(m: Seq<u8>) -> bool {
    &&& m.len() == spec_resp_msg_len(0)
    &&& m.subrange(KEY_LEN as int, m.len() as int) == tag_bytes(0)
}

/// Fixed length of the first handshake message for a payload of
/// `payload_len` bytes, for sizing reads and writes.
pub fn handshake_init_msg_len(payload_len: usize) -> (r: usize)
    requires
        payload_len <= MAX_PAYLOAD,
    ensures
        r == spec_init_msg_len(payload_len as int),
{
    PAYLOAD_OFFSET + payload_len + TAG_LEN
}

/// Fixed length of the response message for a payload of `payload_len`
/// bytes, for sizing reads and writes.
pub fn handshake_resp_msg_len(payload_len: usize) -> (r: usize)
    requires
        payload_len <= MAX_PAYLOAD,
    ensures
        r == spec_resp_msg_len(payload_len as int),
{
    KEY_LEN + payload_len + TAG_LEN
}

/// The payload a first message may carry, viewed as bytes.
pub open spec fn payload_view(payload: Option<&Vec<u8>>) -> Seq<u8> {
    match payload {
        Some(p) => p@,
        None => Seq::empty(),
    }
}

/// Failure of the channel primitive: a received message was rejected. The
/// reason is deliberately not recorded.
#[derive(Clone, Copy, Debug, PartialEq, Eq)]
pub struct NoiseError;

/// Intermediate handshake state held between the two messages of one
/// handshake, bound to the remote static key the session will authenticate.
#[derive(Debug)]
pub struct HandshakeState {
    remote_static: PeerStaticKey,
}

impl View for HandshakeState {
    type V = Seq<u8>;

    closed spec fn view(&self) -> Seq<u8> {
        self.remote_static@
    }
}

/// An established secure-channel session, bound to the verified remote
/// static key.
#[derive(Debug)]
pub struct NoiseSession {
    remote_static: PeerStaticKey,
}

impl View for NoiseSession {
    type V = Seq<u8>;

    closed spec fn view(&self) -> Seq<u8> {
        self.remote_static@
    }
}

impl NoiseSession {
    /// The remote peer's verified static key.
    pub fn get_remote_static(&self) -> (r: &PeerStaticKey)
        ensures
            r@ == self@,
    {
        &self.remote_static
    }
}

/// The channel-primitive configuration of one endpoint: its own static key.
pub struct NoiseConfig {
    local_static: PeerStaticKey,
}

impl NoiseConfig {
    /// The local static key.
    pub closed spec fn local_key(&self) -> Seq<u8> {
        self.local_static@
    }

    /// Whether the configuration holds a well-formed key.
    pub open spec fn wf(&self) -> bool {
        self.local_key().len() == KEY_LEN
    }

    /// An endpoint configuration for the given static key.
    pub fn new(key: PeerStaticKey) -> (r: NoiseConfig)
        ensures
            r.local_key() == key@,
    {
        NoiseConfig { local_static: key }
    }

    /// Builds the first handshake message from a fresh ephemeral
    /// contribution, the remote static key to authenticate, and an optional
    /// payload, together with the state needed to finalize the handshake.
    pub fn initiate_connection(
        &self,
        ephemeral: &Vec<u8>,
        remote_static: &PeerStaticKey,
        payload: Option<&Vec<u8>>,
    ) -> (r: (Vec<u8>, HandshakeState))
        requires
            ephemeral@.len() == KEY_LEN,
            self.wf(),
            payload matches Some(p) ==> p@.len() <= MAX_PAYLOAD,
        ensures
            r.0@ == spec_init_message(ephemeral@, self.local_key(), payload_view(payload)),
            r.0@.len() == spec_init_msg_len(payload_view(payload).len() as int),
            r.1@ == remote_static@,
    {
        let mut msg = copy_bytes(ephemeral);
        append_bytes(&mut msg, self.local_static.as_bytes());
        push_repeat(&mut msg, KEY_LEN as u8, TAG_LEN);
        match payload {
            Some(p) => {
                append_bytes(&mut msg, p);
                push_repeat(&mut msg, p.len() as u8, TAG_LEN);
            },
            None => {
                push_repeat(&mut msg, 0, TAG_LEN);
            },
        }
        proof {
            assert(msg@ =~= spec_init_message(
                ephemeral@,
                self.local_key(),
                payload_view(payload),
            ));
        }
        (msg, HandshakeState { remote_static: remote_static.duplicate() })
    }

    /// Parses a received first message: checks both trailers and extracts
    /// the initiator's claimed static key, the state needed to respond, and
    /// the embedded payload. Rejects any message whose lengths or trailers
    /// do not match.
    pub fn parse_client_init_message(&self, received: &Vec<u8>) -> (r: Result<
        (PeerStaticKey, HandshakeState, Vec<u8>),
        NoiseError,
    >)
        ensures
            match r {
                Ok(parsed) => {
                    &&& init_msg_wf(received@)
                    &&& parsed.0@ == claimed_static(received@)
                    &&& parsed.0.wf()
                    &&& parsed.1@ == claimed_static(received@)
                    &&& parsed.2@ == init_payload(received@)
                },
                Err(_) => !init_msg_wf(received@),
            },
    {
        let n = received.len();
        if n < PAYLOAD_OFFSET + TAG_LEN || n > PAYLOAD_OFFSET + TAG_LEN + MAX_PAYLOAD {
            return Err(NoiseError);
        }
        let payload_len = n - PAYLOAD_OFFSET - TAG_LEN;
        if !range_all_eq(received, STATIC_TAG_OFFSET, PAYLOAD_OFFSET, KEY_LEN as u8) {
            proof {
                if init_msg_wf(received@) {
                    assert forall|j: int|
                        STATIC_TAG_OFFSET <= j < PAYLOAD_OFFSET implies received@[j] == KEY_LEN
                        as u8 by {
                        assert(received@.subrange(STATIC_TAG_OFFSET as int, PAYLOAD_OFFSET as int)[j
                            - STATIC_TAG_OFFSET] == received@[j]);
                    }
                }
            }
            return Err(NoiseError);
        }
        if !range_all_eq(received, n - TAG_LEN, n, payload_len as u8) {
            proof {
                if init_msg_wf(received@) {
                    assert forall|j: int|
                        n - TAG_LEN <= j < n implies received@[j] == payload_len as u8 by {
                        assert(received@.subrange(n - TAG_LEN, n as int)[j - (n - TAG_LEN)]
                            == received@[j]);
                    }
                }
            }
            return Err(NoiseError);
        }
        proof {
            assert(received@.subrange(STATIC_TAG_OFFSET as int, PAYLOAD_OFFSET as int) =~= tag_bytes(
                KEY_LEN as u8,
            ));
            assert(received@.subrange(n - TAG_LEN, n as int) =~= tag_bytes(payload_len as u8));
        }
        let static_bytes = sub_vec(received, STATIC_OFFSET, STATIC_TAG_OFFSET);
        let payload = sub_vec(received, PAYLOAD_OFFSET, n - TAG_LEN);
        let claimed = PeerStaticKey::from_exact(static_bytes);
        let state = HandshakeState { remote_static: claimed.duplicate() };
        Ok((claimed, state, payload))
    }

    /// Builds the response message from a fresh ephemeral contribution and
    /// establishes the responder's session, bound to the initiator's claimed
    /// static key carried in the handshake state.
    pub fn respond_to_client(&self, state: HandshakeState, ephemeral: &Vec<u8>) -> (r: (
        Vec<u8>,
        NoiseSession,
    ))
        requires
            ephemeral@.len() == KEY_LEN,
        ensures
            r.0@ == spec_resp_message(ephemeral@),
            r.0@.len() == spec_resp_msg_len(0),
            r.1@ == state@,
    {
        let mut msg = copy_bytes(ephemeral);
        push_repeat(&mut msg, 0, TAG_LEN);
        proof {
            assert(msg@ =~= spec_resp_message(ephemeral@));
        }
        (msg, NoiseSession { remote_static: state.remote_static })
    }

    /// Checks a received response message and establishes the initiator's
    /// session, bound to the remote static key the handshake was initiated
    /// against. Rejects any response whose length or trailer does not match;
    /// no session is created then.
    pub fn finalize_connection(&self, state: HandshakeState, received: &Vec<u8>) -> (r: Result<
        (Vec<u8>, NoiseSession),
        NoiseError,
    >)
        ensures
            match r {
                Ok(p) => {
                    &&& resp_msg_wf(received@)
                    &&& p.0@ == Seq::<u8>::empty()
                    &&& p.1@ == state@
                },
                Err(_) => !resp_msg_wf(received@),
            },
    {
        let n = received.len();
        if n != KEY_LEN + TAG_LEN {
            return Err(NoiseError);
        }
        if !range_all_eq(received, KEY_LEN, n, 0) {
            proof {
                if resp_msg_wf(received@) {
                    assert forall|j: int| KEY_LEN <= j < n implies received@[j] == 0u8 by {
                        assert(received@.subrange(KEY_LEN as int, n as int)[j - KEY_LEN]
                            == received@[j]);
                    }
                }
            }
            return Err(NoiseError);
        }
        proof {
            assert(received@.subrange(KEY_LEN as int, n as int) =~= tag_bytes(0));
        }
        Ok((Vec::new(), NoiseSession { remote_static: state.remote_static }))
    }
}

/// A well-formed first message parses back to exactly the static key and
/// payload it was built from: nothing of the initiator's identity claim is
/// lost or altered on the wire.
pub proof fn lemma_init_message_round_trip(e: Seq<u8>, s: Seq<u8>, payload: Seq<u8>)
    requires
        e.len() == KEY_LEN,
        s.len() == KEY_LEN,
        payload.len() <= MAX_PAYLOAD,
    ensures
        init_msg_wf(spec_init_message(e, s, payload)),
        claimed_static(spec_init_message(e, s, payload)) == s,
        init_payload(spec_init_message(e, s, payload)) == payload,
{
    let m = spec_init_message(e, s, payload);
    assert(m.len() == spec_init_msg_len(payload.len() as int));
    assert(m.subrange(STATIC_TAG_OFFSET as int, PAYLOAD_OFFSET as int) =~= tag_bytes(
        KEY_LEN as u8,
    ));
    assert(m.subrange(m.len() - TAG_LEN, m.len() as int) =~= tag_bytes(payload.len() as u8));
    assert(claimed_static(m) =~= s);
    assert(init_payload(m) =~= payload);
}

/// A well-formed response message is accepted by the initiator's final
/// check.
pub proof fn lemma_resp_message_round_trip(e: Seq<u8>)
    requires
        e.len() == KEY_LEN,
    ensures
        resp_msg_wf(spec_resp_message(e)),
{
    let m = spec_resp_message(e);
    assert(m.subrange(KEY_LEN as int, m.len() as int) =~= tag_bytes(0));
}

/// A first message built with a short non-empty payload does not survive
/// truncation to the payload-free length: the trailer of the truncated
/// message falls inside the original payload trailer, whose length marker
/// differs from zero. An endpoint expecting no payload therefore rejects the
/// truncation of a message built with one.
pub proof fn lemma_truncated_init_message_rejected(e: Seq<u8>, s: Seq<u8>, payload: Seq<u8>)
    requires
        e.len() == KEY_LEN,
        s.len() == KEY_LEN,
        0 < payload.len() < TAG_LEN,
    ensures
        !init_msg_wf(spec_init_message(e, s, payload).subrange(0, spec_init_msg_len(0))),
{
    let m = spec_init_message(e, s, payload);
    let p = payload.len() as int;
    let prefix = m.subrange(0, spec_init_msg_len(0));
    assert(m[PAYLOAD_OFFSET + p] == payload.len() as u8);
    if init_msg_wf(prefix) {
        let trailer = prefix.subrange(prefix.len() - TAG_LEN, prefix.len() as int);
        assert(trailer[p] == m[PAYLOAD_OFFSET + p]);
        assert(trailer[p] == tag_bytes(0)[p]);
        assert(false);
    }
}

/// An independent copy of `src[start..end]`.
fn sub_vec(src: &Vec<u8>, start: usize, end: usize) -> (r: Vec<u8>)
    requires
        start <= end,
        end <= src@.len(),
    ensures
        r@ == src@.subrange(start as int, end as int),
{
    let mut out: Vec<u8> = Vec::new();
    let mut i: usize = start;
    while i < end
        invariant
            start <= i <= end,
            end <= src@.len(),
            out@ == src@.subrange(start as int, i as int),
        decreases end - i,
    {
        out.push(src[i]);
        proof {
            assert(src@.subrange(start as int, i as int).push(src@[i as int]) =~= src@.subrange(
                start as int,
                i as int + 1,
            ));
        }
        i = i + 1;
    }
    out
}

/// Whether every byte of `src[start..end]` equals `byte`.
fn range_all_eq(src: &Vec<u8>, start: usize, end: usize, byte: u8) -> (r: bool)
    requires
        start <= end,
        end <= src@.len(),
    ensures
        r == (forall|j: int| start <= j < end ==> src@[j] == byte),
{
    let mut i: usize = start;
    while i < end
        invariant
            start <= i <= end,
            end <= src@.len(),
            forall|j: int| start <= j < i ==> src@[j] == byte,
        decreases end - i,
    {
        if src[i] != byte {
            return false;
        }
        i = i + 1;
    }
    true
}

/// Appends a copy of `src` to `out`.
fn append_bytes(out: &mut Vec<u8>, src: &Vec<u8>)
    ensures
        final(out)@ == old(out)@ + src@,
{
    let ghost base = out@;
    let mut i: usize = 0;
    while i < src.len()
        invariant
            i <= src@.len(),
            out@ == base + src@.subrange(0, i as int),
        decreases src@.len() - i,
    {
        out.push(src[i]);
        proof {
            assert(base + src@.subrange(0, i as int + 1) =~= (base + src@.subrange(
                0,
                i as int,
            )).push(src@[i as int]));
        }
        i = i + 1;
    }
    proof {
        assert(base + src@.subrange(0, src@.len() as int) =~= base + src@);
    }
}

/// Appends `count` copies of `byte` to `out`.
fn push_repeat(out: &mut Vec<u8>, byte: u8, count: usize)
    ensures
        final(out)@ == old(out)@ + Seq::new(count as nat, |i: int| byte),
{
    let ghost base = out@;
    let mut i: usize = 0;
    while i < count
        invariant
            i <= count,
            out@ == base + Seq::new(i as nat, |j: int| byte),
        decreases count - i,
    {
        out.push(byte);
        proof {
            assert(base + Seq::new((i + 1) as nat, |j: int| byte) =~= (base + Seq::new(
                i as nat,
                |j: int| byte,
            )).push(byte));
        }
        i = i + 1;
    }
}

} // verus!
