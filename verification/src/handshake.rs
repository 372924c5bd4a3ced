//! Handshake orchestration.
//!
//! A `NoiseUpgrader` owns the local static key and one authentication
//! policy, and drives the outbound (initiator) and inbound (responder)
//! handshake sequences over the channel primitive, enforcing the policy
//! around them. Socket I/O stays with the caller: each sequence consumes
//! and produces complete fixed-length messages, so an outbound upgrade is
//! the pair `upgrade_outbound` (build the first message) and
//! `finalize_outbound` (check the response), while an inbound upgrade is
//! the single step `upgrade_inbound` from the received first message to the
//! response and session.
//!
//! In mutual mode the first message embeds the current wall-clock time in
//! milliseconds as an eight-byte little-endian payload; the responder
//! verifies the initiator against the trusted-peer set, then requires that
//! timestamp to be strictly greater than the last one accepted for that
//! peer, recording it on success. Server-only endpoints send and expect no
//! payload, so the two first-message lengths differ and the modes cannot be
//! mixed silently.

use crate::auth::HandshakeAuthMode;
use crate::engine::{
    claimed_static, init_msg_wf, init_payload, resp_msg_wf, spec_init_message, spec_init_msg_len,
    spec_resp_message, HandshakeState, NoiseConfig, NoiseSession, MAX_PAYLOAD,
};
use crate::key::{KEY_LEN, PeerStaticKey};
use crate::replay::is_replay_spec;
use rand::RngCore;
use vstd::bytes::{spec_u64_from_le_bytes, spec_u64_to_le_bytes, u64_from_le_bytes, u64_to_le_bytes};
use vstd::prelude::*;

verus! {

/// Number of bytes in the timestamp payload of a mutual-mode first message:
/// a millisecond count since the Unix epoch fits in an unsigned 64-bit
/// value.
pub const PAYLOAD_SIZE: usize = 8;

/// Which side of the connection this endpoint is upgrading.
#[derive(Clone, Copy, Debug, PartialEq, Eq)]
pub enum ConnectionOrigin {
    /// This endpoint dialed the connection and initiates the handshake.
    Outbound,
    /// This endpoint accepted the connection and responds to the handshake.
    Inbound,
}

/// Why a handshake attempt was aborted. Every failure terminates the
/// attempt with no session; nothing is retried.
#[derive(Clone, Copy, Debug, PartialEq, Eq)]
pub enum NoiseUpgradeError {
    /// An outbound upgrade was requested without the remote peer's static
    /// key: the caller broke its contract, there is no one to dial.
    MissingRemoteKey,
    /// The channel primitive rejected a message. The reason is deliberately
    /// not disclosed.
    CryptoFailure,
    /// Mutual mode: the initiator's claimed static key is not declared by
    /// any trusted peer.
    UntrustedPeer,
    /// Mutual mode: the first message's payload is not exactly the
    /// timestamp size.
    MalformedPayload,
    /// Mutual mode: the timestamp is not strictly greater than the last one
    /// accepted for this peer.
    ReplayedTimestamp,
}

/// The payload an initiator embeds under the given policy: the wall-clock
/// milliseconds, little-endian, in mutual mode; nothing in server-only
/// mode.
pub open spec fn spec_outbound_payload(mutual: bool, timestamp_ms: u64) -> Seq<u8> {
    if mutual {
        spec_u64_to_le_bytes(timestamp_ms)
    } else {
        Seq::empty()
    }
}

/// The policy's verdict on an initiator claiming key `k` with payload
/// `payload`: trust is checked first, then the payload shape, then the
/// replay bound; an accepted mutual handshake yields the timestamp to
/// record.
pub open spec fn spec_policy_decision(
    mode: HandshakeAuthMode,
    k: Seq<u8>,
    payload: Seq<u8>,
) -> Result<Option<u64>, NoiseUpgradeError> {
    if !mode.allows_peer(k) {
        Err(NoiseUpgradeError::UntrustedPeer)
    } else if mode.is_mutual() {
        if payload.len() != PAYLOAD_SIZE {
            Err(NoiseUpgradeError::MalformedPayload)
        } else if is_replay_spec(mode.guard_map(), k, spec_u64_from_le_bytes(payload)) {
            Err(NoiseUpgradeError::ReplayedTimestamp)
        } else {
            Ok(Some(spec_u64_from_le_bytes(payload)))
        }
    } else {
        Ok(None)
    }
}

/// The responder's verdict on a received first message: parse failures
/// abort before any policy check, and the policy then decides on the
/// claimed key and embedded payload.
pub open spec fn spec_inbound_decision(mode: HandshakeAuthMode, m: Seq<u8>) -> Result<
    (Seq<u8>, Option<u64>),
    NoiseUpgradeError,
> {
    if !init_msg_wf(m) {
        Err(NoiseUpgradeError::CryptoFailure)
    } else {
        match spec_policy_decision(mode, claimed_static(m), init_payload(m)) {
            Ok(stored) => Ok((claimed_static(m), stored)),
            Err(e) => Err(e),
        }
    }
}

/// The replay bounds after the responder handled message `m`: exactly an
/// accepted mutual handshake records the initiator's timestamp; every
/// rejection leaves the bounds unchanged.
pub open spec fn spec_guard_after(mode: HandshakeAuthMode, m: Seq<u8>) -> Map<Seq<u8>, u64> {
    match spec_inbound_decision(mode, m) {
        Ok((k, Some(t))) => mode.guard_map().insert(k, t),
        _ => mode.guard_map(),
    }
}

/// Relies on `rand::rngs::OsRng` (the operating system's randomness
/// source) filling a buffer, to draw a fresh ephemeral contribution.
/// Nothing beyond the length is promised of a random value.
#[verifier::external_body]
fn fresh_ephemeral() -> (r: Vec<u8>)
    ensures
        r@.len() == KEY_LEN,
{
    let mut bytes = [0u8; 32];
    rand::rngs::OsRng.fill_bytes(&mut bytes);
    bytes.to_vec()
}

/// Relies on `std::time::SystemTime::now` for the current wall-clock time,
/// read as whole milliseconds since the Unix epoch; a clock before the
/// epoch reads as zero.
#[verifier::external_body]
fn now_millis() -> (r: u64) {
    match std::time::SystemTime::now().duration_since(std::time::UNIX_EPOCH) {
        Ok(d) => d.as_millis() as u64,
        Err(_) => 0,
    }
}

/// Runs the policy checks of the inbound sequence for an initiator claiming
/// `claimed` with payload `payload`, recording the timestamp exactly when
/// the handshake is accepted in mutual mode. The check-then-store pair runs
/// under this exclusive borrow, so no interleaving can break the
/// monotonicity of the recorded bounds.
fn policy_check(mode: &mut HandshakeAuthMode, claimed: &PeerStaticKey, payload: &Vec<u8>) -> (r:
    Result<(), NoiseUpgradeError>)
    requires
        old(mode).wf(),
    ensures
        final(mode).wf(),
        match r {
            Ok(_) => {
                &&& spec_policy_decision(*old(mode), claimed@, payload@) is Ok
                &&& final(mode).spec_trusted_peers() == old(mode).spec_trusted_peers()
                &&& final(mode).guard_map() == (match spec_policy_decision(
                    *old(mode),
                    claimed@,
                    payload@,
                ) {
                    Ok(Some(t)) => old(mode).guard_map().insert(claimed@, t),
                    _ => old(mode).guard_map(),
                })
            },
            Err(e) => {
                &&& spec_policy_decision(*old(mode), claimed@, payload@) matches Err(e2) && e2 == e
                &&& *final(mode) == *old(mode)
            },
        },
{
    match mode {
        HandshakeAuthMode::Mutual { anti_replay_timestamps, trusted_peers } => {
            if !trusted_peers.contains_identity(claimed) {
                return Err(NoiseUpgradeError::UntrustedPeer);
            }
            if payload.len() != PAYLOAD_SIZE {
                return Err(NoiseUpgradeError::MalformedPayload);
            }
            let timestamp = u64_from_le_bytes(payload.as_slice());
            if anti_replay_timestamps.is_replay(claimed, timestamp) {
                return Err(NoiseUpgradeError::ReplayedTimestamp);
            }
            anti_replay_timestamps.store_timestamp(claimed, timestamp);
            Ok(())
        },
        HandshakeAuthMode::ServerOnly => Ok(()),
    }
}

/// The first step of an upgrade, as selected by the connection origin.
#[derive(Debug)]
pub enum UpgradeStep {
    /// Send the first message, then finalize with the peer's response.
    Initiate(Vec<u8>, HandshakeState),
    /// Await the initiator's first message, then run the inbound sequence.
    AwaitClientInit,
}

/// One handshake endpoint: the local static key and the authentication
/// policy, fixed at construction. The policy's replay bounds are the only
/// state a handshake mutates.
pub struct NoiseUpgrader {
    noise_config: NoiseConfig,
    auth_mode: HandshakeAuthMode,
}

impl NoiseUpgrader {
    /// The local static key.
    pub closed spec fn local_key(&self) -> Seq<u8> {
        self.noise_config.local_key()
    }

    /// The authentication policy.
    pub closed spec fn auth(&self) -> HandshakeAuthMode {
        self.auth_mode
    }

    /// Consistency of the endpoint: a full-size local key and a coherent
    /// replay cache.
    pub open spec fn wf(&self) -> bool {
        &&& self.local_key().len() == KEY_LEN
        &&& self.auth().wf()
    }

    /// How one responder step relates the endpoint before and after it: the
    /// result follows the policy's verdict on the message, the trusted-peer
    /// set and the local key never change, exactly an accepted mutual
    /// handshake records the initiator's timestamp, and every rejection
    /// leaves the policy state untouched.
    pub open spec fn inbound_contract(
        pre: NoiseUpgrader,
        post: NoiseUpgrader,
        m: Seq<u8>,
        r: Result<(Vec<u8>, NoiseSession), NoiseUpgradeError>,
    ) -> bool {
        &&& post.wf()
        &&& post.local_key() == pre.local_key()
        &&& post.auth().spec_trusted_peers() == pre.auth().spec_trusted_peers()
        &&& match r {
            Ok(out) => {
                &&& spec_inbound_decision(pre.auth(), m) is Ok
                &&& out.1@ == claimed_static(m)
                &&& post.auth().guard_map() == spec_guard_after(pre.auth(), m)
            },
            Err(e) => {
                &&& spec_inbound_decision(pre.auth(), m) matches Err(e2) && e2 == e
                &&& post.auth() == pre.auth()
            },
        }
    }

    /// Creates an endpoint from the local static key and the authentication
    /// mode it will enforce.
    pub fn new(key: PeerStaticKey, auth_mode: HandshakeAuthMode) -> (r: NoiseUpgrader)
        requires
            key.wf(),
            auth_mode.wf(),
        ensures
            r.local_key() == key@,
            r.auth() == auth_mode,
            r.wf(),
    {
        NoiseUpgrader { noise_config: NoiseConfig::new(key), auth_mode }
    }

    /// The authentication mode driving this endpoint's policy checks.
    pub fn auth_mode(&self) -> (r: &HandshakeAuthMode)
        ensures
            *r == self.auth(),
    {
        &self.auth_mode
    }

    /// Routes a connection upgrade by origin: outbound connections initiate
    /// the handshake towards the given remote key, inbound connections
    /// await the initiator's first message. An outbound upgrade without a
    /// known remote key is a caller contract violation, reported as
    /// `MissingRemoteKey`.
    pub fn upgrade(&self, origin: ConnectionOrigin, remote_public_key: Option<&PeerStaticKey>) -> (r:
        Result<UpgradeStep, NoiseUpgradeError>)
        requires
            self.wf(),
        ensures
            match r {
                Ok(step) => match step {
                    UpgradeStep::Initiate(msg, state) => {
                        &&& origin is Outbound
                        &&& remote_public_key matches Some(k) && state@ == k@
                        &&& msg@.len() == spec_init_msg_len(
                            if self.auth().is_mutual() {
                                PAYLOAD_SIZE as int
                            } else {
                                0
                            },
                        )
                        &&& exists|e: Seq<u8>, t: u64|
                            #![auto]
                            e.len() == KEY_LEN && msg@ == spec_init_message(
                                e,
                                self.local_key(),
                                spec_outbound_payload(self.auth().is_mutual(), t),
                            )
                    },
                    UpgradeStep::AwaitClientInit => origin is Inbound,
                },
                Err(e) => {
                    &&& e == NoiseUpgradeError::MissingRemoteKey
                    &&& origin is Outbound
                    &&& remote_public_key is None
                },
            },
    {
        match origin {
            ConnectionOrigin::Outbound => match remote_public_key {
                Some(key) => {
                    let (msg, state) = self.upgrade_outbound(key);
                    Ok(UpgradeStep::Initiate(msg, state))
                },
                None => Err(NoiseUpgradeError::MissingRemoteKey),
            },
            ConnectionOrigin::Inbound => Ok(UpgradeStep::AwaitClientInit),
        }
    }

    /// Starts the outbound (initiator) sequence towards the peer holding
    /// `remote_public_key`, drawing fresh ephemeral material and reading
    /// the wall clock for the mutual-mode timestamp payload. Returns the
    /// fixed-length first message to write in full, and the state to hand
    /// to `finalize_outbound` together with the peer's response.
    pub fn upgrade_outbound(&self, remote_public_key: &PeerStaticKey) -> (r: (
        Vec<u8>,
        HandshakeState,
    ))
        requires
            self.wf(),
        ensures
            r.0@.len() == spec_init_msg_len(
                if self.auth().is_mutual() {
                    PAYLOAD_SIZE as int
                } else {
                    0
                },
            ),
            exists|e: Seq<u8>, t: u64|
                #![auto]
                e.len() == KEY_LEN && r.0@ == spec_init_message(
                    e,
                    self.local_key(),
                    spec_outbound_payload(self.auth().is_mutual(), t),
                ),
            r.1@ == remote_public_key@,
    {
        let ephemeral = fresh_ephemeral();
        let now = now_millis();
        let r = self.upgrade_outbound_with(remote_public_key, &ephemeral, now);
        proof {
            assert(r.0@ == spec_init_message(
                ephemeral@,
                self.local_key(),
                spec_outbound_payload(self.auth().is_mutual(), now),
            ));
        }
        r
    }

    /// The outbound initiation from explicit ephemeral material and clock
    /// reading: builds the policy's payload — the eight-byte little-endian
    /// timestamp in mutual mode, nothing in server-only mode — and the
    /// first message for it.
    pub fn upgrade_outbound_with(
        &self,
        remote_public_key: &PeerStaticKey,
        ephemeral: &Vec<u8>,
        timestamp_ms: u64,
    ) -> (r: (Vec<u8>, HandshakeState))
        requires
            self.wf(),
            ephemeral@.len() == KEY_LEN,
        ensures
            r.0@ == spec_init_message(
                ephemeral@,
                self.local_key(),
                spec_outbound_payload(self.auth().is_mutual(), timestamp_ms),
            ),
            r.0@.len() == spec_init_msg_len(
                if self.auth().is_mutual() {
                    PAYLOAD_SIZE as int
                } else {
                    0
                },
            ),
            r.1@ == remote_public_key@,
    {
        let payload: Option<Vec<u8>> = match &self.auth_mode {
            HandshakeAuthMode::Mutual { .. } => Some(u64_to_le_bytes(timestamp_ms)),
            HandshakeAuthMode::ServerOnly => None,
        };
        self.noise_config.initiate_connection(ephemeral, remote_public_key, payload.as_ref())
    }

    /// Checks the responder's fixed-length response and completes the
    /// outbound handshake. On success the session is bound to exactly the
    /// remote static key the handshake was initiated against; a rejected
    /// response aborts with no session created.
    pub fn finalize_outbound(&self, state: HandshakeState, server_response: &Vec<u8>) -> (r:
        Result<NoiseSession, NoiseUpgradeError>)
        ensures
            match r {
                Ok(session) => resp_msg_wf(server_response@) && session@ == state@,
                Err(e) => {
                    &&& !resp_msg_wf(server_response@)
                    &&& e == NoiseUpgradeError::CryptoFailure
                },
            },
    {
        match self.noise_config.finalize_connection(state, server_response) {
            Ok((_payload, session)) => Ok(session),
            Err(_) => Err(NoiseUpgradeError::CryptoFailure),
        }
    }

    /// Runs the inbound (responder) sequence on the received fixed-length
    /// first message, drawing fresh ephemeral material for the response:
    /// parse, then — in mutual mode — the trust check, the payload-shape
    /// check, and the replay check-and-store, in that order, so an
    /// untrusted peer's timestamp is never recorded and no response is
    /// built for a rejected initiator. Returns the fixed-length response to
    /// write in full, and the session bound to the initiator's verified
    /// key.
    pub fn upgrade_inbound(&mut self, client_init_message: &Vec<u8>) -> (r: Result<
        (Vec<u8>, NoiseSession),
        NoiseUpgradeError,
    >)
        requires
            old(self).wf(),
        ensures
            Self::inbound_contract(*old(self), *final(self), client_init_message@, r),
            r matches Ok(out) ==> exists|e: Seq<u8>|
                #![auto]
                e.len() == KEY_LEN && out.0@ == spec_resp_message(e),
    {
        let ephemeral = fresh_ephemeral();
        let r = self.upgrade_inbound_with(client_init_message, &ephemeral);
        proof {
            if r is Ok {
                assert(r matches Ok(out) ==> out.0@ == spec_resp_message(ephemeral@));
            }
        }
        r
    }

    /// The inbound sequence from an explicit ephemeral contribution for the
    /// response message.
    pub fn upgrade_inbound_with(&mut self, client_init_message: &Vec<u8>, ephemeral: &Vec<u8>) -> (r:
        Result<(Vec<u8>, NoiseSession), NoiseUpgradeError>)
        requires
            old(self).wf(),
            ephemeral@.len() == KEY_LEN,
        ensures
            Self::inbound_contract(*old(self), *final(self), client_init_message@, r),
            r matches Ok(out) ==> out.0@ == spec_resp_message(ephemeral@),
    {
        let parsed = self.noise_config.parse_client_init_message(client_init_message);
        let (their_public_key, handshake_state, payload) = match parsed {
            Ok(p) => p,
            Err(_) => {
                return Err(NoiseUpgradeError::CryptoFailure);
            },
        };
        match policy_check(&mut self.auth_mode, &their_public_key, &payload) {
            Ok(_) => {},
            Err(e) => {
                return Err(e);
            },
        }
        let (response, session) = self.noise_config.respond_to_client(handshake_state, ephemeral);
        Ok((response, session))
    }
}

/// Identity agreement across one exchange: whenever a responder accepts a
/// first message that an initiator built, the key it recovers is exactly
/// the initiator's static key. Together with `finalize_outbound`'s
/// postcondition — the initiator's session is bound to the key it dialed —
/// both sides of a completed handshake agree on each other's identity.
pub proof fn lemma_round_trip_identity(
    mode: HandshakeAuthMode,
    e: Seq<u8>,
    s: Seq<u8>,
    payload: Seq<u8>,
)
    requires
        e.len() == KEY_LEN,
        s.len() == KEY_LEN,
        payload.len() <= MAX_PAYLOAD,
    ensures
        init_msg_wf(spec_init_message(e, s, payload)),
        claimed_static(spec_init_message(e, s, payload)) == s,
        init_payload(spec_init_message(e, s, payload)) == payload,
        spec_inbound_decision(mode, spec_init_message(e, s, payload)) matches Ok(d) ==> d.0 == s,
{
    crate::engine::lemma_init_message_round_trip(e, s, payload);
}

/// Mode symmetry, first direction: a server-only initiator sends no
/// payload, so a mutual responder rejects its first message — with
/// `UntrustedPeer` if the claimed key is not trusted, with
/// `MalformedPayload` otherwise — and never silently downgrades.
pub proof fn lemma_server_only_initiator_rejected_by_mutual(
    mode: HandshakeAuthMode,
    e: Seq<u8>,
    s: Seq<u8>,
)
    requires
        e.len() == KEY_LEN,
        s.len() == KEY_LEN,
        mode.is_mutual(),
    ensures
        spec_inbound_decision(mode, spec_init_message(e, s, Seq::empty())) is Err,
        spec_guard_after(mode, spec_init_message(e, s, Seq::empty())) == mode.guard_map(),
{
    crate::engine::lemma_init_message_round_trip(e, s, Seq::empty());
}

/// Mode symmetry, second direction: a mutual initiator's first message is
/// longer than a server-only responder expects. The responder reads only
/// the payload-free prefix, and that truncation fails the parse — the
/// trailer no longer matches — so the exchange aborts instead of silently
/// dropping the timestamp.
pub proof fn lemma_mutual_initiator_rejected_by_server_only(
    mode: HandshakeAuthMode,
    e: Seq<u8>,
    s: Seq<u8>,
    timestamp_ms: u64,
)
    requires
        e.len() == KEY_LEN,
        s.len() == KEY_LEN,
        !mode.is_mutual(),
    ensures
        spec_init_message(e, s, spec_u64_to_le_bytes(timestamp_ms)).len() != spec_init_msg_len(0),
        spec_inbound_decision(
            mode,
            spec_init_message(e, s, spec_u64_to_le_bytes(timestamp_ms)).subrange(
                0,
                spec_init_msg_len(0),
            ),
        ) matches Err(err) && err == NoiseUpgradeError::CryptoFailure,
{
    vstd::bytes::lemma_auto_spec_u64_to_from_le_bytes();
    crate::engine::lemma_truncated_init_message_rejected(e, s, spec_u64_to_le_bytes(timestamp_ms));
}

/// Trust enforcement: a mutual responder whose trusted-peer set does not
/// declare the initiator's claimed key aborts with `UntrustedPeer`, and
/// the replay bounds are left unmodified.
pub proof fn lemma_trust_enforcement(mode: HandshakeAuthMode, m: Seq<u8>)
    requires
        mode.is_mutual(),
        init_msg_wf(m),
        !mode.allows_peer(claimed_static(m)),
    ensures
        spec_inbound_decision(mode, m) matches Err(e) && e == NoiseUpgradeError::UntrustedPeer,
        spec_guard_after(mode, m) == mode.guard_map(),
{
}

/// Replay rejection: once a mutual responder records timestamp `t0` for a
/// peer, a further well-formed, trusted first message from that peer
/// carrying a timestamp at or below `t0` fails with `ReplayedTimestamp`,
/// while one carrying a strictly greater timestamp is accepted and becomes
/// the new bound.
pub proof fn lemma_replay_rejection(mode: HandshakeAuthMode, m: Seq<u8>, t0: u64)
    requires
        mode.is_mutual(),
        init_msg_wf(m),
        mode.allows_peer(claimed_static(m)),
        init_payload(m).len() == PAYLOAD_SIZE,
        mode.guard_map().contains_key(claimed_static(m)),
        mode.guard_map()[claimed_static(m)] == t0,
    ensures
        spec_u64_from_le_bytes(init_payload(m)) <= t0 ==> (spec_inbound_decision(mode, m) matches
        Err(e) && e == NoiseUpgradeError::ReplayedTimestamp),
        spec_u64_from_le_bytes(init_payload(m)) > t0 ==> {
            &&& spec_inbound_decision(mode, m) is Ok
            &&& spec_guard_after(mode, m) == mode.guard_map().insert(
                claimed_static(m),
                spec_u64_from_le_bytes(init_payload(m)),
            )
        },
{
}

} // verus!
