//! Handshake authentication policy: mutual or server-only.

use crate::key::PeerStaticKey;
use crate::replay::AntiReplayTimestamps;
use vstd::prelude::*;

verus! {

/// An opaque identifier for a peer, as registered in the trusted-peer set.
/// The handshake itself never reads it; lookups go by declared identity key.
#[derive(Debug, PartialEq, Eq)]
pub struct PeerId {
    bytes: Vec<u8>,
}

impl View for PeerId {
    type V = Seq<u8>;

    closed spec fn view(&self) -> Seq<u8> {
        self.bytes@
    }
}

impl PeerId {
    /// Wraps raw identifier bytes.
    pub fn new(bytes: Vec<u8>) -> (r: PeerId)
        ensures
            r@ == bytes@,
    {
        PeerId { bytes }
    }
}

/// The network information declared for a trusted peer. The handshake reads
/// only the declared identity key.
pub struct NetworkPeerInfo {
    /// The long-term identity key this peer is expected to authenticate with.
    pub identity_public_key: PeerStaticKey,
}

/// The set of peers allowed to connect under mutual authentication: a mapping
/// from peer identifier to declared identity key, viewed as the sequence of
/// (identifier bytes, key bytes) pairs in insertion order.
pub struct TrustedPeers {
    entries: Vec<(PeerId, NetworkPeerInfo)>,
}

impl View for TrustedPeers {
    type V = Seq<(Seq<u8>, Seq<u8>)>;

    closed spec fn view(&self) -> Seq<(Seq<u8>, Seq<u8>)> {
        Seq::new(
            self.entries@.len(),
            |i: int| (self.entries@[i].0@, self.entries@[i].1.identity_public_key@),
        )
    }
}

impl TrustedPeers {
    /// Whether some entry declares `key` as its identity key.
    pub open spec fn trusts(&self, key: Seq<u8>) -> bool {
        exists|i: int| 0 <= i < self@.len() && self@[i].1 == key
    }

    /// An empty set: no peer is trusted.
    pub fn new() -> (r: TrustedPeers)
        ensures
            r@ == Seq::<(Seq<u8>, Seq<u8>)>::empty(),
    {
        let r = TrustedPeers { entries: Vec::new() };
        proof {
            assert(r@ =~= Seq::<(Seq<u8>, Seq<u8>)>::empty());
        }
        r
    }

    /// Registers a peer and the identity key it is expected to use.
    pub fn add(&mut self, peer_id: PeerId, info: NetworkPeerInfo)
        ensures
            final(self)@ == old(self)@.push((peer_id@, info.identity_public_key@)),
    {
        let ghost k = info.identity_public_key@;
        let ghost id = peer_id@;
        self.entries.push((peer_id, info));
        proof {
            assert(final(self)@ =~= old(self)@.push((id, k)));
        }
    }

    /// Whether any entry's declared identity key equals `key`.
    pub fn contains_identity(&self, key: &PeerStaticKey) -> (r: bool)
        ensures
            r == self.trusts(key@),
    {
        let mut i: usize = 0;
        while i < self.entries.len()
            invariant
                i <= self.entries@.len(),
                self@.len() == self.entries@.len(),
                forall|j: int| 0 <= j < i ==> self@[j].1 != key@,
                forall|j: int|
                    0 <= j < self.entries@.len() ==> self@[j].1
                        == self.entries@[j].1.identity_public_key@,
            decreases self.entries@.len() - i,
        {
            if self.entries[i].1.identity_public_key.eq_key(key) {
                proof {
                    assert(self@[i as int].1 == key@);
                }
                return true;
            }
            i = i + 1;
        }
        false
    }
}

/// The authentication mode of a handshake endpoint, fixed at construction.
pub enum HandshakeAuthMode {
    /// Both sides authenticate each other against the trusted-peer set, and
    /// inbound initiations must carry a strictly increasing timestamp,
    /// tracked by the anti-replay cache.
    Mutual {
        /// Last accepted timestamp per peer, for replay rejection.
        anti_replay_timestamps: AntiReplayTimestamps,
        /// The peers allowed to connect, by declared identity key.
        trusted_peers: TrustedPeers,
    },
    /// The dialer authenticates the server, but the server accepts inbound
    /// connections from any peer, with no trust or replay checks and no
    /// timestamp payload.
    ServerOnly,
}

impl HandshakeAuthMode {
    /// The backing trusted-peer set, present exactly in mutual mode.
    pub open spec fn spec_trusted_peers(&self) -> Option<TrustedPeers> {
        match *self {
            HandshakeAuthMode::Mutual { trusted_peers, .. } => Some(trusted_peers),
            HandshakeAuthMode::ServerOnly => None,
        }
    }

    /// The backing anti-replay cache, present exactly in mutual mode.
    pub open spec fn spec_replay_guard(&self) -> Option<AntiReplayTimestamps> {
        match *self {
            HandshakeAuthMode::Mutual { anti_replay_timestamps, .. } => Some(
                anti_replay_timestamps,
            ),
            HandshakeAuthMode::ServerOnly => None,
        }
    }

    /// Whether the policy performs peer-identity and replay checks.
    pub open spec fn is_mutual(&self) -> bool {
        self.spec_trusted_peers() is Some
    }

    /// The recorded anti-replay bounds; empty outside mutual mode.
    pub open spec fn guard_map(&self) -> Map<Seq<u8>, u64> {
        match *self {
            HandshakeAuthMode::Mutual { anti_replay_timestamps, .. } => anti_replay_timestamps@,
            HandshakeAuthMode::ServerOnly => Map::empty(),
        }
    }

    /// Whether the policy lets an initiator claiming `key` proceed: in mutual
    /// mode the key must be declared by some trusted peer; server-only mode
    /// accepts any identity claim.
    pub open spec fn allows_peer(&self, key: Seq<u8>) -> bool {
        match *self {
            HandshakeAuthMode::Mutual { trusted_peers, .. } => trusted_peers.trusts(key),
            HandshakeAuthMode::ServerOnly => true,
        }
    }

    /// Internal consistency of the backing anti-replay cache.
    pub open spec fn wf(&self) -> bool {
        match *self {
            HandshakeAuthMode::Mutual { anti_replay_timestamps, .. } => anti_replay_timestamps.wf(),
            HandshakeAuthMode::ServerOnly => true,
        }
    }

    /// Builds a `Mutual` policy over the given trusted-peer set, with an
    /// initially empty anti-replay cache.
    pub fn mutual(trusted_peers: TrustedPeers) -> (r: HandshakeAuthMode)
        ensures
            r.spec_trusted_peers() == Some(trusted_peers),
            r.guard_map() == Map::<Seq<u8>, u64>::empty(),
            r.wf(),
    {
        HandshakeAuthMode::Mutual {
            anti_replay_timestamps: AntiReplayTimestamps::new(),
            trusted_peers,
        }
    }

    /// The backing trusted-peer set in mutual mode; `None` means no
    /// restriction on who may connect.
    pub fn trusted_peers(&self) -> (r: Option<&TrustedPeers>)
        ensures
            match r {
                Some(tp) => self.spec_trusted_peers() == Some(*tp),
                None => self.spec_trusted_peers() is None,
            },
    {
        match self {
            HandshakeAuthMode::Mutual { trusted_peers, .. } => Some(trusted_peers),
            HandshakeAuthMode::ServerOnly => None,
        }
    }

    /// The backing anti-replay cache in mutual mode; `None` means replay
    /// checks are not performed.
    pub fn anti_replay_timestamps(&self) -> (r: Option<&AntiReplayTimestamps>)
        ensures
            match r {
                Some(g) => self.spec_replay_guard() == Some(*g),
                None => self.spec_replay_guard() is None,
            },
    {
        match self {
            HandshakeAuthMode::Mutual { anti_replay_timestamps, .. } => Some(
                anti_replay_timestamps,
            ),
            HandshakeAuthMode::ServerOnly => None,
        }
    }
}

} // verus!
