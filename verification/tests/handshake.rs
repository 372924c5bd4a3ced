use noise_handshake::auth::{HandshakeAuthMode, NetworkPeerInfo, PeerId, TrustedPeers};
use noise_handshake::engine::NoiseSession;
use noise_handshake::handshake::{
    ConnectionOrigin, NoiseUpgradeError, NoiseUpgrader, UpgradeStep,
};
use noise_handshake::key::PeerStaticKey;
use noise_handshake::replay::AntiReplayTimestamps;

fn key(byte: u8) -> PeerStaticKey {
    PeerStaticKey::from_bytes(vec![byte; 32]).unwrap()
}

fn trusted_pair(client_public: &PeerStaticKey, server_public: &PeerStaticKey) -> TrustedPeers {
    let mut peers = TrustedPeers::new();
    peers.add(
        PeerId::new(vec![11u8; 16]),
        NetworkPeerInfo { identity_public_key: client_public.duplicate() },
    );
    peers.add(
        PeerId::new(vec![22u8; 16]),
        NetworkPeerInfo { identity_public_key: server_public.duplicate() },
    );
    peers
}

/// helper to set up two testing peers
fn build_peers(
    is_mutual_auth: bool,
) -> ((NoiseUpgrader, PeerStaticKey), (NoiseUpgrader, PeerStaticKey)) {
    let client_private = key(1);
    let client_public = key(1);
    let server_private = key(2);
    let server_public = key(2);

    let (client_auth, server_auth) = if is_mutual_auth {
        let client_auth = HandshakeAuthMode::mutual(trusted_pair(&client_public, &server_public));
        let server_auth = HandshakeAuthMode::mutual(trusted_pair(&client_public, &server_public));
        (client_auth, server_auth)
    } else {
        (HandshakeAuthMode::ServerOnly, HandshakeAuthMode::ServerOnly)
    };

    let client = NoiseUpgrader::new(client_private, client_auth);
    let server = NoiseUpgrader::new(server_private, server_auth);

    ((client, client_public), (server, server_public))
}

/// helper to perform a handshake between two peers, passing each
/// fixed-length message to the other side as it is produced
fn perform_handshake(
    client: &NoiseUpgrader,
    server: &mut NoiseUpgrader,
    server_public_key: &PeerStaticKey,
) -> Result<(NoiseSession, NoiseSession), NoiseUpgradeError> {
    let (first_message, state) = client.upgrade_outbound(server_public_key);
    let (response, server_session) = server.upgrade_inbound(&first_message)?;
    let client_session = client.finalize_outbound(state, &response)?;
    Ok((client_session, server_session))
}

fn test_handshake_success(is_mutual_auth: bool) {
    let ((client, client_public), (mut server, server_public)) = build_peers(is_mutual_auth);
    let (client_session, server_session) =
        perform_handshake(&client, &mut server, &server_public).unwrap();

    assert_eq!(client_session.get_remote_static(), &server_public);
    assert_eq!(server_session.get_remote_static(), &client_public);
}

#[test]
fn test_handshake_server_only_auth() {
    test_handshake_success(false /* is_mutual_auth */);
}

#[test]
fn test_handshake_mutual_auth() {
    test_handshake_success(true /* is_mutual_auth */);
}

#[test]
fn replay_guard_first_contact_accepts_any_timestamp() {
    let guard = AntiReplayTimestamps::new();
    assert!(!guard.is_replay(&key(1), 0));
    assert!(!guard.is_replay(&key(1), u64::MAX));
}

#[test]
fn replay_guard_monotonic_bound() {
    let mut guard = AntiReplayTimestamps::new();
    let peer = key(7);
    guard.store_timestamp(&peer, 100);

    assert!(guard.is_replay(&peer, 99));
    assert!(guard.is_replay(&peer, 100));
    assert!(!guard.is_replay(&peer, 101));
    // another peer is unaffected
    assert!(!guard.is_replay(&key(8), 100));

    // a new store updates the bound
    guard.store_timestamp(&peer, 101);
    assert!(guard.is_replay(&peer, 101));
    assert!(!guard.is_replay(&peer, 102));
}

#[test]
fn upgrade_dispatches_by_origin() {
    let ((client, _), (server, server_public)) = build_peers(false);

    match client.upgrade(ConnectionOrigin::Outbound, Some(&server_public)).unwrap() {
        UpgradeStep::Initiate(message, _state) => assert_eq!(message.len(), 96),
        UpgradeStep::AwaitClientInit => panic!("outbound upgrade must initiate"),
    }
    match server.upgrade(ConnectionOrigin::Inbound, None).unwrap() {
        UpgradeStep::AwaitClientInit => {}
        UpgradeStep::Initiate(..) => panic!("inbound upgrade must await the initiator"),
    }
}

#[test]
fn upgrade_outbound_without_remote_key_is_rejected() {
    let ((client, _), _) = build_peers(false);
    let err = client.upgrade(ConnectionOrigin::Outbound, None).unwrap_err();
    assert_eq!(err, NoiseUpgradeError::MissingRemoteKey);
}

#[test]
fn first_message_layout_is_exact() {
    let ((client, client_public), (_, server_public)) = build_peers(true);
    let ephemeral = vec![9u8; 32];
    let timestamp: u64 = 0x0807_0605_0403_0201;
    let (message, _state) = client.upgrade_outbound_with(&server_public, &ephemeral, timestamp);

    assert_eq!(message.len(), 104);
    assert_eq!(&message[0..32], &ephemeral[..]);
    assert_eq!(&message[32..64], &client_public.as_bytes()[..]);
    assert_eq!(&message[64..80], &[32u8; 16][..]);
    assert_eq!(&message[80..88], &[1, 2, 3, 4, 5, 6, 7, 8][..]);
    assert_eq!(&message[88..104], &[8u8; 16][..]);
}

#[test]
fn server_only_first_message_has_no_payload() {
    let ((client, client_public), (_, server_public)) = build_peers(false);
    let ephemeral = vec![9u8; 32];
    let (message, _state) = client.upgrade_outbound_with(&server_public, &ephemeral, 12345);

    assert_eq!(message.len(), 96);
    assert_eq!(&message[0..32], &ephemeral[..]);
    assert_eq!(&message[32..64], &client_public.as_bytes()[..]);
    assert_eq!(&message[64..80], &[32u8; 16][..]);
    assert_eq!(&message[80..96], &[0u8; 16][..]);
}

#[test]
fn untrusted_peer_is_rejected_and_guard_untouched() {
    let client_public = key(1);
    let server_public = key(2);
    let client = NoiseUpgrader::new(
        key(1),
        HandshakeAuthMode::mutual(trusted_pair(&client_public, &server_public)),
    );
    // the server's trusted set declares only the server itself
    let mut only_server = TrustedPeers::new();
    only_server.add(
        PeerId::new(vec![22u8; 16]),
        NetworkPeerInfo { identity_public_key: server_public.duplicate() },
    );
    let mut server = NoiseUpgrader::new(key(2), HandshakeAuthMode::mutual(only_server));

    let (first_message, _state) =
        client.upgrade_outbound_with(&server_public, &vec![9u8; 32], 777);
    let err = server.upgrade_inbound(&first_message).unwrap_err();
    assert_eq!(err, NoiseUpgradeError::UntrustedPeer);

    // the rejected initiator's timestamp was never recorded
    let guard = server.auth_mode().anti_replay_timestamps().unwrap();
    assert!(!guard.is_replay(&client_public, 777));
}

#[test]
fn replayed_timestamp_is_rejected_and_greater_accepted() {
    let ((client, _), (mut server, server_public)) = build_peers(true);
    let ephemeral = vec![9u8; 32];

    let (first, state) = client.upgrade_outbound_with(&server_public, &ephemeral, 1000);
    let (response, _server_session) = server.upgrade_inbound(&first).unwrap();
    let client_session = client.finalize_outbound(state, &response).unwrap();

    // a non-increasing clock value is rejected as a replay
    let (again, _state) = client.upgrade_outbound_with(&server_public, &ephemeral, 1000);
    let err = server.upgrade_inbound(&again).unwrap_err();
    assert_eq!(err, NoiseUpgradeError::ReplayedTimestamp);
    let (older, _state) = client.upgrade_outbound_with(&server_public, &ephemeral, 999);
    let err = server.upgrade_inbound(&older).unwrap_err();
    assert_eq!(err, NoiseUpgradeError::ReplayedTimestamp);

    // the original session remains valid
    assert_eq!(client_session.get_remote_static(), &server_public);

    // a strictly greater timestamp is accepted
    let (newer, state) = client.upgrade_outbound_with(&server_public, &ephemeral, 1001);
    let (response, _server_session) = server.upgrade_inbound(&newer).unwrap();
    client.finalize_outbound(state, &response).unwrap();
}

#[test]
fn server_only_initiator_fails_against_mutual_responder() {
    let client_public = key(1);
    let server_public = key(2);
    let client = NoiseUpgrader::new(key(1), HandshakeAuthMode::ServerOnly);
    let mut server = NoiseUpgrader::new(
        key(2),
        HandshakeAuthMode::mutual(trusted_pair(&client_public, &server_public)),
    );

    // the trusted initiator sent no timestamp payload: no silent downgrade
    let (first_message, _state) =
        client.upgrade_outbound_with(&server_public, &vec![9u8; 32], 0);
    assert_eq!(first_message.len(), 96);
    let err = server.upgrade_inbound(&first_message).unwrap_err();
    assert_eq!(err, NoiseUpgradeError::MalformedPayload);
}

#[test]
fn mutual_initiator_fails_against_server_only_responder() {
    let client_public = key(1);
    let server_public = key(2);
    let client = NoiseUpgrader::new(
        key(1),
        HandshakeAuthMode::mutual(trusted_pair(&client_public, &server_public)),
    );
    let mut server = NoiseUpgrader::new(key(2), HandshakeAuthMode::ServerOnly);

    let (first_message, _state) =
        client.upgrade_outbound_with(&server_public, &vec![9u8; 32], 1000);
    assert_eq!(first_message.len(), 104);

    // the responder reads only the payload-free length; the truncated
    // message fails the parse
    let truncated = first_message[..96].to_vec();
    let err = server.upgrade_inbound(&truncated).unwrap_err();
    assert_eq!(err, NoiseUpgradeError::CryptoFailure);
}

#[test]
fn corrupt_first_message_is_rejected() {
    let ((client, _), (mut server, server_public)) = build_peers(true);
    let (mut first_message, _state) =
        client.upgrade_outbound_with(&server_public, &vec![9u8; 32], 1000);
    // damage the trailer protecting the static key
    first_message[64] ^= 0xff;
    let err = server.upgrade_inbound(&first_message).unwrap_err();
    assert_eq!(err, NoiseUpgradeError::CryptoFailure);
}

#[test]
fn corrupt_response_fails_finalize() {
    let ((client, _), (mut server, server_public)) = build_peers(false);
    let (first_message, state) = client.upgrade_outbound(&server_public);
    let (mut response, _server_session) = server.upgrade_inbound(&first_message).unwrap();

    // wrong length
    let (_, state2) = client.upgrade_outbound(&server_public);
    let err = client.finalize_outbound(state2, &vec![0u8; 10]).unwrap_err();
    assert_eq!(err, NoiseUpgradeError::CryptoFailure);

    // right length, damaged trailer
    response[40] ^= 0xff;
    let err = client.finalize_outbound(state, &response).unwrap_err();
    assert_eq!(err, NoiseUpgradeError::CryptoFailure);
}

#[test]
fn rejected_key_lengths() {
    assert!(PeerStaticKey::from_bytes(vec![1u8; 31]).is_none());
    assert!(PeerStaticKey::from_bytes(vec![1u8; 33]).is_none());
    assert!(PeerStaticKey::from_bytes(Vec::new()).is_none());
    assert!(PeerStaticKey::from_bytes(vec![1u8; 32]).is_some());
}
