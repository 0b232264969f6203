use sn_node_auth::{
    Address, AppKeyEntry, AppPermissions, AppPublicId, Auth, AuthCmd, AuthDuty, AuthKeysDb,
    AuthQuery, Cmd, CmdError, DataCmd, DataQuery, Error, Message, MessageId, MessagingDuty,
    MsgEnvelope, MsgSender, PublicId, PublicKey, Query, QueryResponse, Signature, TransferCmd,
    TransferQuery, XorName,
};

fn key(b: u8) -> PublicKey {
    PublicKey::Ed25519([b; 32])
}

fn perms(read_balance: bool, history: bool, mutations: bool, transfer: bool) -> AppPermissions {
    AppPermissions {
        read_balance,
        read_transfer_history: history,
        data_mutations: mutations,
        transfer_money: transfer,
    }
}

fn client_sender(k: PublicKey) -> MsgSender {
    MsgSender::Client { key: k, signature: Signature::Ed25519([0; 64]) }
}

fn envelope(message: Message, origin: MsgSender, bytes: Vec<u8>) -> MsgEnvelope {
    MsgEnvelope { message, origin, proxies: vec![], destination: XorName { bytes: [0; 32] }, message_bytes: bytes }
}

fn all_messages() -> Vec<Message> {
    let id = MessageId { id: [5; 32] };
    let ins = AuthCmd::InsAuthKey { client: key(1), key: key(2), version: 0, permissions: perms(true, true, true, true) };
    vec![
        Message::Cmd { cmd: Cmd::Auth(ins), id },
        Message::Cmd { cmd: Cmd::Data(DataCmd::Blob), id },
        Message::Cmd { cmd: Cmd::Transfer(TransferCmd::ValidateTransfer), id },
        Message::Cmd { cmd: Cmd::Transfer(TransferCmd::RegisterTransfer), id },
        Message::Query { query: Query::Auth(AuthQuery::ListAuthKeysAndVersion { client: key(1) }), id },
        Message::Query { query: Query::Data(DataQuery::GetPublic), id },
        Message::Query { query: Query::Data(DataQuery::GetPrivate), id },
        Message::Query { query: Query::Transfer(TransferQuery::GetBalance), id },
        Message::Query { query: Query::Transfer(TransferQuery::GetReplicaKeys), id },
        Message::Query { query: Query::Transfer(TransferQuery::GetHistory), id },
    ]
}

fn is_public_read(m: &Message) -> bool {
    matches!(m, Message::Query { query: Query::Data(DataQuery::GetPublic), .. })
}

fn denied(id: u8, to: Address, error: Error) -> Option<MessagingDuty> {
    Some(MessagingDuty::CmdError { error: CmdError::Auth(error), correlation_id: MessageId { id: [id; 32] }, destination: to })
}

fn signed(message: Message, data: Vec<u8>) -> (MsgEnvelope, [u8; 32], [u8; 64]) {
    let mut rng = rand::thread_rng();
    let keypair = safe_nd::Keypair::new_ed25519(&mut rng);
    let pk = keypair.public_key().ed25519().unwrap().to_bytes();
    let sig = match keypair.sign(&data) {
        safe_nd::Signature::Ed25519(s) => s.to_bytes(),
        _ => panic!("not an ed25519 signature"),
    };
    let origin = MsgSender::Client { key: PublicKey::Ed25519(pk), signature: Signature::Ed25519(sig) };
    (envelope(message, origin, data), pk, sig)
}

#[test]
fn public_read_passes_without_signature() {
    let auth = Auth::new(AuthKeysDb::new());
    let msg = Message::Query { query: Query::Data(DataQuery::GetPublic), id: MessageId { id: [1; 32] } };
    for origin in [client_sender(key(1)), MsgSender::Node { key: key(2) }, MsgSender::Section { key: key(3) }] {
        assert!(auth.verify_client_signature(&envelope(msg, origin, vec![9, 9])).is_none());
    }
}

#[test]
fn signed_message_verifies_and_tampering_fails() {
    let auth = Auth::new(AuthKeysDb::new());
    let message = Message::Cmd { cmd: Cmd::Data(DataCmd::Blob), id: MessageId { id: [11; 32] } };
    let data = vec![1u8, 2, 3, 4, 5, 6, 7, 8];
    let (msg, pk, sig) = signed(message, data.clone());
    assert!(auth.verify_client_signature(&msg).is_none());

    let mut flipped_sig = sig;
    flipped_sig[3] ^= 1;
    let origin = MsgSender::Client { key: PublicKey::Ed25519(pk), signature: Signature::Ed25519(flipped_sig) };
    let bad = envelope(message, origin, data.clone());
    assert_eq!(auth.verify_client_signature(&bad), denied(11, Address::Client(PublicKey::Ed25519(pk)), Error::AccessDenied));

    let mut flipped_data = data;
    flipped_data[0] ^= 0x80;
    let mut bad = msg.clone();
    bad.message_bytes = flipped_data;
    assert!(auth.verify_client_signature(&bad).is_some());
}

#[test]
fn unsigned_sender_is_denied() {
    let auth = Auth::new(AuthKeysDb::new());
    let message = Message::Cmd { cmd: Cmd::Data(DataCmd::Blob), id: MessageId { id: [4; 32] } };
    let msg = envelope(message, MsgSender::Node { key: key(6) }, vec![1]);
    assert_eq!(auth.verify_client_signature(&msg), denied(4, Address::Node(key(6)), Error::AccessDenied));
    let forged = envelope(message, client_sender(key(6)), vec![1]);
    assert_eq!(auth.verify_client_signature(&forged), denied(4, Address::Client(key(6)), Error::AccessDenied));
}

#[test]
fn app_without_grant_may_only_read_public_data() {
    let auth = Auth::new(AuthKeysDb::new());
    let app = PublicId::App(AppPublicId { owner: key(1), key: key(2) });
    for m in all_messages() {
        let r = auth.authorise_app(&app, &envelope(m, client_sender(key(2)), vec![]));
        if is_public_read(&m) {
            assert!(r.is_none());
        } else {
            assert_eq!(r, denied(5, Address::Client(key(2)), Error::AccessDenied));
        }
    }
}

fn grant(auth: &mut Auth, client: PublicKey, app: PublicKey, version: u64, p: AppPermissions) {
    let cmd = AuthCmd::InsAuthKey { client, key: app, version, permissions: p };
    let r = auth.process(AuthDuty::Process { cmd, msg_id: MessageId { id: [77; 32] }, origin: client_sender(client) });
    assert!(r.is_none());
}

#[test]
fn write_and_transfer_needs_both_permissions() {
    let mut auth = Auth::new(AuthKeysDb::new());
    grant(&mut auth, key(1), key(2), 0, perms(false, false, true, false));
    let app = PublicId::App(AppPublicId { owner: key(1), key: key(2) });
    let validate = Message::Cmd { cmd: Cmd::Transfer(TransferCmd::ValidateTransfer), id: MessageId { id: [8; 32] } };
    let r = auth.authorise_app(&app, &envelope(validate, client_sender(key(2)), vec![]));
    assert_eq!(r, denied(8, Address::Client(key(2)), Error::AccessDenied));
    let write = Message::Cmd { cmd: Cmd::Data(DataCmd::MutableMap), id: MessageId { id: [8; 32] } };
    assert!(auth.authorise_app(&app, &envelope(write, client_sender(key(2)), vec![])).is_none());

    grant(&mut auth, key(1), key(2), 1, perms(false, false, true, true));
    assert!(auth.authorise_app(&app, &envelope(validate, client_sender(key(2)), vec![])).is_none());
}

#[test]
fn grant_table_is_applied_per_kind() {
    let mut auth = Auth::new(AuthKeysDb::new());
    grant(&mut auth, key(1), key(2), 0, perms(true, false, false, false));
    let app = PublicId::App(AppPublicId { owner: key(1), key: key(2) });
    let expect_allowed = [false, false, false, false, false, true, true, true, false, false];
    for (m, allowed) in all_messages().into_iter().zip(expect_allowed) {
        let r = auth.authorise_app(&app, &envelope(m, client_sender(key(2)), vec![]));
        assert_eq!(r.is_none(), allowed, "{:?}", m);
    }
    // a grant of another client does not count
    let other = PublicId::App(AppPublicId { owner: key(9), key: key(2) });
    let balance = Message::Query { query: Query::Transfer(TransferQuery::GetBalance), id: MessageId { id: [3; 32] } };
    assert!(auth.authorise_app(&other, &envelope(balance, client_sender(key(2)), vec![])).is_some());
}

#[test]
fn app_check_skipped_for_clients_and_relayed_messages() {
    let auth = Auth::new(AuthKeysDb::new());
    let write = Message::Cmd { cmd: Cmd::Data(DataCmd::Blob), id: MessageId { id: [8; 32] } };
    let msg = envelope(write, client_sender(key(2)), vec![]);
    assert!(auth.authorise_app(&PublicId::Client(key(2)), &msg).is_none());
    let app = PublicId::App(AppPublicId { owner: key(1), key: key(2) });
    let mut relayed = msg.clone();
    relayed.proxies.push(MsgSender::Node { key: key(4) });
    assert!(auth.authorise_app(&app, &relayed).is_none());
    let event = envelope(Message::Event { id: MessageId { id: [1; 32] } }, client_sender(key(2)), vec![]);
    assert!(auth.authorise_app(&app, &event).is_none());
}

#[test]
fn insert_twice_with_same_version_conflicts() {
    let mut auth = Auth::new(AuthKeysDb::new());
    let cmd = AuthCmd::InsAuthKey { client: key(1), key: key(2), version: 0, permissions: perms(true, true, true, true) };
    let duty = AuthDuty::Process { cmd, msg_id: MessageId { id: [12; 32] }, origin: client_sender(key(1)) };
    assert!(auth.process(duty).is_none());
    assert_eq!(auth.process(duty), denied(12, Address::Client(key(1)), Error::VersionConflict { current: 1 }));
    let mut db = AuthKeysDb::new();
    assert_eq!(db.insert(&key(1), key(2), 3, perms(true, true, true, true)), Err(Error::VersionConflict { current: 0 }));
    assert_eq!(db.current_version(&key(1)), 0);
}

#[test]
fn delete_of_unknown_app_is_not_found() {
    let mut auth = Auth::new(AuthKeysDb::new());
    let cmd = AuthCmd::DelAuthKey { client: key(1), key: key(2), version: 0 };
    let duty = AuthDuty::Process { cmd, msg_id: MessageId { id: [13; 32] }, origin: client_sender(key(1)) };
    assert_eq!(auth.process(duty), denied(13, Address::Client(key(1)), Error::KeyNotFound));
    assert_eq!(auth.auth_keys().current_version(&key(1)), 0);
}

#[test]
fn delete_removes_grant_and_moves_version() {
    let mut db = AuthKeysDb::new();
    assert_eq!(db.insert(&key(1), key(2), 0, perms(true, false, false, false)), Ok(()));
    assert_eq!(db.delete(&key(1), key(2), 0), Err(Error::VersionConflict { current: 1 }));
    assert_eq!(db.delete(&key(1), key(2), 1), Ok(()));
    assert_eq!(db.current_version(&key(1)), 2);
    assert_eq!(db.app_permissions(&AppPublicId { owner: key(1), key: key(2) }), None);
    assert_eq!(db.delete(&key(1), key(2), 2), Err(Error::KeyNotFound));
}

#[test]
fn list_returns_the_clients_grants_and_version() {
    let mut auth = Auth::new(AuthKeysDb::new());
    grant(&mut auth, key(1), key(2), 0, perms(true, false, false, false));
    grant(&mut auth, key(1), key(3), 1, perms(false, true, true, false));
    grant(&mut auth, key(5), key(4), 0, perms(true, true, true, true));
    let duty = AuthDuty::ListAuthKeysAndVersion { msg_id: MessageId { id: [21; 32] }, origin: client_sender(key(1)) };
    match auth.process(duty) {
        Some(MessagingDuty::QueryResponse {
            response: QueryResponse::ListAuthKeysAndVersion { keys, version },
            correlation_id,
            destination,
        }) => {
            assert_eq!(version, 2);
            assert_eq!(correlation_id, MessageId { id: [21; 32] });
            assert_eq!(destination, Address::Client(key(1)));
            assert_eq!(keys.len(), 2);
            assert!(keys.contains(&AppKeyEntry { key: key(2), permissions: perms(true, false, false, false) }));
            assert!(keys.contains(&AppKeyEntry { key: key(3), permissions: perms(false, true, true, false) }));
        }
        other => panic!("unexpected {:?}", other),
    }
}

#[test]
fn reinsert_replaces_permissions() {
    let mut db = AuthKeysDb::new();
    assert_eq!(db.insert(&key(1), key(2), 0, perms(true, false, false, false)), Ok(()));
    assert_eq!(db.insert(&key(1), key(2), 1, perms(false, false, false, true)), Ok(()));
    assert_eq!(db.app_permissions(&AppPublicId { owner: key(1), key: key(2) }), Some(perms(false, false, false, true)));
    let (keys, version) = db.list_keys_and_version(&key(1));
    assert_eq!(keys.len(), 1);
    assert_eq!(version, 2);
}

#[test]
fn bls_signed_message_verifies_and_tampering_fails() {
    let auth = Auth::new(AuthKeysDb::new());
    let mut rng = rand::thread_rng();
    let keypair = safe_nd::Keypair::new_bls(&mut rng);
    let pk = keypair.public_key().bls().unwrap().to_bytes();
    let data = vec![4u8, 5, 6, 7];
    let sig = match keypair.sign(&data) {
        safe_nd::Signature::Bls(s) => s.to_bytes(),
        _ => panic!("not a BLS signature"),
    };
    let message = Message::Cmd { cmd: Cmd::Data(DataCmd::Blob), id: MessageId { id: [31; 32] } };
    let origin = MsgSender::Client { key: PublicKey::Bls(pk), signature: Signature::Bls(sig) };
    let msg = envelope(message, origin, data.clone());
    assert!(auth.verify_client_signature(&msg).is_none());

    let mut bad = msg.clone();
    bad.message_bytes[1] ^= 1;
    assert_eq!(auth.verify_client_signature(&bad), denied(31, Address::Client(PublicKey::Bls(pk)), Error::AccessDenied));
}

#[test]
fn bls_share_signed_message_verifies() {
    let auth = Auth::new(AuthKeysDb::new());
    let mut rng = rand::thread_rng();
    let key_set = threshold_crypto::SecretKeySet::random(1, &mut rng);
    let secret_share = key_set.secret_key_share(2u64);
    let pk = secret_share.public_key_share().to_bytes();
    let data = vec![9u8, 8, 7];
    let share = secret_share.sign(&data).to_bytes();
    let message = Message::Cmd { cmd: Cmd::Data(DataCmd::Blob), id: MessageId { id: [32; 32] } };
    let origin = MsgSender::Client { key: PublicKey::BlsShare(pk), signature: Signature::BlsShare { index: 2, share } };
    assert!(auth.verify_client_signature(&envelope(message, origin, data.clone())).is_none());
    let other = key_set.secret_key_share(3u64).sign(&data).to_bytes();
    let origin = MsgSender::Client { key: PublicKey::BlsShare(pk), signature: Signature::BlsShare { index: 3, share: other } };
    assert!(auth.verify_client_signature(&envelope(message, origin, data)).is_some());
}

#[test]
fn key_and_signature_of_different_kinds_never_verify() {
    let auth = Auth::new(AuthKeysDb::new());
    let mut rng = rand::thread_rng();
    let bls = safe_nd::Keypair::new_bls(&mut rng);
    let data = vec![1u8, 2];
    let sig = match bls.sign(&data) {
        safe_nd::Signature::Bls(s) => s.to_bytes(),
        _ => panic!("not a BLS signature"),
    };
    let pk = bls.public_key().bls().unwrap().to_bytes();
    let message = Message::Cmd { cmd: Cmd::Data(DataCmd::Blob), id: MessageId { id: [33; 32] } };
    let origin = MsgSender::Client { key: PublicKey::BlsShare(pk), signature: Signature::Bls(sig) };
    assert!(auth.verify_client_signature(&envelope(message, origin, data)).is_some());
}

#[test]
fn keys_of_different_kinds_differ() {
    assert!(!PublicKey::Bls([1; 48]).same_as(&PublicKey::BlsShare([1; 48])));
    assert!(PublicKey::Bls([1; 48]).same_as(&PublicKey::Bls([1; 48])));
    assert!(!PublicKey::Ed25519([1; 32]).same_as(&PublicKey::Ed25519([2; 32])));
}
