use vstd::prelude::*;

verus! {

/// A public key, as the bytes of its kind: an ed25519 key, a BLS key, or a
/// BLS key share of a section's key set.
#[derive(Clone, Copy, Debug, PartialEq, Eq)]
pub enum PublicKey {
    Ed25519([u8; 32]),
    Bls([u8; 48]),
    BlsShare([u8; 48]),
}

/// A signature, as the bytes of its kind. A BLS signature share also carries
/// its index in the section's key set.
#[derive(Clone, Copy, Debug, PartialEq, Eq)]
pub enum Signature {
    Ed25519([u8; 64]),
    Bls([u8; 96]),
    BlsShare { index: usize, share: [u8; 96] },
}

/// A 256-bit address in the network's address space.
#[derive(Clone, Copy, Debug, PartialEq, Eq)]
pub struct XorName {
    pub bytes: [u8; 32],
}

/// Identifies one message by a 256-bit name; replies carry it as their
/// correlation id.
#[derive(Clone, Copy, Debug, PartialEq, Eq)]
pub struct MessageId {
    pub id: [u8; 32],
}

/// Byte-wise comparison of two byte arrays of one length.
pub fn bytes_eq<const N: usize>(a: &[u8; N], b: &[u8; N]) -> (r: bool)
    ensures
        r == (*a == *b),
{
    let mut i: usize = 0;
    while i < N
        invariant
            i <= N,
            a@.len() == N,
            b@.len() == N,
            forall|j: int| 0 <= j < i ==> a@[j] == b@[j],
        decreases N - i,
    {
        if a[i] != b[i] {
            return false;
        }
        i = i + 1;
    }
    assert(*a =~= *b);
    true
}

impl PublicKey {
    /// Whether two keys are of one kind with the same bytes.
    pub fn same_as(&self, other: &PublicKey) -> (r: bool)
        ensures
            r == (*self == *other),
    {
        match (self, other) {
            (PublicKey::Ed25519(a), PublicKey::Ed25519(b)) => bytes_eq(a, b),
            (PublicKey::Bls(a), PublicKey::Bls(b)) => bytes_eq(a, b),
            (PublicKey::BlsShare(a), PublicKey::BlsShare(b)) => bytes_eq(a, b),
            _ => false,
        }
    }
}

/// What a client has allowed one of its apps to do.
#[derive(Clone, Copy, Debug, PartialEq, Eq, Structural)]
pub struct AppPermissions {
    pub read_balance: bool,
    pub read_transfer_history: bool,
    pub data_mutations: bool,
    pub transfer_money: bool,
}

/// An app acting on behalf of the client that owns it.
#[derive(Clone, Copy, Debug, PartialEq, Eq)]
pub struct AppPublicId {
    pub owner: PublicKey,
    pub key: PublicKey,
}

/// The identity a request is attributed to.
#[derive(Clone, Copy, Debug, PartialEq, Eq)]
pub enum PublicId {
    Client(PublicKey),
    App(AppPublicId),
    Node(PublicKey),
}

/// Where a reply is sent.
#[derive(Clone, Copy, Debug, PartialEq, Eq)]
pub enum Address {
    Client(PublicKey),
    Node(PublicKey),
    Section(PublicKey),
}

/// The sender of a message, with the proof it carries where it has one.
#[derive(Clone, Copy, Debug, PartialEq, Eq)]
pub enum MsgSender {
    Client { key: PublicKey, signature: Signature },
    App { app: AppPublicId },
    Node { key: PublicKey },
    Section { key: PublicKey },
}

impl MsgSender {
    pub open spec fn spec_address(&self) -> Address {
        match *self {
            MsgSender::Client { key, .. } => Address::Client(key),
            MsgSender::App { app } => Address::Client(app.key),
            MsgSender::Node { key } => Address::Node(key),
            MsgSender::Section { key } => Address::Section(key),
        }
    }

    pub open spec fn spec_id(&self) -> PublicKey {
        match *self {
            MsgSender::Client { key, .. } => key,
            MsgSender::App { app } => app.key,
            MsgSender::Node { key } => key,
            MsgSender::Section { key } => key,
        }
    }

    /// The address that replies to this sender go to.
    #[verifier::when_used_as_spec(spec_address)]
    pub fn address(&self) -> (r: Address)
        ensures
            r == self.spec_address(),
    {
        match *self {
            MsgSender::Client { key, .. } => Address::Client(key),
            MsgSender::App { app } => Address::Client(app.key),
            MsgSender::Node { key } => Address::Node(key),
            MsgSender::Section { key } => Address::Section(key),
        }
    }

    /// The public key of this sender.
    #[verifier::when_used_as_spec(spec_id)]
    pub fn id(&self) -> (r: PublicKey)
        ensures
            r == self.spec_id(),
    {
        match *self {
            MsgSender::Client { key, .. } => key,
            MsgSender::App { app } => app.key,
            MsgSender::Node { key } => key,
            MsgSender::Section { key } => key,
        }
    }
}

/// The permission an operation needs, by area.
#[derive(Clone, Copy, Debug, PartialEq, Eq, Structural)]
pub enum DataAuthKind {
    PublicRead,
    PrivateRead,
    Write,
}

#[derive(Clone, Copy, Debug, PartialEq, Eq, Structural)]
pub enum MoneyAuthKind {
    ReadBalance,
    ReadHistory,
    Transfer,
}

#[derive(Clone, Copy, Debug, PartialEq, Eq, Structural)]
pub enum MiscAuthKind {
    WriteAndTransfer,
    ManageAppKeys,
}

#[derive(Clone, Copy, Debug, PartialEq, Eq, Structural)]
pub enum AuthorisationKind {
    Data(DataAuthKind),
    Money(MoneyAuthKind),
    Misc(MiscAuthKind),
    Denied,
}

/// Commands that manage a client's app keys.
#[derive(Clone, Copy, Debug, PartialEq, Eq)]
pub enum AuthCmd {
    InsAuthKey { client: PublicKey, key: PublicKey, version: u64, permissions: AppPermissions },
    DelAuthKey { client: PublicKey, key: PublicKey, version: u64 },
}

#[derive(Clone, Copy, Debug, PartialEq, Eq)]
pub enum AuthQuery {
    ListAuthKeysAndVersion { client: PublicKey },
}

/// Writes of stored data; each is paid for.
#[derive(Clone, Copy, Debug, PartialEq, Eq, Structural)]
pub enum DataCmd {
    Blob,
    MutableMap,
    Sequence,
    Account,
}

#[derive(Clone, Copy, Debug, PartialEq, Eq, Structural)]
pub enum DataQuery {
    GetPublic,
    GetPrivate,
}

#[derive(Clone, Copy, Debug, PartialEq, Eq, Structural)]
pub enum TransferCmd {
    ValidateTransfer,
    RegisterTransfer,
}

#[derive(Clone, Copy, Debug, PartialEq, Eq, Structural)]
pub enum TransferQuery {
    GetBalance,
    GetReplicaKeys,
    GetHistory,
}

#[derive(Clone, Copy, Debug, PartialEq, Eq)]
pub enum Cmd {
    Auth(AuthCmd),
    Data(DataCmd),
    Transfer(TransferCmd),
}

#[derive(Clone, Copy, Debug, PartialEq, Eq)]
pub enum Query {
    Auth(AuthQuery),
    Data(DataQuery),
    Transfer(TransferQuery),
}

/// The payload of an envelope.
#[derive(Clone, Copy, Debug, PartialEq, Eq)]
pub enum Message {
    Cmd { cmd: Cmd, id: MessageId },
    Query { query: Query, id: MessageId },
    Event { id: MessageId },
}

impl Cmd {
    pub open spec fn spec_authorisation_kind(&self) -> AuthorisationKind {
        match *self {
            Cmd::Auth(_) => AuthorisationKind::Misc(MiscAuthKind::ManageAppKeys),
            Cmd::Data(_) => AuthorisationKind::Data(DataAuthKind::Write),
            Cmd::Transfer(TransferCmd::ValidateTransfer) => AuthorisationKind::Misc(
                MiscAuthKind::WriteAndTransfer,
            ),
            Cmd::Transfer(TransferCmd::RegisterTransfer) => AuthorisationKind::Denied,
        }
    }

    /// The permission this command needs.
    #[verifier::when_used_as_spec(spec_authorisation_kind)]
    pub fn authorisation_kind(&self) -> (r: AuthorisationKind)
        ensures
            r == self.spec_authorisation_kind(),
    {
        match *self {
            Cmd::Auth(_) => AuthorisationKind::Misc(MiscAuthKind::ManageAppKeys),
            Cmd::Data(_) => AuthorisationKind::Data(DataAuthKind::Write),
            Cmd::Transfer(TransferCmd::ValidateTransfer) => AuthorisationKind::Misc(
                MiscAuthKind::WriteAndTransfer,
            ),
            Cmd::Transfer(TransferCmd::RegisterTransfer) => AuthorisationKind::Denied,
        }
    }
}

impl Query {
    pub open spec fn spec_authorisation_kind(&self) -> AuthorisationKind {
        match *self {
            Query::Auth(_) => AuthorisationKind::Misc(MiscAuthKind::ManageAppKeys),
            Query::Data(DataQuery::GetPublic) => AuthorisationKind::Data(DataAuthKind::PublicRead),
            Query::Data(DataQuery::GetPrivate) => AuthorisationKind::Data(
                DataAuthKind::PrivateRead,
            ),
            Query::Transfer(TransferQuery::GetBalance) => AuthorisationKind::Money(
                MoneyAuthKind::ReadBalance,
            ),
            Query::Transfer(TransferQuery::GetReplicaKeys) => AuthorisationKind::Denied,
            Query::Transfer(TransferQuery::GetHistory) => AuthorisationKind::Money(
                MoneyAuthKind::ReadHistory,
            ),
        }
    }

    /// The permission this query needs.
    #[verifier::when_used_as_spec(spec_authorisation_kind)]
    pub fn authorisation_kind(&self) -> (r: AuthorisationKind)
        ensures
            r == self.spec_authorisation_kind(),
    {
        match *self {
            Query::Auth(_) => AuthorisationKind::Misc(MiscAuthKind::ManageAppKeys),
            Query::Data(DataQuery::GetPublic) => AuthorisationKind::Data(DataAuthKind::PublicRead),
            Query::Data(DataQuery::GetPrivate) => AuthorisationKind::Data(
                DataAuthKind::PrivateRead,
            ),
            Query::Transfer(TransferQuery::GetBalance) => AuthorisationKind::Money(
                MoneyAuthKind::ReadBalance,
            ),
            Query::Transfer(TransferQuery::GetReplicaKeys) => AuthorisationKind::Denied,
            Query::Transfer(TransferQuery::GetHistory) => AuthorisationKind::Money(
                MoneyAuthKind::ReadHistory,
            ),
        }
    }
}

impl Message {
    pub open spec fn spec_id(&self) -> MessageId {
        match *self {
            Message::Cmd { id, .. } => id,
            Message::Query { id, .. } => id,
            Message::Event { id } => id,
        }
    }

    pub open spec fn spec_authorisation_kind(&self) -> AuthorisationKind {
        match *self {
            Message::Cmd { cmd, .. } => cmd.authorisation_kind(),
            Message::Query { query, .. } => query.authorisation_kind(),
            Message::Event { .. } => AuthorisationKind::Denied,
        }
    }

    #[verifier::when_used_as_spec(spec_id)]
    pub fn id(&self) -> (r: MessageId)
        ensures
            r == self.spec_id(),
    {
        match *self {
            Message::Cmd { id, .. } => id,
            Message::Query { id, .. } => id,
            Message::Event { id } => id,
        }
    }

    /// The permission this message needs; an event needs one that is never granted.
    #[verifier::when_used_as_spec(spec_authorisation_kind)]
    pub fn authorisation_kind(&self) -> (r: AuthorisationKind)
        ensures
            r == self.spec_authorisation_kind(),
    {
        match *self {
            Message::Cmd { cmd, .. } => cmd.authorisation_kind(),
            Message::Query { query, .. } => query.authorisation_kind(),
            Message::Event { .. } => AuthorisationKind::Denied,
        }
    }
}

/// A message with its sender, the nodes that passed it on, its destination,
/// and the bytes of the message as they were signed. Whoever builds an
/// envelope must set `message_bytes` to the serialisation of `message`: the
/// signature is checked over those bytes, while authorisation and
/// classification read `message`.
#[derive(Clone, Debug, PartialEq, Eq)]
pub struct MsgEnvelope {
    pub message: Message,
    pub origin: MsgSender,
    pub proxies: Vec<MsgSender>,
    pub destination: XorName,
    pub message_bytes: Vec<u8>,
}

impl MsgEnvelope {
    pub open spec fn spec_most_recent_sender(&self) -> MsgSender {
        if self.proxies@.len() == 0 {
            self.origin
        } else {
            self.proxies@.last()
        }
    }

    #[verifier::when_used_as_spec(spec_most_recent_sender)]
    pub fn most_recent_sender(&self) -> (r: MsgSender)
        ensures
            r == self.spec_most_recent_sender(),
    {
        let n = self.proxies.len();
        if n == 0 {
            self.origin
        } else {
            self.proxies[n - 1]
        }
    }

    pub fn id(&self) -> (r: MessageId)
        ensures
            r == self.message.id(),
    {
        self.message.id()
    }

    pub fn authorisation_kind(&self) -> (r: AuthorisationKind)
        ensures
            r == self.message.authorisation_kind(),
    {
        self.message.authorisation_kind()
    }
}

/// The errors of authorisation and of the key store.
#[derive(Clone, Copy, Debug, PartialEq, Eq, Structural)]
pub enum Error {
    AccessDenied,
    VersionConflict { current: u64 },
    KeyNotFound,
    SignatureInvalid,
}

#[derive(Clone, Copy, Debug, PartialEq, Eq, Structural)]
pub enum CmdError {
    Auth(Error),
}

/// An app key with the permissions granted to it.
#[derive(Clone, Copy, Debug, PartialEq, Eq)]
pub struct AppKeyEntry {
    pub key: PublicKey,
    pub permissions: AppPermissions,
}

#[derive(Clone, Debug, PartialEq, Eq)]
pub enum QueryResponse {
    ListAuthKeysAndVersion { keys: Vec<AppKeyEntry>, version: u64 },
}

/// An outbound message, handed to the messaging layer for sending.
#[derive(Clone, Debug, PartialEq, Eq)]
pub enum MessagingDuty {
    CmdError { error: CmdError, correlation_id: MessageId, destination: Address },
    QueryResponse { response: QueryResponse, correlation_id: MessageId, destination: Address },
}

} // verus!
