use crate::auth_keys::{lists_keys, AuthKeysDb};
use crate::signing::{signature_valid, verify_signature};
use crate::types::{
    AppPermissions, AppPublicId, AuthCmd, AuthorisationKind, CmdError, DataAuthKind, Error,
    Message, MessageId, MessagingDuty, MiscAuthKind, MoneyAuthKind, MsgEnvelope, MsgSender,
    PublicId, QueryResponse,
};
use vstd::prelude::*;

verus! {

/// Work for the authorisation duty, handed over once the section has agreed on it.
#[derive(Clone, Copy, Debug)]
pub enum AuthDuty {
    Process { cmd: AuthCmd, msg_id: MessageId, origin: MsgSender },
    ListAuthKeysAndVersion { msg_id: MessageId, origin: MsgSender },
}

/// Whether granted permissions `p` cover an operation of kind `kind`.
pub open spec fn permits(kind: AuthorisationKind, p: AppPermissions) -> bool {
    match kind {
        AuthorisationKind::Data(DataAuthKind::PublicRead) => true,
        AuthorisationKind::Data(DataAuthKind::PrivateRead) => true,
        AuthorisationKind::Data(DataAuthKind::Write) => p.data_mutations,
        AuthorisationKind::Money(MoneyAuthKind::ReadBalance) => p.read_balance,
        AuthorisationKind::Money(MoneyAuthKind::ReadHistory) => p.read_transfer_history,
        AuthorisationKind::Money(MoneyAuthKind::Transfer) => p.transfer_money,
        AuthorisationKind::Misc(MiscAuthKind::WriteAndTransfer) => p.transfer_money
            && p.data_mutations,
        AuthorisationKind::Misc(MiscAuthKind::ManageAppKeys) => false,
        AuthorisationKind::Denied => false,
    }
}

/// Whether an app holding `grant` (none if it has no key) may perform an
/// operation of kind `kind`. Public reads need no grant; app-key management
/// and the kind that is never granted are refused to every app.
pub open spec fn app_allowed(kind: AuthorisationKind, grant: Option<AppPermissions>) -> bool {
    match kind {
        AuthorisationKind::Data(DataAuthKind::PublicRead) => true,
        AuthorisationKind::Misc(MiscAuthKind::ManageAppKeys) => false,
        AuthorisationKind::Denied => false,
        _ => match grant {
            Some(p) => permits(kind, p),
            None => false,
        },
    }
}

/// The error reply for a message with id `msg_id` from `origin`.
pub open spec fn denial(msg_id: MessageId, origin: MsgSender, error: Error) -> MessagingDuty {
    MessagingDuty::CmdError {
        error: CmdError::Auth(error),
        correlation_id: msg_id,
        destination: origin.address(),
    }
}

/// The message is signed by the client it claims to come from.
pub open spec fn client_signature_valid(msg: MsgEnvelope) -> bool {
    match msg.origin {
        MsgSender::Client { key, signature } => signature_valid(
            key,
            signature,
            msg.message_bytes@,
        ),
        _ => false,
    }
}

/// The app check applies: the identity is an app, the message last came from
/// a client, and it is a command or a query.
pub open spec fn app_check_applies(public_id: PublicId, msg: MsgEnvelope) -> bool {
    &&& public_id is App
    &&& msg.most_recent_sender() is Client
    &&& (msg.message is Cmd || msg.message is Query)
}

/// Signature checks, app permission checks, and the client key store that
/// agreed authorisation commands change.
pub struct Auth {
    auth_keys: AuthKeysDb,
}

impl Auth {
    pub closed spec fn store(&self) -> AuthKeysDb {
        self.auth_keys
    }

    pub open spec fn wf(&self) -> bool {
        self.store().wf()
    }

    pub fn new(auth_keys: AuthKeysDb) -> (r: Auth)
        requires
            auth_keys.wf(),
        ensures
            r.wf(),
            r.store() == auth_keys,
    {
        Auth { auth_keys }
    }

    /// The key store.
    pub fn auth_keys(&self) -> (r: &AuthKeysDb)
        ensures
            *r == self.store(),
    {
        &self.auth_keys
    }

    /// Carries out an agreed duty: applies a key command to the key store of
    /// the sending client, or lists that client's keys. A command that
    /// succeeds gets no reply; one that fails gets the error.
    pub fn process(&mut self, duty: AuthDuty) -> (r: Option<MessagingDuty>)
        requires
            old(self).wf(),
        ensures
            final(self).wf(),
            match duty {
                AuthDuty::Process { cmd, msg_id, origin } => cmd_applied(
                    old(self).store(),
                    final(self).store(),
                    cmd,
                    msg_id,
                    origin,
                    r,
                ),
                AuthDuty::ListAuthKeysAndVersion { msg_id, origin } => {
                    &&& final(self).store() == old(self).store()
                    &&& keys_listed(old(self).store(), msg_id, origin, r)
                },
            },
    {
        match duty {
            AuthDuty::Process { cmd, msg_id, origin } => self.process_cmd(cmd, msg_id, origin),
            AuthDuty::ListAuthKeysAndVersion { msg_id, origin } => Some(
                self.list_auth_keys_and_version(msg_id, origin),
            ),
        }
    }

    fn list_auth_keys_and_version(&self, msg_id: MessageId, origin: MsgSender) -> (r:
        MessagingDuty)
        requires
            self.wf(),
        ensures
            keys_listed(self.store(), msg_id, origin, Some(r)),
    {
        let (keys, version) = self.auth_keys.list_keys_and_version(&origin.id());
        MessagingDuty::QueryResponse {
            response: QueryResponse::ListAuthKeysAndVersion { keys, version },
            correlation_id: msg_id,
            destination: origin.address(),
        }
    }

    fn process_cmd(&mut self, cmd: AuthCmd, msg_id: MessageId, origin: MsgSender) -> (r: Option<
        MessagingDuty,
    >)
        requires
            old(self).wf(),
        ensures
            final(self).wf(),
            cmd_applied(old(self).store(), final(self).store(), cmd, msg_id, origin, r),
    {
        let client = origin.id();
        let result = match cmd {
            AuthCmd::InsAuthKey { key, version, permissions, .. } => self.auth_keys.insert(
                &client,
                key,
                version,
                permissions,
            ),
            AuthCmd::DelAuthKey { key, version, .. } => self.auth_keys.delete(
                &client,
                key,
                version,
            ),
        };
        match result {
            Err(error) => Some(
                MessagingDuty::CmdError {
                    error: CmdError::Auth(error),
                    correlation_id: msg_id,
                    destination: origin.address(),
                },
            ),
            Ok(()) => None,
        }
    }

    /// Checks the signature of a message that needs one. Public reads pass
    /// unsigned; any other message must come from a client whose signature
    /// over the message bytes verifies, else access is denied.
    pub fn verify_client_signature(&self, msg: &MsgEnvelope) -> (r: Option<MessagingDuty>)
        ensures
            r == (if msg.message.authorisation_kind() == AuthorisationKind::Data(
                DataAuthKind::PublicRead,
            ) || client_signature_valid(*msg) {
                None
            } else {
                Some(denial(msg.message.id(), msg.origin, Error::AccessDenied))
            }),
            msg.message.authorisation_kind() == AuthorisationKind::Data(DataAuthKind::PublicRead)
                ==> r is None,
    {
        match msg.authorisation_kind() {
            AuthorisationKind::Data(DataAuthKind::PublicRead) => None,
            _ => {
                if self.is_valid_client_signature(msg) {
                    None
                } else {
                    Some(
                        MessagingDuty::CmdError {
                            error: CmdError::Auth(Error::AccessDenied),
                            correlation_id: msg.id(),
                            destination: msg.origin.address(),
                        },
                    )
                }
            },
        }
    }

    fn is_valid_client_signature(&self, msg: &MsgEnvelope) -> (r: bool)
        ensures
            r == client_signature_valid(*msg),
    {
        match msg.origin {
            MsgSender::Client { key, signature } => verify_signature(
                &key,
                &signature,
                &msg.message_bytes,
            ),
            _ => false,
        }
    }

    /// When an app sends a command or query through its client, checks that
    /// the client has granted the app what the operation needs; otherwise
    /// there is nothing to check.
    pub fn authorise_app(&self, public_id: &PublicId, msg: &MsgEnvelope) -> (r: Option<
        MessagingDuty,
    >)
        requires
            self.wf(),
        ensures
            r == (if app_check_applies(*public_id, *msg) && !app_allowed(
                msg.message.authorisation_kind(),
                self.store().permissions(public_id->App_0.owner, public_id->App_0.key),
            ) {
                Some(denial(msg.message.id(), msg.origin, Error::AccessDenied))
            } else {
                None
            }),
            app_check_applies(*public_id, *msg) && self.store().permissions(
                public_id->App_0.owner,
                public_id->App_0.key,
            ) is None ==> (r is None <==> msg.message.authorisation_kind()
                == AuthorisationKind::Data(DataAuthKind::PublicRead)),
    {
        let app_id = match public_id {
            PublicId::App(app_id) => app_id,
            _ => return None,
        };
        match msg.most_recent_sender() {
            MsgSender::Client { .. } => {},
            _ => return None,
        }
        let auth_kind = match &msg.message {
            Message::Cmd { cmd, .. } => cmd.authorisation_kind(),
            Message::Query { query, .. } => query.authorisation_kind(),
            _ => return None,
        };
        let result = match auth_kind {
            AuthorisationKind::Data(DataAuthKind::PublicRead) => Ok(()),
            AuthorisationKind::Misc(MiscAuthKind::ManageAppKeys) => Err(Error::AccessDenied),
            AuthorisationKind::Denied => Err(Error::AccessDenied),
            _ => self.check_app_permissions(app_id, auth_kind),
        };
        match result {
            Err(error) => Some(
                MessagingDuty::CmdError {
                    error: CmdError::Auth(error),
                    correlation_id: msg.message.id(),
                    destination: msg.origin.address(),
                },
            ),
            Ok(()) => None,
        }
    }

    fn check_app_permissions(&self, app_id: &AppPublicId, kind: AuthorisationKind) -> (r: Result<
        (),
        Error,
    >)
        requires
            self.wf(),
        ensures
            r == (match self.store().permissions(app_id.owner, app_id.key) {
                Some(p) => if permits(kind, p) {
                    Ok(())
                } else {
                    Err(Error::AccessDenied)
                },
                None => Err(Error::AccessDenied),
            }),
    {
        match self.auth_keys.app_permissions(app_id) {
            Some(p) => {
                if allows(kind, p) {
                    Ok(())
                } else {
                    Err(Error::AccessDenied)
                }
            },
            None => Err(Error::AccessDenied),
        }
    }
}

fn allows(kind: AuthorisationKind, p: AppPermissions) -> (r: bool)
    ensures
        r == permits(kind, p),
{
    match kind {
        AuthorisationKind::Data(DataAuthKind::PublicRead) => true,
        AuthorisationKind::Data(DataAuthKind::PrivateRead) => true,
        AuthorisationKind::Data(DataAuthKind::Write) => p.data_mutations,
        AuthorisationKind::Money(MoneyAuthKind::ReadBalance) => p.read_balance,
        AuthorisationKind::Money(MoneyAuthKind::ReadHistory) => p.read_transfer_history,
        AuthorisationKind::Money(MoneyAuthKind::Transfer) => p.transfer_money,
        AuthorisationKind::Misc(MiscAuthKind::WriteAndTransfer) => p.transfer_money
            && p.data_mutations,
        AuthorisationKind::Misc(MiscAuthKind::ManageAppKeys) => false,
        AuthorisationKind::Denied => false,
    }
}

/// The reply to a key listing: every app key of the sender's key set with
/// its permissions, each once, and the set's version, sent back to the sender.
pub open spec fn keys_listed(
    store: AuthKeysDb,
    msg_id: MessageId,
    origin: MsgSender,
    r: Option<MessagingDuty>,
) -> bool {
    match r {
        Some(
            MessagingDuty::QueryResponse {
                response: QueryResponse::ListAuthKeysAndVersion { keys, version },
                correlation_id,
                destination,
            },
        ) => {
            &&& lists_keys(keys@, store.keys_of(origin.id()))
            &&& version == store.version(origin.id())
            &&& correlation_id == msg_id
            &&& destination == origin.address()
        },
        _ => false,
    }
}

/// An agreed key command applied to the key set of its sender, `origin`.
/// Insert and delete need the stored version and move it on by one; a delete
/// also needs the app key to be there. Success changes the store and gets no
/// reply; a failure changes nothing and gets one error reply.
pub open spec fn cmd_applied(
    before: AuthKeysDb,
    after: AuthKeysDb,
    cmd: AuthCmd,
    msg_id: MessageId,
    origin: MsgSender,
    r: Option<MessagingDuty>,
) -> bool {
    let c = origin.id();
    let unchanged = after.grant_view() == before.grant_view() && after.version_view()
        == before.version_view();
    let conflict = denial(msg_id, origin, Error::VersionConflict { current: before.version(c) });
    match cmd {
        AuthCmd::InsAuthKey { key, version, permissions, .. } => if before.version_accepted(
            c,
            version,
        ) {
            &&& r is None
            &&& after.grant_view() == before.grant_view().insert((c, key), permissions)
            &&& after.version_view() == before.version_view().insert(c, (version + 1) as u64)
        } else {
            r == Some(conflict) && unchanged
        },
        AuthCmd::DelAuthKey { key, version, .. } => if !before.version_accepted(c, version) {
            r == Some(conflict) && unchanged
        } else if !before.grant_view().contains_key((c, key)) {
            r == Some(denial(msg_id, origin, Error::KeyNotFound)) && unchanged
        } else {
            &&& r is None
            &&& after.grant_view() == before.grant_view().remove((c, key))
            &&& after.version_view() == before.version_view().insert(c, (version + 1) as u64)
        },
    }
}

/// Applying the same key insertion twice: the second always fails with a
/// version conflict and changes nothing, since the first either moved the
/// version on or already failed on it.
pub proof fn lemma_insert_twice_conflicts(
    s0: AuthKeysDb,
    s1: AuthKeysDb,
    s2: AuthKeysDb,
    cmd: AuthCmd,
    msg_id: MessageId,
    origin: MsgSender,
    r1: Option<MessagingDuty>,
    r2: Option<MessagingDuty>,
)
    requires
        cmd is InsAuthKey,
        cmd_applied(s0, s1, cmd, msg_id, origin, r1),
        cmd_applied(s1, s2, cmd, msg_id, origin, r2),
    ensures
        r2 == Some(
            denial(msg_id, origin, Error::VersionConflict { current: s1.version(origin.id()) }),
        ),
        s2.grant_view() == s1.grant_view(),
        s2.version_view() == s1.version_view(),
{
    let c = origin.id();
    if s0.version_accepted(c, cmd->InsAuthKey_version) {
        assert(s1.version_view().contains_key(c));
        assert(s1.version(c) == cmd->InsAuthKey_version + 1);
    } else {
        assert(s1.version(c) == s0.version(c));
    }
}

/// Deleting an app key that the sender never registered, with the stored
/// version, is refused as not found: one error reply carrying the command's
/// id, and the store unchanged. The version must still be able to advance;
/// at its maximum every change is a version conflict.
pub proof fn lemma_delete_unknown_key_not_found(
    before: AuthKeysDb,
    after: AuthKeysDb,
    cmd: AuthCmd,
    msg_id: MessageId,
    origin: MsgSender,
    r: Option<MessagingDuty>,
)
    requires
        cmd is DelAuthKey,
        !before.keys_of(origin.id()).contains_key(cmd->DelAuthKey_key),
        cmd->DelAuthKey_version == before.version(origin.id()),
        before.version(origin.id()) < u64::MAX,
        cmd_applied(before, after, cmd, msg_id, origin, r),
    ensures
        r == Some(denial(msg_id, origin, Error::KeyNotFound)),
        after.keys_of(origin.id()) == before.keys_of(origin.id()),
        after.version(origin.id()) == before.version(origin.id()),
{
    let c = origin.id();
    assert(!before.grant_view().contains_key((c, cmd->DelAuthKey_key)));
    assert(after.keys_of(c) =~= before.keys_of(c));
}

} // verus!
