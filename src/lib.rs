mod auth;
mod auth_keys;
mod client_msg_analysis;
mod reward_calc;
mod signing;
mod types;

pub use auth::{
    app_allowed, app_check_applies, client_signature_valid, cmd_applied, denial, keys_listed,
    lemma_delete_unknown_key_not_found, lemma_insert_twice_conflicts, permits, Auth, AuthDuty,
};
pub use auth_keys::{lists_keys, AuthKeysDb};
pub use client_msg_analysis::{
    bit, classify, prefix_matches, shall_process, ClientMsgAnalysis, NodeOperation, Prefix,
    SectionQuerying,
};
pub use reward_calc::{lemma_reward_not_growing, pow2, reward_fits, reward_nanos, Money, RewardCalc, NANOS_PER_UNIT};
pub use signing::{
    bls_share_verifies, bls_verifies, ed25519_verifies, signature_valid, verify_signature,
};

pub use types::{
    Address, AppKeyEntry, AppPermissions, AppPublicId, AuthCmd, AuthQuery, AuthorisationKind, Cmd,
    CmdError, DataAuthKind, DataCmd, DataQuery, Error, Message, MessageId, MessagingDuty,
    bytes_eq, MiscAuthKind, MoneyAuthKind, MsgEnvelope, MsgSender, PublicId, PublicKey, Query,
    QueryResponse, Signature, TransferCmd, TransferQuery, XorName,
};
