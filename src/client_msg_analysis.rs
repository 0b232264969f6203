use crate::types::{
    Address, AuthCmd, Cmd, Message, MessageId, MsgEnvelope, MsgSender, Query, TransferCmd,
    TransferQuery, XorName,
};
use vstd::prelude::*;

verus! {

/// The part of the address space a section is responsible for: the names
/// whose first `bit_count` bits are those of `name`. Bits past the 256th are
/// ignored.
#[derive(Clone, Copy, Debug, PartialEq, Eq)]
pub struct Prefix {
    pub bit_count: u16,
    pub name: XorName,
}

/// Bit `i` of a name, counting from the most significant bit of its first byte.
pub open spec fn bit(n: XorName, i: int) -> u8 {
    (n.bytes@[i / 8] >> ((7 - i % 8) as u8)) & 1u8
}

pub open spec fn prefix_matches(p: Prefix, n: XorName) -> bool {
    forall|i: int| 0 <= i < p.bit_count && i < 256 ==> bit(p.name, i) == bit(n, i)
}

/// What the node knows of its section when a message comes in: the prefix it
/// serves and whether it is an elder.
#[derive(Clone, Copy, Debug, PartialEq, Eq)]
pub struct SectionQuerying {
    pub prefix: Prefix,
    pub elder: bool,
}

impl SectionQuerying {
    pub fn new(prefix: Prefix, elder: bool) -> (r: SectionQuerying)
        ensures
            r.prefix == prefix,
            r.elder == elder,
    {
        SectionQuerying { prefix, elder }
    }

    /// Whether `name` lies in this section's part of the address space.
    pub fn handles(&self, name: &XorName) -> (r: bool)
        ensures
            r == prefix_matches(self.prefix, *name),
    {
        let count = self.prefix.bit_count as usize;
        let mut i: usize = 0;
        while i < count && i < 256
            invariant
                count == self.prefix.bit_count,
                i <= 256,
                forall|j: int| 0 <= j < i ==> bit(self.prefix.name, j) == bit(*name, j),
            decreases 256 - i,
        {
            let shift = (7 - i % 8) as u8;
            let a = (self.prefix.name.bytes[i / 8] >> shift) & 1u8;
            let b = (name.bytes[i / 8] >> shift) & 1u8;
            if a != b {
                assert(a == bit(self.prefix.name, i as int));
                assert(b == bit(*name, i as int));
                return false;
            }
            i = i + 1;
        }
        true
    }

    pub fn is_elder(&self) -> (r: bool)
        ensures
            r == self.elder,
    {
        self.elder
    }
}

/// The duty a client message becomes.
#[derive(Clone, Debug, PartialEq, Eq)]
pub enum NodeOperation {
    /// Propose the key command to the section; once agreed it is processed.
    VoteFor { cmd: AuthCmd, msg_id: MessageId, origin: MsgSender },
    /// Carry out the payment of a data write at once.
    ProcessPayment(MsgEnvelope),
    ProcessTransferCmd { cmd: TransferCmd, msg_id: MessageId, origin: Address },
    ProcessTransferQuery { query: TransferQuery, msg_id: MessageId, origin: Address },
}

/// Payments and transfers are taken on only from a client, for a destination
/// in this section, by an elder.
pub open spec fn shall_process(section: SectionQuerying, msg: MsgEnvelope) -> bool {
    &&& msg.origin is Client
    &&& prefix_matches(section.prefix, msg.destination)
    &&& section.elder
}

/// What becomes of a client message. A data write is paid for at once, since
/// the client has signed it and its replicas have checked it; transfers go to
/// the transfer duty; both only under `shall_process`. A key command is put
/// to the section's vote whatever the sender, destination or rank; anything
/// else is not this node's concern.
pub open spec fn classify(section: SectionQuerying, msg: MsgEnvelope) -> Option<NodeOperation> {
    match msg.message {
        Message::Cmd { cmd: Cmd::Data(_), .. } => if shall_process(section, msg) {
            Some(NodeOperation::ProcessPayment(msg))
        } else {
            None
        },
        Message::Cmd { cmd: Cmd::Transfer(cmd), id } => if shall_process(section, msg) {
            Some(NodeOperation::ProcessTransferCmd { cmd, msg_id: id, origin: msg.origin.address() })
        } else {
            None
        },
        Message::Query { query: Query::Transfer(query), id } => if shall_process(section, msg) {
            Some(
                NodeOperation::ProcessTransferQuery {
                    query,
                    msg_id: id,
                    origin: msg.origin.address(),
                },
            )
        } else {
            None
        },
        Message::Cmd { cmd: Cmd::Auth(cmd), id } => Some(
            NodeOperation::VoteFor { cmd, msg_id: id, origin: msg.origin },
        ),
        _ => None,
    }
}

/// Decides, for a message from a client, which duty it becomes.
pub struct ClientMsgAnalysis {
    section: SectionQuerying,
}

impl ClientMsgAnalysis {
    pub closed spec fn section(&self) -> SectionQuerying {
        self.section
    }

    pub fn new(section: SectionQuerying) -> (r: ClientMsgAnalysis)
        ensures
            r.section() == section,
    {
        ClientMsgAnalysis { section }
    }

    /// The duty that `msg` becomes here, if any.
    pub fn evaluate(&self, msg: MsgEnvelope) -> (r: Option<NodeOperation>)
        ensures
            r == classify(self.section(), msg),
    {
        if self.try_data_payment(&msg) {
            Some(NodeOperation::ProcessPayment(msg))
        } else if let Some(duty) = self.try_transfers(&msg) {
            Some(duty)
        } else if let Some(duty) = self.try_auth(&msg) {
            Some(duty)
        } else {
            None
        }
    }

    fn try_auth(&self, msg: &MsgEnvelope) -> (r: Option<NodeOperation>)
        ensures
            r == (match msg.message {
                Message::Cmd { cmd: Cmd::Auth(cmd), id } => Some(
                    NodeOperation::VoteFor { cmd, msg_id: id, origin: msg.origin },
                ),
                _ => None,
            }),
    {
        match msg.message {
            Message::Cmd { cmd: Cmd::Auth(cmd), id } => Some(
                NodeOperation::VoteFor { cmd, msg_id: id, origin: msg.origin },
            ),
            _ => None,
        }
    }

    /// Whether `msg` is a data write to be paid for here and now.
    fn try_data_payment(&self, msg: &MsgEnvelope) -> (r: bool)
        ensures
            r == (msg.message matches Message::Cmd { cmd: Cmd::Data(_), .. } && shall_process(
                self.section(),
                *msg,
            )),
    {
        let from_client = match msg.origin {
            MsgSender::Client { .. } => true,
            _ => false,
        };
        let is_data_write = match msg.message {
            Message::Cmd { cmd: Cmd::Data(_), .. } => true,
            _ => false,
        };
        is_data_write && from_client && self.is_dst_for(msg) && self.is_elder()
    }

    fn try_transfers(&self, msg: &MsgEnvelope) -> (r: Option<NodeOperation>)
        ensures
            r == (match msg.message {
                Message::Cmd { cmd: Cmd::Transfer(cmd), id } => if shall_process(
                    self.section(),
                    *msg,
                ) {
                    Some(
                        NodeOperation::ProcessTransferCmd {
                            cmd,
                            msg_id: id,
                            origin: msg.origin.address(),
                        },
                    )
                } else {
                    None
                },
                Message::Query { query: Query::Transfer(query), id } => if shall_process(
                    self.section(),
                    *msg,
                ) {
                    Some(
                        NodeOperation::ProcessTransferQuery {
                            query,
                            msg_id: id,
                            origin: msg.origin.address(),
                        },
                    )
                } else {
                    None
                },
                _ => None,
            }),
    {
        let from_client = match msg.origin {
            MsgSender::Client { .. } => true,
            _ => false,
        };
        match msg.message {
            Message::Cmd { cmd: Cmd::Transfer(cmd), id } => {
                if !(from_client && self.is_dst_for(msg) && self.is_elder()) {
                    return None;
                }
                Some(NodeOperation::ProcessTransferCmd { cmd, msg_id: id, origin: msg.origin.address() })
            },
            Message::Query { query: Query::Transfer(query), id } => {
                if !(from_client && self.is_dst_for(msg) && self.is_elder()) {
                    return None;
                }
                Some(
                    NodeOperation::ProcessTransferQuery {
                        query,
                        msg_id: id,
                        origin: msg.origin.address(),
                    },
                )
            },
            _ => None,
        }
    }

    /// Whether the destination of `msg` lies in this section.
    pub fn is_dst_for(&self, msg: &MsgEnvelope) -> (r: bool)
        ensures
            r == prefix_matches(self.section().prefix, msg.destination),
    {
        self.section.handles(&msg.destination)
    }

    /// Whether this node is an elder of its section.
    pub fn is_elder(&self) -> (r: bool)
        ensures
            r == self.section().elder,
    {
        self.section.is_elder()
    }
}

} // verus!
