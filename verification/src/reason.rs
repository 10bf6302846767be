//! The disconnect reasons, their codes and their descriptions.

use vstd::prelude::*;

verus! {

/// Why a session is closed.
#[derive(Clone, Copy, Debug, PartialEq, Eq, Structural)]
pub enum DisconnectReason {
    /// The local node or the remote peer asked for the disconnect.
    DisconnectRequested,
    /// An error on the TCP connection.
    TcpSubsystemError,
    /// A breach of the protocol, at the transport or the `p2p` level.
    ProtocolBreach,
    /// The peer shares no protocol with this node.
    UselessPeer,
    /// One of the two nodes has too many peers.
    TooManyPeers,
    /// The two nodes are connected already.
    AlreadyConnected,
    /// The peer speaks a version of `p2p` that this node cannot.
    IncompatibleP2PProtocolVersion,
    /// The peer sent a null node identity.
    NullNodeIdentity,
    /// The client is shutting down.
    ClientQuitting,
    /// The identity in the handshake is not the expected one.
    UnexpectedHandshakeIdentity,
    /// The node has connected to itself.
    ConnectedToSelf,
    /// A ping was not answered in time.
    PingTimeout,
    /// A rule of a subprotocol was broken.
    SubprotocolSpecific,
}

/// A byte that is the code of no disconnect reason.
///
/// This is a value to log before the peer is dropped, not a cause to stop
/// the node.
#[derive(Clone, Copy, Debug, PartialEq, Eq, Structural)]
pub struct UnknownDisconnectReason(pub u8);

impl DisconnectReason {
    /// The code of a reason on the wire.
    pub open spec fn spec_code(self) -> u8 {
        match self {
            DisconnectReason::DisconnectRequested => 0x00,
            DisconnectReason::TcpSubsystemError => 0x01,
            DisconnectReason::ProtocolBreach => 0x02,
            DisconnectReason::UselessPeer => 0x03,
            DisconnectReason::TooManyPeers => 0x04,
            DisconnectReason::AlreadyConnected => 0x05,
            DisconnectReason::IncompatibleP2PProtocolVersion => 0x06,
            DisconnectReason::NullNodeIdentity => 0x07,
            DisconnectReason::ClientQuitting => 0x08,
            DisconnectReason::UnexpectedHandshakeIdentity => 0x09,
            DisconnectReason::ConnectedToSelf => 0x0a,
            DisconnectReason::PingTimeout => 0x0b,
            DisconnectReason::SubprotocolSpecific => 0x10,
        }
    }

    /// The reason that a code stands for, if it stands for one.
    pub open spec fn from_code(code: u8) -> Option<DisconnectReason> {
        if code == 0x00 {
            Some(DisconnectReason::DisconnectRequested)
        } else if code == 0x01 {
            Some(DisconnectReason::TcpSubsystemError)
        } else if code == 0x02 {
            Some(DisconnectReason::ProtocolBreach)
        } else if code == 0x03 {
            Some(DisconnectReason::UselessPeer)
        } else if code == 0x04 {
            Some(DisconnectReason::TooManyPeers)
        } else if code == 0x05 {
            Some(DisconnectReason::AlreadyConnected)
        } else if code == 0x06 {
            Some(DisconnectReason::IncompatibleP2PProtocolVersion)
        } else if code == 0x07 {
            Some(DisconnectReason::NullNodeIdentity)
        } else if code == 0x08 {
            Some(DisconnectReason::ClientQuitting)
        } else if code == 0x09 {
            Some(DisconnectReason::UnexpectedHandshakeIdentity)
        } else if code == 0x0a {
            Some(DisconnectReason::ConnectedToSelf)
        } else if code == 0x0b {
            Some(DisconnectReason::PingTimeout)
        } else if code == 0x10 {
            Some(DisconnectReason::SubprotocolSpecific)
        } else {
            None
        }
    }

    /// The code of this reason on the wire.
    #[verifier::when_used_as_spec(spec_code)]
    pub fn code(self) -> (code: u8)
        ensures
            code == self.spec_code(),
    {
        match self {
            DisconnectReason::DisconnectRequested => 0x00,
            DisconnectReason::TcpSubsystemError => 0x01,
            DisconnectReason::ProtocolBreach => 0x02,
            DisconnectReason::UselessPeer => 0x03,
            DisconnectReason::TooManyPeers => 0x04,
            DisconnectReason::AlreadyConnected => 0x05,
            DisconnectReason::IncompatibleP2PProtocolVersion => 0x06,
            DisconnectReason::NullNodeIdentity => 0x07,
            DisconnectReason::ClientQuitting => 0x08,
            DisconnectReason::UnexpectedHandshakeIdentity => 0x09,
            DisconnectReason::ConnectedToSelf => 0x0a,
            DisconnectReason::PingTimeout => 0x0b,
            DisconnectReason::SubprotocolSpecific => 0x10,
        }
    }
    /// The text that describes a reason in a log line, as a sequence of
    /// characters.
    pub open spec fn description_text(self) -> Seq<char> {
        match self {
            DisconnectReason::DisconnectRequested => "Disconnect requested"@,
            DisconnectReason::TcpSubsystemError => "TCP sub-system error"@,
            DisconnectReason::ProtocolBreach => {
                "Breach of protocol, e.g. a malformed message, bad RLP, ..."@
            },
            DisconnectReason::UselessPeer => "Useless peer"@,
            DisconnectReason::TooManyPeers => "Too many peers"@,
            DisconnectReason::AlreadyConnected => "Already connected"@,
            DisconnectReason::IncompatibleP2PProtocolVersion => {
                "Incompatible P2P protocol version"@
            },
            DisconnectReason::NullNodeIdentity => {
                "Null node identity received - this is automatically invalid"@
            },
            DisconnectReason::ClientQuitting => "Client quitting"@,
            DisconnectReason::UnexpectedHandshakeIdentity => "Unexpected identity in handshake"@,
            DisconnectReason::ConnectedToSelf => {
                "Identity is the same as this node (i.e. connected to itself)"@
            },
            DisconnectReason::PingTimeout => "Ping timeout"@,
            DisconnectReason::SubprotocolSpecific => {
                "Some other reason specific to a subprotocol"@
            },
        }
    }

    /// The text that describes this reason in a log line. It is no part of
    /// the wire format.
    pub fn description(&self) -> (text: &'static str)
        ensures
            text@ == self.description_text(),
    {
        match self {
            DisconnectReason::DisconnectRequested => "Disconnect requested",
            DisconnectReason::TcpSubsystemError => "TCP sub-system error",
            DisconnectReason::ProtocolBreach => {
                "Breach of protocol, e.g. a malformed message, bad RLP, ..."
            },
            DisconnectReason::UselessPeer => "Useless peer",
            DisconnectReason::TooManyPeers => "Too many peers",
            DisconnectReason::AlreadyConnected => "Already connected",
            DisconnectReason::IncompatibleP2PProtocolVersion => "Incompatible P2P protocol version",
            DisconnectReason::NullNodeIdentity => {
                "Null node identity received - this is automatically invalid"
            },
            DisconnectReason::ClientQuitting => "Client quitting",
            DisconnectReason::UnexpectedHandshakeIdentity => "Unexpected identity in handshake",
            DisconnectReason::ConnectedToSelf => {
                "Identity is the same as this node (i.e. connected to itself)"
            },
            DisconnectReason::PingTimeout => "Ping timeout",
            DisconnectReason::SubprotocolSpecific => "Some other reason specific to a subprotocol",
        }
    }
}

impl Default for DisconnectReason {
    /// The reason to give where no other is known.
    fn default() -> (reason: Self)
        ensures
            reason == DisconnectReason::DisconnectRequested,
    {
        DisconnectReason::DisconnectRequested
    }
}

impl TryFrom<u8> for DisconnectReason {
    type Error = UnknownDisconnectReason;

    /// The reason that `value` is the code of, or `value` itself, as an
    /// error, where it is the code of none.
    fn try_from(value: u8) -> (res: Result<Self, UnknownDisconnectReason>)
        ensures
            res is Ok <==> DisconnectReason::from_code(value) is Some,
            res matches Ok(reason) ==> DisconnectReason::from_code(value) == Some(reason),
            res matches Err(unknown) ==> unknown == UnknownDisconnectReason(value),
    {
        match value {
            0x00 => Ok(DisconnectReason::DisconnectRequested),
            0x01 => Ok(DisconnectReason::TcpSubsystemError),
            0x02 => Ok(DisconnectReason::ProtocolBreach),
            0x03 => Ok(DisconnectReason::UselessPeer),
            0x04 => Ok(DisconnectReason::TooManyPeers),
            0x05 => Ok(DisconnectReason::AlreadyConnected),
            0x06 => Ok(DisconnectReason::IncompatibleP2PProtocolVersion),
            0x07 => Ok(DisconnectReason::NullNodeIdentity),
            0x08 => Ok(DisconnectReason::ClientQuitting),
            0x09 => Ok(DisconnectReason::UnexpectedHandshakeIdentity),
            0x0a => Ok(DisconnectReason::ConnectedToSelf),
            0x0b => Ok(DisconnectReason::PingTimeout),
            0x10 => Ok(DisconnectReason::SubprotocolSpecific),
            _ => Err(UnknownDisconnectReason(value)),
        }
    }
}

impl vstd::std_specs::convert::TryFromSpecImpl<u8> for DisconnectReason {
    open spec fn obeys_try_from_spec() -> bool {
        true
    }

    open spec fn try_from_spec(value: u8) -> Result<Self, UnknownDisconnectReason> {
        match DisconnectReason::from_code(value) {
            Some(reason) => Ok(reason),
            None => Err(UnknownDisconnectReason(value)),
        }
    }
}

/// The code of a reason stands for that reason: no two reasons share a code.
pub proof fn lemma_code_identifies_reason(reason: DisconnectReason)
    ensures
        DisconnectReason::from_code(reason.spec_code()) == Some(reason),
{
}

/// A code stands for a reason only if it is the code of that reason.
pub proof fn lemma_reason_has_code(code: u8, reason: DisconnectReason)
    requires
        DisconnectReason::from_code(code) == Some(reason),
    ensures
        reason.spec_code() == code,
{
}

/// The codes in use are `0x00` to `0x0b`, and `0x10`. No other byte stands
/// for a reason.
pub proof fn lemma_assigned_codes(code: u8)
    ensures
        DisconnectReason::from_code(code) is Some <==> code <= 0x0b || code == 0x10,
{
}

/// Every reason has a description that is not empty.
pub proof fn lemma_description_not_empty(reason: DisconnectReason)
    ensures
        reason.description_text().len() > 0,
{
    reveal_descriptions();
}

/// Two different reasons have different descriptions.
pub proof fn lemma_description_distinct(a: DisconnectReason, b: DisconnectReason)
    requires
        a != b,
    ensures
        a.description_text() != b.description_text(),
{
    reveal_descriptions();
    assert(a.description_text().len() != b.description_text().len()
        || a.description_text()[0] != b.description_text()[0]);
}

/// Makes the length and the characters of each description known.
proof fn reveal_descriptions()
    ensures
        "Disconnect requested"@.len() == 20 && "Disconnect requested"@[0] == 'D',
        "TCP sub-system error"@.len() == 20 && "TCP sub-system error"@[0] == 'T',
        "Breach of protocol, e.g. a malformed message, bad RLP, ..."@.len() == 58,
        "Useless peer"@.len() == 12 && "Useless peer"@[0] == 'U',
        "Too many peers"@.len() == 14,
        "Already connected"@.len() == 17,
        "Incompatible P2P protocol version"@.len() == 33,
        "Null node identity received - this is automatically invalid"@.len() == 59,
        "Client quitting"@.len() == 15,
        "Unexpected identity in handshake"@.len() == 32,
        "Identity is the same as this node (i.e. connected to itself)"@.len() == 60,
        "Ping timeout"@.len() == 12 && "Ping timeout"@[0] == 'P',
        "Some other reason specific to a subprotocol"@.len() == 43,
{
    reveal_strlit("Disconnect requested");
    reveal_strlit("TCP sub-system error");
    reveal_strlit("Breach of protocol, e.g. a malformed message, bad RLP, ...");
    reveal_strlit("Useless peer");
    reveal_strlit("Too many peers");
    reveal_strlit("Already connected");
    reveal_strlit("Incompatible P2P protocol version");
    reveal_strlit("Null node identity received - this is automatically invalid");
    reveal_strlit("Client quitting");
    reveal_strlit("Unexpected identity in handshake");
    reveal_strlit("Identity is the same as this node (i.e. connected to itself)");
    reveal_strlit("Ping timeout");
    reveal_strlit("Some other reason specific to a subprotocol");
}

} // verus!
