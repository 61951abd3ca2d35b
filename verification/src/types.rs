//! The plain values that a transport works on.
use vstd::prelude::*;
use vstd::std_specs::cmp::PartialEqSpec;
use vstd::std_specs::convert::{FromSpec, FromSpecImpl};

verus! {

/// A 160-bit account address.
#[derive(Clone, Copy, Debug)]
pub struct Address {
    pub bytes: [u8; 20],
}

/// The identifier of a node on the Chord ring: an account address read as a ring position.
#[derive(Clone, Copy, Debug)]
pub struct Did {
    pub bytes: [u8; 20],
}

impl PartialEq for Did {
    fn eq(&self, other: &Did) -> (same: bool) {
        let mut i: usize = 0;
        while i < 20
            invariant
                i <= 20,
                forall|j: int| 0 <= j < i ==> self.bytes@[j] == other.bytes@[j],
            decreases 20 - i,
        {
            if self.bytes[i] != other.bytes[i] {
                return false;
            }
            i = i + 1;
        }
        proof {
            assert(self.bytes =~= other.bytes);
        }
        true
    }
}

impl Eq for Did {

}

impl vstd::std_specs::cmp::PartialEqSpecImpl for Did {
    open spec fn obeys_eq_spec() -> bool {
        true
    }

    open spec fn eq_spec(&self, other: &Did) -> bool {
        *self == *other
    }
}

impl From<Address> for Did {
    fn from(address: Address) -> (did: Did) {
        Did { bytes: address.bytes }
    }
}

impl FromSpecImpl<Address> for Did {
    open spec fn obeys_from_spec() -> bool {
        true
    }

    open spec fn from_spec(address: Address) -> Did {
        Did { bytes: address.bytes }
    }
}

/// The public key of the account that authorized a session, and the address that belongs to it.
#[derive(Clone, Copy, Debug)]
pub struct PublicKey {
    pub compressed: [u8; 33],
    pub account: Address,
}

impl PublicKey {
    /// The address of the account that the key belongs to.
    pub fn address(&self) -> (address: Address)
        ensures
            address == self.account,
    {
        self.account
    }

    /// The ring position of the account that the key belongs to.
    pub open spec fn did(&self) -> Did {
        Did { bytes: self.account.bytes }
    }
}

/// Names one transport among those of a node: the 128 bits of a UUID, most significant first.
#[derive(Clone, Copy, Debug, PartialEq, Eq, Structural)]
pub struct TransportId {
    pub value: u128,
}

/// The kinds of session description.
#[derive(Clone, Copy, Debug, PartialEq, Eq, Structural)]
pub enum SdpType {
    Unspecified,
    Offer,
    Pranswer,
    Answer,
    Rollback,
}

/// A session description: its kind and its text.
#[derive(Debug)]
pub struct SessionDescription {
    pub sdp_type: SdpType,
    pub sdp: String,
}

impl Clone for SessionDescription {
    fn clone(&self) -> (copy: SessionDescription)
        ensures
            copy == *self,
    {
        SessionDescription { sdp_type: self.sdp_type, sdp: self.sdp.clone() }
    }
}

/// The transport protocols of a candidate.
#[derive(Clone, Copy, Debug, PartialEq, Eq, Structural)]
pub enum IceProtocol {
    Unspecified,
    Udp,
    Tcp,
}

impl IceProtocol {
    /// The protocol's name.
    pub open spec fn spec_name(self) -> Seq<char> {
        match self {
            IceProtocol::Unspecified => "unspecified"@,
            IceProtocol::Udp => "udp"@,
            IceProtocol::Tcp => "tcp"@,
        }
    }

    /// The protocol's name.
    pub fn name(self) -> (name: &'static str)
        ensures
            name@ == self.spec_name(),
    {
        match self {
            IceProtocol::Unspecified => "unspecified",
            IceProtocol::Udp => "udp",
            IceProtocol::Tcp => "tcp",
        }
    }
}

/// The types of candidate: an address of the host, an address that a server or the peer sees, or
/// that of a relay.
#[derive(Clone, Copy, Debug, PartialEq, Eq, Structural)]
pub enum IceCandidateType {
    Unspecified,
    Host,
    Srflx,
    Prflx,
    Relay,
}

impl IceCandidateType {
    /// The type's name.
    pub open spec fn spec_name(self) -> Seq<char> {
        match self {
            IceCandidateType::Unspecified => "unspecified"@,
            IceCandidateType::Host => "host"@,
            IceCandidateType::Srflx => "srflx"@,
            IceCandidateType::Prflx => "prflx"@,
            IceCandidateType::Relay => "relay"@,
        }
    }

    /// The type's name.
    pub fn name(self) -> (name: &'static str)
        ensures
            name@ == self.spec_name(),
    {
        match self {
            IceCandidateType::Unspecified => "unspecified",
            IceCandidateType::Host => "host",
            IceCandidateType::Srflx => "srflx",
            IceCandidateType::Prflx => "prflx",
            IceCandidateType::Relay => "relay",
        }
    }
}

/// A candidate that the local peer connection gathered.
#[derive(Debug)]
pub struct LocalCandidate {
    pub stats_id: String,
    pub foundation: String,
    pub priority: u32,
    pub address: String,
    pub protocol: IceProtocol,
    pub port: u16,
    pub typ: IceCandidateType,
    pub component: u16,
    pub related_address: String,
    pub related_port: u16,
    pub tcp_type: String,
}

impl Clone for LocalCandidate {
    fn clone(&self) -> (copy: LocalCandidate)
        ensures
            copy == *self,
    {
        LocalCandidate {
            stats_id: self.stats_id.clone(),
            foundation: self.foundation.clone(),
            priority: self.priority,
            address: self.address.clone(),
            protocol: self.protocol,
            port: self.port,
            typ: self.typ,
            component: self.component,
            related_address: self.related_address.clone(),
            related_port: self.related_port,
            tcp_type: self.tcp_type.clone(),
        }
    }
}

/// A candidate in the form in which peers exchange it.
#[derive(Debug)]
pub struct IceCandidate {
    pub candidate: String,
    pub sdp_mid: Option<String>,
    pub sdp_m_line_index: Option<u16>,
    pub username_fragment: Option<String>,
}

impl Clone for IceCandidate {
    fn clone(&self) -> (copy: IceCandidate)
        ensures
            copy == *self,
    {
        IceCandidate {
            candidate: self.candidate.clone(),
            sdp_mid: self.sdp_mid.clone(),
            sdp_m_line_index: self.sdp_m_line_index,
            username_fragment: self.username_fragment.clone(),
        }
    }
}

/// What one side of a handshake tells the other: its session description, as JSON, and its
/// candidates.
#[derive(Debug)]
pub struct TricklePayload {
    pub sdp: String,
    pub candidates: Vec<IceCandidate>,
}

/// How the credential of an ICE server is to be read.
#[derive(Clone, Copy, Debug, PartialEq, Eq, Structural)]
pub enum IceCredentialType {
    Unspecified,
    Password,
    Oauth,
}

/// A STUN or TURN server.
#[derive(Debug)]
pub struct IceServer {
    pub urls: Vec<String>,
    pub username: String,
    pub credential: String,
    pub credential_type: IceCredentialType,
}

/// The ICE states of a peer connection.
#[derive(Clone, Copy, Debug, PartialEq, Eq, Structural)]
pub enum IceConnectionState {
    Unspecified,
    New,
    Checking,
    Connected,
    Completed,
    Disconnected,
    Failed,
    Closed,
}

impl IceConnectionState {
    /// Whether a connection in this state counts as connected.
    pub open spec fn spec_is_connected(self) -> bool {
        self is Connected
    }

    /// Whether a connection in this state counts as lost.
    pub open spec fn spec_is_disconnected(self) -> bool {
        self is Failed || self is Disconnected || self is Closed
    }

    /// Whether a connection in this state counts as connected.
    pub fn is_connected(self) -> (connected: bool)
        ensures
            connected == self.spec_is_connected(),
    {
        self == IceConnectionState::Connected
    }

    /// Whether a connection in this state counts as lost.
    pub fn is_disconnected(self) -> (disconnected: bool)
        ensures
            disconnected == self.spec_is_disconnected(),
    {
        matches!(
            self,
            IceConnectionState::Failed
                | IceConnectionState::Disconnected
                | IceConnectionState::Closed
        )
    }
}

/// The states of a peer connection's candidate gathering.
#[derive(Clone, Copy, Debug, PartialEq, Eq, Structural)]
pub enum IceGatheringState {
    Unspecified,
    New,
    Gathering,
    Complete,
}

/// The states of a peer connection as a whole.
#[derive(Clone, Copy, Debug, PartialEq, Eq, Structural)]
pub enum PeerConnectionState {
    Unspecified,
    New,
    Connecting,
    Connected,
    Disconnected,
    Failed,
    Closed,
}

/// The states of a data channel.
#[derive(Clone, Copy, Debug, PartialEq, Eq, Structural)]
pub enum DataChannelState {
    Unspecified,
    Connecting,
    Open,
    Closing,
    Closed,
}

/// What a transport reports to the node that owns it.
#[derive(Debug)]
pub enum Event {
    /// The transport reached the peer.
    RegisterTransport((Did, TransportId)),
    /// The transport lost the peer.
    ConnectClosed((Did, TransportId)),
    /// The peer sent these bytes.
    DataChannelMessage(Vec<u8>),
}

/// The ring position of an account has the bytes of the account's address, each in its place. So
/// different accounts have different positions.
pub proof fn law_did_has_the_bytes_of_the_address(address: Address, other: Address)
    ensures
        <Did as FromSpec<Address>>::obeys_from_spec(),
        forall|i: int|
            0 <= i < 20 ==> #[trigger] <Did as FromSpec<Address>>::from_spec(address).bytes@[i] == address.bytes@[i],
        <Did as FromSpec<Address>>::from_spec(address) == <Did as FromSpec<Address>>::from_spec(other) ==> address == other,
{
    if <Did as FromSpec<Address>>::from_spec(address) == <Did as FromSpec<Address>>::from_spec(other) {
        assert forall|i: int| 0 <= i < 20 implies address.bytes@[i] == other.bytes@[i] by {
            assert(<Did as FromSpec<Address>>::from_spec(address).bytes@[i] == <Did as FromSpec<Address>>::from_spec(other).bytes@[i]);
        }
        assert(address.bytes =~= other.bytes);
    }
}

/// A public key stands for the ring position of its account, and for no other: two keys stand for
/// the same position only if their accounts agree in every byte.
pub proof fn law_key_stands_for_its_account(key: PublicKey, other: PublicKey)
    ensures
        key.did() == <Did as FromSpec<Address>>::from_spec(key.account),
        forall|i: int| 0 <= i < 20 ==> #[trigger] key.did().bytes@[i] == key.account.bytes@[i],
        key.did() == other.did() <==> forall|i: int|
            0 <= i < 20 ==> #[trigger] key.account.bytes@[i] == other.account.bytes@[i],
{
    if key.did() == other.did() {
        assert forall|i: int| 0 <= i < 20 implies #[trigger] key.account.bytes@[i]
            == other.account.bytes@[i] by {
            assert(key.did().bytes@[i] == other.did().bytes@[i]);
        }
    } else if forall|i: int|
        0 <= i < 20 ==> #[trigger] key.account.bytes@[i] == other.account.bytes@[i] {
        assert(key.account.bytes =~= other.account.bytes);
    }
}

/// Two ring positions count as equal exactly if they agree in every byte.
pub proof fn law_positions_are_equal_byte_by_byte(did: Did, other: Did)
    ensures
        <Did as PartialEqSpec>::obeys_eq_spec(),
        PartialEqSpec::eq_spec(&did, &other) <==> forall|i: int|
            0 <= i < 20 ==> #[trigger] did.bytes@[i] == other.bytes@[i],
{
    if forall|i: int| 0 <= i < 20 ==> #[trigger] did.bytes@[i] == other.bytes@[i] {
        assert(did.bytes =~= other.bytes);
    }
}

/// A state counts as connected or as lost or as neither: connected is one state, lost are three.
pub proof fn law_states_that_count(state: IceConnectionState)
    ensures
        state.spec_is_connected() <==> state == IceConnectionState::Connected,
        !state.spec_is_disconnected() <==> (state == IceConnectionState::Unspecified || state
            == IceConnectionState::New || state == IceConnectionState::Checking || state
            == IceConnectionState::Connected || state == IceConnectionState::Completed),
{
}

/// The protocols have the names by which candidate lines call them, and different names.
pub proof fn law_protocol_names(protocol: IceProtocol, other: IceProtocol)
    ensures
        protocol.spec_name() == "udp"@ <==> protocol is Udp,
        protocol.spec_name() == "tcp"@ <==> protocol is Tcp,
        protocol.spec_name() == other.spec_name() <==> protocol == other,
{
    reveal_strlit("udp");
    reveal_strlit("tcp");
    reveal_strlit("unspecified");
    assert("udp"@[0] != "tcp"@[0]);
    assert("udp"@.len() == 3 && "tcp"@.len() == 3 && "unspecified"@.len() == 11);
}

/// The candidate types have the names by which candidate lines call them, and different names.
pub proof fn law_candidate_type_names(typ: IceCandidateType, other: IceCandidateType)
    ensures
        typ.spec_name() == "host"@ <==> typ is Host,
        typ.spec_name() == "srflx"@ <==> typ is Srflx,
        typ.spec_name() == "prflx"@ <==> typ is Prflx,
        typ.spec_name() == "relay"@ <==> typ is Relay,
        typ.spec_name() == other.spec_name() <==> typ == other,
{
    reveal_strlit("host");
    reveal_strlit("srflx");
    reveal_strlit("prflx");
    reveal_strlit("relay");
    reveal_strlit("unspecified");
    assert("host"@.len() == 4 && "unspecified"@.len() == 11);
    assert("srflx"@.len() == 5 && "prflx"@.len() == 5 && "relay"@.len() == 5);
    assert("srflx"@[0] != "prflx"@[0]);
    assert("srflx"@[0] != "relay"@[0]);
    assert("prflx"@[0] != "relay"@[0]);
}

} // verus!
