//! The settings from which a new tunnel is generated, read from labelled text
//! fields, and the configuration that is assembled from them.

use vstd::prelude::*;
use vstd::string::{StrSliceExecFns, StringExecFns};
use crate::config::{text_of, Interface, Peer, WireguardConfig};
use crate::utils::{generate_private_key, generate_public_key, private_key_of, public_key_of, KeyGenError, ProcessError};

verus! {

/// The label of the field that holds the name of the tunnel's interface.
pub const NAME_LABEL: &'static str = "Tunnel interface name";

/// The label of the field that holds the interface's address in CIDR form.
pub const ADDRESS_LABEL: &'static str = "Tunnel interface ip";

/// The label of the field that holds the listen port.
pub const PORT_LABEL: &'static str = "Listen Port [default:51820]";

/// The label of the field that holds the number of peers.
pub const PEERS_LABEL: &'static str = "Number of Peers [default:1]";

/// What a generated peer holds in place of its allowed addresses.
pub const PEER_ALLOWED_IPS: &'static str = "ip/netmask";

/// What a generated peer holds in place of its endpoint.
pub const PEER_ENDPOINT: &'static str = "<peer public ip>:51820";

/// An IP address with the length of its network prefix. The address is held
/// as the number that its bytes spell in network order.
#[derive(Debug, Clone, Copy, PartialEq, Eq, Structural)]
pub enum Network {
    V4 { addr: u32, prefix: u8 },
    V6 { addr: u128, prefix: u8 },
}

/// The field of the settings that is missing or does not parse.
#[derive(Debug, Clone, Copy, PartialEq, Eq, Structural)]
pub enum GenerationInputError {
    NameUnspecified,
    AddressUnspecified,
    AddressUnparseable,
    PortUnspecified,
    PortUnparseable,
    PeersUnspecified,
    PeersUnparseable,
}

/// The settings of a tunnel to generate. A value of this type exists only for
/// fields that were all present and valid.
#[derive(Debug)]
pub struct GenerationSettings {
    tunnel_iface_name: String,
    tunnel_iface_ip: Network,
    listen_port: u16,
    number_of_peers: usize,
}

/// The run of a key tool that a generation waits on.
#[derive(Debug, PartialEq, Eq)]
pub enum KeyRequest {
    /// A run of `wg genkey`.
    PrivateKey,
    /// A run of `wg pubkey` on this private key.
    PublicKey { private_key: String },
}

/// The outcome of one step of a generation: the next run of a key tool, or
/// the end with the configuration or the reason why there is none.
#[derive(Debug, PartialEq, Eq)]
pub enum GenerationStep {
    Await(KeyRequest),
    Finished(Result<WireguardConfig, KeyGenError>),
}

/// What a `GenerationSettings` holds.
pub struct SettingsView {
    pub name: Seq<char>,
    pub network: Network,
    pub port: u16,
    pub peers: usize,
}

/// The network that `ipnetwork::IpNetwork::from_str` reads from a text, or
/// `None` where it refuses the text.
pub uninterp spec fn parsed_network(text: Seq<char>) -> Option<Network>;

/// The text that `ipnetwork::Ipv6Network` writes through `Display` for the
/// network with this address and prefix: the address in the short form of
/// IPv6, a slash and the prefix.
pub uninterp spec fn ipv6_network_text(addr: u128, prefix: u8) -> Seq<char>;

/// The number that a row of decimal digits spells.
pub open spec fn decimal_value(digits: Seq<char>) -> nat
    decreases digits.len(),
{
    if digits.len() == 0 {
        0
    } else {
        (decimal_value(digits.drop_last()) * 10 + (digits.last() as nat - '0' as nat)) as nat
    }
}

/// A row of one or more of the digits `0` to `9`.
pub open spec fn is_decimal(digits: Seq<char>) -> bool {
    digits.len() > 0 && forall|i: int| 0 <= i < digits.len() ==> '0' <= #[trigger] digits[i] <= '9'
}

/// The unsigned number that a text spells: digits alone, or a `+` and digits,
/// with a value of `max` at most. Any other text spells none.
pub open spec fn unsigned_of(text: Seq<char>, max: nat) -> Option<nat> {
    let digits = if text.len() > 0 && text[0] == '+' {
        text.drop_first()
    } else {
        text
    };
    if is_decimal(digits) && decimal_value(digits) <= max {
        Some(decimal_value(digits))
    } else {
        None
    }
}

/// The decimal digits of a number, without leading zeros.
pub open spec fn decimal_text(n: nat) -> Seq<char>
    decreases n,
{
    if n < 10 {
        seq![(('0' as nat + n) as u8) as char]
    } else {
        decimal_text(n / 10).push((('0' as nat + n % 10) as u8) as char)
    }
}

/// The text of an IPv4 network: the four bytes of the address in decimal
/// digits with dots between them, a slash and the prefix.
pub open spec fn ipv4_network_text(addr: u32, prefix: u8) -> Seq<char> {
    decimal_text((addr / 0x100_0000) as nat) + seq!['.'] + decimal_text((addr / 0x1_0000 % 0x100) as nat)
        + seq!['.'] + decimal_text((addr / 0x100 % 0x100) as nat) + seq!['.'] + decimal_text(
        (addr % 0x100) as nat,
    ) + seq!['/'] + decimal_text(prefix as nat)
}

/// The text of a network, as it stands in a configuration.
pub open spec fn network_text(network: Network) -> Seq<char> {
    match network {
        Network::V4 { addr, prefix } => ipv4_network_text(addr, prefix),
        Network::V6 { addr, prefix } => ipv6_network_text(addr, prefix),
    }
}

/// The value of the first field with this label; `None` where no field has
/// the label or the first that has it holds no value.
pub open spec fn field_value(entries: Seq<(String, Option<String>)>, label: Seq<char>) -> Option<Seq<char>>
    decreases entries.len(),
{
    if entries.len() == 0 {
        None
    } else if entries[0].0@ == label {
        text_of(entries[0].1)
    } else {
        field_value(entries.drop_first(), label)
    }
}

/// The settings that a set of fields holds, or the first field, in the order
/// name, address, port, peers, that is missing or does not parse. An empty
/// name counts as missing.
pub open spec fn read_settings(entries: Seq<(String, Option<String>)>) -> Result<SettingsView, GenerationInputError> {
    let name = field_value(entries, NAME_LABEL@);
    let address = field_value(entries, ADDRESS_LABEL@);
    let port = field_value(entries, PORT_LABEL@);
    let peers = field_value(entries, PEERS_LABEL@);
    if name.is_none() || name.unwrap().len() == 0 {
        Err(GenerationInputError::NameUnspecified)
    } else if address.is_none() {
        Err(GenerationInputError::AddressUnspecified)
    } else if parsed_network(address.unwrap()).is_none() {
        Err(GenerationInputError::AddressUnparseable)
    } else if port.is_none() {
        Err(GenerationInputError::PortUnspecified)
    } else if unsigned_of(port.unwrap(), u16::MAX as nat).is_none() {
        Err(GenerationInputError::PortUnparseable)
    } else if peers.is_none() {
        Err(GenerationInputError::PeersUnspecified)
    } else if unsigned_of(peers.unwrap(), usize::MAX as nat).is_none() {
        Err(GenerationInputError::PeersUnparseable)
    } else {
        Ok(
            (SettingsView {
                name: name.unwrap(),
                network: parsed_network(address.unwrap()).unwrap(),
                port: unsigned_of(port.unwrap(), u16::MAX as nat).unwrap() as u16,
                peers: unsigned_of(peers.unwrap(), usize::MAX as nat).unwrap() as usize,
            }),
        )
    }
}

/// The peer that a generated configuration holds for each peer asked for.
pub open spec fn is_placeholder_peer(peer: Peer) -> bool {
    &&& text_of(peer.allowed_ips) == Some(PEER_ALLOWED_IPS@)
    &&& text_of(peer.endpoint) == Some(PEER_ENDPOINT@)
    &&& peer.public_key.is_none()
}

/// The configuration generated from these settings and keys: the interface
/// with all five fields set, both keys not empty, and as many placeholder
/// peers as were asked for.
pub open spec fn is_generated(
    config: WireguardConfig,
    settings: SettingsView,
    private_key: Seq<char>,
    public_key: Seq<char>,
) -> bool {
    &&& text_of(config.interface.name) == Some(settings.name)
    &&& text_of(config.interface.address) == Some(network_text(settings.network))
    &&& text_of(config.interface.listen_port) == Some(decimal_text(settings.port as nat))
    &&& public_key.len() > 0
    &&& private_key.len() > 0
    &&& text_of(config.interface.public_key) == Some(public_key)
    &&& text_of(config.interface.private_key) == Some(private_key)
    &&& config.peers@.len() == settings.peers
    &&& forall|i: int| 0 <= i < config.peers@.len() ==> is_placeholder_peer(#[trigger] config.peers@[i])
}

impl Network {
    /// The prefix is no longer than the address.
    pub open spec fn wf(&self) -> bool {
        match *self {
            Network::V4 { prefix, .. } => prefix <= 32,
            Network::V6 { prefix, .. } => prefix <= 128,
        }
    }
}

/// Calls `ipnetwork::IpNetwork::from_str` and hands out the address and the
/// prefix of what it read. Trusted: the result is the one named
/// `parsed_network`, and the prefix of a network that was read is no longer
/// than its address, which `Ipv4Network::new` and `Ipv6Network::new` see to.
#[verifier::external_body]
fn parse_network(text: &str) -> (r: Option<Network>)
    ensures
        r == parsed_network(text@),
        r matches Some(network) ==> network.wf(),
{
    match text.parse::<ipnetwork::IpNetwork>() {
        Ok(ipnetwork::IpNetwork::V4(n)) => Some(Network::V4 { addr: n.ip().into(), prefix: n.prefix() }),
        Ok(ipnetwork::IpNetwork::V6(n)) => Some(Network::V6 { addr: n.ip().into(), prefix: n.prefix() }),
        Err(_) => None,
    }
}

/// Builds the `ipnetwork::Ipv4Network` or `Ipv6Network` with this address and
/// prefix through `new_checked`, which accepts every prefix that `wf` admits,
/// and calls `to_string` on it. Trusted: for IPv4 the result is the four
/// bytes of the address, most significant first, in decimal digits with dots
/// between them, a slash and the prefix in decimal digits; for IPv6 it is the
/// one named `ipv6_network_text`.
#[verifier::external_body]
fn network_to_string(network: &Network) -> (text: String)
    requires
        network.wf(),
    ensures
        text@ == (match *network {
            Network::V4 { addr, prefix } => ipv4_network_text(addr, prefix),
            Network::V6 { addr, prefix } => ipv6_network_text(addr, prefix),
        }),
{
    match *network {
        Network::V4 { addr, prefix } => match ipnetwork::Ipv4Network::new_checked(addr.into(), prefix) {
            Some(n) => n.to_string(),
            None => String::new(),
        },
        Network::V6 { addr, prefix } => match ipnetwork::Ipv6Network::new_checked(addr.into(), prefix) {
            Some(n) => n.to_string(),
            None => String::new(),
        },
    }
}

/// Cutting digits off the end of a row of digits does not raise the number
/// that it spells.
proof fn lemma_decimal_value_grows(digits: Seq<char>, k: int)
    requires
        0 <= k <= digits.len(),
        forall|i: int| 0 <= i < digits.len() ==> '0' <= #[trigger] digits[i] <= '9',
    ensures
        decimal_value(digits.subrange(0, k)) <= decimal_value(digits),
    decreases digits.len() - k,
{
    if k == digits.len() {
        assert(digits.subrange(0, k) =~= digits);
    } else {
        let shorter = digits.drop_last();
        assert(shorter.subrange(0, k) =~= digits.subrange(0, k));
        lemma_decimal_value_grows(shorter, k);
    }
}

/// Reads an unsigned number as `str::parse` does for the unsigned integer
/// types: digits alone, or a `+` and digits, with a value of `max` at most.
fn parse_unsigned(text: &str, max: u64) -> (r: Option<u64>)
    requires
        max >= 9,
    ensures
        match r {
            Some(v) => unsigned_of(text@, max as nat) == Some(v as nat),
            None => unsigned_of(text@, max as nat).is_none(),
        },
{
    let n: usize = text.unicode_len();
    let start: usize = if n > 0 && text.get_char(0) == '+' {
        1
    } else {
        0
    };
    let ghost digits = text@.subrange(start as int, n as int);
    proof {
        if start == 0 {
            assert(digits =~= text@);
        } else {
            assert(digits =~= text@.drop_first());
        }
    }
    if start >= n {
        return None;
    }
    let mut i: usize = start;
    while i < n
        invariant
            start <= i <= n,
            n == text@.len(),
            digits == text@.subrange(start as int, n as int),
            digits == (if text@.len() > 0 && text@[0] == '+' {
                text@.drop_first()
            } else {
                text@
            }),
            forall|j: int| 0 <= j < i - start ==> '0' <= #[trigger] digits[j] <= '9',
        decreases n - i,
    {
        let c: char = text.get_char(i);
        if c < '0' || c > '9' {
            assert(digits[i - start] == c);
            return None;
        }
        assert(digits[i - start] == c);
        i += 1;
    }
    assert(is_decimal(digits));
    let mut value: u64 = 0;
    i = start;
    proof {
        assert(digits.subrange(0, 0) =~= Seq::<char>::empty());
    }
    while i < n
        invariant
            start <= i <= n,
            n == text@.len(),
            max >= 9,
            digits == text@.subrange(start as int, n as int),
            digits == (if text@.len() > 0 && text@[0] == '+' {
                text@.drop_first()
            } else {
                text@
            }),
            is_decimal(digits),
            value as nat == decimal_value(digits.subrange(0, i - start)),
            value <= max,
        decreases n - i,
    {
        let c: char = text.get_char(i);
        assert(digits[i - start] == c);
        let digit: u64 = (c as u32 - '0' as u32) as u64;
        let ghost longer = digits.subrange(0, i - start + 1);
        proof {
            assert(longer.drop_last() =~= digits.subrange(0, i - start));
            assert(longer.last() == c);
            assert(decimal_value(longer) == value * 10 + digit);
        }
        if value > (max - digit) / 10 {
            proof {
                lemma_decimal_value_grows(digits, i - start + 1);
            }
            return None;
        }
        value = value * 10 + digit;
        i += 1;
    }
    proof {
        assert(digits.subrange(0, n - start) =~= digits);
    }
    Some(value)
}

/// Reads a port as `str::parse::<u16>` does.
fn parse_u16(text: &str) -> (r: Option<u16>)
    ensures
        match r {
            Some(v) => unsigned_of(text@, u16::MAX as nat) == Some(v as nat),
            None => unsigned_of(text@, u16::MAX as nat).is_none(),
        },
{
    match parse_unsigned(text, 0xffff) {
        Some(v) => Some(v as u16),
        None => None,
    }
}

/// Reads a count as `str::parse::<usize>` does.
fn parse_usize(text: &str) -> (r: Option<usize>)
    ensures
        match r {
            Some(v) => unsigned_of(text@, usize::MAX as nat) == Some(v as nat),
            None => unsigned_of(text@, usize::MAX as nat).is_none(),
        },
{
    match parse_unsigned(text, usize::MAX as u64) {
        Some(v) => Some(v as usize),
        None => None,
    }
}

/// The text of one decimal digit.
fn digit_text(digit: u64) -> (text: &'static str)
    requires
        digit < 10,
    ensures
        text@ == seq![(('0' as nat + digit as nat) as u8) as char],
{
    proof {
        reveal_strlit("0");
        reveal_strlit("1");
        reveal_strlit("2");
        reveal_strlit("3");
        reveal_strlit("4");
        reveal_strlit("5");
        reveal_strlit("6");
        reveal_strlit("7");
        reveal_strlit("8");
        reveal_strlit("9");
    }
    let text = if digit == 0 {
        "0"
    } else if digit == 1 {
        "1"
    } else if digit == 2 {
        "2"
    } else if digit == 3 {
        "3"
    } else if digit == 4 {
        "4"
    } else if digit == 5 {
        "5"
    } else if digit == 6 {
        "6"
    } else if digit == 7 {
        "7"
    } else if digit == 8 {
        "8"
    } else {
        "9"
    };
    assert(text@ =~= seq![(('0' as nat + digit as nat) as u8) as char]);
    text
}

/// A number in decimal digits, without leading zeros, as `to_string` writes
/// it.
fn decimal_string(n: u64) -> (text: String)
    ensures
        text@ == decimal_text(n as nat),
    decreases n,
{
    if n < 10 {
        digit_text(n).to_string()
    } else {
        let text = decimal_string(n / 10).concat(digit_text(n % 10));
        assert(text@ =~= decimal_text(n as nat));
        text
    }
}

/// The port in decimal digits.
fn port_to_string(port: u16) -> (text: String)
    ensures
        text@ == decimal_text(port as nat),
{
    decimal_string(port as u64)
}

/// The value of the first field with this label.
fn find_field<'a>(entries: &'a Vec<(String, Option<String>)>, label: &str) -> (r: Option<&'a String>)
    ensures
        match r {
            Some(value) => field_value(entries@, label@) == Some(value@),
            None => field_value(entries@, label@).is_none(),
        },
{
    let wanted = label.to_string();
    let mut i: usize = 0;
    proof {
        assert(entries@.subrange(0, entries.len() as int) =~= entries@);
    }
    while i < entries.len()
        invariant
            i <= entries.len(),
            wanted@ == label@,
            field_value(entries@, label@) == field_value(
                entries@.subrange(i as int, entries.len() as int),
                label@,
            ),
        decreases entries.len() - i,
    {
        let ghost rest = entries@.subrange(i as int, entries.len() as int);
        assert(rest[0] == entries@[i as int]);
        if entries[i].0 == wanted {
            return match &entries[i].1 {
                Some(value) => Some(value),
                None => None,
            };
        }
        proof {
            assert(rest.drop_first() =~= entries@.subrange(i + 1, entries.len() as int));
        }
        i += 1;
    }
    None
}

impl View for GenerationSettings {
    type V = SettingsView;

    closed spec fn view(&self) -> SettingsView {
        SettingsView {
            name: self.tunnel_iface_name@,
            network: self.tunnel_iface_ip,
            port: self.listen_port,
            peers: self.number_of_peers,
        }
    }
}

impl GenerationInputError {
    /// The message that names the field.
    pub fn message(&self) -> (text: &'static str)
        ensures
            text@ == match *self {
                GenerationInputError::NameUnspecified => "'Tunnel interface name' is unspecified"@,
                GenerationInputError::AddressUnspecified => "'Tunnel interface ip' is unspecified"@,
                GenerationInputError::AddressUnparseable => "Could not parse 'Tunnel interface ip'"@,
                GenerationInputError::PortUnspecified => "Listen Port is unspecified"@,
                GenerationInputError::PortUnparseable => "Could not parse Listen Port"@,
                GenerationInputError::PeersUnspecified => "'Number of Peers' is unspecified"@,
                GenerationInputError::PeersUnparseable => "Could not parse Number of Peers"@,
            },
    {
        match self {
            GenerationInputError::NameUnspecified => "'Tunnel interface name' is unspecified",
            GenerationInputError::AddressUnspecified => "'Tunnel interface ip' is unspecified",
            GenerationInputError::AddressUnparseable => "Could not parse 'Tunnel interface ip'",
            GenerationInputError::PortUnspecified => "Listen Port is unspecified",
            GenerationInputError::PortUnparseable => "Could not parse Listen Port",
            GenerationInputError::PeersUnspecified => "'Number of Peers' is unspecified",
            GenerationInputError::PeersUnparseable => "Could not parse Number of Peers",
        }
    }
}

impl GenerationSettings {
    /// The name is not empty, and the prefix of the address is no longer than
    /// the address.
    #[verifier::type_invariant]
    closed spec fn wf(&self) -> bool {
        self.tunnel_iface_name@.len() > 0 && self.tunnel_iface_ip.wf()
    }

    /// The settings with these four values, where they are valid: the name
    /// not empty, the prefix of the network no longer than its address.
    pub fn from_parts(name: String, network: Network, port: u16, peers: usize) -> (r: Option<
        GenerationSettings,
    >)
        ensures
            r.is_some() == (name@.len() > 0 && network.wf()),
            r matches Some(settings) ==> settings@ == (SettingsView { name: name@, network, port, peers }),
    {
        let prefix_fits = match network {
            Network::V4 { prefix, .. } => prefix <= 32,
            Network::V6 { prefix, .. } => prefix <= 128,
        };
        if name.as_str().is_empty() || !prefix_fits {
            None
        } else {
            Some(
                GenerationSettings {
                    tunnel_iface_name: name,
                    tunnel_iface_ip: network,
                    listen_port: port,
                    number_of_peers: peers,
                },
            )
        }
    }

    /// Reads the settings from labelled fields. Fields with other labels are
    /// passed over; of two fields with one label the first counts. The fields
    /// come as a list of pairs and not as a hash map: of a hash map with
    /// strings for keys vstd states nothing, since it models the hashing of
    /// integer keys only.
    pub fn try_from(entries: &Vec<(String, Option<String>)>) -> (r: Result<GenerationSettings, GenerationInputError>)
        ensures
            match r {
                Ok(settings) => read_settings(entries@) == Ok::<SettingsView, GenerationInputError>(settings@),
                Err(e) => read_settings(entries@) == Err::<SettingsView, GenerationInputError>(e),
            },
    {
        let tunnel_iface_name = match find_field(entries, NAME_LABEL) {
            Some(name) => if name.as_str().is_empty() {
                return Err(GenerationInputError::NameUnspecified);
            } else {
                name.clone()
            },
            None => {
                return Err(GenerationInputError::NameUnspecified);
            },
        };
        let tunnel_iface_ip = match find_field(entries, ADDRESS_LABEL) {
            Some(address) => match parse_network(address.as_str()) {
                Some(network) => network,
                None => {
                    return Err(GenerationInputError::AddressUnparseable);
                },
            },
            None => {
                return Err(GenerationInputError::AddressUnspecified);
            },
        };
        let listen_port = match find_field(entries, PORT_LABEL) {
            Some(port) => match parse_u16(port.as_str()) {
                Some(port) => port,
                None => {
                    return Err(GenerationInputError::PortUnparseable);
                },
            },
            None => {
                return Err(GenerationInputError::PortUnspecified);
            },
        };
        let number_of_peers = match find_field(entries, PEERS_LABEL) {
            Some(peers) => match parse_usize(peers.as_str()) {
                Some(peers) => peers,
                None => {
                    return Err(GenerationInputError::PeersUnparseable);
                },
            },
            None => {
                return Err(GenerationInputError::PeersUnspecified);
            },
        };
        Ok(GenerationSettings { tunnel_iface_name, tunnel_iface_ip, listen_port, number_of_peers })
    }

    /// Assembles the configuration of the new tunnel from the settings and a
    /// freshly generated pair of keys: the interface with all five fields set,
    /// and as many placeholder peers as were asked for. An empty key is no
    /// key: with one there is no configuration.
    pub fn generate(&self, private_key: String, public_key: String) -> (r: Result<
        WireguardConfig,
        KeyGenError,
    >)
        ensures
            match r {
                Ok(config) => is_generated(config, self@, private_key@, public_key@),
                Err(e) => e == KeyGenError::EmptyOutput && (private_key@.len() == 0 || public_key@.len()
                    == 0),
            },
    {
        proof {
            use_type_invariant(self);
        }
        if private_key.as_str().is_empty() || public_key.as_str().is_empty() {
            return Err(KeyGenError::EmptyOutput);
        }
        let interface = Interface {
            name: Some(self.tunnel_iface_name.clone()),
            address: Some(network_to_string(&self.tunnel_iface_ip)),
            listen_port: Some(port_to_string(self.listen_port)),
            public_key: Some(public_key),
            private_key: Some(private_key),
        };
        let mut peers: Vec<Peer> = Vec::new();
        let mut i: usize = 0;
        while i < self.number_of_peers
            invariant
                i <= self.number_of_peers,
                peers@.len() == i,
                forall|j: int| 0 <= j < peers@.len() ==> is_placeholder_peer(#[trigger] peers@[j]),
            decreases self.number_of_peers - i,
        {
            peers.push(
                Peer {
                    allowed_ips: Some(PEER_ALLOWED_IPS.to_string()),
                    endpoint: Some(PEER_ENDPOINT.to_string()),
                    public_key: None,
                },
            );
            i += 1;
        }
        Ok(WireguardConfig { interface, peers })
    }

    /// The request that every generation starts with. Settings exist only
    /// for valid fields, so that no key tool runs for fields that are not.
    pub fn begin_generation(&self) -> (pending: KeyRequest)
        ensures
            pending == KeyRequest::PrivateKey,
    {
        KeyRequest::PrivateKey
    }

    /// One step of a generation: `pending` is the run that the caller made,
    /// `output` what the tool wrote to its standard output, or the failure of
    /// the run. A private key is followed by the run of `wg pubkey` on it, a
    /// public key by the configuration; a key that cannot be had, or is
    /// empty, ends the generation with the reason.
    pub fn generate_step(&self, pending: KeyRequest, output: Result<Vec<u8>, ProcessError>) -> (step:
        GenerationStep)
        ensures
            match pending {
                KeyRequest::PrivateKey => match private_key_of(output) {
                    Ok(key) => step matches GenerationStep::Await(KeyRequest::PublicKey { private_key })
                        && private_key@ == key,
                    Err(e) => step == GenerationStep::Finished(Err(e)),
                },
                KeyRequest::PublicKey { private_key } => match public_key_of(output) {
                    Ok(key) => if private_key@.len() > 0 {
                        step matches GenerationStep::Finished(Ok(config)) && is_generated(
                            config,
                            self@,
                            private_key@,
                            key,
                        )
                    } else {
                        step == GenerationStep::Finished(Err(KeyGenError::EmptyOutput))
                    },
                    Err(e) => step == GenerationStep::Finished(Err(e)),
                },
            },
    {
        match pending {
            KeyRequest::PrivateKey => match generate_private_key(output) {
                Ok(private_key) => GenerationStep::Await(KeyRequest::PublicKey { private_key }),
                Err(e) => GenerationStep::Finished(Err(e)),
            },
            KeyRequest::PublicKey { private_key } => match generate_public_key(output) {
                Ok(public_key) => GenerationStep::Finished(self.generate(private_key, public_key)),
                Err(e) => GenerationStep::Finished(Err(e)),
            },
        }
    }
}

} // verus!
