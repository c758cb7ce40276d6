//! The vocabulary shared by the host and the device.

use vstd::prelude::*;
use vstd::string::StrSliceExecFns;

use crate::text;

verus! {

/// First firmware that can display taproot addresses.
pub const MIN_JADE_FIRMWARE_TAPROOT: &'static str = "1.0.34";

/// A Bitcoin network the device can be unlocked for.
#[derive(Debug, Clone, Copy, PartialEq, Eq, Structural)]
pub enum JadeNetwork {
    Mainnet,
    Testnet,
    Regtest,
}

impl JadeNetwork {
    /// The network's name in requests.
    pub open spec fn name(self) -> Seq<char> {
        match self {
            JadeNetwork::Mainnet => "mainnet"@,
            JadeNetwork::Testnet => "testnet"@,
            JadeNetwork::Regtest => "localtest"@,
        }
    }

    /// The network's name as an argument to the Bitcoin reference client.
    pub open spec fn chain(self) -> Seq<char> {
        match self {
            JadeNetwork::Mainnet => "main"@,
            JadeNetwork::Testnet => "test"@,
            JadeNetwork::Regtest => "regtest"@,
        }
    }

    /// The coin number of account paths.
    pub open spec fn coin(self) -> u32 {
        match self {
            JadeNetwork::Mainnet => 0,
            JadeNetwork::Testnet => 1,
            JadeNetwork::Regtest => 1,
        }
    }

    /// The network's name in requests.
    pub fn wire_name(self) -> (r: &'static str)
        ensures
            r@ == self.name(),
    {
        match self {
            JadeNetwork::Mainnet => "mainnet",
            JadeNetwork::Testnet => "testnet",
            JadeNetwork::Regtest => "localtest",
        }
    }

    /// The network's name as an argument to the Bitcoin reference client.
    pub fn chain_name(self) -> (r: &'static str)
        ensures
            r@ == self.chain(),
    {
        match self {
            JadeNetwork::Mainnet => "main",
            JadeNetwork::Testnet => "test",
            JadeNetwork::Regtest => "regtest",
        }
    }

    /// The coin number of account paths.
    pub fn coin_type(self) -> (r: u32)
        ensures
            r == self.coin(),
    {
        match self {
            JadeNetwork::Mainnet => 0,
            JadeNetwork::Testnet => 1,
            JadeNetwork::Regtest => 1,
        }
    }
}

/// A single signature address type.
#[derive(Debug, Clone, Copy, PartialEq, Eq, Structural)]
pub enum JadeAddressVariant {
    Pkh,
    ShWpkh,
    Wpkh,
    Tr,
}

impl View for JadeAddressVariant {
    type V = JadeAddressVariant;

    open spec fn view(&self) -> JadeAddressVariant {
        *self
    }
}

impl JadeAddressVariant {
    /// The variant's name in requests.
    pub open spec fn name(self) -> Seq<char> {
        match self {
            JadeAddressVariant::Pkh => "pkh(k)"@,
            JadeAddressVariant::ShWpkh => "sh(wpkh(k))"@,
            JadeAddressVariant::Wpkh => "wpkh(k)"@,
            JadeAddressVariant::Tr => "tr(k)"@,
        }
    }

    /// The purpose number that account paths of this variant begin with.
    pub open spec fn account_purpose(self) -> u32 {
        match self {
            JadeAddressVariant::Pkh => 44,
            JadeAddressVariant::ShWpkh => 49,
            JadeAddressVariant::Wpkh => 84,
            JadeAddressVariant::Tr => 86,
        }
    }

    /// The variant's name in requests.
    pub fn wire_name(self) -> (r: &'static str)
        ensures
            r@ == self.name(),
    {
        match self {
            JadeAddressVariant::Pkh => "pkh(k)",
            JadeAddressVariant::ShWpkh => "sh(wpkh(k))",
            JadeAddressVariant::Wpkh => "wpkh(k)",
            JadeAddressVariant::Tr => "tr(k)",
        }
    }

    /// The purpose number that account paths of this variant begin with.
    pub fn purpose(self) -> (r: u32)
        ensures
            r == self.account_purpose(),
    {
        match self {
            JadeAddressVariant::Pkh => 44,
            JadeAddressVariant::ShWpkh => 49,
            JadeAddressVariant::Wpkh => 84,
            JadeAddressVariant::Tr => 86,
        }
    }
}

/// Where the device stands.
#[derive(Debug, Clone, Copy, PartialEq, Eq, Structural)]
pub enum JadeState {
    /// Unlocked and usable.
    Ready,
    /// Usable with a wallet that is gone after a restart.
    Temp,
    /// Holds a wallet that has to be unlocked.
    Locked,
    /// Holds a wallet that is not stored yet.
    Unsaved,
    /// Holds no wallet.
    Uninit,
    /// A state this crate does not know.
    Unknown,
}

impl JadeState {
    /// The state that the device calls `name`.
    pub open spec fn named(name: Seq<char>) -> JadeState {
        if name == "READY"@ {
            JadeState::Ready
        } else if name == "TEMP"@ {
            JadeState::Temp
        } else if name == "LOCKED"@ {
            JadeState::Locked
        } else if name == "UNSAVED"@ {
            JadeState::Unsaved
        } else if name == "UNINIT"@ {
            JadeState::Uninit
        } else {
            JadeState::Unknown
        }
    }

    /// The state that the device calls `name`.
    pub fn from_wire(name: &str) -> (r: JadeState)
        ensures
            r == JadeState::named(name@),
    {
        if text::same(name, "READY") {
            JadeState::Ready
        } else if text::same(name, "TEMP") {
            JadeState::Temp
        } else if text::same(name, "LOCKED") {
            JadeState::Locked
        } else if text::same(name, "UNSAVED") {
            JadeState::Unsaved
        } else if text::same(name, "UNINIT") {
            JadeState::Uninit
        } else {
            JadeState::Unknown
        }
    }
}

/// The version summary as the device sends it.
#[derive(Debug, Clone)]
pub struct WireVersionInfo {
    pub jade_version: String,
    pub jade_state: String,
    pub jade_networks: String,
    pub jade_has_pin: bool,
}

/// The version summary.
#[derive(Debug, Clone)]
pub struct JadeVersionInfo {
    pub jade_version: String,
    pub jade_state: JadeState,
    pub jade_networks: String,
    pub jade_has_pin: bool,
}

/// The mathematical value of a [`JadeVersionInfo`].
pub struct Version {
    pub version: Seq<char>,
    pub state: JadeState,
    pub networks: Seq<char>,
    pub has_pin: bool,
}

impl View for WireVersionInfo {
    type V = Version;

    open spec fn view(&self) -> Version {
        Version {
            version: self.jade_version@,
            state: JadeState::named(self.jade_state@),
            networks: self.jade_networks@,
            has_pin: self.jade_has_pin,
        }
    }
}

impl View for JadeVersionInfo {
    type V = Version;

    open spec fn view(&self) -> Version {
        Version {
            version: self.jade_version@,
            state: self.jade_state,
            networks: self.jade_networks@,
            has_pin: self.jade_has_pin,
        }
    }
}

impl JadeVersionInfo {
    /// Reads the summary off the wire form.
    pub fn from_wire(wire: WireVersionInfo) -> (r: JadeVersionInfo)
        ensures
            r@ == wire@,
            r.jade_version@ == wire.jade_version@,
            r.jade_state == JadeState::named(wire.jade_state@),
            r.jade_networks@ == wire.jade_networks@,
            r.jade_has_pin == wire.jade_has_pin,
    {
        JadeVersionInfo {
            jade_state: JadeState::from_wire(wire.jade_state.as_str()),
            jade_version: wire.jade_version,
            jade_networks: wire.jade_networks,
            jade_has_pin: wire.jade_has_pin,
        }
    }
}

/// What the device is doing.
#[derive(Debug, Clone, Copy, PartialEq, Eq, Structural)]
pub enum JadePingStatus {
    /// Nothing.
    Idle,
    /// Handling a request.
    Busy,
    /// Waiting on the user.
    AwaitingUser,
    /// Something this crate does not know.
    Unknown,
}

impl View for JadePingStatus {
    type V = JadePingStatus;

    open spec fn view(&self) -> JadePingStatus {
        *self
    }
}

impl JadePingStatus {
    /// The status that the device numbers `raw`.
    pub open spec fn numbered(raw: int) -> JadePingStatus {
        if raw == 0 {
            JadePingStatus::Idle
        } else if raw == 1 {
            JadePingStatus::Busy
        } else if raw == 2 {
            JadePingStatus::AwaitingUser
        } else {
            JadePingStatus::Unknown
        }
    }

    /// The status that the device numbers `raw`.
    pub fn from_wire(raw: u64) -> (r: JadePingStatus)
        ensures
            r == JadePingStatus::numbered(raw as int),
    {
        match raw {
            0 => JadePingStatus::Idle,
            1 => JadePingStatus::Busy,
            2 => JadePingStatus::AwaitingUser,
            _ => JadePingStatus::Unknown,
        }
    }
}

/// An extended public key, echoed back with the request it answers.
#[derive(Debug, Clone)]
pub struct JadeXpubResponse {
    pub xpub: String,
    pub derivation_path: String,
    pub master_fingerprint: String,
}

/// The mathematical value of a [`JadeXpubResponse`].
pub struct XpubResponse {
    pub xpub: Seq<char>,
    pub derivation_path: Seq<char>,
    pub master_fingerprint: Seq<char>,
}

impl View for JadeXpubResponse {
    type V = XpubResponse;

    open spec fn view(&self) -> XpubResponse {
        XpubResponse {
            xpub: self.xpub@,
            derivation_path: self.derivation_path@,
            master_fingerprint: self.master_fingerprint@,
        }
    }
}

/// One account of an export.
#[derive(Debug, Clone)]
pub struct JadeAccount {
    pub variant: JadeAddressVariant,
    pub xpub: String,
    pub derivation_path: String,
}

/// The mathematical value of a [`JadeAccount`].
pub struct Account {
    pub variant: JadeAddressVariant,
    pub xpub: Seq<char>,
    pub derivation_path: Seq<char>,
}

impl View for JadeAccount {
    type V = Account;

    open spec fn view(&self) -> Account {
        Account {
            variant: self.variant,
            xpub: self.xpub@,
            derivation_path: self.derivation_path@,
        }
    }
}

/// The account keys an import needs.
#[derive(Debug, Clone)]
pub struct JadeAccountExport {
    pub master_fingerprint: String,
    pub account_index: u32,
    pub accounts: Vec<JadeAccount>,
}

/// The mathematical value of a [`JadeAccountExport`].
#[verifier::ext_equal]
pub struct Export {
    pub master_fingerprint: Seq<char>,
    pub account_index: u32,
    pub accounts: Seq<Account>,
}

/// The values of accounts.
pub open spec fn account_values(accounts: Seq<JadeAccount>) -> Seq<Account> {
    accounts.map_values(|account: JadeAccount| account@)
}

impl View for JadeAccountExport {
    type V = Export;

    open spec fn view(&self) -> Export {
        Export {
            master_fingerprint: self.master_fingerprint@,
            account_index: self.account_index,
            accounts: account_values(self.accounts@),
        }
    }
}

/// A message signature with the address that verifies it.
#[derive(Debug, Clone)]
pub struct JadeSignedMessage {
    pub signature: String,
    pub address: String,
    pub derivation_path: String,
}

/// The mathematical value of a [`JadeSignedMessage`].
pub struct SignedMessage {
    pub signature: Seq<char>,
    pub address: Seq<char>,
    pub derivation_path: Seq<char>,
}

impl View for JadeSignedMessage {
    type V = SignedMessage;

    open spec fn view(&self) -> SignedMessage {
        SignedMessage {
            signature: self.signature@,
            address: self.address@,
            derivation_path: self.derivation_path@,
        }
    }
}

/// How a device is attached.
#[derive(Debug, Clone, Copy, PartialEq, Eq, Structural)]
pub enum JadeTransportKind {
    Serial,
    Bluetooth,
}

/// An attached device.
#[derive(Debug, Clone)]
pub struct JadeDeviceInfo {
    pub path: String,
    pub transport: JadeTransportKind,
    pub name: Option<String>,
    pub serial_number: Option<String>,
}

/// The mathematical value of a [`JadeDeviceInfo`].
pub struct Device {
    pub path: Seq<char>,
    pub transport: JadeTransportKind,
    pub name: Option<Seq<char>>,
    pub serial_number: Option<Seq<char>>,
}

impl View for JadeDeviceInfo {
    type V = Device;

    open spec fn view(&self) -> Device {
        Device {
            path: self.path@,
            transport: self.transport,
            name: text::optional(self.name),
            serial_number: text::optional(self.serial_number),
        }
    }
}

/// `n` with the digit `c` appended, or the largest number if that is too large.
pub open spec fn with_digit(n: u64, c: char) -> u64 {
    let m = n * 10 + (c as u32 - 48);
    if m > u64::MAX {
        u64::MAX
    } else {
        m as u64
    }
}

/// The numbers of a version from position `i` on, after those in `done`, where
/// the digits before `i` make up `current`.
pub open spec fn version_tail(s: Seq<char>, i: int, done: Seq<u64>, current: u64) -> Seq<u64>
    decreases s.len() - i,
{
    if 0 <= i < s.len() && s[i] == '.' {
        version_tail(s, i + 1, done.push(current), 0)
    } else if 0 <= i < s.len() && '0' <= s[i] <= '9' {
        version_tail(s, i + 1, done, with_digit(current, s[i]))
    } else {
        done.push(current)
    }
}

/// The dotted numbers that a version begins with. What follows the first
/// character that is neither a digit nor a dot is disregarded.
pub open spec fn version_numbers(s: Seq<char>) -> Seq<u64> {
    version_tail(s, 0, Seq::empty(), 0)
}

/// The number at position `i` of a version, zero past the end.
pub open spec fn version_part(numbers: Seq<u64>, i: int) -> u64 {
    if 0 <= i < numbers.len() {
        numbers[i]
    } else {
        0
    }
}

/// The larger of two lengths.
pub open spec fn longer(a: nat, b: nat) -> int {
    if a > b {
        a as int
    } else {
        b as int
    }
}

/// Whether version `a` is `b` or later, going by the numbers from `i` on.
pub open spec fn not_before(a: Seq<u64>, b: Seq<u64>, i: int) -> bool
    decreases longer(a.len(), b.len()) - i,
{
    if i >= a.len() && i >= b.len() {
        true
    } else if version_part(a, i) != version_part(b, i) {
        version_part(a, i) > version_part(b, i)
    } else {
        not_before(a, b, i + 1)
    }
}

/// Whether firmware `version` is `minimum` or later.
pub open spec fn at_least(version: Seq<char>, minimum: Seq<char>) -> bool {
    not_before(version_numbers(version), version_numbers(minimum), 0)
}

/// The dotted numbers that a version begins with.
fn read_version_numbers(version: &str) -> (r: Vec<u64>)
    ensures
        r@ == version_numbers(version@),
{
    let len: usize = version.unicode_len();
    let mut done: Vec<u64> = Vec::new();
    let mut current: u64 = 0;
    let mut i: usize = 0;
    while i < len
        invariant
            i <= len == version@.len(),
            version_tail(version@, i as int, done@, current) == version_numbers(version@),
        ensures
            done@.push(current) == version_numbers(version@),
        decreases len - i,
    {
        let c: char = version.get_char(i);
        if c == '.' {
            done.push(current);
            current = 0;
        } else if '0' <= c && c <= '9' {
            let d: u64 = (c as u32 - 48) as u64;
            current = match current.checked_mul(10) {
                Some(tens) => match tens.checked_add(d) {
                    Some(n) => n,
                    None => u64::MAX,
                },
                None => u64::MAX,
            };
        } else {
            break;
        }
        i += 1;
    }
    done.push(current);
    done
}

/// Whether firmware `version` is `minimum` or later.
pub fn version_at_least(version: &str, minimum: &str) -> (r: bool)
    ensures
        r == at_least(version@, minimum@),
{
    let a = read_version_numbers(version);
    let b = read_version_numbers(minimum);
    let mut i: usize = 0;
    while i < a.len() || i < b.len()
        invariant
            i <= a.len() || i <= b.len(),
            a@ == version_numbers(version@),
            b@ == version_numbers(minimum@),
            not_before(a@, b@, i as int) == at_least(version@, minimum@),
        decreases longer(a@.len(), b@.len()) - i,
    {
        let x: u64 = if i < a.len() {
            a[i]
        } else {
            0
        };
        let y: u64 = if i < b.len() {
            b[i]
        } else {
            0
        };
        if x != y {
            return x > y;
        }
        i += 1;
    }
    true
}

/// A version is not before itself.
pub proof fn version_order_reflexive(version: Seq<char>)
    ensures
        at_least(version, version),
{
    let a = version_numbers(version);
    not_before_reflexive(a, 0);
}

/// Of two versions, one is not before the other.
pub proof fn version_order_total(a: Seq<char>, b: Seq<char>)
    ensures
        at_least(a, b) || at_least(b, a),
{
    not_before_total(version_numbers(a), version_numbers(b), 0);
}

/// A version that is not before a second one is not before any that the second
/// is not before.
pub proof fn version_order_transitive(a: Seq<char>, b: Seq<char>, c: Seq<char>)
    requires
        at_least(a, b),
        at_least(b, c),
    ensures
        at_least(a, c),
{
    not_before_transitive(version_numbers(a), version_numbers(b), version_numbers(c), 0);
}

proof fn not_before_reflexive(a: Seq<u64>, i: int)
    ensures
        not_before(a, a, i),
    decreases a.len() - i,
{
    if i < a.len() {
        not_before_reflexive(a, i + 1);
    }
}

proof fn not_before_total(a: Seq<u64>, b: Seq<u64>, i: int)
    ensures
        not_before(a, b, i) || not_before(b, a, i),
    decreases longer(a.len(), b.len()) - i,
{
    if i < a.len() || i < b.len() {
        not_before_total(a, b, i + 1);
    }
}

/// Past the end of both, a version whose numbers are all zero is before none.
proof fn not_before_zeros(a: Seq<u64>, b: Seq<u64>, i: int)
    requires
        b.len() <= i,
    ensures
        not_before(a, b, i),
    decreases a.len() - i,
{
    if i < a.len() {
        not_before_zeros(a, b, i + 1);
    }
}

proof fn not_before_transitive(a: Seq<u64>, b: Seq<u64>, c: Seq<u64>, i: int)
    requires
        not_before(a, b, i),
        not_before(b, c, i),
    ensures
        not_before(a, c, i),
    decreases longer(a.len(), longer(b.len(), c.len()) as nat) - i,
{
    if i < a.len() || i < b.len() || i < c.len() {
        if version_part(a, i) == version_part(b, i) && version_part(b, i) == version_part(c, i) {
            if i >= a.len() && i >= c.len() {
            } else {
                if i >= a.len() && i >= b.len() {
                    not_before_zeros(a, b, i + 1);
                }
                if i >= b.len() && i >= c.len() {
                    not_before_zeros(b, c, i + 1);
                }
                not_before_transitive(a, b, c, i + 1);
            }
        }
    }
}

} // verus!
