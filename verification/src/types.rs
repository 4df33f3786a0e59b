//! The data model: device kinds, USB endpoint descriptors, enumeration
//! snapshots, progress events and the error type.

use vstd::prelude::*;
use vstd::string::StringExecFns;

verus! {

/// The closed set of device families this tool can flash.
#[derive(Clone, Copy, Debug, PartialEq, Eq, Structural)]
pub enum DeviceType {
    /// Dual-channel device: independently flashable main and display controllers.
    Freewili,
    /// Single-channel badge variant.
    Defcon2024Badge,
    /// Single-channel badge variant.
    Defcon2025FwBadge,
    /// Single-channel device with no published firmware.
    Winky,
    /// Ambiguous generic-bootloader kind; its true family is unknown until a
    /// caller-supplied hint disambiguates it.
    Uf2,
    /// Unrecognized device; cannot be flashed.
    Unknown,
}

impl DeviceType {
    /// The kind's name, as diagnostics spell it.
    pub open spec fn spec_name(&self) -> Seq<char> {
        match self {
            DeviceType::Freewili => "Freewili"@,
            DeviceType::Defcon2024Badge => "Defcon2024Badge"@,
            DeviceType::Defcon2025FwBadge => "Defcon2025FwBadge"@,
            DeviceType::Winky => "Winky"@,
            DeviceType::Uf2 => "Uf2"@,
            DeviceType::Unknown => "Unknown"@,
        }
    }

    /// Renders the kind's name for diagnostics.
    pub fn name(&self) -> (r: String)
        ensures
            r@ == self.spec_name(),
    {
        match self {
            DeviceType::Freewili => "Freewili".to_owned(),
            DeviceType::Defcon2024Badge => "Defcon2024Badge".to_owned(),
            DeviceType::Defcon2025FwBadge => "Defcon2025FwBadge".to_owned(),
            DeviceType::Winky => "Winky".to_owned(),
            DeviceType::Uf2 => "Uf2".to_owned(),
            DeviceType::Unknown => "Unknown".to_owned(),
        }
    }
}

/// The operating mode a USB endpoint reports.
#[derive(Clone, Copy, Debug, PartialEq, Eq, Structural)]
pub enum UsbDeviceType {
    /// The main controller exposed as a serial port.
    SerialMain,
    /// The display controller exposed as a serial port.
    SerialDisplay,
    /// A UF2 bootloader volume (mass-storage mode).
    MassStorage,
    /// Any endpoint role this tool does not act on.
    Other,
}

/// One USB endpoint of a device: its mode, its serial-port name (meaningful
/// in serial mode) and its filesystem mount path (meaningful in mass-storage
/// mode, and only once the host has finished mounting the volume).
#[derive(Debug, Clone)]
pub struct UsbEndpoint {
    pub kind: UsbDeviceType,
    pub port: Option<String>,
    pub path: Option<String>,
}

/// Mathematical model of a [`UsbEndpoint`].
pub struct UsbEndpointModel {
    pub kind: UsbDeviceType,
    pub port: Option<Seq<char>>,
    pub path: Option<Seq<char>>,
}

impl View for UsbEndpoint {
    type V = UsbEndpointModel;

    open spec fn view(&self) -> UsbEndpointModel {
        UsbEndpointModel {
            kind: self.kind,
            port: match self.port {
                Some(ref p) => Some(p@),
                None => None,
            },
            path: match self.path {
                Some(ref p) => Some(p@),
                None => None,
            },
        }
    }
}

/// One attached device as one enumeration snapshot reports it: its stable
/// identity, the kind it currently reports, and its two endpoints.  `None`
/// for an endpoint means the collaborator's per-endpoint query failed in
/// this snapshot.
#[derive(Debug, Clone)]
pub struct DeviceInfo {
    pub unique_id: u64,
    pub device_type: DeviceType,
    pub main: Option<UsbEndpoint>,
    pub display: Option<UsbEndpoint>,
}

/// Mathematical model of a [`DeviceInfo`].
pub struct DeviceInfoModel {
    pub unique_id: u64,
    pub device_type: DeviceType,
    pub main: Option<UsbEndpointModel>,
    pub display: Option<UsbEndpointModel>,
}

impl View for DeviceInfo {
    type V = DeviceInfoModel;

    open spec fn view(&self) -> DeviceInfoModel {
        DeviceInfoModel {
            unique_id: self.unique_id,
            device_type: self.device_type,
            main: match self.main {
                Some(ref e) => Some(e@),
                None => None,
            },
            display: match self.display {
                Some(ref e) => Some(e@),
                None => None,
            },
        }
    }
}

/// One progress event sent to the front end.  `Progress(-1)` is the
/// indeterminate marker; other `Progress` values are percentages 0..=100.
/// `Complete` carries the total elapsed milliseconds of the update.
#[derive(Debug)]
pub enum UpdateMessage {
    Progress(i16),
    ProgressDetail(String),
    Error(String),
    Complete(u64),
}

impl UpdateMessage {
    /// A terminal event ends one update: exactly one is emitted per run.
    pub open spec fn is_terminal(&self) -> bool {
        self is Error || self is Complete
    }
}

/// How many terminal events a message sequence holds.
pub open spec fn terminal_count(msgs: Seq<UpdateMessage>) -> int
    decreases msgs.len(),
{
    if msgs.len() == 0 {
        0
    } else {
        terminal_count(msgs.drop_last()) + if msgs.last().is_terminal() {
            1int
        } else {
            0int
        }
    }
}

/// Appending one message raises the terminal count by one exactly when the
/// message is terminal.
pub proof fn lemma_terminal_count_push(s: Seq<UpdateMessage>, m: UpdateMessage)
    ensures
        terminal_count(s.push(m)) == terminal_count(s) + if m.is_terminal() {
            1int
        } else {
            0int
        },
{
    assert(s.push(m).drop_last() =~= s);
}

/// A message sequence without terminal events is exactly one whose
/// terminal count is zero.
pub proof fn lemma_terminal_count_zero(s: Seq<UpdateMessage>)
    ensures
        (terminal_count(s) == 0) <==> (forall|i: int|
            0 <= i < s.len() ==> !(#[trigger] s[i]).is_terminal()),
        terminal_count(s) >= 0,
    decreases s.len(),
{
    if s.len() > 0 {
        lemma_terminal_count_zero(s.drop_last());
        assert(s.last() == s[s.len() - 1]);
        if terminal_count(s) == 0 {
            assert(forall|i: int| 0 <= i < s.len() - 1 ==> s.drop_last()[i] == s[i]);
        }
        if forall|i: int| 0 <= i < s.len() ==> !(#[trigger] s[i]).is_terminal() {
            assert(forall|i: int|
                0 <= i < s.len() - 1 ==> !(#[trigger] s.drop_last()[i]).is_terminal());
        }
    }
}

/// In a message sequence without terminal events, or with exactly one that
/// stands last, no position before the last is terminal.
pub proof fn lemma_terminal_only_last(s: Seq<UpdateMessage>)
    requires
        terminal_count(s) == 0 || (s.len() >= 1 && s.last().is_terminal() && terminal_count(s)
            == 1),
    ensures
        forall|k: int| 0 <= k < s.len() && (#[trigger] s[k]).is_terminal() ==> k == s.len() - 1,
{
    if terminal_count(s) == 0 {
        lemma_terminal_count_zero(s);
    } else {
        assert(terminal_count(s.drop_last()) == 0);
        lemma_terminal_count_zero(s.drop_last());
        assert forall|k: int|
            0 <= k < s.len() && (#[trigger] s[k]).is_terminal() implies k == s.len() - 1 by {
            if k < s.len() - 1 {
                assert(s.drop_last()[k] == s[k]);
                assert(!s.drop_last()[k].is_terminal());
            }
        }
    }
}

/// The terminal count of a concatenation is the sum of the parts' counts.
pub proof fn lemma_terminal_count_append(a: Seq<UpdateMessage>, b: Seq<UpdateMessage>)
    ensures
        terminal_count(a + b) == terminal_count(a) + terminal_count(b),
    decreases b.len(),
{
    if b.len() == 0 {
        assert(a + b =~= a);
    } else {
        lemma_terminal_count_append(a, b.drop_last());
        assert((a + b).drop_last() =~= a + b.drop_last());
        assert((a + b).last() == b.last());
    }
}

/// The three error kinds of an update, each with a human-readable detail.
#[derive(Debug)]
pub enum Error {
    /// Unrecoverable orchestration failure: device never located, bootloader
    /// entry timed out, or the device kind does not support bootloader mode.
    Critical(String),
    /// The resolved device kind has no firmware payload in the catalog.
    UF2(String),
    /// An I/O failure while creating, writing or syncing the firmware file.
    Flash(String),
}

impl Error {
    /// The full human-readable message: the kind's prefix, then the detail.
    pub open spec fn spec_message(&self) -> Seq<char> {
        match self {
            Error::Critical(s) => "Critical Error: "@ + s@,
            Error::UF2(s) => "UF2 Error: "@ + s@,
            Error::Flash(s) => "Flash Error: "@ + s@,
        }
    }

    /// Renders the error as the front end shows it.
    pub fn message(&self) -> (r: String)
        ensures
            r@ == self.spec_message(),
    {
        match self {
            Error::Critical(s) => "Critical Error: ".to_owned().concat(s.as_str()),
            Error::UF2(s) => "UF2 Error: ".to_owned().concat(s.as_str()),
            Error::Flash(s) => "Flash Error: ".to_owned().concat(s.as_str()),
        }
    }
}

} // verus!
