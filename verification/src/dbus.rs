//! Plain-value models of the NetworkManager DBus interface.
//!
//! The DBus proxies themselves live outside this crate; here live the value
//! types they deliver: device and access-point state enums with their wire
//! codes, the access-point summary the list view shows, and the rules the
//! panel applies to them (signal-strength ordering, authentication-failure
//! detection).

use vstd::prelude::*;
use vstd::seq_lib::group_to_multiset_ensures;

verus! {

broadcast use vstd::seq_lib::group_to_multiset_ensures;

/// The general type of a network device, with its NetworkManager wire code.
#[derive(Copy, Clone, Debug, PartialEq, Eq, Structural)]
pub enum DeviceType {
    Wifi,
    Modem,
}

impl DeviceType {
    /// The NetworkManager wire code of this device type.
    pub open spec fn spec_code(self) -> u32 {
        match self {
            DeviceType::Wifi => 2,
            DeviceType::Modem => 8,
        }
    }

    /// Decodes a NetworkManager device-type code.
    pub fn from_u32(v: u32) -> (r: Option<Self>)
        ensures
            r matches Some(t) ==> t.spec_code() == v,
            r is None ==> forall|t: DeviceType| t.spec_code() != v,
    {
        match v {
            2 => Some(DeviceType::Wifi),
            8 => Some(DeviceType::Modem),
            _ => None,
        }
    }
}

/// 802.11 access point capability flags, with their wire codes.
#[derive(Copy, Clone, Debug, PartialEq, Eq, Structural)]
pub enum APFlags {
    NoFlags,
    Privacy,
    Wps,
    WpsPbc,
    WpsPin,
}

impl APFlags {
    /// The NetworkManager wire code of this flag.
    pub open spec fn spec_code(self) -> u32 {
        match self {
            APFlags::NoFlags => 0,
            APFlags::Privacy => 1,
            APFlags::Wps => 2,
            APFlags::WpsPbc => 4,
            APFlags::WpsPin => 8,
        }
    }

    /// Decodes a NetworkManager access-point flag code.
    pub fn from_u32(v: u32) -> (r: Option<Self>)
        ensures
            r matches Some(t) ==> t.spec_code() == v,
            r is None ==> forall|t: APFlags| t.spec_code() != v,
    {
        match v {
            0 => Some(APFlags::NoFlags),
            1 => Some(APFlags::Privacy),
            2 => Some(APFlags::Wps),
            4 => Some(APFlags::WpsPbc),
            8 => Some(APFlags::WpsPin),
            _ => None,
        }
    }
}

/// The state of a network device, with its NetworkManager wire code.
#[derive(Copy, Clone, Debug, PartialEq, Eq, Structural)]
pub enum DeviceState {
    Unknown,
    Unmanaged,
    Unavailable,
    Disconnected,
    Prepare,
    Config,
    NeedAuth,
    IpConfig,
    IpCheck,
    Secondaries,
    Activated,
    Deactivating,
    Failed,
}

impl DeviceState {
    /// The NetworkManager wire code of this value.
    pub open spec fn spec_code(self) -> u32 {
        match self {
            DeviceState::Unknown => 0,
            DeviceState::Unmanaged => 10,
            DeviceState::Unavailable => 20,
            DeviceState::Disconnected => 30,
            DeviceState::Prepare => 40,
            DeviceState::Config => 50,
            DeviceState::NeedAuth => 60,
            DeviceState::IpConfig => 70,
            DeviceState::IpCheck => 80,
            DeviceState::Secondaries => 90,
            DeviceState::Activated => 100,
            DeviceState::Deactivating => 110,
            DeviceState::Failed => 120,
        }
    }

    /// Decodes a NetworkManager wire code.
    pub fn from_u32(v: u32) -> (r: Option<Self>)
        ensures
            r matches Some(t) ==> t.spec_code() == v,
            r is None ==> forall|t: DeviceState| t.spec_code() != v,
    {
        match v {
            0 => Some(DeviceState::Unknown),
            10 => Some(DeviceState::Unmanaged),
            20 => Some(DeviceState::Unavailable),
            30 => Some(DeviceState::Disconnected),
            40 => Some(DeviceState::Prepare),
            50 => Some(DeviceState::Config),
            60 => Some(DeviceState::NeedAuth),
            70 => Some(DeviceState::IpConfig),
            80 => Some(DeviceState::IpCheck),
            90 => Some(DeviceState::Secondaries),
            100 => Some(DeviceState::Activated),
            110 => Some(DeviceState::Deactivating),
            120 => Some(DeviceState::Failed),
            _ => None,
        }
    }
}

/// The reason for a device state change, with its NetworkManager wire code.
#[derive(Copy, Clone, Debug, PartialEq, Eq, Structural)]
pub enum DeviceStateReason {
    NoReason,
    Unknown,
    NowManaged,
    NowUnmanaged,
    ConfigFailed,
    IpConfigUnavailable,
    IpConfigExpired,
    NoSecrets,
    SupplicantDisconnect,
    SupplicantConfigFailed,
    SupplicantFailed,
    SupplicantTimeout,
    PppStartFailed,
    PppDisconnect,
    PppFailed,
    DhcpStartFailed,
    DhcpError,
    DhcpFailed,
    SharedStartFailed,
    SharedFailed,
    AutoipStartFailed,
    AutoipError,
    AutoipFailed,
    ModemBusy,
    ModemNoDialTone,
    ModemNoCarrier,
    ModemDialTimeout,
    ModemDialFailed,
    ModemInitFailed,
    GsmApnFailed,
    GsmRegistrationNotSearching,
    GsmRegistrationDenied,
    GsmRegistrationTimeout,
    GsmRegistrationFailed,
    GsmPinCheckFailed,
    FirmwareMissing,
    Removed,
    Sleeping,
    ConnectionRemoved,
    UserRequested,
    Carrier,
    ConnectionAssumed,
    SupplicantAvailable,
    ModemNotFound,
    BtFailed,
    GsmSimNotInserted,
    GsmSimPinRequired,
    GsmSimPukRequired,
    GsmSimWrong,
    InfinibandMode,
    DependencyFailed,
    Br2684Failed,
    ModemManagerUnavailable,
    SsidNotFound,
    SecondaryConnectionFailed,
    DcbFcoeFailed,
    TeamdControlFailed,
    ModemFailed,
    ModemAvailable,
    SimPinIncorrect,
    NewActivation,
    ParentChanged,
    ParentManagedChanged,
    OvsdbFailed,
    IpAddressDuplicate,
    IpMethodUnsupported,
    SriovConfigurationFailed,
    PeerNotFound,
    DeviceHandlerFailed,
    UnmanagedByDefault,
    UnmanagedExternalDown,
    UnmanagedLinkNotInit,
    UnmanagedQuitting,
    UnmanagedSleeping,
    UnmanagedUserConf,
    UnmanagedUserExplicit,
    UnmanagedUserSettings,
    UnmanagedUserUdev,
}

impl DeviceStateReason {
    /// The NetworkManager wire code of this value.
    pub open spec fn spec_code(self) -> u32 {
        match self {
            DeviceStateReason::NoReason => 0,
            DeviceStateReason::Unknown => 1,
            DeviceStateReason::NowManaged => 2,
            DeviceStateReason::NowUnmanaged => 3,
            DeviceStateReason::ConfigFailed => 4,
            DeviceStateReason::IpConfigUnavailable => 5,
            DeviceStateReason::IpConfigExpired => 6,
            DeviceStateReason::NoSecrets => 7,
            DeviceStateReason::SupplicantDisconnect => 8,
            DeviceStateReason::SupplicantConfigFailed => 9,
            DeviceStateReason::SupplicantFailed => 10,
            DeviceStateReason::SupplicantTimeout => 11,
            DeviceStateReason::PppStartFailed => 12,
            DeviceStateReason::PppDisconnect => 13,
            DeviceStateReason::PppFailed => 14,
            DeviceStateReason::DhcpStartFailed => 15,
            DeviceStateReason::DhcpError => 16,
            DeviceStateReason::DhcpFailed => 17,
            DeviceStateReason::SharedStartFailed => 18,
            DeviceStateReason::SharedFailed => 19,
            DeviceStateReason::AutoipStartFailed => 20,
            DeviceStateReason::AutoipError => 21,
            DeviceStateReason::AutoipFailed => 22,
            DeviceStateReason::ModemBusy => 23,
            DeviceStateReason::ModemNoDialTone => 24,
            DeviceStateReason::ModemNoCarrier => 25,
            DeviceStateReason::ModemDialTimeout => 26,
            DeviceStateReason::ModemDialFailed => 27,
            DeviceStateReason::ModemInitFailed => 28,
            DeviceStateReason::GsmApnFailed => 29,
            DeviceStateReason::GsmRegistrationNotSearching => 30,
            DeviceStateReason::GsmRegistrationDenied => 31,
            DeviceStateReason::GsmRegistrationTimeout => 32,
            DeviceStateReason::GsmRegistrationFailed => 33,
            DeviceStateReason::GsmPinCheckFailed => 34,
            DeviceStateReason::FirmwareMissing => 35,
            DeviceStateReason::Removed => 36,
            DeviceStateReason::Sleeping => 37,
            DeviceStateReason::ConnectionRemoved => 38,
            DeviceStateReason::UserRequested => 39,
            DeviceStateReason::Carrier => 40,
            DeviceStateReason::ConnectionAssumed => 41,
            DeviceStateReason::SupplicantAvailable => 42,
            DeviceStateReason::ModemNotFound => 43,
            DeviceStateReason::BtFailed => 44,
            DeviceStateReason::GsmSimNotInserted => 45,
            DeviceStateReason::GsmSimPinRequired => 46,
            DeviceStateReason::GsmSimPukRequired => 47,
            DeviceStateReason::GsmSimWrong => 48,
            DeviceStateReason::InfinibandMode => 49,
            DeviceStateReason::DependencyFailed => 50,
            DeviceStateReason::Br2684Failed => 51,
            DeviceStateReason::ModemManagerUnavailable => 52,
            DeviceStateReason::SsidNotFound => 53,
            DeviceStateReason::SecondaryConnectionFailed => 54,
            DeviceStateReason::DcbFcoeFailed => 55,
            DeviceStateReason::TeamdControlFailed => 56,
            DeviceStateReason::ModemFailed => 57,
            DeviceStateReason::ModemAvailable => 58,
            DeviceStateReason::SimPinIncorrect => 59,
            DeviceStateReason::NewActivation => 60,
            DeviceStateReason::ParentChanged => 61,
            DeviceStateReason::ParentManagedChanged => 62,
            DeviceStateReason::OvsdbFailed => 63,
            DeviceStateReason::IpAddressDuplicate => 64,
            DeviceStateReason::IpMethodUnsupported => 65,
            DeviceStateReason::SriovConfigurationFailed => 66,
            DeviceStateReason::PeerNotFound => 67,
            DeviceStateReason::DeviceHandlerFailed => 68,
            DeviceStateReason::UnmanagedByDefault => 69,
            DeviceStateReason::UnmanagedExternalDown => 70,
            DeviceStateReason::UnmanagedLinkNotInit => 71,
            DeviceStateReason::UnmanagedQuitting => 72,
            DeviceStateReason::UnmanagedSleeping => 73,
            DeviceStateReason::UnmanagedUserConf => 74,
            DeviceStateReason::UnmanagedUserExplicit => 75,
            DeviceStateReason::UnmanagedUserSettings => 76,
            DeviceStateReason::UnmanagedUserUdev => 77,
        }
    }

    /// Decodes a NetworkManager wire code.
    pub fn from_u32(v: u32) -> (r: Option<Self>)
        ensures
            r matches Some(t) ==> t.spec_code() == v,
            r is None ==> forall|t: DeviceStateReason| t.spec_code() != v,
    {
        match v {
            0 => Some(DeviceStateReason::NoReason),
            1 => Some(DeviceStateReason::Unknown),
            2 => Some(DeviceStateReason::NowManaged),
            3 => Some(DeviceStateReason::NowUnmanaged),
            4 => Some(DeviceStateReason::ConfigFailed),
            5 => Some(DeviceStateReason::IpConfigUnavailable),
            6 => Some(DeviceStateReason::IpConfigExpired),
            7 => Some(DeviceStateReason::NoSecrets),
            8 => Some(DeviceStateReason::SupplicantDisconnect),
            9 => Some(DeviceStateReason::SupplicantConfigFailed),
            10 => Some(DeviceStateReason::SupplicantFailed),
            11 => Some(DeviceStateReason::SupplicantTimeout),
            12 => Some(DeviceStateReason::PppStartFailed),
            13 => Some(DeviceStateReason::PppDisconnect),
            14 => Some(DeviceStateReason::PppFailed),
            15 => Some(DeviceStateReason::DhcpStartFailed),
            16 => Some(DeviceStateReason::DhcpError),
            17 => Some(DeviceStateReason::DhcpFailed),
            18 => Some(DeviceStateReason::SharedStartFailed),
            19 => Some(DeviceStateReason::SharedFailed),
            20 => Some(DeviceStateReason::AutoipStartFailed),
            21 => Some(DeviceStateReason::AutoipError),
            22 => Some(DeviceStateReason::AutoipFailed),
            23 => Some(DeviceStateReason::ModemBusy),
            24 => Some(DeviceStateReason::ModemNoDialTone),
            25 => Some(DeviceStateReason::ModemNoCarrier),
            26 => Some(DeviceStateReason::ModemDialTimeout),
            27 => Some(DeviceStateReason::ModemDialFailed),
            28 => Some(DeviceStateReason::ModemInitFailed),
            29 => Some(DeviceStateReason::GsmApnFailed),
            30 => Some(DeviceStateReason::GsmRegistrationNotSearching),
            31 => Some(DeviceStateReason::GsmRegistrationDenied),
            32 => Some(DeviceStateReason::GsmRegistrationTimeout),
            33 => Some(DeviceStateReason::GsmRegistrationFailed),
            34 => Some(DeviceStateReason::GsmPinCheckFailed),
            35 => Some(DeviceStateReason::FirmwareMissing),
            36 => Some(DeviceStateReason::Removed),
            37 => Some(DeviceStateReason::Sleeping),
            38 => Some(DeviceStateReason::ConnectionRemoved),
            39 => Some(DeviceStateReason::UserRequested),
            40 => Some(DeviceStateReason::Carrier),
            41 => Some(DeviceStateReason::ConnectionAssumed),
            42 => Some(DeviceStateReason::SupplicantAvailable),
            43 => Some(DeviceStateReason::ModemNotFound),
            44 => Some(DeviceStateReason::BtFailed),
            45 => Some(DeviceStateReason::GsmSimNotInserted),
            46 => Some(DeviceStateReason::GsmSimPinRequired),
            47 => Some(DeviceStateReason::GsmSimPukRequired),
            48 => Some(DeviceStateReason::GsmSimWrong),
            49 => Some(DeviceStateReason::InfinibandMode),
            50 => Some(DeviceStateReason::DependencyFailed),
            51 => Some(DeviceStateReason::Br2684Failed),
            52 => Some(DeviceStateReason::ModemManagerUnavailable),
            53 => Some(DeviceStateReason::SsidNotFound),
            54 => Some(DeviceStateReason::SecondaryConnectionFailed),
            55 => Some(DeviceStateReason::DcbFcoeFailed),
            56 => Some(DeviceStateReason::TeamdControlFailed),
            57 => Some(DeviceStateReason::ModemFailed),
            58 => Some(DeviceStateReason::ModemAvailable),
            59 => Some(DeviceStateReason::SimPinIncorrect),
            60 => Some(DeviceStateReason::NewActivation),
            61 => Some(DeviceStateReason::ParentChanged),
            62 => Some(DeviceStateReason::ParentManagedChanged),
            63 => Some(DeviceStateReason::OvsdbFailed),
            64 => Some(DeviceStateReason::IpAddressDuplicate),
            65 => Some(DeviceStateReason::IpMethodUnsupported),
            66 => Some(DeviceStateReason::SriovConfigurationFailed),
            67 => Some(DeviceStateReason::PeerNotFound),
            68 => Some(DeviceStateReason::DeviceHandlerFailed),
            69 => Some(DeviceStateReason::UnmanagedByDefault),
            70 => Some(DeviceStateReason::UnmanagedExternalDown),
            71 => Some(DeviceStateReason::UnmanagedLinkNotInit),
            72 => Some(DeviceStateReason::UnmanagedQuitting),
            73 => Some(DeviceStateReason::UnmanagedSleeping),
            74 => Some(DeviceStateReason::UnmanagedUserConf),
            75 => Some(DeviceStateReason::UnmanagedUserExplicit),
            76 => Some(DeviceStateReason::UnmanagedUserSettings),
            77 => Some(DeviceStateReason::UnmanagedUserUdev),
            _ => None,
        }
    }
}

/// The tier of the signal-strength icon shown for an access point: full
/// bars from 88 percent, then three descending tiers, and an empty icon
/// below 13 percent.
pub fn strength_tier(strength: u8) -> (r: u8)
    ensures
        r == spec_strength_tier(strength),
{
    if strength >= 88 {
        100
    } else if strength >= 63 {
        75
    } else if strength >= 38 {
        50
    } else if strength >= 13 {
        25
    } else {
        0
    }
}

/// Specification of [`strength_tier`].
pub open spec fn spec_strength_tier(strength: u8) -> u8 {
    if strength >= 88 {
        100
    } else if strength >= 63 {
        75
    } else if strength >= 38 {
        50
    } else if strength >= 13 {
        25
    } else {
        0
    }
}

/// True when a device state change reports an authentication failure that
/// needs new secrets from the user.
pub fn is_auth_failure(new_state: &DeviceState, reason: &DeviceStateReason) -> (r: bool)
    ensures
        r == (new_state == DeviceState::Failed && reason == DeviceStateReason::NoSecrets),
{
    *new_state == DeviceState::Failed && *reason == DeviceStateReason::NoSecrets
}

/// A visible access point, reduced to the values the panel shows and acts on.
#[derive(Clone, Debug)]
pub struct AccessPoint {
    /// AP hardware address.
    pub bssid: String,
    /// Access point name.
    pub ssid: String,
    /// Signal strength in percent.
    pub strength: u8,
    /// Requires password authentication.
    pub private: bool,
    /// WiFi frequency in MHz.
    pub frequency: u32,
    /// Access point is currently active.
    pub connected: bool,
    /// DBus access point object path.
    pub path: String,
    /// DBus path of the connection profile, when one is saved.
    pub profile: Option<String>,
}

impl AccessPoint {
    /// Builds an access point from the properties its DBus object reports.
    ///
    /// The point is private when any capability flag is set, and connected
    /// when its hardware address equals the active one.
    pub fn from_properties(
        bssid: String,
        ssid: String,
        strength: u8,
        flags: APFlags,
        frequency: u32,
        active_bssid: Option<&String>,
        path: String,
    ) -> (r: Self)
        ensures
            r.bssid@ == bssid@,
            r.ssid@ == ssid@,
            r.strength == strength,
            r.private == (flags != APFlags::NoFlags),
            r.frequency == frequency,
            r.connected == (active_bssid matches Some(a) && a@ == bssid@),
            r.path@ == path@,
            r.profile is None,
    {
        let connected = match active_bssid {
            Some(active) => *active == bssid,
            None => false,
        };
        let private = flags != APFlags::NoFlags;
        AccessPoint { bssid, ssid, strength, private, frequency, connected, path, profile: None }
    }

    /// Sort rank: connected points first, then by signal strength.
    pub open spec fn spec_rank(self) -> int {
        (if self.connected {
            256int
        } else {
            0int
        }) + self.strength
    }

    /// Sort rank: connected points first, then by signal strength.
    pub fn rank(&self) -> (r: u32)
        ensures
            r == self.spec_rank(),
    {
        (if self.connected {
            256
        } else {
            0
        }) + self.strength as u32
    }
}

/// True when the list shows access points in display order: connected points
/// first, then descending signal strength.
pub open spec fn sorted_by_rank(s: Seq<AccessPoint>) -> bool {
    forall|i: int, j: int|
        0 <= i <= j < s.len() ==> #[trigger] s[i].spec_rank() >= #[trigger] s[j].spec_rank()
}

/// Sorts access points into display order: connected points first, then
/// descending signal strength. Keeps exactly the given points.
pub fn sort_access_points(aps: &mut Vec<AccessPoint>)
    ensures
        final(aps)@.to_multiset() == old(aps)@.to_multiset(),
        final(aps)@.len() == old(aps)@.len(),
        sorted_by_rank(final(aps)@),
{
    let ghost orig = aps@;
    let mut out: Vec<AccessPoint> = Vec::new();
    while aps.len() > 0
        invariant
            out@.to_multiset().add(aps@.to_multiset()) =~= orig.to_multiset(),
            out@.len() + aps@.len() == orig.len(),
            sorted_by_rank(out@),
            forall|i: int, j: int|
                0 <= i < out@.len() && 0 <= j < aps@.len() ==> #[trigger] out@[i].spec_rank()
                    >= #[trigger] aps@[j].spec_rank(),
        decreases aps.len(),
    {
        let mut best: usize = 0;
        let mut k: usize = 1;
        while k < aps.len()
            invariant
                aps@.len() > 0,
                best < k <= aps@.len(),
                forall|j: int| 0 <= j < k ==> aps@[best as int].spec_rank()
                    >= #[trigger] aps@[j].spec_rank(),
            decreases aps.len() - k,
        {
            if aps[k].rank() > aps[best].rank() {
                best = k;
            }
            k += 1;
        }
        let ghost pre = aps@;
        let item = aps.remove(best);
        out.push(item);
        proof {
            assert(out@.to_multiset().add(aps@.to_multiset()) =~= orig.to_multiset()) by {
                assert(pre.to_multiset().count(item) > 0);
                assert(aps@.to_multiset() =~= pre.to_multiset().remove(item));
            }
        }
    }
    *aps = out;
}

} // verus!
