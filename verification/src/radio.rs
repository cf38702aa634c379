//! The values exchanged with a Wi-Fi radio: network names, credentials,
//! what a scan finds, and the radio's failures.

use crate::bounded::{
    passphrase_as_str, passphrase_clone, passphrase_from_str, passphrase_text, ssid_as_str,
    ssid_clone, ssid_from_str, ssid_text,
};
use crate::error::{Error, ErrorCode};
use vstd::prelude::*;
use vstd::string::StringSliceAdditionalSpecFns;

verus! {

/// The most networks that one scan hands back.
pub const MAX_NETWORKS: usize = 3;

/// The name of a Wi-Fi network, at most 32 bytes long.
#[derive(Debug, PartialEq, Eq)]
pub struct WifiSsid(pub heapless::String<32>);

impl View for WifiSsid {
    type V = Seq<char>;

    open spec fn view(&self) -> Seq<char> {
        ssid_text(self.0)
    }
}

/// The text of a name that may be absent.
pub open spec fn ssid_opt(name: Option<WifiSsid>) -> Option<Seq<char>> {
    match name {
        Some(n) => Some(n@),
        None => None,
    }
}

impl WifiSsid {
    /// Makes a network name of `text`. The name exists exactly when the
    /// UTF-8 encoding of `text` has at most 32 bytes.
    pub fn new(text: &str) -> (name: Option<Self>)
        ensures
            name is Some <==> text.spec_bytes().len() <= 32,
            name matches Some(n) ==> n@ == text@,
    {
        match ssid_from_str(text) {
            Ok(s) => Some(WifiSsid(s)),
            Err(_) => None,
        }
    }

    /// Returns the name as text.
    pub fn as_str(&self) -> (text: &str)
        ensures
            text@ == self@,
    {
        ssid_as_str(&self.0)
    }

    /// Returns a second name with the same text.
    pub fn duplicate(&self) -> (copy: Self)
        ensures
            copy@ == self@,
    {
        WifiSsid(ssid_clone(&self.0))
    }
}

/// Returns a copy of a name that may be absent.
pub fn duplicate_ssid_opt(name: &Option<WifiSsid>) -> (copy: Option<WifiSsid>)
    ensures
        ssid_opt(copy) == ssid_opt(*name),
{
    match name {
        Some(n) => Some(n.duplicate()),
        None => None,
    }
}

/// The credentials of a Wi-Fi network.
#[derive(Debug, PartialEq, Eq)]
pub struct WifiCredentials {
    /// The name of the network.
    pub ssid: WifiSsid,
    /// The passphrase, at most 64 bytes long.
    pub password: heapless::String<64>,
}

/// What a [`WifiCredentials`] holds.
pub struct WifiCredentialsView {
    /// The name of the network.
    pub ssid: Seq<char>,
    /// The passphrase.
    pub password: Seq<char>,
}

impl View for WifiCredentials {
    type V = WifiCredentialsView;

    open spec fn view(&self) -> WifiCredentialsView {
        WifiCredentialsView { ssid: self.ssid@, password: passphrase_text(self.password) }
    }
}

impl WifiCredentials {
    /// Makes credentials of a name and a passphrase. They exist exactly
    /// when the name has at most 32 bytes and the passphrase at most 64.
    pub fn new(ssid: &str, password: &str) -> (creds: Option<Self>)
        ensures
            creds is Some <==> ssid.spec_bytes().len() <= 32 && password.spec_bytes().len() <= 64,
            creds matches Some(c) ==> c@ == (WifiCredentialsView {
                ssid: ssid@,
                password: password@,
            }),
    {
        match WifiSsid::new(ssid) {
            Some(name) => match passphrase_from_str(password) {
                Ok(phrase) => Some(WifiCredentials { ssid: name, password: phrase }),
                Err(_) => None,
            },
            None => None,
        }
    }

    /// Returns the passphrase as text.
    pub fn password_str(&self) -> (text: &str)
        ensures
            text@ == self@.password,
    {
        passphrase_as_str(&self.password)
    }

    /// Returns second credentials with the same name and passphrase.
    pub fn duplicate(&self) -> (copy: Self)
        ensures
            copy@ == self@,
    {
        WifiCredentials { ssid: self.ssid.duplicate(), password: passphrase_clone(&self.password) }
    }
}

/// How an access point authenticates its stations.
#[derive(Clone, Copy, Debug, PartialEq, Eq)]
pub enum AuthMethod {
    /// An open network.
    Open,
    /// Wired Equivalent Privacy.
    WEP,
    /// Wi-Fi Protected Access.
    WPA,
    /// WPA2 Personal.
    WPA2Personal,
    /// WPA or WPA2 Personal.
    WPAWPA2Personal,
    /// WPA2 Enterprise.
    WPA2Enterprise,
    /// WPA3 Personal.
    WPA3Personal,
    /// WPA2 or WPA3 Personal.
    WPA2WPA3Personal,
    /// WLAN Authentication and Privacy Infrastructure.
    WAPIPersonal,
}

/// The security of a network as the protocol engine classifies it.
#[derive(Clone, Copy, Debug, PartialEq, Eq)]
pub enum WiFiSecurity {
    /// No encryption.
    Unencrypted,
    /// WEP.
    Wep,
    /// WPA Personal.
    WpaPersonal,
    /// WPA2 Personal.
    Wpa2Personal,
    /// WPA3 Personal.
    Wpa3Personal,
}

/// The frequency band of a network.
#[derive(Clone, Copy, Debug, PartialEq, Eq)]
pub enum WiFiBand {
    /// 2.4 GHz.
    B2G4,
    /// 3.65 GHz.
    B3G65,
    /// 5 GHz.
    B5G,
    /// 6 GHz.
    B6G,
    /// 60 GHz.
    B60G,
}

/// The engine's security class of a network that authenticates by `auth`.
/// A method that the radio does not tell, or that has no class of its own,
/// counts as WPA2 Personal.
pub open spec fn security_of(auth: Option<AuthMethod>) -> WiFiSecurity {
    match auth {
        Some(AuthMethod::Open) => WiFiSecurity::Unencrypted,
        Some(AuthMethod::WEP) => WiFiSecurity::Wep,
        Some(AuthMethod::WPA) => WiFiSecurity::WpaPersonal,
        Some(AuthMethod::WPA3Personal) => WiFiSecurity::Wpa3Personal,
        _ => WiFiSecurity::Wpa2Personal,
    }
}

/// Classifies the security of a network that authenticates by `auth`.
pub fn wifi_security(auth: Option<AuthMethod>) -> (security: WiFiSecurity)
    ensures
        security == security_of(auth),
{
    match auth {
        Some(AuthMethod::Open) => WiFiSecurity::Unencrypted,
        Some(AuthMethod::WEP) => WiFiSecurity::Wep,
        Some(AuthMethod::WPA) => WiFiSecurity::WpaPersonal,
        Some(AuthMethod::WPA3Personal) => WiFiSecurity::Wpa3Personal,
        _ => WiFiSecurity::Wpa2Personal,
    }
}

/// An access point as the radio describes it after a scan.
#[derive(Debug, PartialEq, Eq)]
pub struct AccessPointInfo {
    /// The name of the network.
    pub ssid: heapless::String<32>,
    /// The hardware address of the access point.
    pub bssid: [u8; 6],
    /// The channel it works on.
    pub channel: u8,
    /// The signal strength, in dBm.
    pub signal_strength: i8,
    /// How it authenticates, if the radio tells.
    pub auth_method: Option<AuthMethod>,
}

/// What an [`AccessPointInfo`] holds.
pub struct AccessPointInfoView {
    /// The name of the network.
    pub ssid: Seq<char>,
    /// The hardware address of the access point.
    pub bssid: [u8; 6],
    /// The channel it works on.
    pub channel: u8,
    /// The signal strength, in dBm.
    pub signal_strength: i8,
    /// How it authenticates, if the radio tells.
    pub auth_method: Option<AuthMethod>,
}

impl View for AccessPointInfo {
    type V = AccessPointInfoView;

    open spec fn view(&self) -> AccessPointInfoView {
        AccessPointInfoView {
            ssid: ssid_text(self.ssid),
            bssid: self.bssid,
            channel: self.channel,
            signal_strength: self.signal_strength,
            auth_method: self.auth_method,
        }
    }
}

/// What a list of access points holds, first to last.
pub open spec fn access_points(list: Seq<AccessPointInfo>) -> Seq<AccessPointInfoView> {
    Seq::new(list.len(), |i: int| list[i]@)
}

impl AccessPointInfo {
    /// Describes an access point. The description exists exactly when the
    /// UTF-8 encoding of `ssid` has at most 32 bytes.
    pub fn new(
        ssid: &str,
        bssid: [u8; 6],
        channel: u8,
        signal_strength: i8,
        auth_method: Option<AuthMethod>,
    ) -> (ap: Option<Self>)
        ensures
            ap is Some <==> ssid.spec_bytes().len() <= 32,
            ap matches Some(a) ==> a@ == (AccessPointInfoView {
                ssid: ssid@,
                bssid,
                channel,
                signal_strength,
                auth_method,
            }),
    {
        match ssid_from_str(ssid) {
            Ok(name) => Some(
                AccessPointInfo { ssid: name, bssid, channel, signal_strength, auth_method },
            ),
            Err(_) => None,
        }
    }
}

/// One network found by a scan, as it is reported to the protocol engine.
#[derive(Debug, PartialEq, Eq)]
pub struct WifiScanResult {
    /// The name of the network.
    pub ssid: WifiSsid,
    /// The hardware address of the access point.
    pub bssid: [u8; 6],
    /// The channel it works on.
    pub channel: u16,
    /// The signal strength, in dBm, if known.
    pub rssi: Option<i8>,
    /// The frequency band, if known.
    pub band: Option<WiFiBand>,
    /// The security class.
    pub security: WiFiSecurity,
}

/// What a [`WifiScanResult`] holds.
pub struct WifiScanResultView {
    /// The name of the network.
    pub ssid: Seq<char>,
    /// The hardware address of the access point.
    pub bssid: [u8; 6],
    /// The channel it works on.
    pub channel: u16,
    /// The signal strength, in dBm, if known.
    pub rssi: Option<i8>,
    /// The frequency band, if known.
    pub band: Option<WiFiBand>,
    /// The security class.
    pub security: WiFiSecurity,
}

impl View for WifiScanResult {
    type V = WifiScanResultView;

    open spec fn view(&self) -> WifiScanResultView {
        WifiScanResultView {
            ssid: self.ssid@,
            bssid: self.bssid,
            channel: self.channel,
            rssi: self.rssi,
            band: self.band,
            security: self.security,
        }
    }
}

/// What a scan result that may be absent holds.
pub open spec fn scan_result_opt(result: Option<WifiScanResult>) -> Option<WifiScanResultView> {
    match result {
        Some(r) => Some(r@),
        None => None,
    }
}

/// The report that the protocol engine gets of the access point `ap`: its
/// name, address and channel, its signal strength, no band, and the
/// security class of its authentication method.
pub open spec fn scan_result_of(ap: AccessPointInfoView) -> WifiScanResultView {
    WifiScanResultView {
        ssid: ap.ssid,
        bssid: ap.bssid,
        channel: ap.channel as u16,
        rssi: Some(ap.signal_strength),
        band: None,
        security: security_of(ap.auth_method),
    }
}

/// Makes the report of one access point.
pub fn to_scan_result(ap: &AccessPointInfo) -> (result: WifiScanResult)
    ensures
        result@ == scan_result_of(ap@),
{
    WifiScanResult {
        ssid: WifiSsid(ssid_clone(&ap.ssid)),
        bssid: ap.bssid,
        channel: ap.channel as u16,
        rssi: Some(ap.signal_strength),
        band: None,
        security: wifi_security(ap.auth_method),
    }
}

/// The failures of the radio's own control interface.
#[derive(Clone, Copy, Debug, PartialEq, Eq)]
pub enum WifiError {
    /// The radio is not initialised for Wi-Fi.
    NotInitialized,
    /// The radio's firmware reported the given code.
    InternalError(i32),
    /// The station lost its network or could not join it.
    Disconnected,
    /// The radio is in no known mode.
    UnknownWifiMode,
    /// The operation or mode is not supported.
    Unsupported,
}

/// The unified error that every failure of the radio becomes.
pub open spec fn network_unavailable() -> Error {
    Error { code: ErrorCode::NoNetworkInterface }
}

/// Translates a failure of the radio into the unified error: whatever the
/// failure, the network is reported as not available.
pub fn to_err(e: WifiError) -> (err: Error)
    ensures
        err == network_unavailable(),
{
    let _ = e;
    Error::new(ErrorCode::NoNetworkInterface)
}

} // verus!
