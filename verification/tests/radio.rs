use rs_matter_embassy::error::{Error, ErrorCode};
use rs_matter_embassy::radio::{
    duplicate_ssid_opt, to_err, to_scan_result, wifi_security, AccessPointInfo, AuthMethod,
    WiFiSecurity, WifiCredentials, WifiError, WifiSsid, MAX_NETWORKS,
};

#[test]
fn ssid_holds_its_text() {
    let name = WifiSsid::new("home").unwrap();
    assert_eq!(name.as_str(), "home");
    assert_eq!(WifiSsid::new("").unwrap().as_str(), "");
}

#[test]
fn ssid_takes_at_most_32_bytes() {
    let longest = "abcdefghijklmnopqrstuvwxyz012345";
    assert_eq!(longest.len(), 32);
    assert_eq!(WifiSsid::new(longest).unwrap().as_str(), longest);
    let too_long = "abcdefghijklmnopqrstuvwxyz0123456";
    assert_eq!(too_long.len(), 33);
    assert!(WifiSsid::new(too_long).is_none());
}

#[test]
fn ssid_length_counts_bytes_not_characters() {
    let sixteen_two_byte_chars = "éééééééééééééééé";
    assert_eq!(sixteen_two_byte_chars.chars().count(), 16);
    assert_eq!(sixteen_two_byte_chars.len(), 32);
    assert!(WifiSsid::new(sixteen_two_byte_chars).is_some());
    let seventeen = "ééééééééééééééééé";
    assert_eq!(seventeen.chars().count(), 17);
    assert!(WifiSsid::new(seventeen).is_none());
}

#[test]
fn ssid_duplicate_has_the_same_text() {
    let name = WifiSsid::new("office").unwrap();
    let copy = name.duplicate();
    assert_eq!(copy.as_str(), "office");
    assert_eq!(copy, name);
    assert_eq!(duplicate_ssid_opt(&Some(name)).unwrap().as_str(), "office");
    assert!(duplicate_ssid_opt(&None).is_none());
}

#[test]
fn credentials_hold_name_and_passphrase() {
    let creds = WifiCredentials::new("home", "correct horse").unwrap();
    assert_eq!(creds.ssid.as_str(), "home");
    assert_eq!(creds.password_str(), "correct horse");
    let copy = creds.duplicate();
    assert_eq!(copy.ssid.as_str(), "home");
    assert_eq!(copy.password_str(), "correct horse");
}

#[test]
fn credentials_bound_both_parts() {
    let name_33 = "abcdefghijklmnopqrstuvwxyz0123456";
    let phrase_64 = "0123456789012345678901234567890123456789012345678901234567890123";
    let phrase_65 = "01234567890123456789012345678901234567890123456789012345678901234";
    assert_eq!(phrase_64.len(), 64);
    assert_eq!(phrase_65.len(), 65);
    assert!(WifiCredentials::new("home", phrase_64).is_some());
    assert_eq!(
        WifiCredentials::new("home", phrase_64).unwrap().password_str(),
        phrase_64
    );
    assert!(WifiCredentials::new("home", phrase_65).is_none());
    assert!(WifiCredentials::new(name_33, "x").is_none());
    assert!(WifiCredentials::new(name_33, phrase_65).is_none());
}

#[test]
fn security_of_each_authentication_method() {
    assert_eq!(wifi_security(Some(AuthMethod::Open)), WiFiSecurity::Unencrypted);
    assert_eq!(wifi_security(Some(AuthMethod::WEP)), WiFiSecurity::Wep);
    assert_eq!(wifi_security(Some(AuthMethod::WPA)), WiFiSecurity::WpaPersonal);
    assert_eq!(wifi_security(Some(AuthMethod::WPA3Personal)), WiFiSecurity::Wpa3Personal);
    assert_eq!(wifi_security(Some(AuthMethod::WPA2Personal)), WiFiSecurity::Wpa2Personal);
    assert_eq!(wifi_security(Some(AuthMethod::WPAWPA2Personal)), WiFiSecurity::Wpa2Personal);
    assert_eq!(wifi_security(Some(AuthMethod::WPA2Enterprise)), WiFiSecurity::Wpa2Personal);
    assert_eq!(wifi_security(Some(AuthMethod::WPA2WPA3Personal)), WiFiSecurity::Wpa2Personal);
    assert_eq!(wifi_security(Some(AuthMethod::WAPIPersonal)), WiFiSecurity::Wpa2Personal);
    assert_eq!(wifi_security(None), WiFiSecurity::Wpa2Personal);
}

#[test]
fn access_point_description_bounds_the_name() {
    let too_long = "abcdefghijklmnopqrstuvwxyz0123456";
    assert!(AccessPointInfo::new(too_long, [0; 6], 1, -40, None).is_none());
    let ap = AccessPointInfo::new("cafe", [1, 2, 3, 4, 5, 6], 11, -71, Some(AuthMethod::WPA)).unwrap();
    assert_eq!(ap.ssid.as_str(), "cafe");
    assert_eq!(ap.bssid, [1, 2, 3, 4, 5, 6]);
    assert_eq!(ap.channel, 11);
    assert_eq!(ap.signal_strength, -71);
    assert_eq!(ap.auth_method, Some(AuthMethod::WPA));
}

#[test]
fn scan_result_of_an_access_point() {
    let ap = AccessPointInfo::new("cafe", [1, 2, 3, 4, 5, 6], 255, -128, Some(AuthMethod::Open)).unwrap();
    let result = to_scan_result(&ap);
    assert_eq!(result.ssid.as_str(), "cafe");
    assert_eq!(result.bssid, [1, 2, 3, 4, 5, 6]);
    assert_eq!(result.channel, 255u16);
    assert_eq!(result.rssi, Some(-128));
    assert_eq!(result.band, None);
    assert_eq!(result.security, WiFiSecurity::Unencrypted);
}

#[test]
fn every_radio_failure_means_no_network() {
    let failures = [
        WifiError::NotInitialized,
        WifiError::InternalError(0),
        WifiError::InternalError(-1),
        WifiError::InternalError(i32::MAX),
        WifiError::Disconnected,
        WifiError::UnknownWifiMode,
        WifiError::Unsupported,
    ];
    for f in failures {
        assert_eq!(to_err(f), Error::new(ErrorCode::NoNetworkInterface));
        assert_eq!(to_err(f).code(), ErrorCode::NoNetworkInterface);
    }
}

#[test]
fn a_scan_asks_for_three_networks_at_most() {
    assert_eq!(MAX_NETWORKS, 3);
}
