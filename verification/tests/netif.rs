use rs_matter_embassy::nal::{MatterUdpBuffers, UdpError};
use rs_matter_embassy::net::{
    HardwareAddress, IpAddr, Ipv4Addr, Ipv4Cidr, Ipv6Addr, Ipv6Cidr, SocketAddr,
};
use rs_matter_embassy::netif::{
    ConfWait, ConfWaitEnd, EmbassyNetif, NetifConf, StackStatus, INTERFACE, TIMEOUT_PERIOD_SECS,
};

const MAC: [u8; 6] = [0x52, 0x74, 0xf2, 0xb1, 0xa8, 0x7f];

fn v4() -> Ipv4Cidr {
    Ipv4Cidr::new(Ipv4Addr::new(192, 168, 1, 23), 24)
}

fn v6() -> Ipv6Cidr {
    Ipv6Cidr::new(Ipv6Addr::new(0xfe80, 0, 0, 0, 0x5074, 0xf2ff, 0xfeb1, 0xa87f), 10)
}

fn local(port: u16) -> SocketAddr {
    SocketAddr { ip: IpAddr::V4(Ipv4Addr::new(0, 0, 0, 0)), port }
}

#[test]
fn configuration_is_absent_until_both_families_are_configured() {
    for stack in [
        StackStatus { hardware_address: HardwareAddress::Ethernet(MAC), config_v4: None, config_v6: None },
        StackStatus { hardware_address: HardwareAddress::Ethernet(MAC), config_v4: Some(v4()), config_v6: None },
        StackStatus { hardware_address: HardwareAddress::Ethernet(MAC), config_v4: None, config_v6: Some(v6()) },
    ] {
        let netif = EmbassyNetif::new(stack);
        assert_eq!(netif.get_conf(), Err(()));
        assert_eq!(netif.current_conf(), Ok(None));
    }
}

#[test]
fn configuration_is_the_snapshot_of_both_addresses() {
    let netif = EmbassyNetif::new(StackStatus { hardware_address: HardwareAddress::Ethernet(MAC), config_v4: Some(v4()), config_v6: Some(v6()) });
    let expected = NetifConf {
        ipv4: Ipv4Addr::new(192, 168, 1, 23),
        ipv6: Ipv6Addr::new(0xfe80, 0, 0, 0, 0x5074, 0xf2ff, 0xfeb1, 0xa87f),
        interface: 0,
        mac: [0x52, 0x74, 0xf2, 0xb1, 0xa8, 0x7f],
    };
    assert_eq!(INTERFACE, 0);
    assert_eq!(netif.get_conf(), Ok(expected));
    assert_eq!(netif.current_conf(), Ok(Some(expected)));
}

#[test]
fn an_interface_without_ethernet_address_shows_zeros() {
    for hardware_address in [HardwareAddress::Ip, HardwareAddress::Ieee802154([1, 2, 3, 4, 5, 6, 7, 8])] {
        let netif = EmbassyNetif::new(StackStatus {
            hardware_address,
            config_v4: Some(v4()),
            config_v6: Some(v6()),
        });
        assert_eq!(netif.get_conf().unwrap().mac, [0; 6]);
    }
}

#[test]
fn the_snapshot_follows_the_hardware_address() {
    let mut netif = EmbassyNetif::new(StackStatus {
        hardware_address: HardwareAddress::Ethernet([1, 2, 3, 4, 5, 6]),
        config_v4: Some(v4()),
        config_v6: Some(v6()),
    });
    assert_eq!(netif.get_conf().unwrap().mac, [1, 2, 3, 4, 5, 6]);
    netif.refresh(StackStatus {
        hardware_address: HardwareAddress::Ethernet([6, 5, 4, 3, 2, 1]),
        config_v4: Some(v4()),
        config_v6: Some(v6()),
    });
    assert_eq!(netif.current_conf().unwrap().unwrap().mac, [6, 5, 4, 3, 2, 1]);
}

#[test]
fn refresh_replaces_the_snapshot() {
    let mut netif = EmbassyNetif::new(StackStatus { hardware_address: HardwareAddress::Ethernet(MAC), config_v4: None, config_v6: Some(v6()) });
    assert_eq!(netif.current_conf(), Ok(None));
    netif.refresh(StackStatus { hardware_address: HardwareAddress::Ethernet(MAC), config_v4: Some(v4()), config_v6: Some(v6()) });
    assert_eq!(netif.get_conf().unwrap().ipv4, Ipv4Addr::new(192, 168, 1, 23));
    netif.refresh(StackStatus { hardware_address: HardwareAddress::Ethernet(MAC), config_v4: None, config_v6: None });
    assert_eq!(netif.get_conf(), Err(()));
}

#[test]
fn wait_for_change_lasts_five_seconds_at_most() {
    let netif = EmbassyNetif::new(StackStatus { hardware_address: HardwareAddress::Ethernet(MAC), config_v4: None, config_v6: None });
    assert_eq!(TIMEOUT_PERIOD_SECS, 5);
    assert_eq!(netif.wait_conf_change(), ConfWait { timeout_secs: 5 });
}

#[test]
fn wait_for_change_returns_well_also_when_the_time_ran_out() {
    let netif = EmbassyNetif::new(StackStatus { hardware_address: HardwareAddress::Ethernet(MAC), config_v4: None, config_v6: None });
    assert_eq!(netif.conf_change_waited(ConfWaitEnd::TimedOut), Ok(()));
    assert_eq!(netif.conf_change_waited(ConfWaitEnd::ConfigUp), Ok(()));
}

#[test]
fn binder_fails_when_the_pool_is_exhausted_and_recovers_after_a_close() {
    let netif = EmbassyNetif::new(StackStatus { hardware_address: HardwareAddress::Ethernet(MAC), config_v4: Some(v4()), config_v6: Some(v6()) });
    let mut pool = MatterUdpBuffers::new();
    let matter = netif.bind(&mut pool, local(5540)).unwrap();
    let mdns = netif.bind(&mut pool, local(5353)).unwrap();
    assert_eq!((matter.slot(), mdns.slot()), (0, 1));
    assert_eq!(matter.local(), local(5540));
    assert_eq!(netif.bind(&mut pool, local(80)), Err(UdpError::NoBuffers));
    assert_eq!(netif.bind(&mut pool, local(80)), Err(UdpError::NoBuffers));
    matter.close(&mut pool);
    let again = netif.bind(&mut pool, local(80)).unwrap();
    assert_eq!(again.slot(), 0);
    assert_eq!(again.local(), local(80));
    assert_eq!(netif.bind(&mut pool, local(81)), Err(UdpError::NoBuffers));
}
