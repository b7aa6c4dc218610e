use solaredge_modbus::discover::{
    parse_modbus_id, parse_u8, Discovery, DiscoveryStep, SolaredgeHostInfo,
    SOLAREDGE_INVERTER_SERVICE_TYPE,
};

#[test]
fn parse_u8_like_str_parse() {
    for s in ["0", "1", "7", "+7", "01", "255", "256", "", "+", "-1", "1a", " 1", "1 ", "999", "+255", "00000000000000000001"] {
        assert_eq!(parse_u8(s), s.parse::<u8>().ok(), "input {s:?}");
    }
    assert_eq!(parse_u8("42"), Some(42));
    assert_eq!(parse_u8("256"), None);
}

#[test]
fn modbus_id_property() {
    assert_eq!(parse_modbus_id(Some("1")), Some(1));
    assert_eq!(parse_modbus_id(Some("x")), None);
    assert_eq!(parse_modbus_id(None), None);
}

#[test]
fn service_type() {
    assert_eq!(SOLAREDGE_INVERTER_SERVICE_TYPE, "_solaredge-modbus._tcp.local.");
}

fn host(name: &str, addresses: &[&str]) -> SolaredgeHostInfo {
    SolaredgeHostInfo {
        hostname: name.to_string(),
        addresses: addresses.iter().map(|a| a.to_string()).collect(),
        port: 1502,
        modbus_id: 1,
    }
}

#[test]
fn address_prefers_first_ip() {
    assert_eq!(host("inv.local.", &["192.168.1.5", "10.0.0.2"]).address(), "192.168.1.5");
    assert_eq!(host("inv.local.", &[]).address(), "inv.local.");
}

#[test]
fn discovery_stops_at_max_hosts() {
    let mut d = Discovery::new(2);
    let a = vec!["192.168.1.5".to_string()];
    assert_eq!(d.on_service_resolved("a.local.".to_string(), a.clone(), 1502, Some("1")), DiscoveryStep::Continue);
    assert_eq!(d.on_service_resolved("b.local.".to_string(), vec![], 502, Some("nope")), DiscoveryStep::InvalidModbusId);
    assert_eq!(d.on_service_resolved("c.local.".to_string(), vec![], 502, None), DiscoveryStep::InvalidModbusId);
    assert_eq!(d.on_service_resolved("d.local.".to_string(), vec![], 502, Some("+3")), DiscoveryStep::Stop);
    let hosts = d.into_hosts();
    assert_eq!(hosts.len(), 2);
    assert_eq!(hosts[0], SolaredgeHostInfo { hostname: "a.local.".to_string(), addresses: a, port: 1502, modbus_id: 1 });
    assert_eq!(hosts[1].hostname, "d.local.");
    assert_eq!(hosts[1].modbus_id, 3);
}

#[test]
fn discovery_without_limit_keeps_going() {
    let mut d = Discovery::new(0);
    for i in 0..5u8 {
        let id = i.to_string();
        assert_eq!(d.on_service_resolved(format!("h{i}"), vec![], 502, Some(id.as_str())), DiscoveryStep::Continue);
    }
    assert_eq!(d.into_hosts().len(), 5);
}

#[test]
fn discovery_of_one_stops_at_first() {
    let mut d = Discovery::new(1);
    assert_eq!(d.on_service_resolved("a".to_string(), vec![], 502, Some("2")), DiscoveryStep::Stop);
}

#[test]
fn discovery_keeps_each_address_of_a_host() {
    let mut d = Discovery::new(0);
    let a = vec!["192.168.1.5".to_string(), "fe80::1".to_string()];
    assert_eq!(d.on_service_resolved("a.local.".to_string(), a.clone(), 1502, Some("7")), DiscoveryStep::Continue);
    let hosts = d.into_hosts();
    assert_eq!(hosts[0].addresses, a);
    assert_eq!(hosts[0].address(), "192.168.1.5");
}

#[test]
fn discovery_wants_no_more_after_stop() {
    let mut d = Discovery::new(1);
    assert!(d.wants_more());
    assert_eq!(d.on_service_resolved("a".to_string(), vec![], 502, Some("nope")), DiscoveryStep::InvalidModbusId);
    assert!(d.wants_more());
    assert_eq!(d.on_service_resolved("b".to_string(), vec![], 502, Some("3")), DiscoveryStep::Stop);
    assert!(!d.wants_more());
    assert_eq!(d.into_hosts().len(), 1);
}
