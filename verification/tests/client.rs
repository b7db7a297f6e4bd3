use dns_bootstrap::client::Client;
use dns_bootstrap::client::DigSettings;
use dns_bootstrap::record::RecordType;

fn client() -> Client {
    Client::new("0123abcd".to_string(), "dns-test-client-1".to_string(), 0xac11_0002)
}

#[test]
fn client_describes_its_container() {
    let client = client();
    assert_eq!(client.container_id(), "0123abcd");
    assert_eq!(client.container_name(), "dns-test-client-1");
    assert_eq!(client.ipv4_addr(), 0xac11_0002);
    assert_eq!(Client::trust_anchor_path(), "/etc/bind.keys");
}

#[test]
fn default_settings_negate_every_flag() {
    let settings = DigSettings::default();
    assert_eq!(settings.adflag(), "+noadflag");
    assert_eq!(settings.cdflag(), "+nocdflag");
    assert_eq!(settings.do_bit(), "+nodnssec");
    assert_eq!(settings.rdflag(), "+norecurse");
    assert_eq!(settings.timeoutflag(), "+timeout=5");
}

#[test]
fn setters_set_one_flag_each() {
    let mut settings = DigSettings::default();
    settings.authentic_data();
    assert_eq!(
        settings,
        DigSettings {
            adflag: true,
            ..DigSettings::default()
        }
    );
    let mut settings = DigSettings::default();
    settings.checking_disabled();
    assert_eq!(
        settings,
        DigSettings {
            cdflag: true,
            ..DigSettings::default()
        }
    );
    let mut settings = DigSettings::default();
    settings.dnssec();
    assert_eq!(
        settings,
        DigSettings {
            dnssec: true,
            ..DigSettings::default()
        }
    );
    let mut settings = DigSettings::default();
    settings.recurse();
    assert_eq!(
        settings,
        DigSettings {
            recurse: true,
            ..DigSettings::default()
        }
    );
    let mut settings = DigSettings::default();
    settings.timeout(0);
    assert_eq!(
        settings,
        DigSettings {
            timeout: Some(0),
            ..DigSettings::default()
        }
    );
}

#[test]
fn setters_chain() {
    let settings = *DigSettings::default()
        .recurse()
        .dnssec()
        .authentic_data()
        .checking_disabled()
        .timeout(255);
    assert_eq!(settings.adflag(), "+adflag");
    assert_eq!(settings.cdflag(), "+cdflag");
    assert_eq!(settings.do_bit(), "+dnssec");
    assert_eq!(settings.rdflag(), "+recurse");
    assert_eq!(settings.timeoutflag(), "+timeout=255");
}

#[test]
fn dig_command_line() {
    let settings = *DigSettings::default().recurse().authentic_data();
    let command = client().dig(settings, 0xc0a8_b005, RecordType::A, "example.nameservers.com.");
    assert_eq!(
        command,
        vec![
            "dig",
            "+recurse",
            "+nodnssec",
            "+adflag",
            "+nocdflag",
            "+timeout=5",
            "@192.168.176.5",
            "A",
            "example.nameservers.com.",
        ]
    );
}

#[test]
fn delv_command_line() {
    let command = client().delv(0x0101_0101, RecordType::SOA, ".", 1);
    assert_eq!(
        command,
        vec!["delv", "@1.1.1.1", "-a", "/etc/bind.keys", ".", "SOA"]
    );
}

#[test]
fn record_type_names() {
    let named = [
        (RecordType::A, "A"),
        (RecordType::AAAA, "AAAA"),
        (RecordType::CNAME, "CNAME"),
        (RecordType::DNSKEY, "DNSKEY"),
        (RecordType::DS, "DS"),
        (RecordType::MX, "MX"),
        (RecordType::NS, "NS"),
        (RecordType::NSEC, "NSEC"),
        (RecordType::NSEC3, "NSEC3"),
        (RecordType::NSEC3PARAM, "NSEC3PARAM"),
        (RecordType::RRSIG, "RRSIG"),
        (RecordType::SOA, "SOA"),
        (RecordType::TXT, "TXT"),
    ];
    for (record_type, name) in named {
        assert_eq!(record_type.as_str(), name);
    }
}
