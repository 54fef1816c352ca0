use wg_tunnel::config::Peer;
use wg_tunnel::generation_settings::{
    GenerationInputError, GenerationSettings, GenerationStep, KeyRequest, Network, ADDRESS_LABEL, NAME_LABEL,
    PEERS_LABEL, PEER_ALLOWED_IPS, PEER_ENDPOINT, PORT_LABEL,
};
use wg_tunnel::utils::{KeyGenError, ProcessError};

fn fields(name: Option<&str>, address: Option<&str>, port: Option<&str>, peers: Option<&str>) -> Vec<(String, Option<String>)> {
    vec![
        ("Unrelated".to_string(), Some("x".to_string())),
        (PEERS_LABEL.to_string(), peers.map(|s| s.to_string())),
        (NAME_LABEL.to_string(), name.map(|s| s.to_string())),
        (PORT_LABEL.to_string(), port.map(|s| s.to_string())),
        (ADDRESS_LABEL.to_string(), address.map(|s| s.to_string())),
    ]
}

fn error_of(entries: &Vec<(String, Option<String>)>) -> GenerationInputError {
    match GenerationSettings::try_from(entries) {
        Ok(_) => panic!("settings were accepted"),
        Err(e) => e,
    }
}

#[test]
fn labels_are_those_of_the_form() {
    assert_eq!(NAME_LABEL, "Tunnel interface name");
    assert_eq!(ADDRESS_LABEL, "Tunnel interface ip");
    assert_eq!(PORT_LABEL, "Listen Port [default:51820]");
    assert_eq!(PEERS_LABEL, "Number of Peers [default:1]");
}

#[test]
fn generates_interface_and_three_peers() {
    let entries = fields(Some("wg0"), Some("10.0.0.1/24"), Some("51820"), Some("3"));
    let settings = GenerationSettings::try_from(&entries).unwrap();
    let config = settings.generate("private".to_string(), "public".to_string()).unwrap();
    assert_eq!(config.interface.name, Some("wg0".to_string()));
    assert_eq!(config.interface.address, Some("10.0.0.1/24".to_string()));
    assert_eq!(config.interface.listen_port, Some("51820".to_string()));
    assert_eq!(config.interface.private_key, Some("private".to_string()));
    assert_eq!(config.interface.public_key, Some("public".to_string()));
    assert_eq!(config.peers.len(), 3);
    for peer in &config.peers {
        assert_eq!(
            *peer,
            Peer {
                allowed_ips: Some("ip/netmask".to_string()),
                endpoint: Some("<peer public ip>:51820".to_string()),
                public_key: None,
            }
        );
    }
    assert_eq!(PEER_ALLOWED_IPS, "ip/netmask");
    assert_eq!(PEER_ENDPOINT, "<peer public ip>:51820");
}

#[test]
fn no_peers_gives_an_interface_alone() {
    let entries = fields(Some("wg0"), Some("fd00::1/64"), Some("0"), Some("0"));
    let settings = GenerationSettings::try_from(&entries).unwrap();
    let config = settings.generate("a".to_string(), "b".to_string()).unwrap();
    assert!(config.peers.is_empty());
    assert_eq!(config.interface.address, Some("fd00::1/64".to_string()));
    assert_eq!(config.interface.listen_port, Some("0".to_string()));
}

#[test]
fn address_is_written_in_prefix_form() {
    let entries = fields(Some("wg0"), Some("10.0.0.1/255.255.255.0"), Some("+0080"), Some("+1"));
    let settings = GenerationSettings::try_from(&entries).unwrap();
    let config = settings.generate("a".to_string(), "b".to_string()).unwrap();
    assert_eq!(config.interface.address, Some("10.0.0.1/24".to_string()));
    assert_eq!(config.interface.listen_port, Some("80".to_string()));
    assert_eq!(config.peers.len(), 1);
    let entries = fields(Some("wg0"), Some("192.168.1.9"), Some("65535"), Some("2"));
    let settings = GenerationSettings::try_from(&entries).unwrap();
    let config = settings.generate("a".to_string(), "b".to_string()).unwrap();
    assert_eq!(config.interface.address, Some("192.168.1.9/32".to_string()));
    assert_eq!(config.interface.listen_port, Some("65535".to_string()));
    let entries = fields(Some("wg0"), Some("0:0:0:0:0:0:0:1/128"), Some("1"), Some("0"));
    let settings = GenerationSettings::try_from(&entries).unwrap();
    let config = settings.generate("a".to_string(), "b".to_string()).unwrap();
    assert_eq!(config.interface.address, Some("::1/128".to_string()));
}

#[test]
fn unparseable_port_is_named() {
    let entries = fields(Some("wg0"), Some("10.0.0.1/24"), Some("abc"), Some("3"));
    let e = error_of(&entries);
    assert_eq!(e, GenerationInputError::PortUnparseable);
    assert_eq!(e.message(), "Could not parse Listen Port");
    for port in ["65536", "-1", "", "+", " 80", "80 ", "8_0", "0x50"] {
        let entries = fields(Some("wg0"), Some("10.0.0.1/24"), Some(port), Some("3"));
        assert_eq!(error_of(&entries), GenerationInputError::PortUnparseable);
    }
}

#[test]
fn missing_fields_are_named_in_order() {
    let e = error_of(&fields(None, None, None, None));
    assert_eq!(e, GenerationInputError::NameUnspecified);
    assert_eq!(e.message(), "'Tunnel interface name' is unspecified");
    let e = error_of(&fields(Some(""), Some("10.0.0.1/24"), Some("1"), Some("1")));
    assert_eq!(e, GenerationInputError::NameUnspecified);
    let e = error_of(&fields(Some("wg0"), None, None, None));
    assert_eq!(e, GenerationInputError::AddressUnspecified);
    assert_eq!(e.message(), "'Tunnel interface ip' is unspecified");
    let e = error_of(&fields(Some("wg0"), Some("10.0.0.1/24"), None, None));
    assert_eq!(e, GenerationInputError::PortUnspecified);
    assert_eq!(e.message(), "Listen Port is unspecified");
    let e = error_of(&fields(Some("wg0"), Some("10.0.0.1/24"), Some("1"), None));
    assert_eq!(e, GenerationInputError::PeersUnspecified);
    assert_eq!(e.message(), "'Number of Peers' is unspecified");
    let e = error_of(&Vec::new());
    assert_eq!(e, GenerationInputError::NameUnspecified);
}

#[test]
fn unparseable_address_and_peers_are_named() {
    for address in ["10.0.0.1/33", "10.0.0/24", "not-a-network", "10.0.0.1/24/1", ""] {
        let e = error_of(&fields(Some("wg0"), Some(address), Some("1"), Some("1")));
        assert_eq!(e, GenerationInputError::AddressUnparseable);
        assert_eq!(e.message(), "Could not parse 'Tunnel interface ip'");
    }
    for peers in ["-1", "three", "99999999999999999999999999"] {
        let e = error_of(&fields(Some("wg0"), Some("10.0.0.1/24"), Some("1"), Some(peers)));
        assert_eq!(e, GenerationInputError::PeersUnparseable);
        assert_eq!(e.message(), "Could not parse Number of Peers");
    }
}

#[test]
fn first_field_with_a_label_counts() {
    let mut entries = fields(Some("wg0"), Some("10.0.0.1/24"), Some("51820"), Some("2"));
    entries.push((NAME_LABEL.to_string(), Some("other".to_string())));
    entries.push((PORT_LABEL.to_string(), Some("abc".to_string())));
    let settings = GenerationSettings::try_from(&entries).unwrap();
    let config = settings.generate("a".to_string(), "b".to_string()).unwrap();
    assert_eq!(config.interface.name, Some("wg0".to_string()));
    assert_eq!(config.peers.len(), 2);
}

#[test]
fn generation_asks_for_the_private_key_then_the_public_key() {
    let entries = fields(Some("wg0"), Some("10.0.0.1/24"), Some("51820"), Some("3"));
    let settings = GenerationSettings::try_from(&entries).unwrap();
    let pending = settings.begin_generation();
    assert_eq!(pending, KeyRequest::PrivateKey);
    let step = settings.generate_step(pending, Ok(b"cHJpdg==\n".to_vec()));
    assert_eq!(step, GenerationStep::Await(KeyRequest::PublicKey { private_key: "cHJpdg==".to_string() }));
    let step = settings.generate_step(
        KeyRequest::PublicKey { private_key: "cHJpdg==".to_string() },
        Ok(b"cHVi\n".to_vec()),
    );
    match step {
        GenerationStep::Finished(Ok(config)) => {
            assert_eq!(config, settings.generate("cHJpdg==".to_string(), "cHVi".to_string()).unwrap());
            assert_eq!(config.interface.private_key, Some("cHJpdg==".to_string()));
            assert_eq!(config.interface.public_key, Some("cHVi".to_string()));
            assert_eq!(config.interface.address, Some("10.0.0.1/24".to_string()));
            assert_eq!(config.peers.len(), 3);
        }
        other => panic!("no configuration: {:?}", other),
    }
}

#[test]
fn failed_key_tool_ends_the_generation() {
    let entries = fields(Some("wg0"), Some("10.0.0.1/24"), Some("51820"), Some("1"));
    let settings = GenerationSettings::try_from(&entries).unwrap();
    assert_eq!(
        settings.generate_step(KeyRequest::PrivateKey, Err(ProcessError::Spawn)),
        GenerationStep::Finished(Err(KeyGenError::Process(ProcessError::Spawn)))
    );
    assert_eq!(
        settings.generate_step(KeyRequest::PrivateKey, Ok(vec![0xff])),
        GenerationStep::Finished(Err(KeyGenError::NotUtf8))
    );
    let public = || KeyRequest::PublicKey { private_key: "k".to_string() };
    assert_eq!(
        settings.generate_step(public(), Ok(Vec::new())),
        GenerationStep::Finished(Err(KeyGenError::EmptyOutput))
    );
    assert_eq!(
        settings.generate_step(public(), Err(ProcessError::Wait)),
        GenerationStep::Finished(Err(KeyGenError::Process(ProcessError::Wait)))
    );
    assert_eq!(
        settings.generate_step(public(), Ok(vec![0xc3, 0x28])),
        GenerationStep::Finished(Err(KeyGenError::NotUtf8))
    );
}

#[test]
fn empty_keys_give_no_configuration() {
    let entries = fields(Some("wg0"), Some("10.0.0.1/24"), Some("51820"), Some("1"));
    let settings = GenerationSettings::try_from(&entries).unwrap();
    assert_eq!(settings.generate(String::new(), "b".to_string()), Err(KeyGenError::EmptyOutput));
    assert_eq!(settings.generate("a".to_string(), String::new()), Err(KeyGenError::EmptyOutput));
    assert_eq!(
        settings.generate_step(KeyRequest::PrivateKey, Ok(Vec::new())),
        GenerationStep::Finished(Err(KeyGenError::EmptyOutput))
    );
    assert_eq!(
        settings.generate_step(KeyRequest::PrivateKey, Ok(b" \n".to_vec())),
        GenerationStep::Finished(Err(KeyGenError::EmptyOutput))
    );
    assert_eq!(
        settings.generate_step(KeyRequest::PublicKey { private_key: "k".to_string() }, Ok(b"\n".to_vec())),
        GenerationStep::Finished(Err(KeyGenError::EmptyOutput))
    );
    assert_eq!(
        settings.generate_step(KeyRequest::PublicKey { private_key: String::new() }, Ok(b"cHVi\n".to_vec())),
        GenerationStep::Finished(Err(KeyGenError::EmptyOutput))
    );
}

#[test]
fn settings_from_parts() {
    let network = Network::V4 { addr: 0x0a00_0001, prefix: 24 };
    let settings = GenerationSettings::from_parts("wg0".to_string(), network, 51820, 3).unwrap();
    let config = settings.generate("private".to_string(), "public".to_string()).unwrap();
    assert_eq!(config.interface.name, Some("wg0".to_string()));
    assert_eq!(config.interface.address, Some("10.0.0.1/24".to_string()));
    assert_eq!(config.interface.listen_port, Some("51820".to_string()));
    assert_eq!(config.peers.len(), 3);
    let entries = fields(Some("wg0"), Some("10.0.0.1/24"), Some("51820"), Some("3"));
    let read = GenerationSettings::try_from(&entries).unwrap();
    assert_eq!(read.generate("private".to_string(), "public".to_string()).unwrap(), config);
    let wide = Network::V4 { addr: 0xc0a8_64ff, prefix: 8 };
    let settings = GenerationSettings::from_parts("w".to_string(), wide, 0, 0).unwrap();
    let config = settings.generate("a".to_string(), "b".to_string()).unwrap();
    assert_eq!(config.interface.address, Some("192.168.100.255/8".to_string()));
    let v6 = Network::V6 { addr: 1, prefix: 128 };
    let settings = GenerationSettings::from_parts("w".to_string(), v6, 1, 0).unwrap();
    let config = settings.generate("a".to_string(), "b".to_string()).unwrap();
    assert_eq!(config.interface.address, Some("::1/128".to_string()));
    assert!(GenerationSettings::from_parts(String::new(), network, 1, 1).is_none());
    assert!(GenerationSettings::from_parts("wg0".to_string(), Network::V4 { addr: 0, prefix: 33 }, 1, 1).is_none());
    assert!(GenerationSettings::from_parts("wg0".to_string(), Network::V6 { addr: 0, prefix: 129 }, 1, 1).is_none());
    assert!(GenerationSettings::from_parts("wg0".to_string(), Network::V4 { addr: 0, prefix: 32 }, 1, 1).is_some());
}
