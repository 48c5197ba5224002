use adm_sdk::address::Address;
use adm_sdk::error::Error;
use adm_sdk::network::{AddressNetwork, Network, SubnetOptions};

#[test]
fn network_names() {
    for (name, network) in [
        ("mainnet", Network::Mainnet),
        ("testnet", Network::Testnet),
        ("localnet", Network::Localnet),
        ("devnet", Network::Devnet),
    ] {
        assert_eq!(Network::from_str(name), Ok(network));
        assert_eq!(network.to_string(), name);
    }
    assert_eq!(Network::from_str("Testnet"), Err(Error::UnknownNetwork));
    assert_eq!(Network::from_str(""), Err(Error::UnknownNetwork));
}

#[test]
fn address_formats() {
    assert_eq!(Network::Mainnet.init(), AddressNetwork::Mainnet);
    assert_eq!(Network::Testnet.init(), AddressNetwork::Testnet);
    assert_eq!(Network::Localnet.init(), AddressNetwork::Testnet);
    assert_eq!(Network::Devnet.init(), AddressNetwork::Testnet);
}

#[test]
fn mainnet_has_no_presets() {
    let net = Network::Mainnet;
    assert_eq!(net.subnet_id(), Err(Error::PreMainnet));
    assert_eq!(net.rpc_url(), Err(Error::PreMainnet));
    assert_eq!(net.object_api_url(), Err(Error::PreMainnet));
    assert_eq!(net.evm_rpc_url(), Err(Error::PreMainnet));
    assert_eq!(net.evm_gateway(), Err(Error::PreMainnet));
    assert_eq!(net.evm_registry(), Err(Error::PreMainnet));
    assert_eq!(net.parent_evm_rpc_url(), Err(Error::PreMainnet));
    assert_eq!(net.parent_evm_gateway(), Err(Error::PreMainnet));
    assert_eq!(net.parent_evm_registry(), Err(Error::PreMainnet));
    assert!(matches!(net.subnet_config(SubnetOptions::default()), Err(Error::PreMainnet)));
    assert!(matches!(net.parent_subnet_config(SubnetOptions::default()), Err(Error::PreMainnet)));
}

#[test]
fn testnet_presets() {
    let net = Network::Testnet;
    assert_eq!(net.subnet_id().unwrap().chain_id(), 649564385343980);
    assert_eq!(net.rpc_url(), Ok("https://api.n1.testnet.basin.storage"));
    assert_eq!(net.object_api_url(), Ok("https://object-api.n1.testnet.basin.storage"));
    assert_eq!(net.evm_rpc_url(), Ok("https://evm-api.n1.testnet.basin.storage"));
    assert_eq!(net.parent_evm_rpc_url(), Ok("https://api.calibration.node.glif.io/rpc/v1"));
    let gateway = hex::decode("77aa40b105843728088c0132e43fc44348881da8").unwrap();
    assert_eq!(net.evm_gateway(), Ok(Address::Delegated { namespace: 10, subaddress: gateway.clone() }));
    let registry = hex::decode("74539671a1d2f1c8f200826baba665179f53a1b7").unwrap();
    assert_eq!(net.evm_registry(), Ok(Address::Delegated { namespace: 10, subaddress: registry.clone() }));
    let parent_gateway = hex::decode("129682c2ae89d8157Ad46Ea402E13f81C1C2e2d0").unwrap();
    assert_eq!(
        net.parent_evm_gateway(),
        Ok(Address::Delegated { namespace: 10, subaddress: parent_gateway.clone() })
    );
    let parent_registry = hex::decode("7Eb0a3511BB5DB2b5f945e6EB801Cb3Be9238c42").unwrap();
    assert_eq!(
        net.parent_evm_registry(),
        Ok(Address::Delegated { namespace: 10, subaddress: parent_registry.clone() })
    );

    let options = SubnetOptions { evm_rpc_timeout: 5, evm_rpc_auth_token: Some("token".to_string()) };
    let config = net.subnet_config(options.clone()).unwrap();
    assert_eq!(config.id, net.subnet_id().unwrap());
    assert_eq!(config.provider_http, "https://evm-api.n1.testnet.basin.storage");
    assert_eq!(config.provider_timeout, Some(5));
    assert_eq!(config.auth_token, Some("token".to_string()));
    assert_eq!(config.gateway_addr, Address::Delegated { namespace: 10, subaddress: gateway });
    assert_eq!(config.registry_addr, Address::Delegated { namespace: 10, subaddress: registry });
    let parent = net.parent_subnet_config(options).unwrap();
    assert_eq!(parent.id, net.subnet_id().unwrap());
    assert_eq!(parent.provider_http, "https://api.calibration.node.glif.io/rpc/v1");
    assert_eq!(parent.gateway_addr, Address::Delegated { namespace: 10, subaddress: parent_gateway });
    assert_eq!(parent.registry_addr, Address::Delegated { namespace: 10, subaddress: parent_registry });
}

#[test]
fn local_networks_have_no_parent() {
    for net in [Network::Localnet, Network::Devnet] {
        assert_eq!(net.rpc_url(), Ok("http://127.0.0.1:26657"));
        assert_eq!(net.object_api_url(), Ok("http://127.0.0.1:8001"));
        assert_eq!(net.evm_rpc_url(), Err(Error::NoParent));
        assert_eq!(net.evm_gateway(), Err(Error::NoParent));
        assert_eq!(net.evm_registry(), Err(Error::NoParent));
        assert_eq!(net.parent_evm_rpc_url(), Err(Error::NoParent));
        assert_eq!(net.parent_evm_gateway(), Err(Error::NoParent));
        assert_eq!(net.parent_evm_registry(), Err(Error::NoParent));
        assert!(matches!(net.subnet_config(SubnetOptions::default()), Err(Error::NoParent)));
        assert!(matches!(net.parent_subnet_config(SubnetOptions::default()), Err(Error::NoParent)));
    }
    assert_eq!(
        Network::Localnet.subnet_id().unwrap().to_string(),
        "/r314159/t410f726d2jv6uj4mpkcbgg5ndlpp3l7dd5rlcpgzkoi"
    );
    assert_eq!(Network::Devnet.subnet_id().unwrap().to_string(), "test");
}

#[test]
fn default_subnet_options() {
    let options = SubnetOptions::default();
    assert_eq!(options.evm_rpc_timeout, 60);
    assert_eq!(options.evm_rpc_auth_token, None);
}
