use adm_sdk::address::Address;
use adm_sdk::error::Error;
use adm_sdk::provider::message::{GasParams, Message};
use adm_sdk::provider::query::FvmQueryHeight;
use adm_sdk::provider::response::Cid;
use adm_sdk::signer::key::parse_secret_key;
use adm_sdk::signer::subnet::{hash, SubnetChild, MAX_CHAIN_ID};
use adm_sdk::signer::wallet::ActorState;
use adm_sdk::signer::{AccountKind, MessageObject, Signer, SubnetID, Void, Wallet};
use adm_sdk::account::Account;
use adm_sdk::ipc::manager::{EthSigner, EvmManager};

const TESTNET: &str = "/r314159/t410fbslswn3rqrpdjoozbuoll6mnnfsolbp2wi3vbmi";

fn wallet() -> Wallet {
    let subnet_id = SubnetID::from_str("r/foobar").unwrap();
    Wallet::new_secp256k1(vec![1; 32], AccountKind::Ethereum, Address::new_eth(&vec![2; 20]), subnet_id)
}

fn send(wallet: &mut Wallet) -> Result<u64, Error> {
    wallet
        .transaction(Address::new_id(1), 0, 2, vec![], None, GasParams::default())
        .map(|request| request.message.sequence)
}

#[test]
fn test_set_sequence() {
    let mut wallet = wallet();

    // Test setting a specific sequence value
    assert_eq!(wallet.set_sequence(Some(50)), None);
    assert_eq!(wallet.sequence(), Some(50));

    // Test initializing sequence from the chain
    assert_eq!(wallet.set_sequence(None), Some(FvmQueryHeight::Pending));
    wallet.init_sequence(Some(ActorState { sequence: 65, balance: 0 })).unwrap();
    assert_eq!(wallet.sequence(), Some(65));
}

#[test]
fn sequence_is_unset_at_first() {
    let mut wallet = wallet();
    assert_eq!(wallet.sequence(), None);
    assert_eq!(send(&mut wallet), Err(Error::SequenceUnset));
    assert_eq!(wallet.sequence(), None);
    assert_eq!(wallet.init_sequence(None), Err(Error::ActorNotFound));
    assert_eq!(wallet.sequence(), None);
}

#[test]
fn ten_transactions_from_sequence_five() {
    let mut wallet = wallet();
    wallet.set_sequence(Some(5));
    let mut sequences: Vec<u64> = (0..10).map(|_| send(&mut wallet).unwrap()).collect();
    sequences.sort();
    assert_eq!(sequences, vec![5, 6, 7, 8, 9, 10, 11, 12, 13, 14]);
    assert_eq!(wallet.sequence(), Some(15));
}

#[test]
fn ten_transactions_behind_a_lock() {
    let shared = std::sync::Arc::new(std::sync::Mutex::new(wallet()));
    shared.lock().unwrap().set_sequence(Some(5));
    let mut sequences: Vec<u64> = (0..10)
        .map(|_| {
            let shared = shared.clone();
            let mut guard = shared.lock().unwrap();
            send(&mut guard).unwrap()
        })
        .collect();
    sequences.sort();
    assert_eq!(sequences, vec![5, 6, 7, 8, 9, 10, 11, 12, 13, 14]);
}

#[test]
fn sequence_does_not_wrap() {
    let mut wallet = wallet();
    wallet.set_sequence(Some(u64::MAX - 1));
    assert_eq!(send(&mut wallet), Ok(u64::MAX - 1));
    assert_eq!(send(&mut wallet), Err(Error::SequenceExhausted));
    assert_eq!(wallet.sequence(), Some(u64::MAX));
}

#[test]
fn transaction_message() {
    let mut wallet = wallet();
    wallet.set_sequence(Some(3));
    let cid = Cid::from_str("bafybeigdyrzt5sfp7udm7hu76uh7y26nf3efuylqabf3oclgtqy55fbzdi").unwrap();
    let object = MessageObject::new(b"k".to_vec(), cid, Address::new_id(9));
    let gas = GasParams { gas_limit: 10, gas_fee_cap: 20, gas_premium: 30 };
    let request = wallet
        .transaction(Address::new_id(9), 44, 2, vec![1, 2, 3], Some(object.clone()), gas)
        .unwrap();
    assert_eq!(
        request.message,
        Message {
            version: 0,
            from: Address::new_eth(&vec![2; 20]),
            to: Address::new_id(9),
            sequence: 3,
            value: 44,
            method_num: 2,
            params: vec![1, 2, 3],
            gas_limit: 10,
            gas_fee_cap: 20,
            gas_premium: 30,
        }
    );
    assert_eq!(request.object, Some(object));
    assert_eq!(request.chain_id, hash(b"r/foobar"));
}

#[test]
fn signing_does_not_touch_the_sequence() {
    let mut wallet = wallet();
    wallet.set_sequence(Some(3));
    let message = adm_sdk::provider::message::local_message(Address::new_id(1), 2, vec![]);
    let request = wallet.sign_message(message.clone(), None).unwrap();
    assert_eq!(request.message, message);
    assert_eq!(request.chain_id, hash(b"r/foobar"));
    let check = wallet.verify_message(message.clone(), None, vec![7, 7]).unwrap();
    assert_eq!(check.message, message);
    assert_eq!(check.signature, vec![7, 7]);
    assert_eq!(wallet.sequence(), Some(3));
}

#[test]
fn wallet_accessors() {
    let wallet = wallet();
    assert_eq!(wallet.address(), Address::new_eth(&vec![2; 20]));
    assert_eq!(wallet.evm_address(), Ok(vec![2; 20]));
    assert_eq!(wallet.secret_key(), Some(vec![1; 32]));
    assert_eq!(wallet.subnet_id().unwrap().to_string(), "r/foobar");
    assert_eq!(wallet.kind(), AccountKind::Ethereum);
    assert_eq!(
        EvmManager::eth_signer(&wallet),
        Ok(EthSigner { secret_key: vec![1; 32], chain_id: hash(b"r/foobar") })
    );
}

#[test]
fn void_signer_only_knows_its_address() {
    let mut void = Void::new(Address::new_id(3));
    assert_eq!(void.address(), Address::new_id(3));
    assert_eq!(void.secret_key(), None);
    assert_eq!(void.subnet_id(), None);
    assert_eq!(void.evm_address(), Err(Error::InvalidAddress));
    assert_eq!(
        void.transaction(Address::new_id(1), 0, 2, vec![], None, GasParams::default()),
        Err(Error::VoidTransaction)
    );
    let message = adm_sdk::provider::message::local_message(Address::new_id(1), 2, vec![]);
    assert_eq!(void.sign_message(message.clone(), None), Err(Error::VoidSign));
    assert_eq!(void.verify_message(message, None, vec![]), Err(Error::VoidVerify));
    assert_eq!(EvmManager::eth_signer(&void), Err(Error::MissingSecretKey));
}

#[test]
fn account_sequence() {
    assert_eq!(Account::sequence(Some(ActorState { sequence: 9, balance: 1 })), Ok(9));
    assert_eq!(Account::sequence(None), Err(Error::ActorNotFound));
}

#[test]
fn secret_keys_in_hex() {
    let key = "1c323d494d1d069fe4c891350a1ec691c4216c17418a0cb3c7533b143bd2b812";
    let bytes = hex::decode(key).unwrap();
    assert_eq!(parse_secret_key(key), Ok(bytes.clone()));
    assert_eq!(parse_secret_key(&format!("0x{}", key)), Ok(bytes.clone()));
    assert_eq!(parse_secret_key(&format!("  0x{}\n", key)), Ok(bytes.clone()));
    assert_eq!(parse_secret_key(&format!("\u{2003}{}\u{a0}", key)), Ok(bytes));
    assert_eq!(parse_secret_key("0x 12"), Err(Error::InvalidSecretKeyHex));
    assert_eq!(parse_secret_key("xyz"), Err(Error::InvalidSecretKeyHex));
    assert_eq!(parse_secret_key("123"), Err(Error::InvalidSecretKeyHex));
}

#[test]
fn names_that_are_no_paths() {
    let id = SubnetID::from_str("r/foobar").unwrap();
    assert!(id.is_root());
    assert_eq!(id.to_string(), "r/foobar");
    assert_eq!(id.chain_id(), hash(b"r/foobar"));
    assert_eq!(id.parent(), Err(Error::SubnetHasNoParent));
    let id = SubnetID::from_str("test").unwrap();
    assert_eq!(id.chain_id(), hash(b"test"));
    let id = SubnetID::from_str("").unwrap();
    assert_eq!(id.chain_id(), 0);
    assert_eq!(id.to_string(), "/r0");
}

#[test]
fn fnv_hash_of_known_texts() {
    assert_eq!(hash(b""), 0xcbf29ce484222325 % MAX_CHAIN_ID);
    assert_eq!(hash(b"a"), 0xaf63dc4c8601ec8c % MAX_CHAIN_ID);
    assert_eq!(hash(b"foobar"), 0x85944171f73967e8 % MAX_CHAIN_ID);
}

#[test]
fn root_paths() {
    let id = SubnetID::from_str("/r314159").unwrap();
    assert!(id.is_root());
    assert_eq!(id.root_id(), 314159);
    assert_eq!(id.chain_id(), 314159);
    assert_eq!(id.to_string(), "/r314159");
    assert_eq!(id.parent(), Err(Error::SubnetHasNoParent));
    assert_eq!(id, SubnetID::new(314159, vec![]));
}

#[test]
fn child_paths() {
    let id = SubnetID::from_str(TESTNET).unwrap();
    assert!(!id.is_root());
    assert_eq!(id.root_id(), 314159);
    assert_eq!(id.to_string(), TESTNET);
    assert_eq!(id.chain_id(), 649564385343980);
    assert_eq!(id.chain_id(), hash(TESTNET.as_bytes()));
    let parent = id.parent().unwrap();
    assert_eq!(parent, SubnetID::from_str("/r314159").unwrap());
    assert_eq!(parent.chain_id(), 314159);
    let child = SubnetChild {
        address: adm_sdk::provider::util::parse_address(&TESTNET[9..]).unwrap(),
        text: TESTNET[9..].to_string(),
    };
    assert_eq!(id.children(), vec![child.clone()]);
    assert_eq!(id, SubnetID::new(314159, vec![child]));
    assert_eq!(id.copy(), id);
}

#[test]
fn grandchild_paths() {
    let text = format!("{}/t01234", TESTNET);
    let id = SubnetID::from_str(&text).unwrap();
    assert_eq!(id.to_string(), text);
    assert_eq!(id.chain_id(), hash(text.as_bytes()));
    assert_eq!(id.parent().unwrap(), SubnetID::from_str(TESTNET).unwrap());
}

#[test]
fn malformed_paths() {
    for text in ["/r", "/rabc", "/r1/", "/r1/nonsense", "/r1//t01", "/r-1", "/r18446744073709551616"] {
        assert_eq!(SubnetID::from_str(text), Err(Error::InvalidSubnetId(text.to_string())));
    }
}
