use adm_sdk::address::Address;
use adm_sdk::error::Error;
use adm_sdk::machine::objectstore::{ObjectStore, UploadForm};
use adm_sdk::machine::Machine;
use adm_sdk::provider::response::Cid;
use adm_sdk::signer::subnet::hash;
use adm_sdk::signer::{AccountKind, MessageObject, SubnetID, Void, Wallet};

const CID_A: &str = "bafybeigdyrzt5sfp7udm7hu76uh7y26nf3efuylqabf3oclgtqy55fbzdi";

#[test]
fn upload_form_fields() {
    let subnet_id = SubnetID::from_str("/r314159").unwrap();
    let wallet =
        Wallet::new_secp256k1(vec![1; 32], AccountKind::Ethereum, Address::new_eth(&vec![2; 20]), subnet_id);
    assert_eq!(
        ObjectStore::upload(&wallet, &[0xfb, 0xff, 0xfe], 2048),
        Ok(UploadForm { chain_id: "314159".to_string(), msg: "-__-".to_string(), size: 2048 })
    );
    assert_eq!(
        ObjectStore::upload(&wallet, b"hello", 5).unwrap().msg,
        "aGVsbG8="
    );
    let wallet = Wallet::new_secp256k1(
        vec![1; 32],
        AccountKind::Ethereum,
        Address::new_eth(&vec![2; 20]),
        SubnetID::from_str("test").unwrap(),
    );
    assert_eq!(ObjectStore::upload(&wallet, b"", 0).unwrap().chain_id, hash(b"test").to_string());
    let void = Void::new(Address::new_id(1));
    assert_eq!(ObjectStore::upload(&void, b"hello", 5), Err(Error::MissingSubnetId));
}

#[test]
fn upload_message_is_never_sequenced() {
    let store = ObjectStore::attach(Address::new_id(1234));
    let cid = Cid::from_str(CID_A).unwrap();
    let (message, object) = store.upload_message(Address::new_id(8), 42, vec![1, 2], "my/key", &cid);
    assert_eq!(message.from, Address::new_id(8));
    assert_eq!(message.to, Address::new_id(1234));
    assert_eq!(message.method_num, 42);
    assert_eq!(message.params, vec![1, 2]);
    assert_eq!(message.sequence, 0);
    assert_eq!(message.value, 0);
    assert_eq!(message.gas_limit, 0);
    assert_eq!(object, MessageObject::new(b"my/key".to_vec(), cid, Address::new_id(1234)));
}
