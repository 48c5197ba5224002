use adm_sdk::address::Address;
use adm_sdk::error::{Error, Payload};
use adm_sdk::machine::accumulator::{
    decode_count, decode_leaf, decode_peaks, decode_push_return, Accumulator,
    MAX_ACC_PAYLOAD_SIZE,
};
use adm_sdk::machine::{
    deploy_machine, deployed, info, list, list_call, CreateExternalReturn, DeployTxReceipt, Kind,
    Machine, Metadata, Method, Params, QueryCall, TxCall, WriteAccess,
};
use adm_sdk::machine::objectstore::ObjectStore;
use adm_sdk::provider::json_rpc::TxResult;
use adm_sdk::provider::message::GasParams;
use adm_sdk::provider::query::FvmQueryHeight;
use adm_sdk::provider::response::encode_data;
use adm_sdk::provider::tx::{BroadcastMode, TxReceipt};

const CID_A: &str = "bafybeigdyrzt5sfp7udm7hu76uh7y26nf3efuylqabf3oclgtqy55fbzdi";
const CID_B: &str = "bafkreigh2akiscaildcqabsyg3dfr6chu3fgpregiymsck7e7aqa4s52zy";

fn accumulator() -> Accumulator {
    Accumulator::attach(Address::new_id(77))
}

fn output(raw: &[u8]) -> TxResult {
    TxResult {
        code: 0,
        data: encode_data(raw),
        info: String::new(),
        log: String::new(),
        gas_used: 0,
    }
}

fn query(method: Method, params: Params, height: FvmQueryHeight) -> QueryCall {
    QueryCall { to: Address::new_id(77), method, params, height }
}

#[test]
fn payload_limit() {
    assert_eq!(MAX_ACC_PAYLOAD_SIZE, 512000);
    let gas = GasParams::default();
    let payload = vec![1u8; 512000];
    assert_eq!(
        accumulator().push(payload.clone(), BroadcastMode::Sync, gas),
        Ok(TxCall {
            to: Address::new_id(77),
            method: Method::Push,
            params: Params::Push { payload },
            gas_params: gas,
            broadcast_mode: BroadcastMode::Sync,
        })
    );
    assert_eq!(
        accumulator().push(vec![1u8; 512001], BroadcastMode::Sync, gas),
        Err(Error::PayloadTooLarge)
    );
    assert!(accumulator().push(vec![], BroadcastMode::Commit, gas).is_ok());
}

#[test]
fn query_calls() {
    let height = FvmQueryHeight::Height(9);
    assert_eq!(accumulator().leaf(1, height), query(Method::Get, Params::Get { index: 1 }, height));
    assert_eq!(accumulator().count(height), query(Method::Count, Params::Empty, height));
    assert_eq!(accumulator().peaks(height), query(Method::Peaks, Params::Empty, height));
    assert_eq!(accumulator().root(height), query(Method::Root, Params::Empty, height));
    assert_eq!(Accumulator::kind(), Kind::Accumulator);
    assert_eq!(accumulator().address(), Address::new_id(77));
}

#[test]
fn leaf_not_found_is_an_error() {
    assert_eq!(decode_leaf(&output(b""), 4), Err(Error::LeafNotFound(4)));
    let raw = fvm_ipld_encoding::to_vec(&vec![98u8]).unwrap();
    assert_eq!(decode_leaf(&output(&raw), 1), Ok(b"b".to_vec()));
    assert_eq!(decode_leaf(&output(&[0xff]), 1), Err(Error::Decode(Payload::Bytes)));
    let broken = TxResult { data: b"***".to_vec(), ..output(b"") };
    assert_eq!(decode_leaf(&broken, 1), Err(Error::Decode(Payload::Base64)));
}

#[test]
fn count_is_a_number() {
    let raw = fvm_ipld_encoding::to_vec(&3u64).unwrap();
    assert_eq!(decode_count(&output(&raw)), Ok(3));
    assert_eq!(decode_count(&output(b"")), Err(Error::Decode(Payload::Number)));
}

#[test]
fn peaks_are_cids() {
    let a = cid::Cid::try_from(CID_A).unwrap();
    let b = cid::Cid::try_from(CID_B).unwrap();
    let raw = fvm_ipld_encoding::to_vec(&vec![a, b]).unwrap();
    let peaks = decode_peaks(&output(&raw)).unwrap();
    let texts: Vec<String> = peaks.iter().map(|c| c.to_string()).collect();
    assert_eq!(texts, vec![CID_A.to_string(), CID_B.to_string()]);
    let empty: Vec<cid::Cid> = vec![];
    let raw = fvm_ipld_encoding::to_vec(&empty).unwrap();
    assert_eq!(decode_peaks(&output(&raw)), Ok(vec![]));
    assert_eq!(decode_peaks(&output(&[1])), Err(Error::Decode(Payload::CidList)));
}

#[test]
fn push_returns_root_and_index() {
    let root = cid::Cid::try_from(CID_A).unwrap();
    let raw = fvm_ipld_encoding::to_vec(&(root, 2u64)).unwrap();
    let pushed = decode_push_return(&output(&raw)).unwrap();
    assert_eq!(pushed.root.to_string(), CID_A);
    assert_eq!(pushed.index, 2);
    assert_eq!(decode_push_return(&output(&[1])), Err(Error::Decode(Payload::PushReturn)));
}

#[test]
fn machines_of_one_kind() {
    let all = vec![
        Metadata { kind: Kind::ObjectStore, address: Address::new_id(1) },
        Metadata { kind: Kind::Accumulator, address: Address::new_id(2) },
        Metadata { kind: Kind::ObjectStore, address: Address::new_id(3) },
    ];
    assert_eq!(
        list::<ObjectStore>(all.clone()),
        vec![
            Metadata { kind: Kind::ObjectStore, address: Address::new_id(1) },
            Metadata { kind: Kind::ObjectStore, address: Address::new_id(3) },
        ]
    );
    assert_eq!(
        list::<Accumulator>(all),
        vec![Metadata { kind: Kind::Accumulator, address: Address::new_id(2) }]
    );
    assert_eq!(list::<Accumulator>(vec![]), vec![]);
}

#[test]
fn machine_calls() {
    let call = list_call(Address::new_id(5), FvmQueryHeight::Committed);
    assert_eq!(call.to, Address::new_id(17));
    assert_eq!(call.method, Method::ListMetadata);
    assert_eq!(call.params, Params::ListMetadata { owner: Address::new_id(5) });
    let call = info(Address::new_id(6), FvmQueryHeight::Pending);
    assert_eq!(call.to, Address::new_id(6));
    assert_eq!(call.method, Method::GetMetadata);
    assert_eq!(call.params, Params::Empty);
    assert_eq!(call.height, FvmQueryHeight::Pending);
    let gas = GasParams { gas_limit: 1, gas_fee_cap: 2, gas_premium: 3 };
    let call = deploy_machine(Kind::Accumulator, WriteAccess::Public, gas);
    assert_eq!(
        call,
        TxCall {
            to: Address::new_id(17),
            method: Method::CreateExternal,
            params: Params::CreateExternal {
                kind: Kind::Accumulator,
                write_access: WriteAccess::Public
            },
            gas_params: gas,
            broadcast_mode: BroadcastMode::Commit,
        }
    );
}

#[test]
fn deployed_machine() {
    let created = CreateExternalReturn { actor_id: 5, robust_address: Some(Address::new_id(99)) };
    let tx = TxReceipt::committed(vec![4, 5], 12, 300, Some(created));
    assert_eq!(
        deployed(tx),
        (Address::new_id(99), DeployTxReceipt { hash: vec![4, 5], height: 12, gas_used: 300 })
    );
}
