use adm_sdk::address::Address;
use adm_sdk::error::Error;
use adm_sdk::machine::objectstore::{
    AddAction, AddEvent, AddFlow, AddOptions, DeleteOptions, GetOptions, GetPlan, Object,
    ObjectKind, ObjectStore, QueryOptions, CHUNK_SIZE, MAX_INTERNAL_OBJECT_SIZE,
};
use adm_sdk::machine::{Kind, Machine, Method, Params, TxCall};
use adm_sdk::provider::message::GasParams;
use adm_sdk::provider::query::FvmQueryHeight;
use adm_sdk::provider::response::Cid;
use adm_sdk::provider::tx::{BroadcastMode, TxReceipt};
use adm_sdk::signer::MessageObject;

const CID_A: &str = "bafybeigdyrzt5sfp7udm7hu76uh7y26nf3efuylqabf3oclgtqy55fbzdi";
const CID_B: &str = "bafkreigh2akiscaildcqabsyg3dfr6chu3fgpregiymsck7e7aqa4s52zy";

fn store() -> ObjectStore {
    ObjectStore::attach(Address::new_id(1234))
}

fn begin(overwrite: bool) -> AddFlow {
    let (flow, action) = store().add("my/key", AddOptions::new(overwrite));
    assert_eq!(action, AddAction::Sample { limit: 1025 });
    flow
}

fn anchor_call(params: Params) -> TxCall {
    TxCall {
        to: Address::new_id(1234),
        method: Method::AddObject,
        params,
        gas_params: GasParams::default(),
        broadcast_mode: BroadcastMode::Commit,
    }
}

#[test]
fn threshold_is_1024_bytes() {
    assert_eq!(MAX_INTERNAL_OBJECT_SIZE, 1024);
    assert_eq!(CHUNK_SIZE, 1024 * 1024);
}

#[test]
fn object_of_1024_bytes_is_internal() {
    let body = vec![7u8; 1024];
    let (flow, action) = begin(false).step(AddEvent::Sampled(body.clone()));
    assert!(!flow.is_finished());
    assert_eq!(
        action,
        AddAction::Anchor {
            call: anchor_call(Params::AddInline {
                key: b"my/key".to_vec(),
                body,
                overwrite: false
            }),
            object: None,
        }
    );
}

#[test]
fn object_of_1025_bytes_is_external() {
    let (flow, action) = begin(false).step(AddEvent::Sampled(vec![7u8; 1025]));
    assert_eq!(action, AddAction::Hash { chunk_size: 1024 * 1024 });
    let cid = Cid::from_str(CID_A).unwrap();
    let (flow, action) = flow.step(AddEvent::Hashed { cid: cid.clone(), size: 5000 });
    let object = MessageObject::new(b"my/key".to_vec(), cid.clone(), Address::new_id(1234));
    assert_eq!(
        action,
        AddAction::Stage {
            params: Params::AddObject {
                key: b"my/key".to_vec(),
                cid: cid.to_bytes(),
                overwrite: false
            },
            object: object.clone(),
            size: 5000,
        }
    );
    let (flow, action) = flow.step(AddEvent::Staged(Cid::from_str(CID_A).unwrap()));
    assert_eq!(
        action,
        AddAction::Anchor {
            call: anchor_call(Params::AddObject {
                key: b"my/key".to_vec(),
                cid: cid.to_bytes(),
                overwrite: false
            }),
            object: Some(object),
        }
    );
    let receipt = TxReceipt::committed(vec![1, 2, 3], 10, 77, Some(cid));
    let (flow, action) = flow.step(AddEvent::Anchored(receipt.clone()));
    assert_eq!(action, AddAction::Finish(Ok(receipt)));
    assert!(flow.is_finished());
}

#[test]
fn one_byte_object_is_internal() {
    let (_, action) = begin(true).step(AddEvent::Sampled(vec![1]));
    assert_eq!(
        action,
        AddAction::Anchor {
            call: anchor_call(Params::AddInline {
                key: b"my/key".to_vec(),
                body: vec![1],
                overwrite: true
            }),
            object: None,
        }
    );
}

#[test]
fn empty_object_is_refused() {
    let (flow, action) = begin(false).step(AddEvent::Sampled(vec![]));
    assert_eq!(action, AddAction::Finish(Err(Error::EmptyObject)));
    assert!(flow.is_finished());
}

#[test]
fn mismatching_cid_is_never_anchored() {
    let (flow, _) = begin(false).step(AddEvent::Sampled(vec![7u8; 2000]));
    let (flow, _) = flow.step(AddEvent::Hashed { cid: Cid::from_str(CID_A).unwrap(), size: 2000 });
    let (flow, action) = flow.step(AddEvent::Staged(Cid::from_str(CID_B).unwrap()));
    assert_eq!(action, AddAction::Finish(Err(Error::CidMismatch)));
    assert!(flow.is_finished());
    let receipt = TxReceipt::pending(vec![1]);
    let (_, action) = flow.step(AddEvent::Anchored(receipt));
    assert_eq!(action, AddAction::Finish(Err(Error::UnexpectedEvent)));
}

#[test]
fn rejected_anchor_is_reported_and_not_retried() {
    let (flow, _) = begin(false).step(AddEvent::Sampled(vec![7u8; 10]));
    let rejected = Error::TxRejected("info: key exists; log: ".to_string());
    let (flow, action) = flow.step(AddEvent::Failed(rejected.clone()));
    assert_eq!(action, AddAction::Finish(Err(rejected)));
    assert!(flow.is_finished());
    let (_, action) = flow.step(AddEvent::Sampled(vec![7u8; 10]));
    assert_eq!(action, AddAction::Finish(Err(Error::UnexpectedEvent)));
}

#[test]
fn events_out_of_order_are_unexpected() {
    let (_, action) = begin(false).step(AddEvent::Staged(Cid::from_str(CID_A).unwrap()));
    assert_eq!(action, AddAction::Finish(Err(Error::UnexpectedEvent)));
    let (_, action) =
        begin(false).step(AddEvent::Hashed { cid: Cid::from_str(CID_A).unwrap(), size: 1 });
    assert_eq!(action, AddAction::Finish(Err(Error::UnexpectedEvent)));
    let (flow, _) = begin(false).step(AddEvent::Sampled(vec![7u8; 10]));
    let (_, action) = flow.step(AddEvent::Sampled(vec![7u8; 10]));
    assert_eq!(action, AddAction::Finish(Err(Error::UnexpectedEvent)));
}

#[test]
fn internal_round_trip() {
    let body = b"hello world".to_vec();
    let (_, action) = begin(false).step(AddEvent::Sampled(body.clone()));
    let anchored = match action {
        AddAction::Anchor { call: TxCall { params: Params::AddInline { body, .. }, .. }, .. } => {
            body
        }
        other => panic!("unexpected action {:?}", other),
    };
    let object = Object { key: b"my/key".to_vec(), kind: ObjectKind::Internal(anchored) };
    let plan = store().get("my/key", Some(object), GetOptions::default());
    assert_eq!(plan, Ok(GetPlan::Inline(body)));
}

#[test]
fn get_decides_by_kind() {
    let cid = Cid::from_str(CID_A).unwrap();
    assert_eq!(store().get("k", None, GetOptions::default()), Err(Error::ObjectNotFound));
    let unresolved = Object {
        key: b"k".to_vec(),
        kind: ObjectKind::External { cid: cid.clone(), resolved: false },
    };
    assert_eq!(
        store().get("k", Some(unresolved), GetOptions::default()),
        Err(Error::ObjectNotResolved)
    );
    let resolved = Object {
        key: b"k".to_vec(),
        kind: ObjectKind::External { cid: cid.clone(), resolved: true },
    };
    let options = GetOptions {
        range: Some("0-9".to_string()),
        height: FvmQueryHeight::Height(42),
        show_progress: false,
    };
    assert_eq!(
        store().get("k", Some(resolved), options),
        Ok(GetPlan::Download {
            address: Address::new_id(1234),
            key: "k".to_string(),
            range: Some("0-9".to_string()),
            height: 42,
            cid,
        })
    );
    let internal = Object { key: b"k".to_vec(), kind: ObjectKind::Internal(vec![1, 2, 3, 4]) };
    let options = GetOptions {
        range: Some("1-2".to_string()),
        height: FvmQueryHeight::Committed,
        show_progress: false,
    };
    assert_eq!(store().get("k", Some(internal.clone()), options), Ok(GetPlan::Inline(vec![2, 3])));
    let options = GetOptions {
        range: Some("1-4".to_string()),
        height: FvmQueryHeight::Committed,
        show_progress: false,
    };
    assert_eq!(store().get("k", Some(internal), options), Err(Error::InvalidRange));
}

#[test]
fn delete_and_query_calls() {
    let call = store().delete("a/b", DeleteOptions::default());
    assert_eq!(call.to, Address::new_id(1234));
    assert_eq!(call.method, Method::DeleteObject);
    assert_eq!(call.params, Params::DeleteObject { key: b"a/b".to_vec() });
    assert_eq!(call.broadcast_mode, BroadcastMode::Commit);
    assert_eq!(call.gas_params.gas_limit, 10_000_000_000);

    let options = QueryOptions::default();
    assert_eq!(options.delimiter, "/");
    assert_eq!(options.prefix, "");
    assert_eq!(options.limit, 0);
    let call = store().query(options);
    assert_eq!(call.method, Method::ListObjects);
    assert_eq!(
        call.params,
        Params::ListObjects { prefix: vec![], delimiter: b"/".to_vec(), offset: 0, limit: 0 }
    );
    assert_eq!(call.height, FvmQueryHeight::Committed);

    let call = store().get_call("a/b", FvmQueryHeight::Pending);
    assert_eq!(call.method, Method::GetObject);
    assert_eq!(call.params, Params::GetObject { key: b"a/b".to_vec() });
    assert_eq!(call.height, FvmQueryHeight::Pending);
}

#[test]
fn machine_handle() {
    assert_eq!(ObjectStore::kind(), Kind::ObjectStore);
    assert_eq!(store().address(), Address::new_id(1234));
}
