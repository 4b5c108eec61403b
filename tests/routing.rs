use tpm_ws::dispatch::{dispatch, is_valid_origin, select_backend, BackendKind, SelectedBackend};
use tpm_ws::pkcs11::{
    check_public_key, choose_slot, get_pkcs11_impl, key_object_ids, plan_key, token_response, KeyPlan, SlotChoice,
    TokenFault,
};
use tpm_ws::protocol::{at_most_one, DuplicateRecord, Resp, SignMsg};
use tpm_ws::secrets::{provide_secret, SecretFault};
use tpm_ws::software::SoftwareBackend;
use tpm_ws::tpm::{pad_to_32, plan_tpm_key, tpm_response, NewTpmKeyPair, TpmKeyPlan};

#[test]
fn origins_of_alphanumerics_and_dots_are_valid() {
    assert!(is_valid_origin("example.com"));
    assert!(is_valid_origin("ABC.xyz.019"));
    assert!(is_valid_origin(""));
    assert!(!is_valid_origin("example.com/x"));
    assert!(!is_valid_origin("a b"));
    assert!(!is_valid_origin("a-b"));
    assert!(!is_valid_origin("é"));
}

#[test]
fn invalid_origin_gets_error_response() {
    let backend = SelectedBackend::Software(SoftwareBackend);
    let bad = SignMsg { origin: "evil/../x".to_string(), data: vec![1], include_key: false };
    match dispatch(&bad, &backend) {
        Err(Resp::Error(m)) => assert_eq!(m, "sign origin must be ascii alphanumeric"),
        _ => panic!("expected an error response"),
    }
    let good = SignMsg { origin: "example.com".to_string(), data: vec![1], include_key: false };
    assert!(matches!(dispatch(&good, &backend), Ok(BackendKind::Software)));
}

#[test]
fn backend_priority_order() {
    assert_eq!(select_backend(true, true, true).unwrap().kind(), BackendKind::Tpm);
    assert_eq!(select_backend(false, true, true).unwrap().kind(), BackendKind::Pkcs11);
    assert_eq!(select_backend(false, false, true).unwrap().kind(), BackendKind::Software);
    assert!(select_backend(false, false, false).is_none());
}

#[test]
fn slot_choice() {
    let labelled = vec![b"other".to_vec(), b"tpm-ws".to_vec(), b"tpm-ws".to_vec()];
    assert_eq!(choose_slot(&labelled), SlotChoice::Labeled(1));
    assert_eq!(choose_slot(&vec![b"x".to_vec(), b"y".to_vec()]), SlotChoice::Bootstrap(0));
    assert_eq!(choose_slot(&vec![]), SlotChoice::NoSlot);
}

#[test]
fn object_ids_and_driver_path() {
    let (p, s) = key_object_ids("example.com");
    assert_eq!(p, b"auth-example.com-pub".to_vec());
    assert_eq!(s, b"auth-example.com-priv".to_vec());
    assert_eq!(get_pkcs11_impl().unwrap(), "/run/current-system/sw/lib/libtpm2_pkcs11.so");
}

#[test]
fn token_object_counts() {
    assert_eq!(plan_key(0), Ok(KeyPlan::Generate));
    assert_eq!(plan_key(1), Ok(KeyPlan::Reuse));
    assert_eq!(plan_key(2), Err(TokenFault::DuplicatePrivateKey));
    assert_eq!(check_public_key(1), Ok(()));
    assert_eq!(check_public_key(0), Err(TokenFault::MissingPublicKey));
    assert_eq!(check_public_key(2), Err(TokenFault::MissingPublicKey));
}

#[test]
fn token_signature_and_point_decoding() {
    let signed: Vec<u8> = (0u8..64).collect();
    let mut point = vec![0x04u8, 0x41, 0x04];
    point.extend((100u8..164).collect::<Vec<u8>>());
    let resp = token_response(&signed, &Some(point), true).unwrap();
    assert_eq!(resp.sig_r, (0u8..32).collect::<Vec<u8>>());
    assert_eq!(resp.sig_s, (32u8..64).collect::<Vec<u8>>());
    let ec = resp.ec_point.unwrap();
    assert_eq!(ec.x, (100u8..132).collect::<Vec<u8>>());
    assert_eq!(ec.y, (132u8..164).collect::<Vec<u8>>());
    assert!(token_response(&signed, &None, false).unwrap().ec_point.is_none());
    assert_eq!(token_response(&vec![0u8; 63], &None, false).err(), Some(TokenFault::BadSignature));
    assert_eq!(token_response(&signed, &Some(vec![0u8; 65]), true).err(), Some(TokenFault::BadPoint));
    assert_eq!(token_response(&signed, &None, true).err(), Some(TokenFault::BadPoint));
}

#[test]
fn secret_provisioning() {
    let fresh = vec![1u8; 32];
    assert_eq!(provide_secret(&vec![], &fresh), Ok((fresh.clone(), true)));
    let stored = vec![vec![2u8; 32]];
    assert_eq!(provide_secret(&stored, &fresh), Ok((vec![2u8; 32], false)));
    assert_eq!(provide_secret(&vec![vec![2u8; 32], vec![3u8; 32]], &fresh), Err(SecretFault::Duplicate));
    assert_eq!(provide_secret(&vec![vec![2u8; 31]], &fresh), Err(SecretFault::WrongLength));
}

#[test]
fn secret_provisioning_twice_gives_same_value() {
    let (first, create) = provide_secret(&vec![], &vec![8u8; 32]).unwrap();
    assert!(create);
    let store = vec![first.clone()];
    let (second, create_again) = provide_secret(&store, &vec![9u8; 32]).unwrap();
    assert!(!create_again);
    assert_eq!(first, second);
}

#[test]
fn tpm_values_are_left_padded() {
    assert_eq!(pad_to_32(&vec![1, 2]).unwrap(), {
        let mut v = vec![0u8; 30];
        v.extend([1, 2]);
        v
    });
    assert_eq!(pad_to_32(&vec![5u8; 32]).unwrap(), vec![5u8; 32]);
    assert!(pad_to_32(&vec![5u8; 33]).is_none());
    let resp = tpm_response(&vec![1u8; 31], &vec![2u8; 32], &Some((vec![3u8; 32], vec![4u8])), true).unwrap();
    assert_eq!(resp.sig_r[0], 0);
    assert_eq!(resp.sig_r.len(), 32);
    let ec = resp.ec_point.unwrap();
    assert_eq!(ec.y[31], 4);
    assert_eq!(ec.y[0], 0);
    assert!(tpm_response(&vec![1u8; 32], &vec![2u8; 32], &None, true).is_none());
    assert!(tpm_response(&vec![1u8; 32], &vec![2u8; 32], &None, false).unwrap().ec_point.is_none());
}

#[test]
fn tpm_record_is_loaded_when_present() {
    assert!(matches!(plan_tpm_key(&None), TpmKeyPlan::Generate));
    let rec = NewTpmKeyPair { origin: "o".to_string(), sealed_private_key: vec![1, 2], public_key: vec![3] };
    match plan_tpm_key(&Some(rec)) {
        TpmKeyPlan::Load(private, public) => {
            assert_eq!(private, vec![1, 2]);
            assert_eq!(public, vec![3]);
        }
        TpmKeyPlan::Generate => panic!("stored pair must be reused"),
    }
}

#[test]
fn at_most_one_record_per_key() {
    assert_eq!(at_most_one(Vec::<u8>::new()), Ok(None));
    assert_eq!(at_most_one(vec![7u8]), Ok(Some(7u8)));
    assert_eq!(at_most_one(vec![7u8, 8u8]), Err(DuplicateRecord));
}
