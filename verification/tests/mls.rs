use conclave::error::Error;
use conclave::mls::{
    decode_group_id, encode_group_id, identity_file, local_state_files, signing_key_file,
    state_db_file, MlsManager,
};

fn mls_message(r: Result<Vec<u8>, Error>) -> String {
    match r {
        Err(Error::Mls(m)) => m,
        other => panic!("expected an MLS error, got {other:?}"),
    }
}

#[test]
fn group_ids_decode_from_hex() {
    assert_eq!(decode_group_id("0aFf").unwrap(), vec![0x0a, 0xff]);
    assert_eq!(decode_group_id("").unwrap(), Vec::<u8>::new());
    assert_eq!(mls_message(decode_group_id("abc")), "invalid group ID: Odd number of digits");
    assert_eq!(
        mls_message(decode_group_id("0g12")),
        "invalid group ID: Invalid character 'g' at position 1"
    );
}

#[test]
fn group_ids_encode_to_lowercase_hex_and_back() {
    let id = vec![0x00, 0x0a, 0xab, 0xff, 0x10];
    let text = encode_group_id(&id);
    assert_eq!(text, "000aabff10");
    assert_eq!(decode_group_id(&text).unwrap(), id);
}

#[test]
fn identity_parts_and_files() {
    let m = MlsManager::from_parts(vec![1, 2], vec![3], "/tmp/conclave".to_string());
    assert_eq!(m.identity_bytes(), &[1, 2]);
    assert_eq!(m.signing_key_bytes(), &[3]);
    assert_eq!(m.data_dir(), "/tmp/conclave");
    assert_eq!(identity_file(), "mls_identity.bin");
    assert_eq!(signing_key_file(), "mls_signing_key.bin");
    assert_eq!(state_db_file(), "mls_state.db");
    assert_eq!(
        local_state_files(),
        vec!["mls_identity.bin", "mls_signing_key.bin", "mls_state.db", "mls_state.db-wal", "mls_state.db-shm"]
    );
}
