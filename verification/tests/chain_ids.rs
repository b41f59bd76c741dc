use workspace_engine::chain::into_chain_id;
use workspace_engine::AURORA_LOCAL_CHAIN_ID;

#[test]
fn chain_id_is_32_bytes_big_endian() {
    for value in [0u64, 1, 258, 1313161556, u64::MAX] {
        let bytes = into_chain_id(value);
        assert_eq!(bytes.len(), 32);
        assert_eq!(&bytes[..24], &[0u8; 24]);
        assert_eq!(&bytes[24..], value.to_be_bytes().as_slice());
    }
}

#[test]
fn chain_id_of_small_value() {
    let bytes = into_chain_id(258);
    let mut expected = vec![0u8; 32];
    expected[30] = 1;
    expected[31] = 2;
    assert_eq!(bytes, expected);
}

#[test]
fn local_chain_id_constant() {
    assert_eq!(AURORA_LOCAL_CHAIN_ID, 1313161556);
    let bytes = into_chain_id(AURORA_LOCAL_CHAIN_ID);
    assert_eq!(&bytes[24..], 1313161556u64.to_be_bytes().as_slice());
}
