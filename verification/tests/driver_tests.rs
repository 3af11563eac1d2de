use liquid_staking_token::driver::{
    deactivate_request, delegate_request, initialize_request, merge_request, split_request,
    withdraw_request,
};

#[test]
fn test_plain_request_encodings() {
    assert_eq!(delegate_request(), vec![2, 0, 0, 0]);
    assert_eq!(deactivate_request(), vec![5, 0, 0, 0]);
    assert_eq!(merge_request(), vec![7, 0, 0, 0]);
}

#[test]
fn test_amount_request_encodings() {
    let mut expected = vec![3u8, 0, 0, 0];
    expected.extend_from_slice(&0x0102_0304_0506_0708u64.to_le_bytes());
    assert_eq!(split_request(0x0102_0304_0506_0708), expected);
    let mut expected = vec![4u8, 0, 0, 0];
    expected.extend_from_slice(&77u64.to_le_bytes());
    assert_eq!(withdraw_request(77), expected);
}

#[test]
fn test_initialize_request_encoding() {
    let staker = [0xaa; 32];
    let withdrawer = [0xbb; 32];
    let r = initialize_request(&staker, &withdrawer);
    assert_eq!(r.len(), 116);
    assert_eq!(&r[0..4], &[0, 0, 0, 0]);
    assert_eq!(&r[4..36], &[0xaa; 32]);
    assert_eq!(&r[36..68], &[0xbb; 32]);
    // No lockup: timestamp, epoch and custodian are all zero.
    assert_eq!(&r[68..116], &[0u8; 48][..]);
}
