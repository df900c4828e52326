use collection_check::grader::Contract as Grader;
use collection_check::grader::Expected;

const FIVE_TGAS: u64 = 5_000_000_000_000;

#[test]
fn lookup_batch_shape() {
    let grader = Grader::default();
    let batch = grader.evaluate_check_collection_test_lookup(
        "candidate.testnet".to_string(),
        vec![65, 66],
        vec![67, 68],
    );
    assert_eq!(batch.receiver, "candidate.testnet".to_string());
    assert_eq!(batch.calls.len(), 2);
    assert_eq!(batch.calls[0].method_name, "add_to_map".to_string());
    assert_eq!(batch.calls[0].args, br#"{"key":"AB","value":"CD"}"#.to_vec());
    assert_eq!(batch.calls[1].method_name, "get_from_map".to_string());
    assert_eq!(batch.calls[1].args, br#"{"key":"AB"}"#.to_vec());
    for call in &batch.calls {
        assert_eq!(call.deposit, 0);
        assert_eq!(call.gas, FIVE_TGAS);
    }
    assert_eq!(batch.callback.contract_name, "candidate.testnet".to_string());
    assert_eq!(batch.callback.gas, FIVE_TGAS);
    match &batch.callback.expected {
        Expected::Text(v) => assert_eq!(v, "CD"),
        _ => panic!("lookup batch must expect text"),
    }
}

#[test]
fn lookup_batch_escapes_special_bytes() {
    let grader = Grader::default();
    let batch = grader.evaluate_check_collection_test_lookup(
        "c.testnet".to_string(),
        vec![34, 92, 10],
        vec![65],
    );
    assert_eq!(
        batch.calls[0].args,
        br#"{"key":"\"\\\u000a","value":"A"}"#.to_vec()
    );
}

#[test]
fn lookup_batch_replaces_invalid_utf8() {
    let grader = Grader::default();
    let batch = grader.evaluate_check_collection_test_lookup(
        "c.testnet".to_string(),
        vec![0xFF],
        vec![66],
    );
    // 0xFF is not valid UTF-8: it decodes to U+FFFD, whose UTF-8 bytes are EF BF BD.
    let mut expected = b"{\"key\":\"".to_vec();
    expected.extend_from_slice(&[0xEF, 0xBF, 0xBD]);
    expected.extend_from_slice(b"\",\"value\":\"B\"}");
    assert_eq!(batch.calls[0].args, expected);
    match &batch.callback.expected {
        Expected::Text(v) => assert_eq!(v, "B"),
        _ => panic!("lookup batch must expect text"),
    }
}

#[test]
fn vector_batch_shape() {
    let grader = Grader::default();
    let batch = grader.evaluate_check_collection_test_vector("v.testnet".to_string(), vec![7, 9]);
    assert_eq!(batch.receiver, "v.testnet".to_string());
    assert_eq!(batch.calls.len(), 2);
    assert_eq!(batch.calls[0].method_name, "add_to_vector".to_string());
    assert_eq!(batch.calls[0].args, br#"{"value":7}"#.to_vec());
    assert_eq!(batch.calls[1].method_name, "vector_pop_test".to_string());
    assert_eq!(batch.calls[1].args, br#""""#.to_vec());
    for call in &batch.calls {
        assert_eq!(call.deposit, 0);
        assert_eq!(call.gas, FIVE_TGAS);
    }
    match &batch.callback.expected {
        Expected::Byte(v) => assert_eq!(*v, 7),
        _ => panic!("vector batch must expect one byte"),
    }
}

#[test]
fn vector_batch_decimal_digits() {
    let grader = Grader::default();
    let batch = grader.evaluate_check_collection_test_vector("v.testnet".to_string(), vec![255]);
    assert_eq!(batch.calls[0].args, br#"{"value":255}"#.to_vec());
    let batch = grader.evaluate_check_collection_test_vector("v.testnet".to_string(), vec![40]);
    assert_eq!(batch.calls[0].args, br#"{"value":40}"#.to_vec());
    let batch = grader.evaluate_check_collection_test_vector("v.testnet".to_string(), vec![0]);
    assert_eq!(batch.calls[0].args, br#"{"value":0}"#.to_vec());
}

#[test]
fn multi_vector_batch_shape() {
    let grader = Grader::default();
    let batch = grader.evaluate_check_collection_test_multi_vector(
        "m.testnet".to_string(),
        vec![1, 22, 255],
    );
    assert_eq!(batch.receiver, "m.testnet".to_string());
    assert_eq!(batch.calls.len(), 2);
    assert_eq!(batch.calls[0].method_name, "vector_multi_add".to_string());
    assert_eq!(batch.calls[0].args, br#"{"value":[1,22,255]}"#.to_vec());
    assert_eq!(batch.calls[1].method_name, "get_full_array_test".to_string());
    assert_eq!(batch.calls[1].args, br#""""#.to_vec());
    match &batch.callback.expected {
        Expected::Bytes(v) => assert_eq!(v, &vec![1, 22, 255]),
        _ => panic!("bulk batch must expect a byte array"),
    }
}

#[test]
fn multi_vector_batch_empty_array() {
    let grader = Grader::default();
    let batch =
        grader.evaluate_check_collection_test_multi_vector("m.testnet".to_string(), vec![]);
    assert_eq!(batch.calls[0].args, br#"{"value":[]}"#.to_vec());
    match &batch.callback.expected {
        Expected::Bytes(v) => assert!(v.is_empty()),
        _ => panic!("bulk batch must expect a byte array"),
    }
}
