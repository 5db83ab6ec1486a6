use rpc_interceptor::ascii::ascii_lowercase;

#[test]
fn lowercase_matches_std() {
    for t in ["", "0xABCdef", "ÄÖü", "MiXeD 123", "Ünïcode AND ascii"] {
        assert_eq!(ascii_lowercase(t), t.to_ascii_lowercase());
    }
}
