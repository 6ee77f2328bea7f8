use webhook_bridge::identity::webhook_localpart;

#[test]
fn localpart_of_known_id() {
    assert_eq!(
        webhook_localpart("_webhook", "abc"),
        "_webhook__ba7816bf8f01cfea414140de5dae2223"
    );
    assert_eq!(
        webhook_localpart("", ""),
        "__e3b0c44298fc1c149afbf4c8996fb924"
    );
}

#[test]
fn localpart_is_deterministic() {
    let a = webhook_localpart("_webhook", "0123456789abcdef0123456789abcdef");
    let b = webhook_localpart("_webhook", "0123456789abcdef0123456789abcdef");
    assert_eq!(a, b);
    assert_eq!(a.len(), "_webhook".len() + 2 + 32);
}

#[test]
fn localparts_of_different_ids_differ() {
    let mut seen = std::collections::HashSet::new();
    for i in 0..200 {
        let id = format!("webhook-id-{}", i);
        assert!(seen.insert(webhook_localpart("_webhook", &id)));
    }
}
