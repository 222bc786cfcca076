use oca_repository::routes::namespaces::{
    add_namespace_request, decide_namespace, registration_from_seed, namespace_key, token_public_key, token_seed,
    NamespaceDecision, NamespaceField, NamespaceStep,
};

#[test]
fn namespace_keys() {
    assert_eq!(namespace_key("acme"), "namespace.acme.public_key");
    assert_eq!(namespace_key(""), "namespace..public_key");
}

#[test]
fn registration_requests() {
    match add_namespace_request(&NamespaceField::Missing) {
        NamespaceStep::Reply(reply) => {
            assert!(!reply.success);
            assert_eq!(reply.errors, vec!["Namespace is required".to_string()]);
            assert_eq!(reply.token, None);
        }
        _ => panic!("a missing namespace is refused"),
    }
    match add_namespace_request(&NamespaceField::Other) {
        NamespaceStep::Reply(reply) => {
            assert!(reply.success);
            assert!(reply.errors.is_empty());
            assert_eq!(reply.token, None);
        }
        _ => panic!("a namespace that is no string is answered at once"),
    }
    match add_namespace_request(&NamespaceField::Text("acme".to_string())) {
        NamespaceStep::Lookup { namespace, key } => {
            assert_eq!(namespace, "acme");
            assert_eq!(key, "namespace.acme.public_key");
        }
        _ => panic!("a namespace goes to the store"),
    }
}

#[test]
fn taken_namespace_is_refused() {
    match decide_namespace("acme", true) {
        NamespaceDecision::Refuse(reply) => {
            assert!(!reply.success);
            assert_eq!(reply.errors, vec!["Namespace acme already exists".to_string()]);
        }
        _ => panic!("a taken namespace is refused"),
    }
}

#[test]
fn issued_token_opens_the_kept_key() {
    match decide_namespace("acme", false) {
        NamespaceDecision::Register(registration) => {
            assert_eq!(registration.key, "namespace.acme.public_key");
            assert_eq!(registration.public_key.len(), 32);
            assert_eq!(registration.token.len(), 43);
            assert!(!registration.token.contains('='));
            assert!(registration
                .token
                .chars()
                .all(|c| c.is_ascii_alphanumeric() || c == '-' || c == '_'));
            assert_eq!(token_seed(&registration.token).map(|s| s.len()), Some(32));
            assert_eq!(token_public_key(&registration.token), Some(registration.public_key.clone()));
            let reply = registration.reply();
            assert!(reply.success);
            assert_eq!(reply.token, Some(registration.token.clone()));
        }
        _ => panic!("a free namespace is registered"),
    }
}

#[test]
fn known_seed_gives_known_key() {
    // RFC 8032, test 1: secret key 9d61...7f60 has public key d75a...511a.
    let token = "nWGxne_9WmC6hEr0kuwsxERJxWl7MmkZcDusAxyuf2A";
    let public_key = token_public_key(token).unwrap();
    let expected: Vec<u8> = vec![
        0xd7, 0x5a, 0x98, 0x01, 0x82, 0xb1, 0x0a, 0xb7, 0xd5, 0x4b, 0xfe, 0xd3, 0xc9, 0x64, 0x07,
        0x3a, 0x0e, 0xe1, 0x72, 0xf3, 0xda, 0xa6, 0x23, 0x25, 0xaf, 0x02, 0x1a, 0x68, 0xf7, 0x07,
        0x51, 0x1a,
    ];
    assert_eq!(public_key, expected);
}

#[test]
fn bad_tokens_open_nothing() {
    assert_eq!(token_public_key("not base64!"), None);
    assert_eq!(token_public_key("AAAA"), None);
    assert_eq!(token_seed("AAAA"), Some(vec![0, 0, 0]));
    assert_eq!(token_seed("AAAA="), None);
}

#[test]
fn registration_from_a_known_seed() {
    let seed: Vec<u8> = vec![
        0x9d, 0x61, 0xb1, 0x9d, 0xef, 0xfd, 0x5a, 0x60, 0xba, 0x84, 0x4a, 0xf4, 0x92, 0xec, 0x2c,
        0xc4, 0x44, 0x49, 0xc5, 0x69, 0x7b, 0x32, 0x69, 0x19, 0x70, 0x3b, 0xac, 0x03, 0x1c, 0xae,
        0x7f, 0x60,
    ];
    match registration_from_seed("acme", Some(seed)) {
        NamespaceDecision::Register(registration) => {
            assert_eq!(registration.key, "namespace.acme.public_key");
            assert_eq!(registration.token, "nWGxne_9WmC6hEr0kuwsxERJxWl7MmkZcDusAxyuf2A");
            assert_eq!(registration.public_key[0], 0xd7);
            assert_eq!(registration.public_key[31], 0x1a);
        }
        _ => panic!("a seed gives a registration"),
    }
    assert!(matches!(registration_from_seed("acme", None), NamespaceDecision::NoRandomness));
}
