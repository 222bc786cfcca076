use base64::Engine;
use sha2::Digest;
use oca_repository::cache::{lookup_answer, OCAFilesCache};
use oca_repository::hashing::compute_hash;
use oca_repository::routes::oca_bundles::{
    begin_add_oca_file, finish_add_oca_file, AddOcaFileReply, AddOcaFileStep,
};

const SAID_A: &str = "EAAAAAAAAAAAAAAAAAAAAAAAAAAAAAAAAAAAAAAAAAAA";
const SAID_B: &str = "EBBBBBBBBBBBBBBBBBBBBBBBBBBBBBBBBBBBBBBBBBBB";
const SAID_README: &str = "EF5ERATRBBN_ewEo9buQbznirhBmvrSSC0O2GIR4Gbfs";

fn fresh_path(name: &str) -> String {
    let nanos = std::time::SystemTime::now()
        .duration_since(std::time::UNIX_EPOCH)
        .unwrap()
        .as_nanos();
    format!("/tmp/oca_repository_tests/{}-{}", name, nanos)
}

#[test]
fn compute_hash_is_base64_of_sha256() {
    assert_eq!(compute_hash(""), "47DEQpj8HBSa+/TImW+5JCeuQeRkm5NMpJWZG3hSuFU=");
    assert_eq!(compute_hash("abc"), "ungWv48Bz+pBQUDeXa4iI7ADYaOWF3qctBD/YfIAFa0=");
    assert_eq!(compute_hash("ADD ATTRIBUTE name=Text").len(), 44);
    assert_eq!(compute_hash("x"), compute_hash("x"));
    assert_ne!(compute_hash("x"), compute_hash("y"));
}

#[test]
fn cache_returns_what_was_inserted() {
    let mut cache = OCAFilesCache::new(&fresh_path("insert")).unwrap();
    assert_eq!(cache.get("ADD ATTRIBUTE a=Text").ok(), Some(None));
    cache.insert("ADD ATTRIBUTE a=Text", SAID_A).unwrap();
    assert_eq!(cache.get("ADD ATTRIBUTE a=Text").ok(), Some(Some(SAID_A.to_string())));
    assert_eq!(cache.get("ADD ATTRIBUTE b=Text").ok(), Some(None));
    cache.insert("ADD ATTRIBUTE a=Text", SAID_B).unwrap();
    assert_eq!(cache.get("ADD ATTRIBUTE a=Text").ok(), Some(Some(SAID_B.to_string())));
}

#[test]
fn cache_outlives_its_handle() {
    let path = fresh_path("reopen");
    {
        let mut cache = OCAFilesCache::new(&path).unwrap();
        cache.insert("ocafile", SAID_README).unwrap();
    }
    let cache = OCAFilesCache::new(&path).unwrap();
    assert_eq!(cache.get("ocafile").ok(), Some(Some(SAID_README.to_string())));
}

#[test]
fn invalid_utf8_is_unprocessable() {
    let cache = OCAFilesCache::new(&fresh_path("utf8")).unwrap();
    match begin_add_oca_file(&cache, &[0x41, 0xff, 0x42]) {
        AddOcaFileStep::Reply(reply) => {
            assert_eq!(reply.status(), 422);
            match reply {
                AddOcaFileReply::Unprocessable { errors } => {
                    assert_eq!(errors, vec!["invalid utf-8 sequence of 1 bytes from index 1".to_string()])
                }
                _ => panic!("expected an unprocessable reply"),
            }
        }
        _ => panic!("expected a reply"),
    }
}

#[test]
fn empty_ocafile_is_unprocessable() {
    let cache = OCAFilesCache::new(&fresh_path("empty")).unwrap();
    match begin_add_oca_file(&cache, b"") {
        AddOcaFileStep::Reply(AddOcaFileReply::Unprocessable { errors }) => {
            assert_eq!(errors, vec!["OCA File can't be empty".to_string()])
        }
        _ => panic!("expected an unprocessable reply"),
    }
}

#[test]
fn built_file_is_answered_from_cache() {
    let mut cache = OCAFilesCache::new(&fresh_path("flow")).unwrap();
    let body = "ADD ATTRIBUTE d=Text".as_bytes();
    let ocafile = match begin_add_oca_file(&cache, body) {
        AddOcaFileStep::Build { ocafile } => ocafile,
        _ => panic!("a new file must be built"),
    };
    assert_eq!(ocafile, "ADD ATTRIBUTE d=Text");
    let reply = finish_add_oca_file(&mut cache, &ocafile, Ok(SAID_README.to_string()));
    assert_eq!(reply.status(), 200);
    assert!(matches!(reply, AddOcaFileReply::Accepted { ref said } if said == SAID_README));
    match begin_add_oca_file(&cache, body) {
        AddOcaFileStep::Reply(AddOcaFileReply::Accepted { said }) => assert_eq!(said, SAID_README),
        _ => panic!("a built file must come from the cache"),
    }
}

#[test]
fn builder_errors_are_rejected_and_not_cached() {
    let mut cache = OCAFilesCache::new(&fresh_path("rejected")).unwrap();
    let reply = finish_add_oca_file(
        &mut cache,
        "broken",
        Err(vec!["Parsing error".to_string(), "second".to_string()]),
    );
    assert_eq!(reply.status(), 200);
    match reply {
        AddOcaFileReply::Rejected { errors } => {
            assert_eq!(errors, vec!["Parsing error".to_string(), "second".to_string()])
        }
        _ => panic!("expected a rejection"),
    }
    assert!(matches!(begin_add_oca_file(&cache, b"broken"), AddOcaFileStep::Build { .. }));
}

#[test]
fn reply_statuses() {
    assert_eq!(AddOcaFileReply::Unprocessable { errors: vec![] }.status(), 422);
    assert_eq!(AddOcaFileReply::Accepted { said: String::new() }.status(), 200);
    assert_eq!(AddOcaFileReply::Rejected { errors: vec![] }.status(), 200);
    assert_eq!(AddOcaFileReply::StorageFailure { message: String::new() }.status(), 500);
}

#[test]
fn compute_hash_decodes_to_the_digest() {
    for text in ["", "abc", "ADD ATTRIBUTE name=Text", "zażółć"] {
        let hash = compute_hash(text);
        assert!(hash.ends_with('='));
        assert!(hash.chars().all(|c| c.is_ascii_alphanumeric() || c == '+' || c == '/' || c == '='));
        let decoded = base64::prelude::BASE64_STANDARD.decode(&hash).unwrap();
        assert_eq!(decoded, sha2::Sha256::digest(text.as_bytes()).to_vec());
    }
}

#[test]
fn stored_value_that_is_no_said_is_an_error() {
    let mut cache = OCAFilesCache::new(&fresh_path("invalid")).unwrap();
    cache.insert("ocafile", "not a said").unwrap();
    let message = cache.get("ocafile").err().unwrap().message;
    assert!(message.starts_with("JSON error: "));
    cache.insert("other", "0").unwrap();
    assert_eq!(cache.get("other").err().unwrap().message, "JSON error: Unknown code");
}

#[test]
fn lookup_answers_for_each_bucket_reply() {
    assert_eq!(
        lookup_answer(Ok(Some(SAID_A.to_string()))).ok(),
        Some(Some(SAID_A.to_string()))
    );
    assert_eq!(lookup_answer(Ok(None)).ok(), Some(None));
    assert_eq!(
        lookup_answer(Ok(Some("0".to_string()))).err().unwrap().message,
        "JSON error: Unknown code"
    );
    let failed = lookup_answer(Err(kv::Error::Message("disk gone".to_string())));
    assert_eq!(failed.err().unwrap().message, "Message: disk gone");
}
