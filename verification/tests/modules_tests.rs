use sharers::modules::random::name_from_draws;
use sharers::modules::mime::get_mime;
use sharers::modules::password::{hash, verify, PasswordError};
use sharers::modules::random::{
    candidate_name, generate_random_string, lookup_query, name_gen, DBType, NameAction, NameLookup,
    MAX_NAME_ATTEMPTS,
};
use sharers::modules::template::{default_context, git_dirty_version, BuildInfo};
use sharers::modules::password::{hashing_answer, verdict_answer};
use sharers::modules::mime::{mime_or_octet_stream, MimeType};
use sharers::modules::template::context_with_time;

const PNG: [u8; 12] = [0x89, 0x50, 0x4E, 0x47, 0x0D, 0x0A, 0x1A, 0x0A, 0, 0, 0, 0x0D];

#[test]
fn mime_of_png_header() {
    let m = get_mime(&PNG);
    assert_eq!(m.mime_type, "image/png");
    assert_eq!(m.extension, "png");
}

#[test]
fn mime_of_unknown_content_is_octet_stream() {
    let m = get_mime(&[0u8; 12]);
    assert_eq!(m.mime_type, "application/octet-stream");
    assert_eq!(m.extension, "bin");
    let m = get_mime(&[]);
    assert_eq!(m.mime_type, "application/octet-stream");
}

#[test]
fn password_verifies_against_its_own_hash() {
    let h = hash("hunter2".to_string()).ok().unwrap();
    assert!(h.starts_with("$argon2"));
    assert_eq!(verify("hunter2".to_string(), h.clone()).ok(), Some(true));
    assert_eq!(verify("hunter3".to_string(), h).ok(), Some(false));
}

#[test]
fn two_hashes_of_one_password_differ_by_salt() {
    let a = hash("pw".to_string()).ok().unwrap();
    let b = hash("pw".to_string()).ok().unwrap();
    assert_ne!(a, b);
}

#[test]
fn malformed_hash_is_invalid_hash() {
    match verify("pw".to_string(), "not a phc string".to_string()) {
        Err(PasswordError::InvalidHash(_)) => {}
        _ => panic!("expected InvalidHash"),
    }
}

fn is_name_char(c: char) -> bool {
    c.is_ascii_alphanumeric()
}

#[test]
fn random_strings_have_the_length_and_alphabet() {
    for n in [0usize, 1, 10, 64] {
        let s = generate_random_string(n);
        assert_eq!(s.chars().count(), n);
        assert!(s.chars().all(is_name_char));
    }
}

#[test]
fn candidates_carry_the_extension() {
    let c = candidate_name(10, &Some("png".to_string()));
    assert_eq!(c.len(), 14);
    assert!(c.ends_with(".png"));
    assert!(c[..10].chars().all(is_name_char));
    let c = candidate_name(10, &None);
    assert_eq!(c.len(), 10);
}

#[test]
fn lookup_queries_name_the_table() {
    assert_eq!(lookup_query(&DBType::File), "SELECT * FROM files f WHERE f.name = $1");
    assert_eq!(lookup_query(&DBType::Url), "SELECT * FROM url u WHERE u.name = $1");
}

#[test]
fn name_search_takes_the_first_free_name() {
    let (mut gen, action) = name_gen(10, DBType::File, Some("txt".to_string()));
    let first = match action {
        NameAction::Check { name, query } => {
            assert_eq!(query, "SELECT * FROM files f WHERE f.name = $1");
            name
        }
        NameAction::Done(_) => panic!("expected a lookup"),
    };
    assert!(first.ends_with(".txt"));
    let second = match gen.step(NameLookup::Taken) {
        NameAction::Check { name, .. } => name,
        NameAction::Done(_) => panic!("expected a second lookup"),
    };
    match gen.step(NameLookup::Free) {
        NameAction::Done(Ok(n)) => assert_eq!(n, second),
        _ => panic!("expected the free name"),
    }
    assert!(!gen.is_waiting());
}

#[test]
fn name_search_gives_up_after_the_limit() {
    let (mut gen, mut action) = name_gen(10, DBType::Url, None);
    let mut lookups = 0;
    loop {
        match action {
            NameAction::Check { .. } => {
                lookups += 1;
                action = gen.step(NameLookup::Taken);
            }
            NameAction::Done(r) => {
                assert_eq!(r.err().unwrap(), "Can't generate new unique name!");
                break;
            }
        }
    }
    assert_eq!(lookups, MAX_NAME_ATTEMPTS);
    assert_eq!(lookups, 10);
}

#[test]
fn name_search_stops_on_a_failed_lookup() {
    let (mut gen, _) = name_gen(5, DBType::File, None);
    match gen.step(NameLookup::Failed("connection reset".to_string())) {
        NameAction::Done(Err(e)) => assert_eq!(e, "connection reset"),
        _ => panic!("expected the failure"),
    }
}

#[test]
fn dirty_version_marks_uncommitted_changes() {
    assert_eq!(git_dirty_version(&Some("v1.2".to_string()), Some(true)), "v1.2+");
    assert_eq!(git_dirty_version(&Some("v1.2".to_string()), Some(false)), "v1.2");
    assert_eq!(git_dirty_version(&None, None), "unknown");
    assert_eq!(git_dirty_version(&None, Some(true)), "unknown+");
}

#[test]
fn build_context_entries() {
    let info = BuildInfo {
        pkg_version: "0.1.0".to_string(),
        built_time_utc: "Tue, 1 Jul 2003 10:52:37 +0200".to_string(),
        git_version: None,
        git_dirty: None,
        git_commit_hash_short: Some("abc1234".to_string()),
        profile: "release".to_string(),
    };
    let e = default_context(&info).unwrap();
    let pairs: Vec<(&str, &str)> = e.iter().map(|(k, v)| (k.as_str(), v.as_str())).collect();
    assert_eq!(
        pairs,
        vec![
            ("build_version", "0.1.0"),
            ("build_time", "2003-07-01T08:52:37+00:00"),
            ("build_git_ver", "unknown"),
            ("build_git_version", "Unknown"),
            ("build_git_commit_short", "abc1234"),
            ("build_profile", "release"),
        ]
    );
    let bad = BuildInfo { built_time_utc: "yesterday".to_string(), ..info };
    assert!(default_context(&bad).is_none());
}

#[test]
fn outcomes_map_onto_password_errors() {
    assert_eq!(hashing_answer(Ok("$argon2id$x".to_string())).ok(), Some("$argon2id$x".to_string()));
    match hashing_answer(Err("too long".to_string())) {
        Err(PasswordError::EncodeError(m)) => assert_eq!(m, "too long"),
        _ => panic!(),
    }
    assert_eq!(verdict_answer(Ok(false)).ok(), Some(false));
    match verdict_answer(Err("bad params".to_string())) {
        Err(PasswordError::VerifyError(m)) => assert_eq!(m, "bad params"),
        _ => panic!(),
    }
}

#[test]
fn unrecognised_content_defaults() {
    let m = mime_or_octet_stream(None);
    assert_eq!((m.mime_type.as_str(), m.extension.as_str()), ("application/octet-stream", "bin"));
    let m = mime_or_octet_stream(Some(MimeType { mime_type: "image/gif".to_string(), extension: "gif".to_string() }));
    assert_eq!(m.extension, "gif");
}

#[test]
fn context_with_given_time() {
    let info = BuildInfo {
        pkg_version: "1".to_string(),
        built_time_utc: String::new(),
        git_version: Some("v2".to_string()),
        git_dirty: Some(true),
        git_commit_hash_short: None,
        profile: "debug".to_string(),
    };
    assert!(context_with_time(&info, None).is_none());
    let e = context_with_time(&info, Some("2024-01-01T00:00:00+00:00".to_string())).unwrap();
    assert_eq!(e[1].1, "2024-01-01T00:00:00+00:00");
    assert_eq!(e[2].1, "v2+");
    assert_eq!(e[3].1, "v2");
    assert_eq!(e[4].1, "Unknown");
}

#[test]
fn hash_is_argon2id_v19_and_any_password_gets_a_verdict() {
    let h = hash(String::new()).ok().unwrap();
    assert!(h.starts_with("$argon2id$v=19$"));
    assert_eq!(verify(String::new(), h.clone()).ok(), Some(true));
    assert_eq!(verify("something else".to_string(), h).ok(), Some(false));
}

#[test]
fn draws_spell_the_alphabet() {
    assert_eq!(name_from_draws(&vec![0, 25, 26, 51, 52, 61]), "azAZ09");
    assert_eq!(name_from_draws(&vec![]), "");
    assert_eq!(name_from_draws(&vec![7, 4, 11, 11, 14]), "hello");
}
