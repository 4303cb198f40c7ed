//! Whole decrypt calls driven against a simulated file system, with real age
//! identities and ciphertext.

use std::collections::HashMap;

use age::secrecy::ExposeSecret;

use nix_rage::cache::{select_cache, CacheSel, FsOp, TempCache};
use nix_rage::errors::SecretError;
use nix_rage::session::{EntryState, Session, Step};

/// A simulated file system: entry contents by path, plus a record of every
/// directory creation and file write the store plans asked for.
struct SimFs {
    files: HashMap<String, String>,
    dirs_made: Vec<(String, u32)>,
    writes: Vec<(String, u32)>,
}

impl SimFs {
    fn new() -> SimFs {
        SimFs { files: HashMap::new(), dirs_made: Vec::new(), writes: Vec::new() }
    }

    fn perform(&mut self, ops: Vec<FsOp>) -> Result<(), String> {
        for op in ops {
            match op {
                FsOp::MakeDir { path, mode } => {
                    self.dirs_made.push((path, mode));
                }
                FsOp::WriteFile { path, mode, content } => {
                    self.writes.push((path.clone(), mode));
                    self.files.insert(path, content);
                }
            }
        }
        Ok(())
    }
}

/// Drives one decrypt call to completion. `identity_files` holds, in order,
/// the contents of each identity file (`None`: unreadable); `ciphertext` is
/// what reading the ciphertext file yields. Returns the result, how many
/// identity files were skipped, and how many times decryption was attempted.
fn drive(
    identity_files: &[Option<&str>],
    ciphertext: Result<Vec<u8>, String>,
    cache: CacheSel,
    fs: &mut SimFs,
) -> (Result<String, SecretError>, usize, usize) {
    let paths: Vec<String> = (0..identity_files.len()).map(|i| format!("/keys/k{}", i)).collect();
    let (mut session, mut step) = Session::start(paths, "/secrets/db.age".to_string(), cache);
    let mut next_identity = 0;
    let mut decrypt_attempts = 0;
    loop {
        step = match step {
            Step::NeedIdentity { path } => {
                assert_eq!(path, format!("/keys/k{}", next_identity));
                let content = identity_files[next_identity].map(|s| s.to_string());
                next_identity += 1;
                session.give_identity(content)
            }
            Step::NeedProbe { path } => {
                let state = match fs.files.get(&path) {
                    Some(content) => EntryState::Present { content: content.clone() },
                    None => EntryState::Absent,
                };
                session.give_entry_state(state)
            }
            Step::NeedCiphertext { path } => {
                assert_eq!(path, "/secrets/db.age");
                decrypt_attempts += 1;
                session.give_ciphertext(ciphertext.clone())
            }
            Step::NeedStore { ops } => {
                let outcome = fs.perform(ops);
                session.give_store_result(outcome)
            }
            Step::Done { result } => {
                return (result, session.skipped_count(), decrypt_attempts);
            }
        };
    }
}

/// A fresh age identity (as identity-file text) and a ciphertext of `plain`
/// addressed to it.
fn identity_and_ciphertext(plain: &str) -> (String, Vec<u8>) {
    let id = age::x25519::Identity::generate();
    let id_text = id.to_string().expose_secret().to_string();
    let recipient = id.to_public();
    let encryptor =
        age::Encryptor::with_recipients(std::iter::once(&recipient as &dyn age::Recipient))
            .expect("an age encryptor for one recipient");
    let mut ct: Vec<u8> = Vec::new();
    let mut writer = encryptor.wrap_output(&mut ct).expect("an age stream writer");
    std::io::Write::write_all(&mut writer, plain.as_bytes()).expect("write plaintext");
    writer.finish().expect("finish the age stream");
    (id_text, ct)
}

fn test_cache(uid: u32) -> CacheSel {
    CacheSel::Temp(TempCache::with_root("/tmp/test-cache".to_string(), uid))
}

#[test]
fn concrete_scenario_first_call_decrypts_and_caches() {
    let (id, ct) = identity_and_ciphertext("db-password-123");
    let mut fs = SimFs::new();

    let (result, skipped, attempts) =
        drive(&[Some(&id)], Ok(ct.clone()), test_cache(42), &mut fs);
    assert_eq!(result.ok().as_deref(), Some("db-password-123"));
    assert_eq!(skipped, 0);
    assert_eq!(attempts, 1);

    let entry = format!("/tmp/test-cache/42/{}-db.age", sha256::digest("/secrets/db.age"));
    assert_eq!(fs.files.get(&entry).map(String::as_str), Some("db-password-123"));
    assert_eq!(fs.writes, vec![(entry, 0o700)]);
    assert_eq!(
        fs.dirs_made,
        vec![("/tmp/test-cache".to_string(), 0o222), ("/tmp/test-cache/42".to_string(), 0o700)]
    );

    // Simulated eviction: with the cache emptied, the call recomputes the
    // same plaintext.
    let mut empty = SimFs::new();
    let (result, _, attempts) = drive(&[Some(&id)], Ok(ct), test_cache(42), &mut empty);
    assert_eq!(result.ok().as_deref(), Some("db-password-123"));
    assert_eq!(attempts, 1);
}

#[test]
fn idempotent_round_trip_second_call_does_no_decryption() {
    let (id, ct) = identity_and_ciphertext("db-password-123");
    let mut fs = SimFs::new();

    let (first, _, attempts1) = drive(&[Some(&id)], Ok(ct.clone()), test_cache(42), &mut fs);
    assert_eq!(first.ok().as_deref(), Some("db-password-123"));
    assert_eq!(attempts1, 1);

    let (second, _, attempts2) = drive(&[Some(&id)], Ok(ct), test_cache(42), &mut fs);
    assert_eq!(second.ok().as_deref(), Some("db-password-123"));
    assert_eq!(attempts2, 0, "a hit must perform no decryption work");
}

#[test]
fn cache_hit_needs_no_identities() {
    let (id, ct) = identity_and_ciphertext("db-password-123");
    let mut fs = SimFs::new();
    let (first, _, _) = drive(&[Some(&id)], Ok(ct), test_cache(42), &mut fs);
    assert!(first.is_ok());

    // A later call over the same entry hits before decryption is ever set up,
    // so it succeeds with no identities and no ciphertext at all.
    let (second, _, attempts) = drive(
        &[],
        Err("unreadable".to_string()),
        test_cache(42),
        &mut fs,
    );
    assert_eq!(second.ok().as_deref(), Some("db-password-123"));
    assert_eq!(attempts, 0);
}

#[test]
fn cache_isolation_two_users_two_entries() {
    let (id, ct) = identity_and_ciphertext("db-password-123");
    let mut fs = SimFs::new();

    let (r1, _, _) = drive(&[Some(&id)], Ok(ct.clone()), test_cache(1000), &mut fs);
    let (r2, _, _) = drive(&[Some(&id)], Ok(ct), test_cache(1001), &mut fs);
    assert!(r1.is_ok() && r2.is_ok());

    // One entry per user, under that user's own directory, never shared.
    assert_eq!(fs.writes.len(), 2);
    assert_ne!(fs.writes[0].0, fs.writes[1].0);
    assert!(fs.writes[0].0.starts_with("/tmp/test-cache/1000/"));
    assert!(fs.writes[1].0.starts_with("/tmp/test-cache/1001/"));
    // Per-user directories and entries are created owner-only.
    assert_eq!(fs.writes[0].1, 0o700);
    assert_eq!(fs.writes[1].1, 0o700);
    for (dir, mode) in &fs.dirs_made {
        if dir != "/tmp/test-cache" {
            assert_eq!(*mode, 0o700, "per-user directory {} must be owner-only", dir);
        }
    }
}

#[test]
fn null_cache_never_persists() {
    let (id, ct) = identity_and_ciphertext("db-password-123");
    let mut fs = SimFs::new();
    for _ in 0..5 {
        let (result, _, attempts) =
            drive(&[Some(&id)], Ok(ct.clone()), CacheSel::Null, &mut fs);
        assert_eq!(result.ok().as_deref(), Some("db-password-123"));
        assert_eq!(attempts, 1);
    }
    assert!(fs.files.is_empty());
    assert!(fs.dirs_made.is_empty());
    assert!(fs.writes.is_empty());
}

#[test]
fn malformed_identity_tolerated_when_another_matches() {
    let (id, ct) = identity_and_ciphertext("db-password-123");
    let mut fs = SimFs::new();
    let (result, skipped, _) = drive(
        &[Some("not an identity file"), Some(&id)],
        Ok(ct),
        CacheSel::Null,
        &mut fs,
    );
    assert_eq!(result.ok().as_deref(), Some("db-password-123"));
    assert_eq!(skipped, 1);
}

#[test]
fn unreadable_identity_tolerated_when_another_matches() {
    let (id, ct) = identity_and_ciphertext("db-password-123");
    let mut fs = SimFs::new();
    let (result, skipped, _) = drive(&[None, Some(&id)], Ok(ct), CacheSel::Null, &mut fs);
    assert_eq!(result.ok().as_deref(), Some("db-password-123"));
    assert_eq!(skipped, 1);
}

#[test]
fn no_identity_succeeds_fails_and_creates_no_entry() {
    let (_, ct) = identity_and_ciphertext("db-password-123");
    let (other_id, _) = identity_and_ciphertext("something else");
    let mut fs = SimFs::new();
    let (result, _, attempts) = drive(&[Some(&other_id)], Ok(ct), test_cache(42), &mut fs);
    match result {
        Err(SecretError::Decryption(_)) => {}
        _ => panic!("decryption with a non-matching identity must fail"),
    }
    assert_eq!(attempts, 1);
    assert!(fs.files.is_empty(), "a failed call must create no cache entry");
    assert!(fs.writes.is_empty());
}

#[test]
fn empty_identity_list_fails_with_decryption_error() {
    let (_, ct) = identity_and_ciphertext("db-password-123");
    let mut fs = SimFs::new();
    let (result, _, _) = drive(&[], Ok(ct), CacheSel::Null, &mut fs);
    assert!(matches!(result, Err(SecretError::Decryption(_))));
}

#[test]
fn unreadable_ciphertext_fails_with_its_message() {
    let (id, _) = identity_and_ciphertext("db-password-123");
    let mut fs = SimFs::new();
    let (result, _, _) = drive(
        &[Some(&id)],
        Err("No such file or directory".to_string()),
        CacheSel::Null,
        &mut fs,
    );
    match result {
        Err(SecretError::Decryption(m)) => assert_eq!(m, "No such file or directory"),
        _ => panic!("an unreadable ciphertext must fail as a decryption error"),
    }
}

#[test]
fn malformed_ciphertext_fails_with_decryption_error() {
    let (id, _) = identity_and_ciphertext("db-password-123");
    let mut fs = SimFs::new();
    let (result, _, _) = drive(
        &[Some(&id)],
        Ok(b"this is no age file".to_vec()),
        CacheSel::Null,
        &mut fs,
    );
    assert!(matches!(result, Err(SecretError::Decryption(_))));
}

#[test]
fn failed_probe_is_a_cache_io_error_not_a_miss() {
    let (id, _) = identity_and_ciphertext("db-password-123");
    let paths = vec!["/keys/k0".to_string()];
    let (mut session, step) = Session::start(paths, "/secrets/db.age".to_string(), test_cache(42));
    let step = match step {
        Step::NeedIdentity { .. } => session.give_identity(Some(id)),
        other => drain(other),
    };
    let step = match step {
        Step::NeedProbe { .. } => session.give_entry_state(EntryState::Failed {
            message: "Permission denied".to_string(),
        }),
        other => drain(other),
    };
    match step {
        Step::Done { result } => match result {
            Err(SecretError::CacheIo(m)) => assert_eq!(m, "Permission denied"),
            _ => panic!("a failed probe must surface as a cache I/O error"),
        },
        _ => panic!("a failed probe must finish the call"),
    }
}

#[test]
fn failed_store_is_a_cache_io_error() {
    let (id, ct) = identity_and_ciphertext("db-password-123");
    let paths = vec!["/keys/k0".to_string()];
    let (mut session, step) = Session::start(paths, "/secrets/db.age".to_string(), test_cache(42));
    let step = match step {
        Step::NeedIdentity { .. } => session.give_identity(Some(id)),
        other => drain(other),
    };
    let step = match step {
        Step::NeedProbe { .. } => session.give_entry_state(EntryState::Absent),
        other => drain(other),
    };
    let step = match step {
        Step::NeedCiphertext { .. } => session.give_ciphertext(Ok(ct)),
        other => drain(other),
    };
    let step = match step {
        Step::NeedStore { .. } => session.give_store_result(Err("Disk full".to_string())),
        other => drain(other),
    };
    match step {
        Step::Done { result } => match result {
            Err(SecretError::CacheIo(m)) => assert_eq!(m, "Disk full"),
            _ => panic!("a failed store must surface as a cache I/O error"),
        },
        _ => panic!("a failed store must finish the call"),
    }
}

#[test]
fn caching_call_rejects_path_without_file_name_before_decrypting() {
    let (id, ct) = identity_and_ciphertext("db-password-123");
    let (mut session, step) = Session::start(
        vec!["/keys/k0".to_string()],
        "/secrets/..".to_string(),
        test_cache(42),
    );
    let step = match step {
        Step::NeedIdentity { .. } => session.give_identity(Some(id)),
        other => drain(other),
    };
    match step {
        Step::Done { result } => assert!(matches!(result, Err(SecretError::Path))),
        _ => panic!("a key-less path must fail before anything is decrypted"),
    }
    drop(ct);
}

#[test]
fn null_cache_accepts_path_without_file_name() {
    // The null cache derives no key, so a path that the directory cache
    // rejects still decrypts.
    let (id, ct) = identity_and_ciphertext("db-password-123");
    let paths = vec!["/keys/k0".to_string()];
    let (mut session, step) =
        Session::start(paths, "/secrets/..".to_string(), CacheSel::Null);
    let step = match step {
        Step::NeedIdentity { .. } => session.give_identity(Some(id)),
        other => drain(other),
    };
    let step = match step {
        Step::NeedCiphertext { .. } => session.give_ciphertext(Ok(ct)),
        other => drain(other),
    };
    match step {
        Step::Done { result } => assert_eq!(result.ok().as_deref(), Some("db-password-123")),
        _ => panic!("the null cache must go straight to decryption"),
    }
}

#[test]
fn cache_selection_follows_the_flag() {
    assert!(matches!(select_cache(false, None), CacheSel::Null));
    match select_cache(true, Some("/tmp/test-cache".to_string())) {
        CacheSel::Temp(tc) => assert_eq!(tc.get_base_cache_path(), "/tmp/test-cache"),
        CacheSel::Null => panic!("caching enabled must select the directory cache"),
    }
    assert!(matches!(select_cache(true, None), CacheSel::Temp(_)));
}

fn drain(step: Step) -> Step {
    panic!(
        "unexpected step: {}",
        match step {
            Step::NeedIdentity { .. } => "identity",
            Step::NeedProbe { .. } => "probe",
            Step::NeedCiphertext { .. } => "ciphertext",
            Step::NeedStore { .. } => "store",
            Step::Done { .. } => "done",
        }
    );
}
