use argon2::{Algorithm, Argon2, Params, Version};
use chacha20poly1305::aead::rand_core::RngCore;
use chacha20poly1305::aead::{Aead, OsRng};
use chacha20poly1305::{AeadCore, ChaCha20Poly1305, Key, KeyInit};
use globalprotect::vault::{Identity, Vault, VaultError, SALT_LEN};

fn identity(name: &str, portal: &str) -> Identity {
    Identity { name: name.to_string(), portal: portal.to_string(), ..Default::default() }
}

fn names(v: &Vault) -> Vec<String> {
    v.identities().iter().map(|i| i.name.clone()).collect()
}

/// A vault written with the legacy Argon2 default parameters still unlocks
/// (recovering every identity) and is sealed again under the current ones.
#[test]
fn legacy_vault_migrates_on_unlock() {
    let pin = "1234";
    let mut salt = [0u8; SALT_LEN];
    OsRng.fill_bytes(&mut salt);
    let ids_json = br#"[{"name":"work","portal":"gp.example.com"}]"#;

    let mut legacy_key = [0u8; 32];
    Argon2::default().hash_password_into(pin.as_bytes(), &salt, &mut legacy_key).unwrap();
    let nonce = ChaCha20Poly1305::generate_nonce(&mut OsRng);
    let ct = ChaCha20Poly1305::new(Key::from_slice(&legacy_key)).encrypt(&nonce, ids_json.as_ref()).unwrap();
    let mut file = Vec::new();
    file.extend_from_slice(&salt);
    file.extend_from_slice(&nonce);
    file.extend_from_slice(&ct);

    let mut v = Vault::load("identities.enc".to_string(), Some(&file));
    assert!(v.is_on_disk());
    let u = v.unlock(&file, pin).unwrap();
    assert!(u.migrated);
    assert!(v.is_open());
    let parsed: serde_json::Value = serde_json::from_slice(&u.plaintext).unwrap();
    let restored: Vec<Identity> = parsed
        .as_array()
        .unwrap()
        .iter()
        .map(|o| identity(o["name"].as_str().unwrap(), o["portal"].as_str().unwrap()))
        .collect();
    v.set_identities(restored);
    assert_eq!(v.identities().len(), 1);
    assert_eq!(v.identities()[0].name, "work");
    assert_eq!(v.identities()[0].portal, "gp.example.com");

    // Sealed again, the file opens with the current parameters directly.
    let bytes = v.seal_contents(&u.plaintext).unwrap();
    let mut cur = [0u8; 32];
    let params = Params::new(64 * 1024, 3, 1, Some(32)).unwrap();
    Argon2::new(Algorithm::Argon2id, Version::V0x13, params)
        .hash_password_into(pin.as_bytes(), &bytes[..SALT_LEN], &mut cur)
        .unwrap();
    let n = &bytes[SALT_LEN..SALT_LEN + 12];
    let dec = ChaCha20Poly1305::new(Key::from_slice(&cur)).decrypt(n.into(), &bytes[SALT_LEN + 12..]);
    assert!(dec.is_ok(), "vault should decrypt with current params after migration");
    assert_eq!(dec.unwrap(), ids_json.to_vec());
}

#[test]
fn sealed_vault_unlocks_with_its_pin() {
    let mut v = Vault::load("identities.enc".to_string(), None);
    assert!(!v.is_on_disk() && !v.is_open());
    v.set_master_pin("2468").unwrap();
    assert!(v.is_on_disk() && v.is_open());
    assert!(v.identities().is_empty());
    let file = v.seal_contents(b"[]").unwrap();
    assert_eq!(file.len(), SALT_LEN + 12 + 2 + 16);

    let mut fresh = Vault::load("identities.enc".to_string(), Some(&file));
    assert!(fresh.is_on_disk() && !fresh.is_open());
    let u = fresh.unlock(&file, "2468").unwrap();
    assert_eq!(u.plaintext, b"[]".to_vec());
    assert!(!u.migrated);
    assert!(fresh.is_open());
}

#[test]
fn wrong_pin_is_refused_and_leaves_the_vault_locked() {
    let mut v = Vault::load("identities.enc".to_string(), None);
    v.set_master_pin("2468").unwrap();
    let file = v.seal_contents(b"[]").unwrap();
    let mut fresh = Vault::load("identities.enc".to_string(), Some(&file));
    assert_eq!(fresh.unlock(&file, "1357").unwrap_err(), VaultError::WrongPin);
    assert!(!fresh.is_open());
}

#[test]
fn empty_master_pin_is_refused() {
    let mut v = Vault::load("identities.enc".to_string(), None);
    assert_eq!(v.set_master_pin(""), Err(VaultError::EmptyPin));
    assert!(!v.is_open() && !v.is_on_disk());
}

#[test]
fn short_vault_file_is_corrupt() {
    let file = vec![7u8; SALT_LEN + 12];
    let mut v = Vault::load("identities.enc".to_string(), Some(&file));
    assert!(!v.is_on_disk());
    assert_eq!(v.unlock(&file, "1234").unwrap_err(), VaultError::Corrupt);
}

#[test]
fn locked_vault_cannot_be_saved() {
    let mut v = Vault::load("identities.enc".to_string(), None);
    assert_eq!(v.upsert(identity("work", "a")), Err(VaultError::Locked));
    assert!(v.identities().is_empty());
    assert_eq!(v.remove("work"), Err(VaultError::Locked));
    assert_eq!(v.seal_contents(b"[]").unwrap_err(), VaultError::Locked);
}

#[test]
fn upsert_replaces_by_name_and_appends_new_names() {
    let mut v = Vault::load("identities.enc".to_string(), None);
    v.set_master_pin("1").unwrap();
    v.upsert(identity("work", "a.example.com")).unwrap();
    v.upsert(identity("home", "b.example.com")).unwrap();
    v.upsert(identity("work", "c.example.com")).unwrap();
    assert_eq!(names(&v), vec!["work", "home"]);
    assert_eq!(v.identities()[0].portal, "c.example.com");
    assert_eq!(v.identities()[1].portal, "b.example.com");
}

#[test]
fn remove_drops_every_identity_of_that_name() {
    let mut v = Vault::load("identities.enc".to_string(), None);
    v.set_master_pin("1").unwrap();
    v.set_identities(vec![identity("a", "1"), identity("b", "2"), identity("a", "3"), identity("c", "4")]);
    v.remove("a").unwrap();
    assert_eq!(names(&v), vec!["b", "c"]);
    v.remove("zzz").unwrap();
    assert_eq!(names(&v), vec!["b", "c"]);
}

#[test]
fn lock_forgets_identities_and_reset_forgets_the_vault() {
    let mut v = Vault::load("identities.enc".to_string(), None);
    v.set_master_pin("1").unwrap();
    v.upsert(identity("work", "a")).unwrap();
    v.lock();
    assert!(!v.is_open() && v.is_on_disk());
    assert!(v.identities().is_empty());
    v.reset();
    assert!(!v.is_open() && !v.is_on_disk());
}
