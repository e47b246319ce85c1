//! The encrypted identity vault.
//!
//! Identities (connection profiles, secrets included) are stored encrypted
//! with a key derived from a master PIN by Argon2id. The vault file is
//! `[16-byte salt][12-byte nonce][ChaCha20-Poly1305 ciphertext]`; the
//! plaintext (the identities as JSON) is produced and read by the caller, and
//! the caller writes and reads the file: this module decides what goes in it
//! and what comes out.

use vstd::prelude::*;
use crate::crypto::{
    aead_max_len, aead_open, append_bytes, byte_range, frame_of, open, random_salt, seal, KEY_LEN,
    NONCE_LEN, TAG_LEN,
};

verus! {

/// Length of the salt at the start of the vault file.
pub const SALT_LEN: usize = 16;

/// Memory cost (KiB) of the current key derivation.
pub const KDF_M_COST: u32 = 65536;
/// Iterations of the current key derivation.
pub const KDF_T_COST: u32 = 3;
/// Memory cost (KiB) of the Argon2 default, used by vaults written before the
/// current parameters.
pub const LEGACY_M_COST: u32 = 19456;
/// Iterations of the Argon2 default.
pub const LEGACY_T_COST: u32 = 2;

/// The 32-byte key Argon2id (version 0x13, one lane) derives from `pin` and
/// `salt` with memory cost `m_cost` and `t_cost` iterations.
pub uninterp spec fn argon2id(m_cost: u32, t_cost: u32, pin: Seq<char>, salt: Seq<u8>) -> Seq<u8>;

/// Longest PIN, in UTF-8 bytes, Argon2 accepts.
pub open spec fn pin_fits(pin: Seq<char>) -> bool {
    vstd::utf8::encode_utf8(pin).len() <= 0xFFFF_FFFF
}

/// The current key for `pin` and `salt`.
pub open spec fn current_key(pin: Seq<char>, salt: Seq<u8>) -> Seq<u8> {
    argon2id(KDF_M_COST, KDF_T_COST, pin, salt)
}

/// The key vaults written before the current parameters used.
pub open spec fn legacy_key(pin: Seq<char>, salt: Seq<u8>) -> Seq<u8> {
    argon2id(LEGACY_M_COST, LEGACY_T_COST, pin, salt)
}

/// `Argon2::new(Argon2id, V0x13, Params::new(64 MiB, 3, 1, Some(32)))
/// .hash_password_into`. Claimed: with a 16-byte salt it fails only for a
/// PIN over `u32::MAX` bytes (the crate's input checks), and the key is named
/// by [`argon2id`] with these parameters.
#[verifier::external_body]
fn derive_key(pin: &str, salt: &[u8]) -> (r: Option<Vec<u8>>)
    requires
        salt@.len() == SALT_LEN,
    ensures
        match r {
            Some(k) => k@ == argon2id(KDF_M_COST, KDF_T_COST, pin@, salt@) && k@.len() == KEY_LEN && pin_fits(pin@),
            None => !pin_fits(pin@),
        },
{
    let mut key = [0u8; 32];
    let params = argon2::Params::new(KDF_M_COST, KDF_T_COST, 1, Some(32)).ok()?;
    argon2::Argon2::new(argon2::Algorithm::Argon2id, argon2::Version::V0x13, params)
        .hash_password_into(pin.as_bytes(), salt, &mut key)
        .ok()?;
    Some(key.to_vec())
}

/// `Argon2::default().hash_password_into`: the crate's default is Argon2id
/// version 0x13 with 19 MiB, 2 iterations and one lane. Claimed as for
/// [`derive_key`], with those parameters.
#[verifier::external_body]
fn derive_key_legacy(pin: &str, salt: &[u8]) -> (r: Option<Vec<u8>>)
    requires
        salt@.len() == SALT_LEN,
    ensures
        match r {
            Some(k) => k@ == argon2id(LEGACY_M_COST, LEGACY_T_COST, pin@, salt@) && k@.len() == KEY_LEN && pin_fits(pin@),
            None => !pin_fits(pin@),
        },
{
    let mut key = [0u8; 32];
    argon2::Argon2::default().hash_password_into(pin.as_bytes(), salt, &mut key).ok()?;
    Some(key.to_vec())
}

/// A saved identity (connection profile).
#[derive(Debug, Clone, Default)]
pub struct Identity {
    pub name: String,
    pub portal: String,
    /// 0 smart card, 1 cert file, 2 SAML, 3 username/password.
    pub auth_method: i32,
    pub as_gateway: bool,
    pub pkcs11_module: String,
    pub username: String,
    pub password: String,
    pub pin: String,
    pub cert_id: String,
    pub cert_manufacturer: String,
    pub cert_file: String,
    pub key_file: String,
    pub key_password: String,
}

/// Index of the first identity named `name`.
pub open spec fn index_of_name(s: Seq<Identity>, name: Seq<char>) -> Option<int>
    decreases s.len(),
{
    if s.len() == 0 {
        None
    } else if s[0].name@ == name {
        Some(0)
    } else {
        match index_of_name(s.drop_first(), name) {
            Some(i) => Some(i + 1),
            None => None,
        }
    }
}

/// The first identity named `name`.
pub open spec fn lookup(s: Seq<Identity>, name: Seq<char>) -> Option<Identity> {
    match index_of_name(s, name) {
        Some(i) => Some(s[i]),
        None => None,
    }
}

/// The identities after saving `id`: it replaces the first identity of the
/// same name, or is appended.
pub open spec fn upserted(s: Seq<Identity>, id: Identity) -> Seq<Identity> {
    match index_of_name(s, id.name@) {
        Some(i) => s.update(i, id),
        None => s.push(id),
    }
}

/// The identities without any named `name`, order kept.
pub open spec fn removed(s: Seq<Identity>, name: Seq<char>) -> Seq<Identity>
    decreases s.len(),
{
    if s.len() == 0 {
        Seq::empty()
    } else if s.last().name@ == name {
        removed(s.drop_last(), name)
    } else {
        removed(s.drop_last(), name).push(s.last())
    }
}

/// No two identities share a name.
pub open spec fn names_unique(s: Seq<Identity>) -> bool {
    forall|i: int, j: int| 0 <= i < j < s.len() ==> s[i].name@ != s[j].name@
}

pub proof fn lemma_index_of_name(s: Seq<Identity>, name: Seq<char>)
    ensures
        match index_of_name(s, name) {
            Some(i) => 0 <= i < s.len() && s[i].name@ == name && forall|j: int|
                0 <= j < i ==> s[j].name@ != name,
            None => forall|j: int| 0 <= j < s.len() ==> s[j].name@ != name,
        },
    decreases s.len(),
{
    if s.len() > 0 && s[0].name@ != name {
        lemma_index_of_name(s.drop_first(), name);
        match index_of_name(s.drop_first(), name) {
            Some(i) => {
                assert forall|j: int| 0 <= j < i + 1 implies s[j].name@ != name by {
                    if j > 0 {
                        assert(s[j] == s.drop_first()[j - 1]);
                    }
                }
            },
            None => {
                assert forall|j: int| 0 <= j < s.len() implies s[j].name@ != name by {
                    if j > 0 {
                        assert(s[j] == s.drop_first()[j - 1]);
                    }
                }
            },
        }
    }
}

pub proof fn lemma_index_of_name_at(s: Seq<Identity>, name: Seq<char>, i: int)
    requires
        0 <= i < s.len(),
        s[i].name@ == name,
        forall|j: int| 0 <= j < i ==> s[j].name@ != name,
    ensures
        index_of_name(s, name) == Some(i),
    decreases i,
{
    if i > 0 {
        lemma_index_of_name_at(s.drop_first(), name, i - 1);
    }
}

pub proof fn lemma_index_of_name_none(s: Seq<Identity>, name: Seq<char>)
    requires
        forall|j: int| 0 <= j < s.len() ==> s[j].name@ != name,
    ensures
        index_of_name(s, name) is None,
    decreases s.len(),
{
    if s.len() > 0 {
        lemma_index_of_name_none(s.drop_first(), name);
    }
}

/// After saving an identity, looking its name up gives it back.
pub proof fn saved_identity_is_found(s: Seq<Identity>, id: Identity)
    ensures
        lookup(upserted(s, id), id.name@) == Some(id),
{
    lemma_index_of_name(s, id.name@);
    let t = upserted(s, id);
    match index_of_name(s, id.name@) {
        Some(i) => {
            lemma_index_of_name_at(t, id.name@, i);
        },
        None => {
            lemma_index_of_name_at(t, id.name@, s.len() as int);
        },
    }
}

/// Saving an identity leaves what every other name looks up to unchanged.
pub proof fn saving_leaves_other_names(s: Seq<Identity>, id: Identity, name: Seq<char>)
    requires
        name != id.name@,
    ensures
        lookup(upserted(s, id), name) == lookup(s, name),
{
    lemma_index_of_name(s, id.name@);
    lemma_index_of_name(s, name);
    let t = upserted(s, id);
    match index_of_name(s, name) {
        Some(k) => {
            lemma_index_of_name_at(t, name, k);
        },
        None => {
            lemma_index_of_name_none(t, name);
        },
    }
}

/// Saving an identity keeps names unique, and adds an entry exactly when its
/// name was new.
pub proof fn saving_keeps_names_unique(s: Seq<Identity>, id: Identity)
    requires
        names_unique(s),
    ensures
        names_unique(upserted(s, id)),
        upserted(s, id).len() == if lookup(s, id.name@) is Some {
            s.len()
        } else {
            s.len() + 1
        },
{
    lemma_index_of_name(s, id.name@);
}

/// After removing a name, it looks up to nothing, and every other name looks
/// up as before.
pub proof fn removed_name_is_gone(s: Seq<Identity>, name: Seq<char>, other: Seq<char>)
    requires
        other != name,
    ensures
        lookup(removed(s, name), name) is None,
        lookup(removed(s, name), other) == lookup(s, other),
    decreases s.len(),
{
    let r = removed(s, name);
    lemma_index_of_name(r, name);
    if s.len() > 0 {
        removed_name_is_gone(s.drop_last(), name, other);
        lemma_lookup_push_other(removed(s.drop_last(), name), s.last(), name);
        lemma_lookup_push_other(s.drop_last(), s.last(), other);
        lemma_lookup_push_other(removed(s.drop_last(), name), s.last(), other);
        assert(s.drop_last().push(s.last()) =~= s);
    } else {
        assert(r =~= s);
    }
}

/// Removing a name keeps exactly the identities of other names, in their
/// order.
pub proof fn removing_keeps_the_others_in_order(s: Seq<Identity>, name: Seq<char>)
    ensures
        removed(s, name) == s.filter(|i: Identity| i.name@ != name),
    decreases s.len(),
{
    reveal(Seq::filter);
    if s.len() > 0 {
        removing_keeps_the_others_in_order(s.drop_last(), name);
    }
}

proof fn lemma_lookup_push_other(s: Seq<Identity>, x: Identity, name: Seq<char>)
    ensures
        lookup(s, name) is Some ==> lookup(s.push(x), name) == lookup(s, name),
        lookup(s, name) is None && x.name@ == name ==> lookup(s.push(x), name) == Some(x),
        lookup(s, name) is None && x.name@ != name ==> lookup(s.push(x), name) is None,
{
    lemma_index_of_name(s, name);
    let t = s.push(x);
    match index_of_name(s, name) {
        Some(k) => {
            lemma_index_of_name_at(t, name, k);
        },
        None => {
            if x.name@ == name {
                lemma_index_of_name_at(t, name, s.len() as int);
            } else {
                lemma_index_of_name_none(t, name);
            }
        },
    }
}

/// The encrypted identity vault.
pub struct Vault {
    path: String,
    salt: Vec<u8>,
    key: Option<Vec<u8>>,
    identities: Vec<Identity>,
    /// The master PIN the key was derived from, while unlocked.
    master: Ghost<Seq<char>>,
    /// True if the encrypted file exists on disk.
    exists: bool,
    unlocked: bool,
}

#[derive(Debug, PartialEq, Eq)]
pub enum VaultError {
    /// The master PIN is empty.
    EmptyPin,
    /// The master PIN is too long for the key derivation.
    KeyDerivation,
    /// The vault file is too short to hold a salt, a nonce and a ciphertext.
    Corrupt,
    /// Neither the current nor the legacy key opens the vault.
    WrongPin,
    /// The vault is locked, so it cannot be saved.
    Locked,
    /// The identities are too long to encrypt.
    EncryptFailed,
}

/// A successful unlock: the plaintext (the identities as JSON), and whether
/// it was opened with the legacy key, so the vault should be saved again
/// under the current one.
#[derive(Debug)]
pub struct Unlocked {
    pub plaintext: Vec<u8>,
    pub migrated: bool,
}

pub open spec fn opt_key(k: Option<Vec<u8>>) -> Option<Seq<u8>> {
    match k {
        Some(v) => Some(v@),
        None => None,
    }
}

/// The bytes of a vault file holding `pt` sealed under `key` with `nonce`.
pub open spec fn vault_file(salt: Seq<u8>, key: Seq<u8>, nonce: Seq<u8>, pt: Seq<u8>) -> Seq<u8> {
    salt + frame_of(key, nonce, pt)
}

impl Vault {
    pub closed spec fn path(&self) -> Seq<char> {
        self.path@
    }

    pub closed spec fn salt(&self) -> Seq<u8> {
        self.salt@
    }

    pub closed spec fn key(&self) -> Option<Seq<u8>> {
        opt_key(self.key)
    }

    /// The master PIN the key was derived from.
    pub closed spec fn master(&self) -> Seq<char> {
        self.master@
    }

    pub closed spec fn is_unlocked(&self) -> bool {
        self.unlocked
    }

    pub closed spec fn on_disk(&self) -> bool {
        self.exists
    }

    pub closed spec fn ids(&self) -> Seq<Identity> {
        self.identities@
    }

    /// The salt is 16 bytes; an unlocked vault holds the current key derived
    /// from its master PIN and salt, a locked one no key.
    pub closed spec fn wf(&self) -> bool {
        &&& self.salt().len() == SALT_LEN
        &&& self.is_unlocked() <==> self.key() is Some
        &&& self.key() is Some ==> self.key() == Some(current_key(self.master(), self.salt()))
            && self.key()->0.len() == KEY_LEN
    }

    /// Vault metadata from the file at `path`, whose contents are `data`
    /// (`None` when it cannot be read). A file long enough to hold a salt, a
    /// nonce and a ciphertext gives its salt; the vault stays locked.
    pub fn load(path: String, data: Option<&[u8]>) -> (r: Self)
        ensures
            r.wf(),
            r.path() == path@,
            !r.is_unlocked(),
            r.ids().len() == 0,
            match data {
                Some(b) if b@.len() > SALT_LEN + NONCE_LEN => r.on_disk() && r.salt() == b@.take(
                    SALT_LEN as int,
                ),
                _ => !r.on_disk() && r.salt() == Seq::new(SALT_LEN as nat, |i: int| 0u8),
            },
    {
        match data {
            Some(b) => {
                if b.len() > SALT_LEN + NONCE_LEN {
                    let salt = byte_range(b, 0, SALT_LEN);
                    return Vault {
                        path,
                        salt,
                        key: None,
                        identities: Vec::new(),
                        master: Ghost(Seq::empty()),
                        exists: true,
                        unlocked: false,
                    };
                }
            },
            None => {},
        }
        let salt = zero_salt();
        Vault {
            path,
            salt,
            key: None,
            identities: Vec::new(),
            master: Ghost(Seq::empty()),
            exists: false,
            unlocked: false,
        }
    }

    /// Whether the vault is unlocked.
    pub fn is_open(&self) -> (r: bool)
        ensures
            r == self.is_unlocked(),
    {
        self.unlocked
    }

    /// Whether the encrypted vault file exists.
    pub fn is_on_disk(&self) -> (r: bool)
        ensures
            r == self.on_disk(),
    {
        self.exists
    }

    /// The identities held while unlocked.
    pub fn identities(&self) -> (r: &[Identity])
        ensures
            r@ == self.ids(),
    {
        self.identities.as_slice()
    }

    /// First-time setup: a fresh salt, the key derived from `pin`, an empty
    /// unlocked vault. The caller then writes the sealed (empty) identities.
    pub fn set_master_pin(&mut self, pin: &str) -> (r: Result<(), VaultError>)
        requires
            old(self).wf(),
        ensures
            final(self).wf(),
            final(self).path() == old(self).path(),
            match r {
                Ok(()) => {
                    &&& pin@.len() > 0 && pin_fits(pin@)
                    &&& final(self).is_unlocked() && final(self).on_disk()
                    &&& final(self).master() == pin@
                    &&& final(self).ids().len() == 0
                },
                Err(e) => {
                    &&& pin@.len() == 0 ==> e == VaultError::EmptyPin
                    &&& pin@.len() > 0 ==> e == VaultError::KeyDerivation && !pin_fits(pin@)
                    &&& *final(self) == *old(self)
                },
            },
    {
        if pin.is_empty() {
            return Err(VaultError::EmptyPin);
        }
        let salt = random_salt();
        let key = derive_key(pin, salt.as_slice());
        match key {
            Some(k) => {
                self.salt = salt;
                self.key = Some(k);
                self.master = Ghost(pin@);
                self.identities = Vec::new();
                self.unlocked = true;
                self.exists = true;
                Ok(())
            },
            None => Err(VaultError::KeyDerivation),
        }
    }

    /// Open the vault file `file` with the master PIN: current key first, then
    /// the legacy one. On success the vault is unlocked under the current key
    /// and the plaintext is handed back; the caller installs the identities
    /// with [`Vault::set_identities`] and, when `migrated`, saves again.
    pub fn unlock(&mut self, file: &[u8], pin: &str) -> (r: Result<Unlocked, VaultError>)
        requires
            old(self).wf(),
        ensures
            final(self).wf(),
            final(self).path() == old(self).path(),
            final(self).salt() == old(self).salt(),
            final(self).on_disk() == old(self).on_disk(),
            ({
                let salt = old(self).salt();
                let nonce = file@.subrange(SALT_LEN as int, (SALT_LEN + NONCE_LEN) as int);
                let ct = file@.skip((SALT_LEN + NONCE_LEN) as int);
                match r {
                    Ok(u) => {
                        &&& file@.len() > SALT_LEN + NONCE_LEN && pin_fits(pin@)
                        &&& final(self).is_unlocked() && final(self).master() == pin@
                        &&& final(self).ids() == old(self).ids()
                        &&& if u.migrated {
                            aead_open(current_key(pin@, salt), nonce, ct) is None && aead_open(
                                legacy_key(pin@, salt),
                                nonce,
                                ct,
                            ) == Some(u.plaintext@)
                        } else {
                            aead_open(current_key(pin@, salt), nonce, ct) == Some(u.plaintext@)
                        }
                    },
                    Err(e) => {
                        &&& *final(self) == *old(self)
                        &&& e == VaultError::Corrupt <==> file@.len() <= SALT_LEN + NONCE_LEN
                        &&& e == VaultError::KeyDerivation ==> !pin_fits(pin@)
                        &&& e == VaultError::WrongPin ==> aead_open(
                            current_key(pin@, salt),
                            nonce,
                            ct,
                        ) is None && aead_open(legacy_key(pin@, salt), nonce, ct) is None
                        &&& e == VaultError::Corrupt || e == VaultError::KeyDerivation || e
                            == VaultError::WrongPin
                    },
                }
            }),
            // a file sealed under this PIN's current key opens to what was sealed
            forall|n: Seq<u8>, pt: Seq<u8>|
                n.len() == NONCE_LEN && pt.len() < aead_max_len() && pin_fits(pin@)
                    && file@.len() > SALT_LEN + NONCE_LEN && file@
                    == #[trigger] vault_file(old(self).salt(), current_key(pin@, old(self).salt()), n, pt)
                    ==> match r {
                    Ok(u) => u.plaintext@ == pt && !u.migrated,
                    Err(_) => false,
                },
            // a file sealed under this PIN's legacy key opens too; unless the
            // current key happens to open it, it opens to what was sealed and is
            // marked for saving again under the current key
            forall|n: Seq<u8>, pt: Seq<u8>|
                n.len() == NONCE_LEN && pt.len() < aead_max_len() && pin_fits(pin@)
                    && file@.len() > SALT_LEN + NONCE_LEN && file@
                    == #[trigger] vault_file(old(self).salt(), legacy_key(pin@, old(self).salt()), n, pt)
                    ==> match r {
                    Ok(u) => {
                        &&& u.migrated ==> u.plaintext@ == pt
                        &&& aead_open(
                            current_key(pin@, old(self).salt()),
                            file@.subrange(SALT_LEN as int, (SALT_LEN + NONCE_LEN) as int),
                            file@.skip((SALT_LEN + NONCE_LEN) as int),
                        ) is None ==> u.migrated
                    },
                    Err(_) => false,
                },
    {
        if file.len() <= SALT_LEN + NONCE_LEN {
            return Err(VaultError::Corrupt);
        }
        let body = byte_range(file, SALT_LEN, file.len());
        let ghost salt = self.salt@;
        let ghost nonce = file@.subrange(SALT_LEN as int, (SALT_LEN + NONCE_LEN) as int);
        let ghost ct = file@.skip((SALT_LEN + NONCE_LEN) as int);
        proof {
            assert(body@.take(NONCE_LEN as int) =~= nonce);
            assert(body@.skip(NONCE_LEN as int) =~= ct);
            assert forall|n: Seq<u8>, pt: Seq<u8>|
                n.len() == NONCE_LEN && file@ == #[trigger] vault_file(salt, current_key(pin@, salt), n, pt)
                implies body@ == frame_of(current_key(pin@, salt), n, pt) by {
                assert(body@ =~= file@.skip(SALT_LEN as int));
                assert(vault_file(salt, current_key(pin@, salt), n, pt).skip(SALT_LEN as int)
                    =~= frame_of(current_key(pin@, salt), n, pt));
            }
            assert forall|n: Seq<u8>, pt: Seq<u8>|
                n.len() == NONCE_LEN && file@ == #[trigger] vault_file(salt, legacy_key(pin@, salt), n, pt)
                implies body@ == frame_of(legacy_key(pin@, salt), n, pt) by {
                assert(body@ =~= file@.skip(SALT_LEN as int));
                assert(vault_file(salt, legacy_key(pin@, salt), n, pt).skip(SALT_LEN as int)
                    =~= frame_of(legacy_key(pin@, salt), n, pt));
            }
        }
        let key = match derive_key(pin, self.salt.as_slice()) {
            Some(k) => k,
            None => {
                return Err(VaultError::KeyDerivation);
            },
        };
        match open(key.as_slice(), body.as_slice()) {
            Some(pt) => {
                self.key = Some(key);
                self.master = Ghost(pin@);
                self.unlocked = true;
                return Ok(Unlocked { plaintext: pt, migrated: false });
            },
            None => {},
        }
        let legacy = match derive_key_legacy(pin, self.salt.as_slice()) {
            Some(k) => k,
            None => {
                return Err(VaultError::KeyDerivation);
            },
        };
        match open(legacy.as_slice(), body.as_slice()) {
            Some(pt) => {
                self.key = Some(key);
                self.master = Ghost(pin@);
                self.unlocked = true;
                Ok(Unlocked { plaintext: pt, migrated: true })
            },
            None => Err(VaultError::WrongPin),
        }
    }

    /// Install the identities read from the plaintext of an unlock.
    pub fn set_identities(&mut self, ids: Vec<Identity>)
        requires
            old(self).wf(),
        ensures
            final(self).wf(),
            final(self).ids() == ids@,
            final(self).path() == old(self).path(),
            final(self).salt() == old(self).salt(),
            final(self).key() == old(self).key(),
            final(self).master() == old(self).master(),
            final(self).is_unlocked() == old(self).is_unlocked(),
            final(self).on_disk() == old(self).on_disk(),
    {
        self.identities = ids;
    }

    /// Forget the key and the identities.
    pub fn lock(&mut self)
        requires
            old(self).wf(),
        ensures
            final(self).wf(),
            !final(self).is_unlocked(),
            final(self).key() is None,
            final(self).ids().len() == 0,
            final(self).path() == old(self).path(),
            final(self).salt() == old(self).salt(),
            final(self).on_disk() == old(self).on_disk(),
    {
        self.key = None;
        self.identities = Vec::new();
        self.unlocked = false;
    }

    /// Forgotten-PIN reset: back to the no-vault state (the caller deletes the
    /// file).
    pub fn reset(&mut self)
        requires
            old(self).wf(),
        ensures
            final(self).wf(),
            !final(self).is_unlocked() && !final(self).on_disk(),
            final(self).key() is None,
            final(self).ids().len() == 0,
            final(self).salt() == Seq::new(SALT_LEN as nat, |i: int| 0u8),
            final(self).path() == old(self).path(),
    {
        self.salt = zero_salt();
        self.key = None;
        self.identities = Vec::new();
        self.exists = false;
        self.unlocked = false;
    }

    /// Save an identity: it replaces the first one of the same name, or is
    /// appended. A locked vault holds no identities and is left unchanged.
    pub fn upsert(&mut self, identity: Identity) -> (r: Result<(), VaultError>)
        requires
            old(self).wf(),
        ensures
            final(self).wf(),
            old(self).is_unlocked() ==> {
                &&& r is Ok
                &&& final(self).ids() == upserted(old(self).ids(), identity)
                &&& final(self).path() == old(self).path()
                &&& final(self).salt() == old(self).salt()
                &&& final(self).key() == old(self).key()
                &&& final(self).master() == old(self).master()
                &&& final(self).is_unlocked() && final(self).on_disk() == old(self).on_disk()
            },
            !old(self).is_unlocked() ==> r == Err::<(), VaultError>(VaultError::Locked) && *final(self)
                == *old(self),
    {
        if self.key.is_none() {
            return Err(VaultError::Locked);
        }
        let ghost s = self.identities@;
        let mut i: usize = 0;
        let n = self.identities.len();
        while i < n
            invariant
                n == self.identities@.len(),
                s == self.identities@,
                *self == *old(self),
                old(self).wf(),
                old(self).is_unlocked(),
                i <= n,
                forall|j: int| 0 <= j < i ==> s[j].name@ != identity.name@,
            decreases n - i,
        {
            if self.identities[i].name == identity.name {
                proof {
                    lemma_index_of_name_at(s, identity.name@, i as int);
                }
                self.identities.set(i, identity);
                return Ok(());
            }
            i = i + 1;
        }
        proof {
            lemma_index_of_name_none(s, identity.name@);
        }
        self.identities.push(identity);
        Ok(())
    }

    /// Remove every identity named `name`, keeping the others in order. A
    /// locked vault holds no identities and is left unchanged.
    pub fn remove(&mut self, name: &str) -> (r: Result<(), VaultError>)
        requires
            old(self).wf(),
        ensures
            final(self).wf(),
            old(self).is_unlocked() ==> {
                &&& r is Ok
                &&& final(self).ids() == removed(old(self).ids(), name@)
                &&& final(self).path() == old(self).path()
                &&& final(self).salt() == old(self).salt()
                &&& final(self).key() == old(self).key()
                &&& final(self).master() == old(self).master()
                &&& final(self).is_unlocked() && final(self).on_disk() == old(self).on_disk()
            },
            !old(self).is_unlocked() ==> r == Err::<(), VaultError>(VaultError::Locked) && *final(self)
                == *old(self),
    {
        if self.key.is_none() {
            return Err(VaultError::Locked);
        }
        let ghost s = self.identities@;
        let target = name.to_owned();
        let mut kept: Vec<Identity> = Vec::new();
        let mut k: usize = 0;
        let n = self.identities.len();
        while k < n
            invariant
                n == s.len(),
                target@ == name@,
                k <= n,
                self.identities@ == s.skip(k as int),
                kept@ == removed(s.take(k as int), name@),
                old(self).wf(),
                old(self).is_unlocked(),
                self.key() == old(self).key(),
                self.salt() == old(self).salt(),
                self.path() == old(self).path(),
                self.master() == old(self).master(),
                self.unlocked == old(self).is_unlocked(),
                self.exists == old(self).on_disk(),
            decreases n - k,
        {
            proof {
                assert(s.take(k + 1).drop_last() =~= s.take(k as int));
                assert(s.take(k + 1).last() == s[k as int]);
            }
            let x = self.identities.remove(0);
            assert(self.identities@ =~= s.skip(k + 1));
            if x.name != target {
                kept.push(x);
            }
            k = k + 1;
        }
        assert(s.take(n as int) =~= s);
        self.identities = kept;
        Ok(())
    }

    /// The vault file for the plaintext `pt` (the identities as JSON): the
    /// salt, a fresh nonce and the ciphertext under the current key.
    pub fn seal_contents(&self, pt: &[u8]) -> (r: Result<Vec<u8>, VaultError>)
        requires
            self.wf(),
        ensures
            match r {
                Ok(b) => self.is_unlocked() && b@.len() == SALT_LEN + NONCE_LEN + pt@.len() + TAG_LEN
                    && pt@.len() < aead_max_len() && b@ == vault_file(
                        self.salt(),
                        current_key(self.master(), self.salt()),
                        b@.subrange(SALT_LEN as int, (SALT_LEN + NONCE_LEN) as int),
                        pt@,
                    ),
                Err(e) => (!self.is_unlocked() && e == VaultError::Locked) || (self.is_unlocked() && e
                    == VaultError::EncryptFailed && pt@.len() >= aead_max_len()),
            },
    {
        let key = match &self.key {
            Some(k) => k,
            None => {
                return Err(VaultError::Locked);
            },
        };
        match seal(key.as_slice(), pt) {
            Some(frame) => {
                let mut out = byte_range(self.salt.as_slice(), 0, self.salt.len());
                append_bytes(&mut out, frame.as_slice());
                assert(self.salt@.subrange(0, self.salt@.len() as int) =~= self.salt@);
                assert(out@.subrange(SALT_LEN as int, (SALT_LEN + NONCE_LEN) as int) =~= frame@.take(
                    NONCE_LEN as int,
                ));
                Ok(out)
            },
            None => Err(VaultError::EncryptFailed),
        }
    }
}

fn zero_salt() -> (r: Vec<u8>)
    ensures
        r@ == Seq::new(SALT_LEN as nat, |i: int| 0u8),
{
    let mut v: Vec<u8> = Vec::new();
    let mut i: usize = 0;
    while i < SALT_LEN
        invariant
            i <= SALT_LEN,
            v@ == Seq::new(i as nat, |k: int| 0u8),
        decreases SALT_LEN - i,
    {
        v.push(0u8);
        assert(v@ =~= Seq::new((i + 1) as nat, |k: int| 0u8));
        i = i + 1;
    }
    v
}

} // verus!
