//! The encrypted backup file (`.ibcbak`, version 1):
//!
//! | bytes    | content                                              |
//! |----------|------------------------------------------------------|
//! | 0..8     | `IBCRMBK1`                                           |
//! | 8..24    | random salt for PBKDF2-HMAC-SHA256 (600 000 rounds)  |
//! | 24..36   | random AES-256-GCM nonce                             |
//! | 36..     | the database encrypted, with the GCM tag at the end  |
//!
//! The password is the only key and is never stored; a wrong password shows
//! up when the GCM tag does not check.
use vstd::prelude::*;
use crate::errors::CrmError;
use crate::text::trimmed;
use ring::aead::{Aad, LessSafeKey, Nonce, UnboundKey, AES_256_GCM};
use ring::rand::SecureRandom;

verus! {

/// Length of the salt.
pub const SALT_LEN: usize = 16;
/// Length of the AES-GCM nonce.
pub const NONCE_LEN: usize = 12;
/// Length of the header before the ciphertext.
pub const HEADER_LEN: usize = 36;
/// PBKDF2 rounds.
pub const PBKDF2_ITERATIONS: u32 = 600000;
/// The longest text AES-GCM seals: 2^36 - 32 bytes.
pub const GCM_MAX_PLAIN_LEN: u64 = 68719476704;

/// The file's first eight bytes: `IBCRMBK1`.
pub open spec fn magic() -> Seq<u8> {
    seq![73u8, 66u8, 67u8, 82u8, 77u8, 66u8, 75u8, 49u8]
}

/// The first sixteen bytes of every SQLite database: `SQLite format 3\0`.
pub open spec fn sqlite_header() -> Seq<u8> {
    seq![83u8, 81u8, 76u8, 105u8, 116u8, 101u8, 32u8, 102u8, 111u8, 114u8, 109u8, 97u8, 116u8, 32u8,
        51u8, 0u8]
}

/// What `ring::pbkdf2::derive` with HMAC-SHA256 writes into a 32-byte buffer
/// for `iterations` rounds, a salt and a password (taken as its UTF-8
/// bytes): a function of these alone.
pub uninterp spec fn pbkdf2_sha256_key(iterations: u32, password: Seq<char>, salt: Seq<u8>) -> Seq<u8>;

/// What sealing `plain` with AES-256-GCM under a key and nonce, with no
/// associated data, gives: the ciphertext followed by the 16-byte tag.
pub uninterp spec fn gcm_seal(key: Seq<u8>, nonce: Seq<u8>, plain: Seq<u8>) -> Seq<u8>;

/// What opening `sealed` with AES-256-GCM under a key and nonce, with no
/// associated data, gives: the plain text when the tag checks, else nothing.
pub uninterp spec fn gcm_open(key: Seq<u8>, nonce: Seq<u8>, sealed: Seq<u8>) -> Option<Seq<u8>>;

/// Calls `ring::rand::SystemRandom::fill` on `n` bytes: random bytes, or
/// `None` when the system could not supply them.
#[verifier::external_body]
fn random_bytes(n: usize) -> (r: Option<Vec<u8>>)
    ensures
        r matches Some(v) ==> v@.len() == n,
{
    let mut buf = vec![0u8; n];
    ring::rand::SystemRandom::new().fill(&mut buf).ok().map(|_| buf)
}

/// Calls `ring::pbkdf2::derive` with `PBKDF2_HMAC_SHA256` into a 32-byte key.
/// (It fails only on inputs of more than 2^61 bytes, which no buffer holds.)
#[verifier::external_body]
fn derive_key(iterations: u32, password: &str, salt: &[u8]) -> (key: Vec<u8>)
    requires
        iterations > 0,
    ensures
        key@ == pbkdf2_sha256_key(iterations, password@, salt@),
        key@.len() == 32,
{
    let mut key = vec![0u8; 32];
    ring::pbkdf2::derive(
        ring::pbkdf2::PBKDF2_HMAC_SHA256,
        std::num::NonZeroU32::new(iterations).unwrap(),
        salt,
        password.as_bytes(),
        &mut key,
    );
    key
}

/// Calls `LessSafeKey::seal_in_place_append_tag` with an AES-256-GCM key.
/// Stated: the result is the sealed text, 16 bytes longer than the plain
/// text, and opening it with the same key and nonce gives the plain text
/// back (GCM decryption inverts encryption).  With a 32-byte key and a
/// 12-byte nonce ring refuses only a text longer than GCM's limit
/// (`MAX_IN_OUT_LEN`, 2^36 - 32 bytes), and then the result is `None`.
#[verifier::external_body]
fn seal(key: &[u8], nonce: &[u8], plain: &[u8]) -> (r: Option<Vec<u8>>)
    requires
        key@.len() == 32,
        nonce@.len() == 12,
    ensures
        r is Some <==> plain@.len() <= GCM_MAX_PLAIN_LEN,
        r matches Some(c) ==> c@ == gcm_seal(key@, nonce@, plain@) && c@.len() == plain@.len() + 16
            && gcm_open(key@, nonce@, c@) == Some(plain@),
{
    let unbound = UnboundKey::new(&AES_256_GCM, key).ok()?;
    let nonce = Nonce::try_assume_unique_for_key(nonce).ok()?;
    let mut in_out = plain.to_vec();
    LessSafeKey::new(unbound).seal_in_place_append_tag(nonce, Aad::empty(), &mut in_out).ok()?;
    Some(in_out)
}

/// Calls `LessSafeKey::open_in_place` with an AES-256-GCM key: the plain
/// text when the tag checks.
#[verifier::external_body]
fn open(key: &[u8], nonce: &[u8], sealed: &[u8]) -> (r: Option<Vec<u8>>)
    requires
        key@.len() == 32,
        nonce@.len() == 12,
    ensures
        match r {
            Some(p) => gcm_open(key@, nonce@, sealed@) == Some(p@),
            None => gcm_open(key@, nonce@, sealed@) is None,
        },
{
    let unbound = UnboundKey::new(&AES_256_GCM, key).ok()?;
    let nonce = Nonce::try_assume_unique_for_key(nonce).ok()?;
    let mut in_out = sealed.to_vec();
    let plain = LessSafeKey::new(unbound).open_in_place(nonce, Aad::empty(), &mut in_out).ok()?;
    Some(plain.to_vec())
}

/// `out` followed by `bytes`.
fn append_bytes(out: &mut Vec<u8>, bytes: &[u8])
    ensures
        final(out)@ == old(out)@ + bytes@,
{
    let mut i: usize = 0;
    while i < bytes.len()
        invariant
            0 <= i <= bytes@.len(),
            out@ == old(out)@ + bytes@.subrange(0, i as int),
        decreases bytes@.len() - i,
    {
        out.push(bytes[i]);
        i = i + 1;
        proof {
            assert(bytes@.subrange(0, i as int) =~= bytes@.subrange(0, i - 1) + seq![bytes@[i - 1]]);
            assert(out@ =~= old(out)@ + bytes@.subrange(0, i as int));
        }
    }
    proof {
        assert(bytes@.subrange(0, bytes@.len() as int) =~= bytes@);
    }
}

/// The bytes `from..to` of `data`.
fn copy_range(data: &[u8], from: usize, to: usize) -> (r: Vec<u8>)
    requires
        from <= to <= data@.len(),
    ensures
        r@ == data@.subrange(from as int, to as int),
{
    let mut r: Vec<u8> = Vec::new();
    let mut i: usize = from;
    while i < to
        invariant
            from <= i <= to,
            to <= data@.len(),
            r@ == data@.subrange(from as int, i as int),
        decreases to - i,
    {
        r.push(data[i]);
        i = i + 1;
        proof {
            assert(r@ =~= data@.subrange(from as int, i as int));
        }
    }
    r
}

/// Whether `data` starts with `prefix`.
fn starts_with_bytes(data: &[u8], prefix: &[u8]) -> (b: bool)
    ensures
        b == (prefix@.len() <= data@.len() && data@.subrange(0, prefix@.len() as int) == prefix@),
{
    if prefix.len() > data.len() {
        return false;
    }
    let mut i: usize = 0;
    while i < prefix.len()
        invariant
            prefix@.len() <= data@.len(),
            0 <= i <= prefix@.len(),
            forall|k: int| 0 <= k < i ==> data@[k] == prefix@[k],
        decreases prefix@.len() - i,
    {
        if data[i] != prefix[i] {
            assert(data@.subrange(0, prefix@.len() as int)[i as int] != prefix@[i as int]);
            return false;
        }
        i = i + 1;
    }
    assert(data@.subrange(0, prefix@.len() as int) =~= prefix@);
    true
}

fn magic_bytes() -> (m: Vec<u8>)
    ensures
        m@ == magic(),
{
    let m: Vec<u8> = vec![73u8, 66u8, 67u8, 82u8, 77u8, 66u8, 75u8, 49u8];
    assert(m@ =~= magic());
    m
}

fn sqlite_header_bytes() -> (m: Vec<u8>)
    ensures
        m@ == sqlite_header(),
{
    let m: Vec<u8> = vec![83u8, 81u8, 76u8, 105u8, 116u8, 101u8, 32u8, 102u8, 111u8, 114u8, 109u8,
        97u8, 116u8, 32u8, 51u8, 0u8];
    assert(m@ =~= sqlite_header());
    m
}

/// A well-formed backup of `plain` under `password`: the magic, a salt, a
/// nonce, and `plain` sealed under the key derived from the password and
/// that salt, with its 16-byte tag: 52 bytes more than `plain` in all.
pub open spec fn is_backup_of(file: Seq<u8>, plain: Seq<u8>, password: Seq<char>) -> bool {
    &&& file.len() >= 36
    &&& file.len() == plain.len() + 52
    &&& file.subrange(0, 8) == magic()
    &&& file.subrange(36, file.len() as int) == gcm_seal(
        pbkdf2_sha256_key(600000, password, file.subrange(8, 24)),
        file.subrange(24, 36),
        plain,
    )
    &&& gcm_open(
        pbkdf2_sha256_key(600000, password, file.subrange(8, 24)),
        file.subrange(24, 36),
        file.subrange(36, file.len() as int),
    ) == Some(plain)
}

/// The backup file of `plain` under `password` with the given salt and
/// nonce: the magic, the salt, the nonce, then `plain` sealed under the key
/// derived from the password and the salt.
pub open spec fn backup_file(plain: Seq<u8>, password: Seq<char>, salt: Seq<u8>, nonce: Seq<u8>) -> Seq<
    u8,
> {
    magic() + salt + nonce + gcm_seal(pbkdf2_sha256_key(600000, password, salt), nonce, plain)
}

/// Lays out the backup file of `plain` under `password` with the salt and
/// nonce drawn for it; refused only for a text too long for AES-GCM.
pub fn seal_backup(plain: &[u8], password: &str, salt: &[u8], nonce: &[u8]) -> (r: Result<
    Vec<u8>,
    CrmError,
>)
    requires
        salt@.len() == 16,
        nonce@.len() == 12,
    ensures
        plain@.len() <= GCM_MAX_PLAIN_LEN ==> (r matches Ok(f) && f@ == backup_file(
            plain@,
            password@,
            salt@,
            nonce@,
        ) && is_backup_of(f@, plain@, password@)),
        plain@.len() > GCM_MAX_PLAIN_LEN ==> r == Err::<Vec<u8>, CrmError>(
            CrmError::BackupEncryptFailed,
        ),
{
    let key = derive_key(PBKDF2_ITERATIONS, password, salt);
    let sealed = match seal(key.as_slice(), nonce, plain) {
        Some(c) => c,
        None => return Err(CrmError::BackupEncryptFailed),
    };
    let mut out = magic_bytes();
    append_bytes(&mut out, salt);
    append_bytes(&mut out, nonce);
    append_bytes(&mut out, sealed.as_slice());
    proof {
        assert(out@ =~= backup_file(plain@, password@, salt@, nonce@));
        assert(out@.subrange(0, 8) =~= magic());
        assert(out@.subrange(8, 24) =~= salt@);
        assert(out@.subrange(24, 36) =~= nonce@);
        assert(out@.subrange(36, out@.len() as int) =~= sealed@);
    }
    Ok(out)
}

/// Encrypts a database for a backup file with a fresh random salt and nonce
/// (see `seal_backup` for what is made of each salt and nonce).
pub fn encrypt(plain: &[u8], password: &str) -> (r: Result<Vec<u8>, CrmError>)
    ensures
        r matches Ok(file) ==> is_backup_of(file@, plain@, password@) && exists|salt: Seq<u8>, nonce: Seq<u8>|
            salt.len() == 16 && nonce.len() == 12 && file@ == backup_file(plain@, password@, salt, nonce),
        r matches Err(e) ==> e == CrmError::BackupSaltFailed || e == CrmError::BackupNonceFailed
            || e == CrmError::BackupEncryptFailed,
        r == Err::<Vec<u8>, CrmError>(CrmError::BackupEncryptFailed) ==> plain@.len() > GCM_MAX_PLAIN_LEN,
        plain@.len() > GCM_MAX_PLAIN_LEN ==> r is Err,
{
    let salt = match random_bytes(SALT_LEN) {
        Some(s) => s,
        None => return Err(CrmError::BackupSaltFailed),
    };
    let nonce = match random_bytes(NONCE_LEN) {
        Some(n) => n,
        None => return Err(CrmError::BackupNonceFailed),
    };
    seal_backup(plain, password, salt.as_slice(), nonce.as_slice())
}

/// Reading a backup: it must be at least as long as the header and start
/// with the magic; its contents must open under the key derived from the
/// password and the stored salt, with the stored nonce; and what comes out
/// must start like an SQLite database.
pub open spec fn decryption(file: Seq<u8>, password: Seq<char>) -> Result<Seq<u8>, CrmError> {
    if file.len() < 36 || file.subrange(0, 8) != magic() {
        Err(CrmError::BackupCorrupted)
    } else {
        match gcm_open(
            pbkdf2_sha256_key(600000, password, file.subrange(8, 24)),
            file.subrange(24, 36),
            file.subrange(36, file.len() as int),
        ) {
            None => Err(CrmError::BackupWrongPassword),
            Some(p) => if p.len() < 16 || p.subrange(0, 16) != sqlite_header() {
                Err(CrmError::BackupNotDatabase)
            } else {
                Ok(p)
            },
        }
    }
}

/// Decrypts a backup file.
pub fn decrypt(data: &[u8], password: &str) -> (r: Result<Vec<u8>, CrmError>)
    ensures
        match (r, decryption(data@, password@)) {
            (Ok(p), Ok(q)) => p@ == q,
            (Err(e), Err(f)) => e == f,
            _ => false,
        },
{
    let magic = magic_bytes();
    if data.len() < HEADER_LEN || !starts_with_bytes(data, magic.as_slice()) {
        return Err(CrmError::BackupCorrupted);
    }
    let salt = copy_range(data, 8, 8 + SALT_LEN);
    let nonce = copy_range(data, 8 + SALT_LEN, HEADER_LEN);
    let sealed = copy_range(data, HEADER_LEN, data.len());
    let key = derive_key(PBKDF2_ITERATIONS, password, salt.as_slice());
    let plain = match open(key.as_slice(), nonce.as_slice(), sealed.as_slice()) {
        Some(p) => p,
        None => return Err(CrmError::BackupWrongPassword),
    };
    let header = sqlite_header_bytes();
    if !starts_with_bytes(plain.as_slice(), header.as_slice()) {
        return Err(CrmError::BackupNotDatabase);
    }
    Ok(plain)
}

/// A backup password must have at least six characters once trimmed.
pub fn check_backup_password(password: &str) -> (r: Result<(), CrmError>)
    ensures
        r == (if trimmed(password@).len() < 6 {
            Err(CrmError::BackupPasswordTooShort)
        } else {
            Ok(())
        }),
{
    if crate::text::trim(password).unicode_len() < 6 {
        Err(CrmError::BackupPasswordTooShort)
    } else {
        Ok(())
    }
}

/// A backup read back with the password it was made with gives the database
/// that was saved, whenever that is an SQLite database.
pub proof fn lemma_backup_round_trip(file: Seq<u8>, plain: Seq<u8>, password: Seq<char>)
    requires
        is_backup_of(file, plain, password),
        plain.len() >= 16,
        plain.subrange(0, 16) == sqlite_header(),
    ensures
        decryption(file, password) == Ok::<Seq<u8>, CrmError>(plain),
{
}

} // verus!
