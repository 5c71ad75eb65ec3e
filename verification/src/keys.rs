//! The agent's Ed25519 identity: a 32-byte secret key, the public key derived
//! from it, signatures, and the files that hold them.
use vstd::prelude::*;
use vstd::string::*;
use ed25519_dalek::Signer;
use crate::config::{Config, ConfigError, config_dir_of, join_path};

verus! {

/// File name of the secret key inside the configuration directory.
pub const PRIVATE_KEY_FILE: &'static str = "private.key";

/// File name of the public key inside the configuration directory.
pub const PUBLIC_KEY_FILE: &'static str = "public.key";

/// Length in bytes of an Ed25519 secret key.
pub const SECRET_KEY_LENGTH: usize = 32;

/// The Ed25519 public key of the 32-byte secret key `secret`
/// (RFC 8032, as `ed25519_dalek` derives it).
pub uninterp spec fn ed25519_public_key(secret: Seq<u8>) -> Seq<u8>;

/// The Ed25519 signature of `message` under the 32-byte secret key `secret`
/// (RFC 8032, as `ed25519_dalek` computes it; Ed25519 signing is deterministic).
pub uninterp spec fn ed25519_signature(secret: Seq<u8>, message: Seq<u8>) -> Seq<u8>;

/// Lower-case hexadecimal digit for `n < 16`.
pub open spec fn hex_digit(n: nat) -> char {
    seq!['0', '1', '2', '3', '4', '5', '6', '7', '8', '9', 'a', 'b', 'c', 'd', 'e', 'f'][n as int]
}

/// Lower-case hexadecimal text of `bytes`, two digits per byte, high nibble first.
pub open spec fn hex_lower(bytes: Seq<u8>) -> Seq<char>
    decreases bytes.len(),
{
    if bytes.len() == 0 {
        Seq::empty()
    } else {
        seq![hex_digit((bytes[0] / 16) as nat), hex_digit((bytes[0] % 16) as nat)] + hex_lower(
            bytes.drop_first(),
        )
    }
}

/// A fresh secret key from the operating system's random source
/// (`SigningKey::generate` with `OsRng`, then `SigningKey::to_bytes`).
/// The bytes are random: only their number is promised.
#[verifier::external_body]
fn random_secret_key() -> (secret: Vec<u8>)
    ensures
        secret@.len() == SECRET_KEY_LENGTH,
{
    ed25519_dalek::SigningKey::generate(&mut rand::rngs::OsRng).to_bytes().to_vec()
}

/// The public key of `secret` (`SigningKey::from_bytes`, `verifying_key`,
/// `VerifyingKey::to_bytes`): 32 bytes, named by `ed25519_public_key`.
#[verifier::external_body]
fn derive_public_key(secret: &[u8]) -> (public: Vec<u8>)
    requires
        secret@.len() == SECRET_KEY_LENGTH,
    ensures
        public@ == ed25519_public_key(secret@),
        public@.len() == 32,
{
    let mut key = [0u8; 32];
    key.copy_from_slice(secret);
    ed25519_dalek::SigningKey::from_bytes(&key).verifying_key().to_bytes().to_vec()
}

/// The signature of `message` under `secret` (`SigningKey::from_bytes`,
/// `Signer::sign`, `Signature::to_bytes`): 64 bytes, named by `ed25519_signature`.
#[verifier::external_body]
fn sign_message(secret: &[u8], message: &[u8]) -> (signature: Vec<u8>)
    requires
        secret@.len() == SECRET_KEY_LENGTH,
    ensures
        signature@ == ed25519_signature(secret@, message@),
        signature@.len() == 64,
{
    let mut key = [0u8; 32];
    key.copy_from_slice(secret);
    ed25519_dalek::SigningKey::from_bytes(&key).sign(message).to_bytes().to_vec()
}

/// `hex::encode`: lower-case hexadecimal, two digits per byte, high nibble first.
#[verifier::external_body]
fn hex_encode(bytes: &[u8]) -> (text: String)
    ensures
        text@ == hex_lower(bytes@),
{
    hex::encode(bytes)
}

/// Lower-case hexadecimal text of `bytes`, as shown for public keys.
pub fn to_hex(bytes: &[u8]) -> (text: String)
    ensures
        text@ == hex_lower(bytes@),
{
    hex_encode(bytes)
}

/// Why a key could not be read.
#[derive(Debug, Clone, Copy, PartialEq, Eq, Structural)]
pub enum KeyError {
    /// The secret key file does not hold exactly 32 bytes.
    InvalidKeySize,
}

impl KeyError {
    /// The message shown to the user.
    pub fn message(&self) -> (m: String)
        ensures
            m@ == "Invalid private key size"@,
    {
        crate::text::owned("Invalid private key size")
    }
}

/// An Ed25519 public key.
pub struct VerifyingKey {
    bytes: Vec<u8>,
}

impl View for VerifyingKey {
    type V = Seq<u8>;

    closed spec fn view(&self) -> Seq<u8> {
        self.bytes@
    }
}

impl VerifyingKey {
    /// The 32 bytes of the key.
    pub fn to_bytes(&self) -> (b: Vec<u8>)
        ensures
            b@ == self@,
    {
        self.bytes.clone()
    }
}

/// An Ed25519 signature.
pub struct Signature {
    bytes: Vec<u8>,
}

impl View for Signature {
    type V = Seq<u8>;

    closed spec fn view(&self) -> Seq<u8> {
        self.bytes@
    }
}

impl Signature {
    /// The 64 bytes of the signature.
    pub fn to_bytes(&self) -> (b: Vec<u8>)
        ensures
            b@ == self@,
    {
        self.bytes.clone()
    }
}

/// The contents of the two key files.
pub struct KeyFiles {
    /// Contents of `private.key`: the secret key.
    pub private_key: Vec<u8>,
    /// Contents of `public.key`: the public key.
    pub public_key: Vec<u8>,
}

/// The secret key that the contents of a `private.key` file hold, if any.
pub open spec fn secret_in_file(contents: Seq<u8>) -> Option<Seq<u8>> {
    if contents.len() == SECRET_KEY_LENGTH {
        Some(contents)
    } else {
        None
    }
}

/// The contents of `private.key` and `public.key` for the secret key `secret`.
pub open spec fn key_files_of(secret: Seq<u8>) -> (Seq<u8>, Seq<u8>) {
    (secret, ed25519_public_key(secret))
}

/// The path of the secret key file for the home directory `home`.
pub open spec fn private_key_path_of(home: Seq<char>) -> Seq<char> {
    join_path(config_dir_of(home), PRIVATE_KEY_FILE@)
}

/// The path of the public key file for the home directory `home`.
pub open spec fn public_key_path_of(home: Seq<char>) -> Seq<char> {
    join_path(config_dir_of(home), PUBLIC_KEY_FILE@)
}

/// Ed25519 keypair manager: holds the 32-byte secret key.
pub struct Keys {
    secret: Vec<u8>,
}

impl View for Keys {
    type V = Seq<u8>;

    /// The secret key.
    closed spec fn view(&self) -> Seq<u8> {
        self.secret@
    }
}

impl Keys {
    #[verifier::type_invariant]
    spec fn secret_has_key_length(&self) -> bool {
        self.secret@.len() == SECRET_KEY_LENGTH
    }

    /// Generates a new keypair from the operating system's random source.
    pub fn generate() -> (k: Keys)
        ensures
            k@.len() == SECRET_KEY_LENGTH,
    {
        Keys { secret: random_secret_key() }
    }

    /// The keypair held in the contents of a `private.key` file: refused
    /// unless they are exactly 32 bytes.
    pub fn load(contents: &[u8]) -> (res: Result<Keys, KeyError>)
        ensures
            match secret_in_file(contents@) {
                Some(s) => res matches Ok(k) && k@ == s,
                None => res matches Err(e) && e == KeyError::InvalidKeySize,
            },
    {
        if contents.len() != SECRET_KEY_LENGTH {
            return Err(KeyError::InvalidKeySize);
        }
        let mut secret: Vec<u8> = Vec::new();
        let mut i: usize = 0;
        while i < contents.len()
            invariant
                i <= contents@.len(),
                secret@ == contents@.take(i as int),
            decreases contents.len() - i,
        {
            secret.push(contents[i]);
            i = i + 1;
        }
        assert(contents@.take(contents@.len() as int) =~= contents@);
        Ok(Keys { secret })
    }

    /// What to write to `private.key` and `public.key` to keep this keypair.
    pub fn save(&self) -> (files: KeyFiles)
        ensures
            (files.private_key@, files.public_key@) == key_files_of(self@),
            files.private_key@.len() == SECRET_KEY_LENGTH,
            secret_in_file(files.private_key@) == Some(self@),
    {
        proof {
            use_type_invariant(self);
        }
        KeyFiles { private_key: self.secret.clone(), public_key: self.public_key_bytes() }
    }

    /// The public key (32 bytes).
    pub fn public_key_bytes(&self) -> (b: Vec<u8>)
        ensures
            self@.len() == SECRET_KEY_LENGTH,
            b@ == ed25519_public_key(self@),
            b@.len() == 32,
    {
        proof {
            use_type_invariant(self);
        }
        derive_public_key(self.secret.as_slice())
    }

    /// The public key, in lower-case hexadecimal.
    pub fn public_key_hex(&self) -> (t: String)
        ensures
            t@ == hex_lower(ed25519_public_key(self@)),
    {
        let b = self.public_key_bytes();
        to_hex(b.as_slice())
    }

    /// The verifying (public) key.
    pub fn verifying_key(&self) -> (vk: VerifyingKey)
        ensures
            vk@ == ed25519_public_key(self@),
    {
        VerifyingKey { bytes: self.public_key_bytes() }
    }

    /// Signs `message` with the secret key.
    pub fn sign(&self, message: &[u8]) -> (sig: Signature)
        ensures
            sig@ == ed25519_signature(self@, message@),
            sig@.len() == 64,
    {
        proof {
            use_type_invariant(self);
        }
        Signature { bytes: sign_message(self.secret.as_slice(), message) }
    }

    /// The secret key file for a known or unknown home directory.
    pub fn private_key_path_from_home(home: Option<String>) -> (res: Result<String, ConfigError>)
        ensures
            match home {
                Some(h) => res matches Ok(p) && p@ == private_key_path_of(h@),
                None => res == Err::<String, ConfigError>(ConfigError::NoHomeDirectory),
            },
    {
        let dir = Config::dir_from_home(home)?;
        Ok(crate::config::join_path_text(dir.as_str(), PRIVATE_KEY_FILE))
    }

    /// The public key file for a known or unknown home directory.
    pub fn public_key_path_from_home(home: Option<String>) -> (res: Result<String, ConfigError>)
        ensures
            match home {
                Some(h) => res matches Ok(p) && p@ == public_key_path_of(h@),
                None => res == Err::<String, ConfigError>(ConfigError::NoHomeDirectory),
            },
    {
        let dir = Config::dir_from_home(home)?;
        Ok(crate::config::join_path_text(dir.as_str(), PUBLIC_KEY_FILE))
    }

    /// The secret key file, `~/.kuren/private.key`; found exactly when the
    /// environment gives a home directory (see `private_key_path_from_home`).
    pub fn private_key_path() -> (res: Result<String, ConfigError>)
        ensures
            res matches Ok(p) ==> exists|h: Seq<char>| p@ == private_key_path_of(h),
            res is Err ==> res == Err::<String, ConfigError>(ConfigError::NoHomeDirectory),
    {
        Self::private_key_path_from_home(crate::config::home_dir())
    }

    /// The public key file, `~/.kuren/public.key`; found exactly when the
    /// environment gives a home directory (see `public_key_path_from_home`).
    pub fn public_key_path() -> (res: Result<String, ConfigError>)
        ensures
            res matches Ok(p) ==> exists|h: Seq<char>| p@ == public_key_path_of(h),
            res is Err ==> res == Err::<String, ConfigError>(ConfigError::NoHomeDirectory),
    {
        Self::public_key_path_from_home(crate::config::home_dir())
    }
}

// ---------------------------------------------------------------------------
// Laws
// ---------------------------------------------------------------------------

/// Saving a keypair and loading the secret key file back gives the same
/// secret key, and the saved public key file is that key's public key.
pub proof fn law_save_then_load(secret: Seq<u8>)
    requires
        secret.len() == SECRET_KEY_LENGTH,
    ensures
        secret_in_file(key_files_of(secret).0) == Some(secret),
        key_files_of(secret).1 == ed25519_public_key(secret),
{
}

/// The configuration file and both key files lie side by side, directly in
/// the configuration directory.
pub proof fn law_files_share_config_dir(home: Seq<char>)
    ensures
        crate::config::config_path_of(home) == config_dir_of(home) + seq!['/'] + crate::config::CONFIG_FILE@,
        private_key_path_of(home) == config_dir_of(home) + seq!['/'] + PRIVATE_KEY_FILE@,
        public_key_path_of(home) == config_dir_of(home) + seq!['/'] + PUBLIC_KEY_FILE@,
{
    reveal_strlit(".kuren");
    let d = config_dir_of(home);
    assert(d.len() > 0);
    assert(d.last() == 'n');
}

/// The secret key file is refused exactly when it does not hold 32 bytes.
pub proof fn law_load_refuses_wrong_size(contents: Seq<u8>)
    ensures
        secret_in_file(contents) is None <==> contents.len() != SECRET_KEY_LENGTH,
{
}

/// Hexadecimal text has two digits per byte.
pub proof fn law_hex_length(bytes: Seq<u8>)
    ensures
        hex_lower(bytes).len() == 2 * bytes.len(),
    decreases bytes.len(),
{
    if bytes.len() > 0 {
        law_hex_length(bytes.drop_first());
    }
}

} // verus!
