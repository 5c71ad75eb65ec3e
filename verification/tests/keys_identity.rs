use kuren::keys::{to_hex, KeyError, Keys};
use kuren::commands::signup::{cgroup_indicates_container, validate_handle, HandleError};
use kuren::commands::authorize::{dash_spaces, normalize_user_code};

fn unhex(s: &str) -> Vec<u8> {
    (0..s.len()).step_by(2).map(|i| u8::from_str_radix(&s[i..i + 2], 16).unwrap()).collect()
}

const SECRET: &str = "9d61b19deffd5a60ba844af492ec2cc44449c5697b326919703bac031cae7f60";
const PUBLIC: &str = "d75a980182b10ab7d54bfed3c964073a0ee172f3daa62325af021a68f707511a";
const SIG_EMPTY: &str = "e5564300c360ac729086e2cc806e828a84877f1eb8e5d974d873e065224901555fb8821590a33bacc61e39701cf9b46bd25bf5f0595bbe24655141438e7a100b";

#[test]
fn rfc8032_public_key() {
    let k = Keys::load(&unhex(SECRET)).unwrap();
    assert_eq!(k.public_key_bytes(), unhex(PUBLIC));
    assert_eq!(k.public_key_hex(), PUBLIC);
    assert_eq!(k.verifying_key().to_bytes(), unhex(PUBLIC));
}

#[test]
fn rfc8032_signature() {
    let k = Keys::load(&unhex(SECRET)).unwrap();
    let sig = k.sign(b"");
    assert_eq!(sig.to_bytes(), unhex(SIG_EMPTY));
    assert_eq!(k.sign(b"challenge").to_bytes().len(), 64);
}

#[test]
fn load_refuses_wrong_size() {
    assert!(matches!(Keys::load(&[0u8; 31]), Err(KeyError::InvalidKeySize)));
    assert!(matches!(Keys::load(&[0u8; 33]), Err(KeyError::InvalidKeySize)));
    assert!(matches!(Keys::load(&[]), Err(KeyError::InvalidKeySize)));
    assert_eq!(KeyError::InvalidKeySize.message(), "Invalid private key size");
}

#[test]
fn save_then_load_roundtrip() {
    let k = Keys::generate();
    let files = k.save();
    assert_eq!(files.private_key.len(), 32);
    assert_eq!(files.public_key, k.public_key_bytes());
    let back = Keys::load(&files.private_key).unwrap();
    assert_eq!(back.public_key_bytes(), k.public_key_bytes());
    assert_eq!(back.sign(b"x").to_bytes(), k.sign(b"x").to_bytes());
}

#[test]
fn generated_keys_differ() {
    let a = Keys::generate();
    let b = Keys::generate();
    assert_ne!(a.save().private_key, b.save().private_key);
}

#[test]
fn key_paths_from_home() {
    assert_eq!(Keys::private_key_path_from_home(Some("/home/a".to_string())).unwrap(), "/home/a/.kuren/private.key");
    assert_eq!(Keys::public_key_path_from_home(Some("/home/a".to_string())).unwrap(), "/home/a/.kuren/public.key");
    assert!(Keys::private_key_path_from_home(None).is_err());
    if let Ok(p) = Keys::private_key_path() {
        assert!(p.ends_with("/.kuren/private.key"));
    }
    if let Ok(p) = Keys::public_key_path() {
        assert!(p.ends_with("/.kuren/public.key"));
    }
}

#[test]
fn hex_is_lower_case() {
    assert_eq!(to_hex(&[0x00, 0xab, 0x10, 0xff]), "00ab10ff");
    assert_eq!(to_hex(&[]), "");
}

#[test]
fn handle_validation() {
    assert_eq!(validate_handle("@@research_bot").unwrap(), "research_bot");
    assert_eq!(validate_handle("abc").unwrap(), "abc");
    assert_eq!(validate_handle("ab").unwrap_err(), HandleError::Length);
    assert_eq!(validate_handle("@ab").unwrap_err(), HandleError::Length);
    assert_eq!(validate_handle(&"a".repeat(64)).unwrap(), "a".repeat(64));
    assert_eq!(validate_handle(&"a".repeat(65)).unwrap_err(), HandleError::Length);
    assert_eq!(validate_handle("my-handle").unwrap(), "my-handle");
    assert_eq!(validate_handle("@research-bot").unwrap(), "research-bot");
    assert_eq!(validate_handle("my.bot").unwrap_err(), HandleError::Characters);
    assert_eq!(validate_handle("my bot").unwrap_err(), HandleError::Characters);
    assert_eq!(validate_handle("a@b").unwrap_err(), HandleError::Characters);
    // two characters but three bytes: the byte count decides
    assert_eq!(validate_handle("aé").unwrap_err(), HandleError::Characters);
    assert_eq!(validate_handle("é").unwrap_err(), HandleError::Length);
    assert_eq!(HandleError::Length.message(), "Handle must be 3-64 characters");
    assert_eq!(
        HandleError::Characters.message(),
        "Handle must contain only alphanumeric characters and underscores"
    );
}

#[test]
fn validated_handle_validates_again() {
    let h = validate_handle("@@Agent_007").unwrap();
    assert_eq!(validate_handle(&h).unwrap(), h);
}

#[test]
fn container_detection() {
    assert!(cgroup_indicates_container("0::/docker/abc"));
    assert!(cgroup_indicates_container("12:pids:/kubepods/besteffort"));
    assert!(cgroup_indicates_container("0::/system.slice/containerd.service"));
    assert!(!cgroup_indicates_container("0::/init.scope"));
    assert!(!cgroup_indicates_container(""));
}

#[test]
fn user_code_normalized() {
    assert_eq!(normalize_user_code("abc 1234"), "ABC-1234");
    assert_eq!(normalize_user_code("ABC-1234"), "ABC-1234");
    assert_eq!(normalize_user_code("straße x"), "STRASSE-X");
    assert_eq!(dash_spaces("A B  C"), "A-B--C");
}

#[test]
fn signup_prechecks() {
    use_precheck(true, "good_name", Err(kuren::commands::signup::SignupError::KeysExist));
    use_precheck(true, "x", Err(kuren::commands::signup::SignupError::KeysExist));
    use_precheck(false, "x", Err(kuren::commands::signup::SignupError::Handle(HandleError::Length)));
    use_precheck(false, "@my-handle", Ok("my-handle".to_string()));
    assert_eq!(
        kuren::commands::signup::SignupError::KeysExist.message(),
        "Keys already exist. Use 'kuren login' to authenticate, or delete ~/.kuren to start fresh."
    );
}

fn use_precheck(exist: bool, h: &str, expected: Result<String, kuren::commands::signup::SignupError>) {
    assert_eq!(kuren::commands::signup::signup_precheck(exist, h), expected);
}

#[test]
fn saved_secret_has_key_length() {
    let k = Keys::generate();
    assert_eq!(k.save().private_key.len(), 32);
}
