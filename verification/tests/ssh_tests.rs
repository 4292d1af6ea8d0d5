use wara_backend::ssh::{fingerprint_public_key, run_controlled_commands, SshTarget};

fn target() -> SshTarget {
    SshTarget {
        host: "10.0.0.5".to_string(),
        port: 22,
        username: "deploy".to_string(),
        public_key: "ssh-ed25519 AAAAC3NzaC1lZDI1NTE5AAAAIExample user@host".to_string(),
        private_key: "SECRET-REDACTED".to_string(),
        private_key_passphrase: None,
    }
}

#[test]
fn fingerprint_is_base64_sha256_of_trimmed_key() {
    let key = "ssh-ed25519 AAAAC3NzaC1lZDI1NTE5AAAAIExample user@host";
    let expected = "SHA256:zuii7vTt2xa6xH8zAtortKxXM8SSgGBGragmGBHpWc4=";
    assert_eq!(fingerprint_public_key(key), expected);
    assert_eq!(fingerprint_public_key(&format!("  {key}\n")), expected);
    assert_eq!(fingerprint_public_key(""), "SHA256:47DEQpj8HBSa+/TImW+5JCeuQeRkm5NMpJWZG3hSuFU=");
    assert_eq!(fingerprint_public_key(key).len(), 51);
}

#[test]
fn controlled_commands_form_one_script() {
    let commands = vec!["docker pull nginx".to_string(), "docker ps".to_string()];
    assert_eq!(run_controlled_commands(&target(), &commands), "docker pull nginx\ndocker ps");
    assert_eq!(run_controlled_commands(&target(), &[]), "");
    assert_eq!(run_controlled_commands(&target(), &["one".to_string()]), "one");
}

#[test]
fn fingerprint_ignores_unicode_whitespace_around_the_key() {
    let key = "ssh-ed25519 AAAAC3NzaC1lZDI1NTE5AAAAIExample user@host";
    let padded = format!("\t\u{3000}\u{a0}{key}\r\n\u{2028}");
    assert_eq!(fingerprint_public_key(&padded), fingerprint_public_key(key));
    assert_ne!(fingerprint_public_key(&format!("x{key}")), fingerprint_public_key(key));
}
