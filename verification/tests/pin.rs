use vaultmaid::pin::{
    derive_cache_key, hash_pin, hash_pin_with_salt, verify, verify_stored, CacheKey, Pin, PinError,
    Verifier,
};

const SALT: &str = "c29tZXNhbHRzb21lc2FsdA";
const PHC: &str = "$argon2id$v=19$m=19456,t=2,p=1$c29tZXNhbHRzb21lc2FsdA$E/4dTxxhtsDeiYgvRBqRxyC7IJ9jaR4ywszVocQ+4aw";

#[test]
fn hash_and_verify_round_trip() {
    let pin = Pin::new("1234");
    let verifier = hash_pin(&pin).expect("hash");
    assert!(verify(&pin, &verifier).expect("verify"));
}

#[test]
fn wrong_pin_returns_false() {
    let verifier = hash_pin(&Pin::new("1234")).expect("hash");
    assert!(!verify(&Pin::new("5678"), &verifier).expect("verify"));
}

#[test]
fn same_pin_produces_different_verifiers() {
    let pin = Pin::new("1234");
    let v1 = hash_pin(&pin).expect("hash");
    let v2 = hash_pin(&pin).expect("hash");
    assert_ne!(v1, v2, "random salt should produce different verifiers");
    assert!(verify(&pin, &v1).expect("verify"));
    assert!(verify(&pin, &v2).expect("verify"));
}

#[test]
fn derive_cache_key_is_deterministic() {
    let pin = Pin::new("1234");
    let verifier = hash_pin(&pin).expect("hash");
    let k1 = derive_cache_key(&pin, &verifier).expect("derive");
    let k2 = derive_cache_key(&pin, &verifier).expect("derive");
    assert!(k1 == k2, "same PIN + verifier must produce same key");
}

#[test]
fn derive_cache_key_differs_for_different_pins() {
    let v1 = hash_pin(&Pin::new("1234")).expect("hash");
    let v2 = hash_pin(&Pin::new("5678")).expect("hash");
    let k1 = derive_cache_key(&Pin::new("1234"), &v1).expect("derive");
    let k2 = derive_cache_key(&Pin::new("5678"), &v2).expect("derive");
    assert!(k1 != k2, "different PINs must produce different keys");
}

#[test]
fn malformed_verifier_returns_error() {
    let pin = Pin::new("1234");
    let garbage = Verifier::new("not-a-verifier");
    assert!(matches!(
        verify(&pin, &garbage),
        Err(PinError::MalformedVerifier(_))
    ));
    assert!(matches!(
        derive_cache_key(&pin, &garbage),
        Err(PinError::MalformedVerifier(_))
    ));
}

#[test]
fn pin_debug_is_masked() {
    let pin = Pin::new("1234");
    assert_eq!(pin.debug_text(), "Pin(***)");
}

#[test]
fn pin_keeps_its_text() {
    let pin = Pin::new("pässwörd");
    assert_eq!(pin.expose(), "pässwörd");
    assert_eq!(pin.clone().expose(), "pässwörd");
}

#[test]
fn hash_with_a_given_salt_is_the_phc_string() {
    let verifier = hash_pin_with_salt(&Pin::new("1234"), SALT).expect("hash");
    assert_eq!(verifier.as_str(), PHC);
    assert!(verify(&Pin::new("1234"), &verifier).expect("verify"));
}

#[test]
fn hash_with_a_bad_salt_fails() {
    let error = hash_pin_with_salt(&Pin::new("1234"), "!").expect_err("bad salt");
    assert!(matches!(error, PinError::HashError(_)));
    assert!(error.message().starts_with("could not hash PIN: "));
}

#[test]
fn cache_key_is_argon2_over_the_salt_text() {
    let key = derive_cache_key(&Pin::new("1234"), &Verifier::new(PHC)).expect("derive");
    assert_eq!(key.salt, SALT.as_bytes().to_vec());
    assert_eq!(
        key.key,
        [
            111, 139, 234, 179, 86, 52, 255, 107, 65, 26, 171, 95, 87, 115, 192, 194, 177, 91, 75,
            94, 185, 223, 214, 179, 248, 242, 64, 73, 119, 107, 176, 239
        ]
    );
}

#[test]
fn cache_key_follows_the_salt_alone() {
    let other = "$argon2id$v=19$m=19456,t=2,p=1$c29tZXNhbHRzb21lc2FsdA$AAAAAAAAAAAAAAAAAAAAAAAAAAAAAAAAAAAAAAAAAAA";
    let pin = Pin::new("1234");
    let a = derive_cache_key(&pin, &Verifier::new(PHC)).expect("derive");
    let b = derive_cache_key(&pin, &Verifier::new(other)).expect("derive");
    assert!(a == b);
    assert!(!verify(&pin, &Verifier::new(other)).expect("verify"));
}

#[test]
fn verifier_without_salt_gives_no_key() {
    let error = derive_cache_key(&Pin::new("1234"), &Verifier::new("$argon2id$v=19$m=19456,t=2,p=1"))
        .err()
        .expect("no salt");
    assert_eq!(error.message(), "verifier is malformed: verifier has no salt");
}

#[test]
fn short_salt_gives_no_key() {
    let error = derive_cache_key(&Pin::new("1234"), &Verifier::new("$argon2id$v=19$c2Fs"))
        .err()
        .expect("short salt");
    assert_eq!(error.message(), "could not hash PIN: salt is too short");
}

#[test]
fn verify_with_other_parameters() {
    let verifier = Verifier::new(
        "$argon2id$v=19$m=65536,t=2,p=1$c29tZXNhbHQ$CTFhFdXPJO1aFaMaO6Mm5c8y7cJHAph8ArZWb2GRPPc",
    );
    assert!(verify(&Pin::new("password"), &verifier).expect("verify"));
    assert!(!verify(&Pin::new("sassword"), &verifier).expect("verify"));
}

#[test]
fn unknown_algorithm_is_malformed() {
    let verifier = Verifier::new("$pbkdf2$c29tZXNhbHRzb21lc2FsdA$E/4dTxxhtsDeiYgvRBqRxyC7IJ9jaR4ywszVocQ+4aw");
    assert!(matches!(
        verify(&Pin::new("1234"), &verifier),
        Err(PinError::MalformedVerifier(_))
    ));
}

#[test]
fn verify_stored_agrees_with_verify() {
    let verifier = Verifier::new(PHC);
    assert!(matches!(
        verify_stored(&Pin::new("1234"), &verifier),
        Some(Ok(true))
    ));
    assert!(matches!(
        verify_stored(&Pin::new("9999"), &verifier),
        Some(Ok(false))
    ));
    assert!(matches!(
        verify_stored(&Pin::new("1234"), &Verifier::new("nonsense")),
        Some(Err(PinError::MalformedVerifier(_)))
    ));
}

/// A verifier of the PIN `1234`, with these parameters in place of the default.
fn with_params(params: &str) -> Verifier {
    Verifier::new(&format!(
        "$argon2id$v=19${params}$c29tZXNhbHRzb21lc2FsdA$E/4dTxxhtsDeiYgvRBqRxyC7IJ9jaR4ywszVocQ+4aw"
    ))
}

#[test]
fn verify_stored_refuses_too_many_lanes() {
    for params in [
        "m=19456,t=2,p=536870912",
        "m=19456,t=2,p=4294967295",
        "m=19456,t=2,p=1,p=536870912",
        "p=536870912",
        "m=8,p=536870912,keyid=8PDw8A,data=Dw8PDw8P",
    ] {
        let outcome = verify_stored(&Pin::new("1234"), &with_params(params));
        assert!(outcome.is_none(), "{params}");
    }
}

#[test]
fn verify_stored_reads_the_last_number_of_lanes() {
    let verifier = with_params("m=19456,t=2,p=536870912,p=1");
    assert!(matches!(
        verify_stored(&Pin::new("1234"), &verifier),
        Some(Ok(true))
    ));
    assert!(matches!(
        verify_stored(&Pin::new("9999"), &verifier),
        Some(Ok(false))
    ));
}

#[test]
fn verify_stored_reports_what_is_wrong_before_the_lanes() {
    for params in [
        "m=19456,t=2,p=536870911",
        "m=7,t=2,p=536870912",
        "m=x,p=536870912",
        "t=x,p=536870912",
        "p=x,p=536870912",
        "p=4294967296",
        "other=1,p=536870912",
        "p=536870912,keyid=1",
        "p=536870912,keyid=AAAAAAAAAAAAAAAA",
        "p=536870912,data=1",
    ] {
        let outcome = verify_stored(&Pin::new("1234"), &with_params(params));
        assert!(
            matches!(outcome, Some(Err(PinError::MalformedVerifier(_)))),
            "{params}"
        );
    }
}

#[test]
fn a_verifier_without_a_hash_is_a_mismatch() {
    for verifier in [
        "$argon2id$v=19$m=19456,t=2,p=536870912",
        "$argon2id$v=19$m=19456,t=2,p=536870912$c29tZXNhbHRzb21lc2FsdA",
        "$argon2id$v=19$test",
    ] {
        assert!(
            matches!(
                verify_stored(&Pin::new("1234"), &Verifier::new(verifier)),
                Some(Ok(false))
            ),
            "{verifier}"
        );
    }
}

#[test]
fn verifier_converts_from_text() {
    let verifier = Verifier::from("$argon2id$v=19$test".to_owned());
    assert_eq!(verifier, Verifier::new("$argon2id$v=19$test"));
    assert_eq!(verifier.clone().as_str(), "$argon2id$v=19$test");
}

#[test]
fn cache_key_debug_hides_the_key() {
    let a = CacheKey {
        key: [1; 32],
        salt: b"ab".to_vec(),
    };
    let b = CacheKey {
        key: [2; 32],
        salt: b"ab".to_vec(),
    };
    assert_eq!(a.debug_text(), "CacheKey { key: \"***\", salt: [97, 98] }");
    assert_eq!(a.debug_text(), b.debug_text());
    assert!(a.clone() == a);
}

#[test]
fn a_fresh_verifier_answers_every_pin() {
    let verifier = hash_pin(&Pin::new("1234")).expect("hash");
    let salt = verifier.as_str().split('$').nth(4).expect("salt").to_owned();
    for other in ["1234", "", "9999", "a much longer pass phrase, ö"] {
        let pin = Pin::new(other);
        assert!(matches!(verify(&pin, &verifier), Ok(matched) if matched == (other == "1234")));
        let key = derive_cache_key(&pin, &verifier).expect("derive");
        assert_eq!(key.salt, salt.as_bytes().to_vec());
    }
}
