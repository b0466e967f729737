use commit_reveal::{commit, secure_hash, verify_preimage};

#[test]
fn password_accepts_correct_secret() {
    let stored = commit(123456789);
    assert!(verify_preimage(stored, 123456789));
}

#[test]
fn password_rejects_wrong_secret() {
    let stored = commit(123456789);
    assert!(!verify_preimage(stored, 987654321));
}

#[test]
fn small_number_bet() {
    let c = commit(7);
    assert!(verify_preimage(c, 7));
    assert!(!verify_preimage(c, 8));
}

#[test]
fn club_secret() {
    let c = commit(42424242);
    assert!(verify_preimage(c, 42424242));
    assert!(!verify_preimage(c, 11111111));
}

#[test]
fn zero_secret() {
    let c = commit(0);
    assert_eq!(c, 0);
    assert!(verify_preimage(c, 0));
    assert!(!verify_preimage(c, 1));
}

#[test]
fn largest_secret() {
    let c = commit(u64::MAX);
    assert_eq!(c, 18293633963858904843);
    assert!(verify_preimage(c, u64::MAX));
    assert!(!verify_preimage(c, u64::MAX - 1));
}

#[test]
fn mix_exact_values() {
    assert_eq!(secure_hash(0), 0);
    assert_eq!(secure_hash(1), 18092304769448639842);
    assert_eq!(secure_hash(7), 6955401259924602371);
    assert_eq!(secure_hash(8), 5121824812189778716);
    assert_eq!(secure_hash(123456789), 11945370440005787827);
    assert_eq!(secure_hash(987654321), 4437948303683396165);
    assert_eq!(secure_hash(42424242), 3640661004788523609);
    assert_eq!(secure_hash(11111111), 3080731781113108506);
}

#[test]
fn commit_is_the_mix() {
    for x in [0u64, 1, 7, 42424242, u64::MAX] {
        assert_eq!(commit(x), secure_hash(x));
    }
}

#[test]
fn commit_is_deterministic() {
    for x in [0u64, 3, 123456789, u64::MAX] {
        assert_eq!(commit(x), commit(x));
    }
}

#[test]
fn secret_opens_own_commitment() {
    for x in [0u64, 1, 2, 1 << 32, (1 << 32) + 1, u64::MAX / 3, u64::MAX] {
        assert!(verify_preimage(commit(x), x));
    }
}

#[test]
fn other_claims_rejected() {
    let xs = [0u64, 1, 2, 7, 8, 1 << 32, (1 << 32) + 1, u64::MAX - 1, u64::MAX];
    for &x in xs.iter() {
        for &y in xs.iter() {
            assert_eq!(verify_preimage(commit(x), y), x == y);
        }
    }
}

#[test]
fn commitment_differs_from_nonzero_secrets() {
    for x in [1u64, 7, 8, 123456789, 42424242, u64::MAX] {
        assert_ne!(commit(x), x);
    }
}

#[test]
fn verify_against_arbitrary_value() {
    assert!(!verify_preimage(12345, 7));
    assert!(verify_preimage(6955401259924602371, 7));
}
