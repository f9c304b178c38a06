use otp_generator::{generate, password_from_indices, Flags, ERR_ALL_FALSE_FLAGS, ERR_ZERO_LENGTH};

#[test]
fn new_enables_every_class() {
    let f = Flags::new();
    assert!(f.digits && f.lower_case_alphabets && f.upper_case_alphabets && f.special_chars);
}

#[test]
fn default_disables_every_class() {
    let f = Flags::default();
    assert!(!f.digits && !f.lower_case_alphabets && !f.upper_case_alphabets && !f.special_chars);
    assert_eq!(f.allowed_chars(), "");
}

#[test]
fn allowed_chars_in_class_order() {
    assert_eq!(
        Flags::new().allowed_chars(),
        "0123456789abcdefghijklmnopqrstuvwxyzABCDEFGHIJKLMNOPQRSTUVWXYZ#!&@"
    );
    let f = Flags {
        digits: true,
        special_chars: true,
        ..Default::default()
    };
    assert_eq!(f.allowed_chars(), "0123456789#!&@");
    let g = Flags {
        upper_case_alphabets: true,
        ..Default::default()
    };
    assert_eq!(g.allowed_chars(), "ABCDEFGHIJKLMNOPQRSTUVWXYZ");
}

#[test]
fn pool_empty_exactly_when_no_flag() {
    for bits in 0u8..16 {
        let f = Flags {
            digits: bits & 1 != 0,
            lower_case_alphabets: bits & 2 != 0,
            upper_case_alphabets: bits & 4 != 0,
            special_chars: bits & 8 != 0,
        };
        assert_eq!(f.allowed_chars().is_empty(), bits == 0);
    }
}

#[test]
fn zero_length_wins_over_all_false_flags() {
    let result = generate(0, &Flags::default());
    assert_eq!(result, Err(ERR_ZERO_LENGTH));
}

#[test]
fn all_false_flags_error_message() {
    let result = generate(1, &Flags::default());
    assert_eq!(result, Err(ERR_ALL_FALSE_FLAGS));
    assert_eq!(ERR_ALL_FALSE_FLAGS, "All flags are false. Need at least one option true.");
    assert_eq!(ERR_ZERO_LENGTH, "Length is 0.");
}

#[test]
fn every_config_and_length_succeeds_within_pool() {
    for bits in 1u8..16 {
        let f = Flags {
            digits: bits & 1 != 0,
            lower_case_alphabets: bits & 2 != 0,
            upper_case_alphabets: bits & 4 != 0,
            special_chars: bits & 8 != 0,
        };
        let pool = f.allowed_chars();
        for length in [1usize, 2, 7, 64] {
            let password = generate(length, &f).unwrap();
            assert_eq!(password.chars().count(), length);
            assert!(password.chars().all(|c| pool.contains(c)));
        }
    }
}

#[test]
fn single_character_pool_gives_repeated_character() {
    let f = Flags {
        digits: true,
        ..Default::default()
    };
    assert!(generate(3, &f).unwrap().chars().all(|c| c.is_ascii_digit()));
    let password = password_from_indices("#", &[0, 0, 0]);
    assert_eq!(password, "###");
}

#[test]
fn repeated_calls_are_not_fixed() {
    let f = Flags::new();
    let first = generate(12, &f).unwrap();
    let mut differs = false;
    for _ in 0..50 {
        if generate(12, &f).unwrap() != first {
            differs = true;
        }
    }
    assert!(differs);
}

#[test]
fn draws_cover_the_whole_digit_pool() {
    let f = Flags {
        digits: true,
        ..Default::default()
    };
    let mut seen = [false; 10];
    for _ in 0..100 {
        for c in generate(10, &f).unwrap().chars() {
            seen[(c as u8 - b'0') as usize] = true;
        }
    }
    assert!(seen.iter().all(|s| *s));
}

#[test]
fn password_from_indices_picks_positions() {
    assert_eq!(password_from_indices("abc", &[2, 0, 1, 2]), "cabc");
    assert_eq!(password_from_indices("0123456789", &[9, 8, 7]), "987");
    assert_eq!(password_from_indices("abc", &[]), "");
}

#[test]
fn password_from_indices_on_full_pool() {
    let pool = Flags::new().allowed_chars();
    assert_eq!(password_from_indices(&pool, &[0, 10, 36, 62, 65]), "0aA#@");
}

#[test]
fn all_enabled_length_ten() {
    let password = generate(10, &Flags::new()).unwrap();
    assert_eq!(password.len(), 10);
    assert!(password.chars().all(|c| c.is_ascii_alphanumeric() || "#!&@".contains(c)));
}
