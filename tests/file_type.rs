use llama_loader::FileType;

const ALL: [FileType; 10] = [
    FileType::F32,
    FileType::MostlyF16,
    FileType::MostlyQ4_0,
    FileType::MostlyQ4_1,
    FileType::MostlyQ4_2,
    FileType::MostlyQ4_3,
    FileType::MostlyQ5_0,
    FileType::MostlyQ5_1,
    FileType::MostlyQ8_0,
    FileType::MostlyQ8_1,
];

#[test]
fn encode_is_declaration_index() {
    for (i, t) in ALL.iter().enumerate() {
        assert_eq!(i32::from(*t), i as i32);
    }
}

#[test]
fn decode_encode_round_trip() {
    for t in ALL {
        assert_eq!(FileType::try_from(i32::from(t)), Ok(t));
    }
}

#[test]
fn decode_out_of_range_fails() {
    for code in [-1, 10, 11, 99, i32::MIN, i32::MAX] {
        assert_eq!(FileType::try_from(code), Err(()));
    }
}

#[test]
fn codes_are_dense() {
    let mut seen = [false; 10];
    for t in ALL {
        let c = i32::from(t);
        assert!((0..10).contains(&c));
        assert!(!seen[c as usize]);
        seen[c as usize] = true;
    }
    assert!(seen.iter().all(|s| *s));
    for c in 0..10 {
        assert!(FileType::try_from(c).is_ok());
    }
}

#[test]
fn names_are_canonical() {
    let names: Vec<&str> = ALL.iter().map(|t| t.name()).collect();
    assert_eq!(
        names,
        vec!["f32", "f16", "q4_0", "q4_1", "q4_2", "q4_3", "q5_0", "q5_1", "q8_0", "q8_1"]
    );
    assert_eq!(FileType::MostlyQ4_1.to_string(), "q4_1".to_string());
}

#[test]
fn names_are_stable_distinct_and_lowercase() {
    for (i, a) in ALL.iter().enumerate() {
        assert_eq!(a.name(), a.name());
        assert!(!a.name().is_empty());
        assert!(a
            .name()
            .chars()
            .all(|c| c.is_ascii_lowercase() || c.is_ascii_digit() || c == '_'));
        for b in ALL.iter().skip(i + 1) {
            assert_ne!(a.name(), b.name());
        }
    }
}

#[test]
fn default_is_mostly_f16() {
    assert_eq!(FileType::default(), FileType::MostlyF16);
    assert_eq!(i32::from(FileType::default()), 1);
}
