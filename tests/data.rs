use miu::data::{classic, ultra};

fn ids(v: &[&str]) -> Vec<String> {
    v.iter().map(|s| s.to_string()).collect()
}

fn names(v: &[(&str, &str)]) -> Vec<(String, String)> {
    v.iter().map(|(a, b)| (a.to_string(), b.to_string())).collect()
}

#[test]
fn classic_data() {
    let data = classic::Data::new(
        ids(&["lvl_a", "lvl_b"]),
        names(&[("lvl_a", "Learning to Roll"), ("lvl_b", "Gem Hunt")]),
        vec![
            (classic::Chapter::Chapter1, ids(&["lvl_a"])),
            (classic::Chapter::Chapter6, ids(&["lvl_b"])),
        ],
    )
    .unwrap();

    assert!(!data.levels().is_empty());
    assert!(!data.names().is_empty());
    assert!(!data.chapters().is_empty());

    assert!(data.levels_of(classic::Chapter::Chapter1).is_some());
    assert!(data.levels_of(classic::Chapter::Chapter6).is_some());

    for level in data.levels() {
        assert!(data.name_of(level).is_some());
    }
    assert_eq!(data.name_of("lvl_b").unwrap(), "Gem Hunt");
    assert!(data.levels_of(classic::Chapter::Chapter3).is_none());
}

#[test]
fn ultra_data() {
    let data = ultra::Data::new(
        ids(&["u1", "u2"]),
        names(&[("u2", "Two"), ("u1", "One")]),
        vec![
            (ultra::Chapter::Chapter1, ids(&["u1"])),
            (ultra::Chapter::Chapter6, ids(&["u2"])),
            (ultra::Chapter::Bonus1, ids(&[])),
            (ultra::Chapter::Bonus4, ids(&[])),
        ],
    )
    .unwrap();

    assert!(!data.levels().is_empty());
    assert!(!data.names().is_empty());
    assert!(!data.chapters().is_empty());

    assert!(data.levels_of(ultra::Chapter::Chapter1).is_some());
    assert!(data.levels_of(ultra::Chapter::Chapter6).is_some());
    assert!(data.levels_of(ultra::Chapter::Bonus1).is_some());
    assert!(data.levels_of(ultra::Chapter::Bonus4).is_some());

    for level in data.levels() {
        assert!(data.name_of(level).is_some());
    }
}

#[test]
fn unnamed_level_is_refused() {
    let r = classic::Data::new(
        ids(&["a", "b", "c"]),
        names(&[("a", "A")]),
        vec![(classic::Chapter::Chapter1, ids(&[])), (classic::Chapter::Chapter6, ids(&[]))],
    );
    assert_eq!(r.unwrap_err(), classic::DataError::MissingName("b".to_string()));
}

#[test]
fn missing_bonus_chapter_is_refused() {
    let r = ultra::Data::new(
        ids(&["a"]),
        names(&[("a", "A")]),
        vec![
            (ultra::Chapter::Chapter1, ids(&[])),
            (ultra::Chapter::Chapter6, ids(&[])),
            (ultra::Chapter::Bonus1, ids(&[])),
        ],
    );
    assert_eq!(r.unwrap_err(), ultra::DataError::MissingChapter(ultra::Chapter::Bonus4));
}

#[test]
fn chapter_labels() {
    assert_eq!(classic::Chapter::Chapter1.label(), "Chapter 1");
    assert_eq!(ultra::Chapter::Bonus4.label(), "Bonus 4");
    assert_eq!(ultra::Chapter::from_label("Bonus 2"), Some(ultra::Chapter::Bonus2));
    assert_eq!(classic::Chapter::from_label("Bonus 2"), None);
}

#[test]
fn load_classic_documents() {
    let data = classic::Data::load(
        br#"["lvl_a", "lvl_b"]"#,
        br#"{"lvl_a": "Learning to Roll", "lvl_b": "Gem Hunt", "lvl_c": "Spare"}"#,
        br#"{"Chapter 1": ["lvl_a"], "Chapter 6": ["lvl_b"], "Chapter 3": []}"#,
    )
    .unwrap();
    assert_eq!(data.levels(), &vec!["lvl_a".to_string(), "lvl_b".to_string()]);
    assert_eq!(data.names().len(), 3);
    assert_eq!(data.name_of("lvl_a").unwrap(), "Learning to Roll");
    assert_eq!(data.levels_of(classic::Chapter::Chapter6).unwrap(), &vec!["lvl_b".to_string()]);
    assert!(data.levels_of(classic::Chapter::Chapter3).unwrap().is_empty());
    assert!(data.levels_of(classic::Chapter::Chapter2).is_none());
}

#[test]
fn load_ultra_documents() {
    let data = ultra::Data::load(
        br#"["u1"]"#,
        br#"{"u1": "One"}"#,
        br#"{"Chapter 1": ["u1"], "Chapter 6": [], "Bonus 1": [], "Bonus 4": []}"#,
    )
    .unwrap();
    assert_eq!(data.chapters().len(), 4);
    assert!(data.levels_of(ultra::Chapter::Bonus4).is_some());
}

#[test]
fn load_rejects_malformed_document() {
    let r = classic::Data::load(br#"["a""#, br#"{}"#, br#"{}"#);
    assert!(matches!(r, Err(classic::LoadError::Json(_))));
    let r = classic::Data::load(br#"["a"]"#, br#"{"a": 1}"#, br#"{}"#);
    assert!(matches!(r, Err(classic::LoadError::Json(_))));
}

#[test]
fn load_rejects_other_editions_chapter() {
    let r = classic::Data::load(
        br#"["a"]"#,
        br#"{"a": "A"}"#,
        br#"{"Chapter 1": [], "Chapter 6": [], "Bonus 1": []}"#,
    );
    match r {
        Err(classic::LoadError::UnknownChapter(label)) => assert_eq!(label, "Bonus 1"),
        other => panic!("unexpected {:?}", other),
    }
}

#[test]
fn load_rejects_inconsistent_tables() {
    let r = ultra::Data::load(
        br#"["a", "b"]"#,
        br#"{"a": "A"}"#,
        br#"{"Chapter 1": [], "Chapter 6": [], "Bonus 1": [], "Bonus 4": []}"#,
    );
    match r {
        Err(ultra::LoadError::Invalid(ultra::DataError::MissingName(id))) => assert_eq!(id, "b"),
        other => panic!("unexpected {:?}", other),
    }
    let r = ultra::Data::load(br#"["a"]"#, br#"{"a": "A"}"#, br#"{"Chapter 1": [], "Chapter 6": []}"#);
    assert!(matches!(
        r,
        Err(ultra::LoadError::Invalid(ultra::DataError::MissingChapter(ultra::Chapter::Bonus1)))
    ));
}
