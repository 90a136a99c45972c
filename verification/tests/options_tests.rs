use cpdb_rs::options::{OptionInfo, OptionsCollection};

#[test]
fn empty_collection_helpers() {
    let col = OptionsCollection::default();
    assert!(col.is_empty());
    assert_eq!(col.len(), 0);
    assert!(col.get("copies").is_none());
}

#[test]
fn collection_get_finds_by_name() {
    let col = OptionsCollection {
        options: vec![
            OptionInfo {
                name: "copies".to_string(),
                default_value: "1".to_string(),
                group: "General".to_string(),
                supported_values: vec!["1".to_string(), "2".to_string()],
            },
            OptionInfo {
                name: "sides".to_string(),
                default_value: "one-sided".to_string(),
                group: "General".to_string(),
                supported_values: vec![
                    "one-sided".to_string(),
                    "two-sided-long-edge".to_string(),
                ],
            },
        ],
    };
    let found = col.get("sides");
    assert_eq!(found.unwrap().default_value, "one-sided");
    assert!(col.get("nonexistent").is_none());
}

#[test]
fn collection_len_and_iter() {
    let col = OptionsCollection {
        options: vec![
            OptionInfo {
                name: "a".into(),
                default_value: String::new(),
                group: String::new(),
                supported_values: vec![],
            },
            OptionInfo {
                name: "b".into(),
                default_value: String::new(),
                group: String::new(),
                supported_values: vec![],
            },
        ],
    };
    assert_eq!(col.len(), 2);
    assert_eq!(col.iter().count(), 2);
}

#[test]
fn get_returns_the_first_of_equal_names() {
    let mk = |name: &str, dv: &str| OptionInfo {
        name: name.to_string(),
        default_value: dv.to_string(),
        group: String::new(),
        supported_values: vec![],
    };
    let col = OptionsCollection {
        options: vec![mk("a", "1"), mk("b", "2"), mk("a", "3")],
    };
    assert_eq!(col.get("a").unwrap().default_value, "1");
    let names: Vec<&str> = col.iter().map(|o| o.name.as_str()).collect();
    assert_eq!(names, vec!["a", "b", "a"]);
}

#[test]
fn options_from_c_fields_and_table() {
    let o = OptionInfo::from_c_fields(
        Some("copies".to_string()),
        None,
        Some("General".to_string()),
        vec![Some("1".to_string()), None, Some("2".to_string())],
    );
    assert_eq!(o.name, "copies");
    assert_eq!(o.default_value, "");
    assert_eq!(o.group, "General");
    assert_eq!(o.supported_values, vec!["1", "2"]);
    let col = OptionsCollection::from_c_table(vec![None, Some(o.clone()), None]);
    assert_eq!(col.len(), 1);
    assert_eq!(col.get("copies"), Some(&o));
}

#[test]
fn options_table_must_exist() {
    use_table();
}

fn use_table() {
    match OptionsCollection::from_c_options(None) {
        Err(cpdb_rs::error::CpdbError::BackendError(m)) => {
            assert_eq!(m, "cpdbGetAllOptions returned null \u{2014} call acquire_details() first")
        }
        _ => panic!("expected a backend error"),
    }
    let col = OptionsCollection::from_c_options(Some(vec![])).unwrap();
    assert!(col.is_empty());
}

#[test]
fn option_record_null_checks() {
    assert!(matches!(
        OptionsCollection::from_c_record(0, Some(vec![])),
        Err(cpdb_rs::error::CpdbError::NullPointer)
    ));
    assert!(OptionsCollection::from_c_record(16, None).unwrap().is_empty());
    let o = OptionInfo::from_c_fields(Some("sides".to_string()), None, None, vec![]);
    let col = OptionsCollection::from_c_record(16, Some(vec![Some(o.clone()), None])).unwrap();
    assert_eq!(col.options, vec![o]);
}
