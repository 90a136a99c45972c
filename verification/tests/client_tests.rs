use cpdb_rs::client::CpdbClient;
use cpdb_rs::error::CpdbError;

fn client() -> CpdbClient {
    CpdbClient::from_service_names(vec![
        "org.openprinting.Backend.CUPS".to_string(),
        "org.openprinting.Backend.FILE".to_string(),
    ])
}

#[test]
fn backend_found_by_short_and_full_name() {
    let c = client();
    assert_eq!(c.backend_count(), 2);
    assert_eq!(c.proxy_for("CUPS").unwrap(), 0);
    assert_eq!(c.proxy_for("FILE").unwrap(), 1);
    assert_eq!(c.proxy_for("org.openprinting.Backend.FILE").unwrap(), 1);
    assert_eq!(c.service_name(1), "org.openprinting.Backend.FILE");
}

#[test]
fn unknown_backend_is_an_error() {
    let c = client();
    match c.proxy_for("Backend.CUPS") {
        Err(CpdbError::BackendError(m)) => assert_eq!(m, "No backend found matching 'Backend.CUPS'"),
        other => panic!("unexpected {:?}", other),
    }
    assert!(matches!(c.proxy_for(""), Err(CpdbError::BackendError(_))));
    let none = CpdbClient::from_service_names(vec![]);
    assert_eq!(none.backend_count(), 0);
    assert!(none.proxy_for("CUPS").is_err());
}

#[test]
fn backend_names_are_filtered_from_activatable_names() {
    let names = vec![
        "org.freedesktop.DBus".to_string(),
        "org.openprinting.Backend.CUPS".to_string(),
        "org.openprinting.Backend.9bad".to_string(),
        "org.openprinting.Backend.".to_string(),
        "org.openprinting.Backend.FILE".to_string(),
        "com.example.Other".to_string(),
    ];
    let kept = CpdbClient::backend_names(&names);
    assert_eq!(
        kept,
        vec!["org.openprinting.Backend.CUPS", "org.openprinting.Backend.FILE"]
    );
    let flags = vec![false, true, true, true, false, true];
    let picked = CpdbClient::select_backend_names(&names, &flags);
    assert_eq!(
        picked,
        vec![
            "org.openprinting.Backend.CUPS",
            "org.openprinting.Backend.9bad",
            "org.openprinting.Backend."
        ]
    );
}

#[test]
fn printers_of_failed_backends_are_skipped() {
    let rec = |id: &str, backend: &str, state: &str| {
        (
            id.to_string(),
            format!("{id} name"),
            String::new(),
            String::new(),
            String::new(),
            true,
            state.to_string(),
            backend.to_string(),
        )
    };
    let replies = vec![
        Some(vec![rec("a", "CUPS", "idle"), rec("b", "CUPS", "processing")]),
        None,
        Some(vec![]),
        Some(vec![rec("c", "FILE", "weird")]),
    ];
    let printers = CpdbClient::collect_printers(&replies);
    let ids: Vec<&str> = printers.iter().map(|p| p.id.as_str()).collect();
    assert_eq!(ids, vec!["a", "b", "c"]);
    assert!(printers[0].is_ready());
    assert!(!printers[1].is_ready());
    assert_eq!(printers[2].state.as_str(), "weird");
    assert_eq!(printers[2].backend, "FILE");
}

#[test]
fn retry_and_keep_alive_rules() {
    assert!(CpdbClient::should_retry("org.freedesktop.DBus.Error.UnknownMethod"));
    assert!(!CpdbClient::should_retry("org.freedesktop.DBus.Error.ServiceUnknown"));
    assert_eq!(CpdbClient::keep_alive_interval_secs(), 15);
}

#[test]
fn backend_names_follow_the_bus_name_rules() {
    let long = format!("org.openprinting.Backend.{}", "A".repeat(231));
    let just_fits = format!("org.openprinting.Backend.{}", "A".repeat(230));
    let names = vec![
        "org.openprinting.Backend.CUPS-2_x".to_string(),
        "org.openprinting.Backend.a..b".to_string(),
        "org.openprinting.Backend.x.".to_string(),
        "org.openprinting.Backend._9".to_string(),
        "org.openprinting.Backend.x.9y".to_string(),
        "org.openprinting.Backend.caf\u{e9}".to_string(),
        "org.openprinting.Backend.a b".to_string(),
        long,
        just_fits.clone(),
    ];
    let kept = CpdbClient::backend_names(&names);
    assert_eq!(
        kept,
        vec![
            "org.openprinting.Backend.CUPS-2_x".to_string(),
            "org.openprinting.Backend._9".to_string(),
            just_fits,
        ]
    );
}
