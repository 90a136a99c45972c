use cpdb_rs::error::CpdbError;
use cpdb_rs::ffi::backend::Backend;
use cpdb_rs::ffi::callbacks::PrinterUpdate;
use cpdb_rs::ffi::frontend::Frontend;
use cpdb_rs::ffi::job::PrintJob;
use cpdb_rs::ffi::printer::{Margin, Margins, MediaSize, PrintSocketHandle, Printer, TranslationMap};
use cpdb_rs::ffi::settings::Media;
use cpdb_rs::ffi::util::{check_c_options, check_c_string, nul_position};

#[test]
fn printer_from_raw_borrowed_rejects_null() {
    let result = Printer::from_raw_borrowed(0);
    assert!(result.is_err());
    assert!(matches!(result.unwrap_err(), CpdbError::NullPointer));
}

#[test]
fn printer_from_raw_owned_rejects_null() {
    let result = Printer::from_raw_owned(0);
    assert!(result.is_err());
    assert!(matches!(result.unwrap_err(), CpdbError::NullPointer));
}

#[test]
fn handles_keep_their_address_and_ownership() {
    let b = Printer::from_raw_borrowed(0x1000).unwrap();
    assert_eq!(b.as_raw(), 0x1000);
    assert!(!b.is_owned());
    let o = Printer::from_raw_owned(0x2000).unwrap();
    assert!(o.is_owned());
    assert!(matches!(Frontend::from_raw(0), Err(CpdbError::NullPointer)));
    assert_eq!(Frontend::from_raw(7).unwrap().as_raw(), 7);
    assert!(matches!(Media::from_raw(0), Err(CpdbError::NullPointer)));
    assert_eq!(Media::from_raw(9).unwrap().as_raw(), 9);
}

#[test]
fn pdf_acceptance_follows_the_model_name() {
    let p = Printer::from_raw_borrowed(1).unwrap();
    assert!(p.accepts_pdf(Ok("Generic PDF Printer".to_string())).unwrap());
    assert!(p.accepts_pdf(Ok("cups-pdf".to_string())).unwrap());
    assert!(!p.accepts_pdf(Ok("HP LaserJet".to_string())).unwrap());
    assert!(!p.accepts_pdf(Ok("P D F".to_string())).unwrap());
    assert!(!p.accepts_pdf(Err(CpdbError::NullPointer)).unwrap());
}

#[test]
fn printer_update_values() {
    assert_eq!(PrinterUpdate::from_raw(0), Some(PrinterUpdate::Added));
    assert_eq!(PrinterUpdate::from_raw(1), Some(PrinterUpdate::Removed));
    assert_eq!(PrinterUpdate::from_raw(2), Some(PrinterUpdate::StateChanged));
    assert_eq!(PrinterUpdate::from_raw(3), None);
}

#[test]
fn unsupported_objects_report_errors() {
    match Backend::new("CUPS") {
        Err(CpdbError::BackendError(m)) => assert!(m.starts_with("Backend objects not supported")),
        _ => panic!("expected a backend error"),
    }
    match PrintJob::new("p", &[("copies", "1")], "job") {
        Err(CpdbError::JobFailed(m)) => assert!(m.starts_with("Print job objects not supported")),
        _ => panic!("expected a job error"),
    }
}

#[test]
fn translation_map_lookups() {
    let mut t = TranslationMap::default();
    assert!(t.is_empty());
    t.entries.insert("sides".to_string(), "Two-Sided".to_string());
    t.locale = Some("en_US".to_string());
    assert_eq!(t.len(), 1);
    assert_eq!(t.get("sides"), Some("Two-Sided"));
    assert_eq!(t.get("copies"), None);
}

#[test]
fn socket_reply_decisions() {
    let h = PrintSocketHandle::from_reply(Some("/run/s".to_string()), None).unwrap();
    assert_eq!(h.socket_path, "/run/s");
    assert_eq!(h.job_id, "");
    let h = PrintSocketHandle::from_reply(Some("/run/s".to_string()), Some("7".to_string())).unwrap();
    assert_eq!(h.job_id, "7");
    match PrintSocketHandle::from_reply(None, Some("7".to_string())) {
        Err(CpdbError::JobFailed(m)) => assert_eq!(m, "cpdbPrintSocket returned a null socket path"),
        _ => panic!("expected a job failure"),
    }
}

#[test]
fn media_reply_decisions() {
    assert_eq!(
        MediaSize::from_reply("a4", 0, 21000, 29700).unwrap(),
        MediaSize { width: 21000, length: 29700 }
    );
    match MediaSize::from_reply("a4", 1, 0, 0) {
        Err(CpdbError::NotFound(m)) => assert_eq!(m, "media size 'a4'"),
        _ => panic!("expected not found"),
    }
    let m = Margin { top: 1, bottom: 2, left: 3, right: 4 };
    let z = Margin { top: 0, bottom: 0, left: 0, right: 0 };
    let got = Margins::from_reply("a4", 1, Some(vec![m, z])).unwrap();
    assert_eq!(got.entries, vec![m]);
    match Margins::from_reply("a4", 0, Some(vec![m])) {
        Err(CpdbError::NotFound(msg)) => assert_eq!(msg, "media margins 'a4'"),
        _ => panic!("expected not found"),
    }
    assert!(Margins::from_reply("a4", 2, None).is_err());
}

#[test]
fn translation_table_snapshot() {
    let t = TranslationMap::from_table(
        Some("de_DE".to_string()),
        vec![
            (Some("sides".to_string()), Some("Seiten".to_string())),
            (None, Some("x".to_string())),
            (Some("copies".to_string()), None),
            (Some("sides".to_string()), Some("Duplex".to_string())),
        ],
    );
    assert_eq!(t.locale.as_deref(), Some("de_DE"));
    assert_eq!(t.len(), 1);
    assert_eq!(t.get("sides"), Some("Duplex"));
    assert_eq!(t.get("copies"), None);
}

#[test]
fn frontend_lookup_decisions() {
    let printers = Frontend::printers_from_table(&vec![0, 5, 0, 6]);
    let addrs: Vec<usize> = printers.iter().map(|p| p.as_raw()).collect();
    assert_eq!(addrs, vec![5, 6]);
    assert!(printers.iter().all(|p| !p.is_owned()));

    let names = vec![None, Some("Office".to_string()), Some("Lab".to_string()), Some("Lab".to_string())];
    assert_eq!(Frontend::printer_named(&names, "Lab").unwrap(), 2);
    match Frontend::printer_named(&names, "Home") {
        Err(CpdbError::NotFound(m)) => assert_eq!(m, "printer 'Home'"),
        _ => panic!("expected not found"),
    }
    match Frontend::found_printer(0, "p1", "CUPS") {
        Err(CpdbError::NotFound(m)) => assert_eq!(m, "printer 'p1' on backend 'CUPS'"),
        _ => panic!("expected not found"),
    }
    assert_eq!(Frontend::found_printer(8, "p1", "CUPS").unwrap().as_raw(), 8);
    match Frontend::default_printer_from(0) {
        Err(CpdbError::NotFound(m)) => assert_eq!(m, "default printer"),
        _ => panic!("expected not found"),
    }
    match Frontend::default_printer_for_backend_from(0, "CUPS") {
        Err(CpdbError::NotFound(m)) => assert_eq!(m, "default printer for backend 'CUPS'"),
        _ => panic!("expected not found"),
    }
    assert_eq!(Frontend::default_printer_for_backend_from(3, "CUPS").unwrap().as_raw(), 3);
}

#[test]
fn job_stub_operations() {
    let mut missing = PrintJob::new("p", &[], "t");
    assert!(missing.is_err());
    let b = Backend {};
    assert!(b.submit_job("p", "/tmp/f", &[], "t").is_err());
    if let Ok(job) = missing.as_mut() {
        assert!(job.id().is_none());
    }
}

#[test]
fn printer_reply_decisions() {
    assert_eq!(Printer::field_text(Ok("x".to_string())).unwrap(), "x");
    assert_eq!(Printer::field_text(Err(CpdbError::NullPointer)).unwrap(), "");
    assert!(matches!(
        Printer::field_text(Err(CpdbError::Unsupported)),
        Err(CpdbError::Unsupported)
    ));
    match Printer::loaded_from(0, "/tmp/p") {
        Err(CpdbError::NotFound(m)) => assert_eq!(m, "pickled printer at /tmp/p"),
        _ => panic!("expected not found"),
    }
    assert!(Printer::loaded_from(4, "/tmp/p").unwrap().is_owned());
    assert_eq!(Printer::job_id_from_reply(Some("12".to_string()), "cpdbPrintFile").unwrap(), "12");
    match Printer::job_id_from_reply(None, "cpdbPrintFile") {
        Err(CpdbError::JobFailed(m)) => assert_eq!(m, "cpdbPrintFile returned null"),
        _ => panic!("expected a job failure"),
    }
    assert!(Printer::print_fd_outcome(-1, Some("1".to_string()), None).is_err());
    let (fd, id, sock) = Printer::print_fd_outcome(5, None, Some("/s".to_string())).unwrap();
    assert_eq!((fd, id.as_str(), sock.as_deref()), (5, "", Some("/s")));
}

#[test]
fn frontend_add_and_remove_decisions() {
    let borrowed = Printer::from_raw_borrowed(11).unwrap();
    match Frontend::add_printer_target(borrowed) {
        Err(CpdbError::PrinterError(m)) => assert_eq!(m, "add_printer requires an owned Printer"),
        _ => panic!("expected a printer error"),
    }
    let owned = Printer::from_raw_owned(12).unwrap();
    assert_eq!(Frontend::add_printer_target(owned).unwrap(), 12);
    assert!(Frontend::removed_printer_from(0).is_none());
    let back = Frontend::removed_printer_from(13).unwrap();
    assert!(back.is_owned());
    assert_eq!(back.as_raw(), 13);
}

#[test]
fn add_printer_reply_reports_insertion() {
    assert_eq!(Frontend::added_from_reply(1).unwrap(), true);
    assert_eq!(Frontend::added_from_reply(-3).unwrap(), true);
    assert_eq!(Frontend::added_from_reply(0).unwrap(), false);
}

#[test]
fn option_default_follows_the_record_and_value() {
    assert_eq!(Printer::option_default_from(0, Some(Ok("A4".to_string()))).unwrap(), None);
    assert_eq!(Printer::option_default_from(8, None).unwrap(), None);
    assert_eq!(
        Printer::option_default_from(8, Some(Ok("A4".to_string()))).unwrap(),
        Some("A4".to_string())
    );
    match Printer::option_default_from(8, Some(Err(CpdbError::Utf8Error("bad".to_string())))) {
        Err(CpdbError::Utf8Error(m)) => assert_eq!(m, "bad"),
        other => panic!("unexpected {:?}", other),
    }
}

#[test]
fn interior_nul_in_key_is_rejected() {
    let result = check_c_options(&[("co\0pies", "1")]);
    assert!(matches!(result, Err(CpdbError::NulError(_))));
}

#[test]
fn interior_nul_in_value_is_rejected() {
    let result = check_c_options(&[("copies", "1\0")]);
    assert!(matches!(result, Err(CpdbError::NulError(_))));
}

#[test]
fn nul_error_names_the_byte_position() {
    assert!(check_c_options(&[("copies", "1"), ("media", "A4")]).is_ok());
    assert!(check_c_options(&[]).is_ok());
    match check_c_options(&[("copies", "1"), ("m\u{e9}\0dia", "A4\0")]) {
        Err(CpdbError::NulError(m)) => {
            assert_eq!(m, "nul byte found in provided data at position: 3")
        }
        other => panic!("unexpected {:?}", other),
    }
    assert_eq!(nul_position("ab\0c\0"), Some(2));
    assert_eq!(nul_position("abc"), None);
    assert!(check_c_string("plain").is_ok());
}
