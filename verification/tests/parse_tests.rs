use pc_landing_page::proto::ServerState;
use pc_landing_page::systemctl::commands::{interpret_capture, interpret_is_active, CaptureError};
use pc_landing_page::systemctl::unit::{AutoStartStatus, Doc, State, Type};
use pc_landing_page::systemctl::unit_list::{any_units, parse_unit_files, unit_names};
use pc_landing_page::text::{split_fields, split_lines, str_eq, trim_str};
use pc_landing_page::util::mk_error;

#[test]
fn test_interpret_capture_success() {
    assert_eq!(
        interpret_capture(Some(0), b"active\n".to_vec()).unwrap(),
        "active\n"
    );
    // exit codes 1 and 3 still carry usable output
    assert_eq!(interpret_capture(Some(1), b"x".to_vec()).unwrap(), "x");
    assert_eq!(interpret_capture(Some(3), b"inactive".to_vec()).unwrap(), "inactive");
}

#[test]
fn test_interpret_capture_errors() {
    assert_eq!(
        interpret_capture(None, b"out".to_vec()).unwrap_err(),
        CaptureError::Interrupted
    );
    assert_eq!(
        interpret_capture(Some(4), b"out".to_vec()).unwrap_err(),
        CaptureError::PermissionDenied
    );
    assert_eq!(
        interpret_capture(Some(7), b"out".to_vec()).unwrap_err(),
        CaptureError::UnexpectedCode(7)
    );
    assert_eq!(
        interpret_capture(Some(0), Vec::new()).unwrap_err(),
        CaptureError::UnexpectedEof
    );
    assert_eq!(
        interpret_capture(Some(0), vec![0xff, 0xfe]).unwrap_err(),
        CaptureError::InvalidData
    );
}

#[test]
fn test_interpret_is_active() {
    assert!(interpret_is_active("active"));
    assert!(interpret_is_active("active\n"));
    assert!(interpret_is_active("active \t\r\n"));
    assert!(!interpret_is_active("inactive\n"));
    assert!(!interpret_is_active(" active"));
    assert!(!interpret_is_active("activex"));
    assert!(!interpret_is_active(""));
}

#[test]
fn test_doc_parse_man() {
    match Doc::parse("man:sshd(8)") {
        Some(Doc::Man(page)) => assert_eq!(page, "sshd"),
        other => panic!("expected a man doc, got {other:?}"),
    }
    match Doc::parse("man:gpm") {
        Some(Doc::Man(page)) => assert_eq!(page, "gpm"),
        other => panic!("expected a man doc, got {other:?}"),
    }
}

#[test]
fn test_doc_parse_url() {
    match Doc::parse("https://example.com/unit") {
        Some(Doc::Url(url)) => assert_eq!(url, "https://example.com/unit"),
        other => panic!("expected a url doc, got {other:?}"),
    }
    match Doc::parse("http: //host/page ") {
        Some(Doc::Url(url)) => assert_eq!(url, "http://host/page"),
        other => panic!("expected a url doc, got {other:?}"),
    }
}

#[test]
fn test_doc_parse_rejects() {
    assert!(Doc::parse("man").is_none());
    assert!(Doc::parse("http://h:8080/x").is_none());
    assert!(Doc::parse("ftp:server").is_none());
    assert!(Doc::parse("").is_none());
}

#[test]
fn test_doc_accessors() {
    let man = Doc::Man("sshd".to_string());
    assert_eq!(man.as_man(), Some("sshd"));
    assert_eq!(man.as_url(), None);
    let url = Doc::Url("https://example.com".to_string());
    assert_eq!(url.as_url(), Some("https://example.com"));
    assert_eq!(url.as_man(), None);
}

#[test]
fn test_enum_parses() {
    assert_eq!(AutoStartStatus::parse("static"), Some(AutoStartStatus::Static));
    assert_eq!(
        AutoStartStatus::parse("enabled-runtime"),
        Some(AutoStartStatus::EnabledRuntime)
    );
    assert_eq!(AutoStartStatus::parse("bogus"), None);
    assert_eq!(AutoStartStatus::default(), AutoStartStatus::Disabled);

    assert_eq!(Type::parse("service"), Some(Type::Service));
    assert_eq!(Type::parse("automount"), Some(Type::AutoMount));
    assert_eq!(Type::parse(""), None);
    assert_eq!(Type::default(), Type::Service);

    assert_eq!(State::parse("loaded"), Some(State::Loaded));
    assert_eq!(State::parse("masked"), Some(State::Masked));
    assert_eq!(State::parse("unloaded"), None);
    assert_eq!(State::default(), State::Masked);
}

#[test]
fn test_parse_unit_files_listing() {
    let content = "UNIT FILE                STATE     VENDOR PRESET\n\
                   ssh.service              enabled   enabled\n\
                   cron.service             enabled   -\n\
                   nginx.service            disabled  disabled\n\
                   \n\
                   3 unit files listed.\n";
    let rows = parse_unit_files(content);
    assert_eq!(rows.len(), 3);
    assert_eq!(rows[0].unit_file, "ssh.service");
    assert_eq!(rows[0].state, "enabled");
    assert_eq!(rows[0].vendor_preset, Some(true));
    assert_eq!(rows[1].unit_file, "cron.service");
    assert_eq!(rows[1].vendor_preset, None);
    assert_eq!(rows[2].state, "disabled");
    assert_eq!(rows[2].vendor_preset, Some(false));

    let names = unit_names(&rows);
    assert_eq!(names, vec!["ssh.service", "cron.service", "nginx.service"]);
}

#[test]
fn test_parse_unit_files_skips_short_lines() {
    let rows = parse_unit_files("lonely.service\nok.service enabled enabled\n");
    assert_eq!(rows.len(), 1);
    assert_eq!(rows[0].unit_file, "ok.service");
}

#[test]
fn test_any_units_decides_existence() {
    assert!(!any_units(&parse_unit_files("0 unit files listed.\n")));
    assert!(any_units(&parse_unit_files("ssh.service enabled enabled\n")));
}

#[test]
fn test_split_lines_and_fields() {
    let lines = split_lines("a b\r\nc\n\nd\n");
    assert_eq!(lines, vec!["a b", "c", "", "d"]);
    assert_eq!(split_lines(""), Vec::<String>::new());
    let fields = split_fields("  one\ttwo   three ");
    assert_eq!(fields, vec!["one", "two", "three"]);
}

#[test]
fn test_trim_and_eq() {
    assert_eq!(trim_str("  a b \t\n"), "a b");
    assert_eq!(trim_str("\r\n"), "");
    assert!(str_eq("héllo", "héllo"));
    assert!(!str_eq("héllo", "hello"));
}

#[test]
fn test_server_state_labels() {
    assert_eq!(ServerState::Off.label(), "Off");
    assert_eq!(ServerState::Booting.label(), "Booting");
    assert_eq!(ServerState::Unknown.label(), "Unknown");
    assert_eq!(ServerState::On.label(), "On");
    assert_eq!(ServerState::Shutdown.label(), "Shutdown");
}

#[test]
fn test_mk_error() {
    let err = mk_error("boom".to_string());
    assert_eq!(err.to_string(), "boom");
}
