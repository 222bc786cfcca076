use oca_repository::configuration::{ApplicationSettings};
use oca_repository::language::language_of_tag;
use oca_repository::ledger::ledger_text;
use oca_repository::logging::LogOutput;
use oca_repository::routes::internal::{FetchAllCaptureBaseParams, FetchAllOCABundleParams};
use oca_repository::routes::objects::FetchObjectsParams;
use oca_repository::routes::oca_bundles::{
    store_failure, DataEntryFailure,
    xlsx_file_name, DataEntryFormat, DataEntryQuery, OCABundleQueryParams,
    OCAFileHistoryQueryParams, SearchParams,
};
use oca_repository::said_param::parse_said;
use oca_repository::text::{prefix_before_dash, push_decimal, split_commas};

fn app(log_to_file: bool, log_path: Option<&str>, data_entries: Option<&str>) -> ApplicationSettings {
    ApplicationSettings {
        host: "127.0.0.1".to_string(),
        port: 8000,
        data_entries_path: data_entries.map(|s| s.to_string()),
        log_to_file,
        log_path: log_path.map(|s| s.to_string()),
        overlayfile_dir: "core_overlays".to_string(),
    }
}

#[test]
fn split_commas_keeps_every_piece() {
    assert_eq!(split_commas("a,b"), vec!["a".to_string(), "b".to_string()]);
    assert_eq!(split_commas(""), vec!["".to_string()]);
    assert_eq!(split_commas("a,,b"), vec!["a".to_string(), "".to_string(), "b".to_string()]);
    assert_eq!(split_commas(","), vec!["".to_string(), "".to_string()]);
    assert_eq!(split_commas("EÖ1"), vec!["EÖ1".to_string()]);
}

#[test]
fn split_then_join_gives_back_the_text() {
    for text in ["x,y,z", ",lead", "trail,", "", "no commas", "ä,ö,,ü"] {
        let pieces = split_commas(text);
        assert_eq!(pieces.join(","), text);
        assert!(pieces.iter().all(|p| !p.contains(',')));
        assert_eq!(pieces.len(), text.matches(',').count() + 1);
    }
}

#[test]
fn prefix_before_dash_takes_the_primary_subtag() {
    assert_eq!(prefix_before_dash("en-US"), "en");
    assert_eq!(prefix_before_dash("fr"), "fr");
    assert_eq!(prefix_before_dash("-x"), "");
    assert_eq!(prefix_before_dash(""), "");
    assert_eq!(prefix_before_dash("zh-Hant-TW"), "zh");
}

#[test]
fn push_decimal_renders_ports() {
    for n in [0u16, 7, 10, 8000, 65535] {
        let mut s = "p=".to_string();
        push_decimal(&mut s, n);
        assert_eq!(s, format!("p={}", n));
    }
}

#[test]
fn address_joins_host_and_port() {
    assert_eq!(app(false, None, None).address(), "127.0.0.1:8000");
    let mut settings = app(false, None, None);
    settings.host = "0.0.0.0".to_string();
    settings.port = 65535;
    assert_eq!(settings.address(), "0.0.0.0:65535");
}

#[test]
fn log_output_follows_settings() {
    assert!(matches!(app(false, Some("/x.log"), None).log_output(), LogOutput::Stderr));
    match app(true, Some("/x.log"), None).log_output() {
        LogOutput::File(Some(p)) => assert_eq!(p, "/x.log"),
        _ => panic!("expected a log file"),
    }
    assert!(matches!(app(true, None, None).log_output(), LogOutput::File(None)));
}

#[test]
fn log_file_path_defaults() {
    assert_eq!(LogOutput::Stderr.file_path(), None);
    assert_eq!(
        LogOutput::File(None).file_path(),
        Some("/var/log/oca-repository.log".to_string())
    );
    assert_eq!(
        LogOutput::File(Some("logs/app.log".to_string())).file_path(),
        Some("logs/app.log".to_string())
    );
}

#[test]
fn data_entries_dir_defaults_to_tmp() {
    assert_eq!(app(false, None, None).data_entries_dir(), "/tmp");
    assert_eq!(app(false, None, Some("/data")).data_entries_dir(), "/data");
}

#[test]
fn paging_defaults() {
    let p = FetchAllOCABundleParams { page: None, limit: None };
    assert_eq!((p.page(), p.limit()), (1, 100));
    let p = FetchAllOCABundleParams { page: Some(3), limit: Some(5) };
    assert_eq!((p.page(), p.limit()), (3, 5));
    let p = FetchAllCaptureBaseParams { page: None, limit: Some(0) };
    assert_eq!((p.page(), p.limit()), (1, 0));
    let p = FetchAllCaptureBaseParams { page: Some(2), limit: None };
    assert_eq!((p.page(), p.limit()), (2, 100));
}

#[test]
fn objects_query_lists_saids() {
    let q = FetchObjectsParams { said: "EA,EB".to_string() };
    assert_eq!(q.saids(), vec!["EA".to_string(), "EB".to_string()]);
    let q = FetchObjectsParams { said: "EA".to_string() };
    assert_eq!(q.saids(), vec!["EA".to_string()]);
}

#[test]
fn bundle_query_flags_default_to_false() {
    assert!(!OCABundleQueryParams { w: None }.with_dependencies());
    assert!(OCABundleQueryParams { w: Some(true) }.with_dependencies());
    assert!(!OCABundleQueryParams { w: Some(false) }.with_dependencies());
    assert!(!OCAFileHistoryQueryParams { extend: None }.extend());
    assert!(OCAFileHistoryQueryParams { extend: Some(true) }.extend());
}

#[test]
fn languages_from_tags_and_codes() {
    assert_eq!(language_of_tag("en-US"), Some("eng".to_string()));
    assert_eq!(language_of_tag("de"), Some("deu".to_string()));
    assert_eq!(language_of_tag("*"), None);
    assert_eq!(language_of_tag("xx-YY"), None);
    assert_eq!(language_of_tag("pol"), Some("pol".to_string()));
    assert_eq!(language_of_tag("pl-PL"), Some("pol".to_string()));
    assert_eq!(language_of_tag("polish"), None);
}

#[test]
fn search_request_defaults() {
    let params = SearchParams { q: None, lang: None, page: None };
    let request = params.request("en-GB");
    assert_eq!(request.language, Some("eng".to_string()));
    assert_eq!(request.query, "");
    assert_eq!(request.limit, 10);
    assert_eq!(request.page, 1);

    let params = SearchParams {
        q: Some("vehicle".to_string()),
        lang: Some("fra".to_string()),
        page: Some(4),
    };
    let request = params.request("en-GB");
    assert_eq!(request.language, Some("fra".to_string()));
    assert_eq!(request.query, "vehicle");
    assert_eq!(request.page, 4);

    let params = SearchParams { q: None, lang: None, page: None };
    assert_eq!(params.request("*").language, None);
}

#[test]
fn data_entry_plans() {
    let plan = DataEntryQuery { format: None, labels: None, metadata: None }.plan().unwrap();
    assert!(plan.format == DataEntryFormat::Xlsx);
    assert!(!plan.include_metadata_row);

    let plan = DataEntryQuery {
        format: Some("csv".to_string()),
        labels: Some("eng".to_string()),
        metadata: Some("fra".to_string()),
    }
    .plan()
    .unwrap();
    assert!(plan.format == DataEntryFormat::Csv);
    assert!(plan.include_metadata_row);
    assert_eq!(plan.label_lang, Some("eng".to_string()));
    assert_eq!(plan.metadata_lang, Some("fra".to_string()));

    let refused = DataEntryQuery { format: Some("pdf".to_string()), labels: None, metadata: None }.plan();
    assert_eq!(refused.err(), Some("format must be csv or xlsx".to_string()));
    let refused = DataEntryQuery { format: Some("XLSX".to_string()), labels: None, metadata: None }.plan();
    assert!(refused.is_err());
}

#[test]
fn xlsx_names_follow_the_said() {
    assert_eq!(xlsx_file_name("EAbc"), "EAbc.xlsx");
}

#[test]
fn said_parameters() {
    assert!(parse_said("EF5ERATRBBN_ewEo9buQbznirhBmvrSSC0O2GIR4Gbfs").is_ok());
    let refused = parse_said("not-a-said").err().unwrap();
    assert!(refused.starts_with("Invalid SAID: "));
    assert!(refused.len() > "Invalid SAID: ".len());
    assert!(parse_said("").is_err());
    assert_eq!(parse_said("0").err(), Some("Invalid SAID: Unknown code".to_string()));
    assert_eq!(parse_said("0é").err(), Some("Invalid SAID: Unknown code".to_string()));
    assert_eq!(parse_said("0X").err(), Some("Invalid SAID: Unknown code".to_string()));
}

#[test]
fn ledger_text_reports_a_missing_ledger() {
    assert_eq!(ledger_text(Some("{}".to_string())), Ok("{}".to_string()));
    assert_eq!(ledger_text(None), Err("Miising ledger".to_string()));
}

#[test]
fn data_entry_failure_statuses() {
    let said = DataEntryFailure::InvalidSaid { message: "Invalid SAID: x".to_string() };
    assert_eq!(said.status(), 422);
    assert_eq!(said.message(), "Invalid SAID: x");
    assert_eq!(DataEntryFailure::UnknownFormat { message: String::new() }.status(), 400);
    assert_eq!(DataEntryFailure::Configuration { message: String::new() }.status(), 500);
    assert_eq!(DataEntryFailure::Schema { message: String::new() }.status(), 500);
    assert_eq!(DataEntryFailure::Write { message: String::new() }.status(), 500);
    let store = store_failure(&vec!["first".to_string(), "second".to_string()]);
    assert_eq!(store.status(), 500);
    assert_eq!(store.message(), "first");
}
