use crash_viewer::catalog::{
    detail, entry_from_document, list, on_report, on_snapshot, open_report, text_member,
    CatalogEntry, DetailOutcome, DetailStep, ReportSource,
};
use minidump_synth::{SynthMinidump, SystemInfo};
use test_assembler::Endian;

const VALID: &str =
    "{\"event_id\": \"a\", \"timestamp\": \"1700000000.5\", \"message\": \"boom\", \"level\": \"fatal\"}";

fn source(id: &str, text: Option<&str>) -> ReportSource {
    ReportSource { id: id.to_string(), text: text.map(|text| text.to_string()) }
}

fn snapshot() -> Vec<u8> {
    SynthMinidump::with_endian(Endian::Little)
        .add_system_info(SystemInfo::new(Endian::Little).set_platform_id(0x8201))
        .finish()
        .unwrap()
}

#[test]
fn text_member_reads_strings_only() {
    let document = open_report(Some("{\"a\": \"x\", \"n\": 5, \"o\": {\"a\": \"y\"}, \"z\": null}"))
        .unwrap();
    assert_eq!(text_member(&document, "a"), Some("x".to_string()));
    assert_eq!(text_member(&document, "n"), None);
    assert_eq!(text_member(&document, "o"), None);
    assert_eq!(text_member(&document, "z"), None);
    assert_eq!(text_member(&document, "missing"), None);
}

#[test]
fn text_member_of_what_is_no_object() {
    let list_document = open_report(Some("[\"message\"]")).unwrap();
    assert_eq!(text_member(&list_document, "message"), None);
    let text_document = open_report(Some("\"message\"")).unwrap();
    assert_eq!(text_member(&text_document, "message"), None);
}

#[test]
fn open_report_parses_or_gives_nothing() {
    assert!(open_report(Some(VALID)).is_some());
    assert!(open_report(Some("{ not json")).is_none());
    assert!(open_report(Some("")).is_none());
    assert!(open_report(None).is_none());
}

#[test]
fn entry_is_drawn_from_the_report() {
    let document = open_report(Some(VALID)).unwrap();
    assert_eq!(
        entry_from_document("abc", &document),
        CatalogEntry {
            id: "abc".to_string(),
            timestamp: Some("1700000000.5".to_string()),
            message: Some("boom".to_string()),
        }
    );
}

#[test]
fn entry_fields_are_each_optional() {
    let document = open_report(Some("{\"timestamp\": 17, \"other\": true}")).unwrap();
    assert_eq!(
        entry_from_document("abc", &document),
        CatalogEntry { id: "abc".to_string(), timestamp: None, message: None }
    );
}

#[test]
fn listing_leaves_malformed_reports_out() {
    let sources = vec![source("good", Some(VALID)), source("bad", Some("{\"message\": "))];
    assert_eq!(
        list(&sources),
        vec![CatalogEntry {
            id: "good".to_string(),
            timestamp: Some("1700000000.5".to_string()),
            message: Some("boom".to_string()),
        }]
    );
}

#[test]
fn listing_leaves_unreadable_reports_out() {
    let sources = vec![
        source("gone", None),
        source("first", Some("{\"message\": \"one\"}")),
        source("broken", Some("nonsense")),
        source("second", Some("{\"timestamp\": \"2.0\"}")),
    ];
    assert_eq!(
        list(&sources),
        vec![
            CatalogEntry { id: "first".to_string(), timestamp: None, message: Some("one".to_string()) },
            CatalogEntry {
                id: "second".to_string(),
                timestamp: Some("2.0".to_string()),
                message: None
            },
        ]
    );
}

#[test]
fn listing_of_nothing_is_empty() {
    assert_eq!(list(&Vec::new()), Vec::<CatalogEntry>::new());
    assert_eq!(list(&vec![source("x", None)]), Vec::<CatalogEntry>::new());
}

#[test]
fn detail_of_a_missing_report_is_not_found() {
    assert!(matches!(detail(None, None), DetailOutcome::NotFound));
    assert!(matches!(detail(None, Some(&snapshot())), DetailOutcome::NotFound));
}

#[test]
fn detail_of_a_malformed_report_is_not_found() {
    assert!(matches!(detail(Some("{"), Some(&snapshot())), DetailOutcome::NotFound));
}

#[test]
fn detail_without_snapshot_has_no_summary() {
    match detail(Some(VALID), None) {
        DetailOutcome::Found(found) => {
            assert_eq!(found.report.get("message").and_then(|m| m.as_str()), Some("boom"));
            assert_eq!(found.report.get("level").and_then(|m| m.as_str()), Some("fatal"));
            assert!(found.summary.is_none());
            assert!(found.analysis.is_none());
        }
        DetailOutcome::NotFound => panic!("the report is there"),
    }
}

#[test]
fn detail_with_malformed_snapshot_has_no_summary() {
    match detail(Some(VALID), Some(b"MDMP but not really")) {
        DetailOutcome::Found(found) => {
            assert!(found.summary.is_none());
            assert!(found.analysis.is_none());
        }
        DetailOutcome::NotFound => panic!("the report is there"),
    }
}

#[test]
fn detail_with_snapshot_has_its_summary() {
    match detail(Some(VALID), Some(&snapshot())) {
        DetailOutcome::Found(found) => {
            let summary = found.summary.unwrap();
            assert_eq!(summary.os.unwrap().family, "Linux");
            assert_eq!(summary.exception, None);
            assert_eq!(found.analysis.unwrap().system.unwrap().family, "Linux");
        }
        DetailOutcome::NotFound => panic!("the report is there"),
    }
}

#[test]
fn report_decides_how_a_detail_request_goes_on() {
    match on_report("abc", Some(VALID)) {
        DetailStep::LoadSnapshot { path, report } => {
            assert_eq!(path, "crash_dump_abc.dmp");
            assert_eq!(report.get("event_id").and_then(|m| m.as_str()), Some("a"));
        }
        DetailStep::Finish(_) => panic!("the report is there"),
    }
    assert!(matches!(on_report("abc", None), DetailStep::Finish(DetailOutcome::NotFound)));
    assert!(matches!(
        on_report("abc", Some("][")),
        DetailStep::Finish(DetailOutcome::NotFound)
    ));
}

#[test]
fn snapshot_completes_the_detail() {
    let report = open_report(Some(VALID)).unwrap();
    let with = on_snapshot(report.clone(), Some(&snapshot()));
    assert_eq!(with.report, report);
    assert!(with.summary.is_some());
    let without = on_snapshot(report.clone(), None);
    assert_eq!(without.report, report);
    assert!(without.summary.is_none());
}
