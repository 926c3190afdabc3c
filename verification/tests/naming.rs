use crash_viewer::naming::{
    catalog, collect_crash_ids, correlate, has_snapshot, report_id, report_path, snapshot_path,
    ArtifactPair,
};

fn listing(names: &[&str]) -> Vec<String> {
    names.iter().map(|name| name.to_string()).collect()
}

#[test]
fn report_path_follows_the_convention() {
    assert_eq!(report_path("abc"), "crash_report_abc.json");
}

#[test]
fn snapshot_path_follows_the_convention() {
    assert_eq!(snapshot_path("abc"), "crash_dump_abc.dmp");
}

#[test]
fn report_id_reads_the_identifier() {
    assert_eq!(report_id("crash_report_abc.json"), Some("abc".to_string()));
    assert_eq!(
        report_id("crash_report_3f0c7c7e-58a4-4c3b-9d3e-0a1b2c3d4e5f.json"),
        Some("3f0c7c7e-58a4-4c3b-9d3e-0a1b2c3d4e5f".to_string())
    );
}

#[test]
fn report_id_accepts_an_empty_identifier() {
    assert_eq!(report_id("crash_report_.json"), Some(String::new()));
}

#[test]
fn report_id_passes_over_other_names() {
    assert_eq!(report_id("crash_dump_abc.dmp"), None);
    assert_eq!(report_id("crash_report_abc.txt"), None);
    assert_eq!(report_id("report_abc.json"), None);
    assert_eq!(report_id("crash_report_abc.json.bak"), None);
    assert_eq!(report_id("crash_report.json"), None);
    assert_eq!(report_id(""), None);
    assert_eq!(report_id("Cargo.toml"), None);
}

#[test]
fn report_id_undoes_report_path() {
    for id in ["", "a", "with space", "crash_report_x.json", "ünï"] {
        assert_eq!(report_id(&report_path(id)), Some(id.to_string()));
    }
}

#[test]
fn snapshot_names_are_no_reports() {
    for id in ["", "a", "report_", ".json"] {
        assert_eq!(report_id(&snapshot_path(id)), None);
    }
}

#[test]
fn collect_crash_ids_keeps_reports_in_listing_order() {
    let names = listing(&[
        "crash_report_b.json",
        "notes.txt",
        "crash_dump_b.dmp",
        "crash_report_a.json",
        "crash_report_a.json.tmp",
    ]);
    assert_eq!(collect_crash_ids(&names), vec!["b".to_string(), "a".to_string()]);
}

#[test]
fn collect_crash_ids_of_an_empty_directory() {
    assert_eq!(collect_crash_ids(&Vec::new()), Vec::<String>::new());
}

#[test]
fn has_snapshot_looks_for_the_derived_name() {
    let names = listing(&["crash_report_a.json", "crash_dump_a.dmp", "crash_report_b.json"]);
    assert!(has_snapshot("a", &names));
    assert!(!has_snapshot("b", &names));
    assert!(!has_snapshot("c", &names));
    assert!(!has_snapshot("a", &Vec::new()));
}

#[test]
fn correlate_pairs_an_identifier_with_its_snapshot() {
    let names = listing(&["crash_dump_a.dmp"]);
    assert_eq!(correlate("a", &names), ArtifactPair { id: "a".to_string(), has_snapshot: true });
    assert_eq!(correlate("b", &names), ArtifactPair { id: "b".to_string(), has_snapshot: false });
}

#[test]
fn catalog_pairs_every_report() {
    let names = listing(&[
        "crash_dump_a.dmp",
        "crash_report_a.json",
        "crash_dump_orphan.dmp",
        "crash_report_b.json",
    ]);
    assert_eq!(
        catalog(&names),
        vec![
            ArtifactPair { id: "a".to_string(), has_snapshot: true },
            ArtifactPair { id: "b".to_string(), has_snapshot: false },
        ]
    );
}

#[test]
fn pair_derives_both_paths_from_the_identifier() {
    let with = ArtifactPair { id: "a".to_string(), has_snapshot: true };
    assert_eq!(with.report_path(), "crash_report_a.json");
    assert_eq!(with.snapshot_path(), Some("crash_dump_a.dmp".to_string()));
    let without = ArtifactPair { id: "a".to_string(), has_snapshot: false };
    assert_eq!(without.report_path(), "crash_report_a.json");
    assert_eq!(without.snapshot_path(), None);
}
