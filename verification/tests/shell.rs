use conversation_engine::shell::{InitStatus, Probe, TexturePaths};

fn probe(path: &str, exists: bool) -> Probe {
    Probe { path: path.to_string(), exists }
}

#[test]
fn ready_report() {
    let status = InitStatus::ready_at("/data/models".to_string());
    assert_eq!(
        status,
        InitStatus {
            ready: true,
            message: "Ready".to_string(),
            models_path: "/data/models".to_string()
        }
    );
}

#[test]
fn paths_are_reported_for_files_that_exist() {
    let report = TexturePaths::from_probes(
        probe("/t/00.png", true),
        probe("/t/01.png", false),
        probe("/o/00.png", true),
        probe("/o/01.png", true),
    );
    assert_eq!(
        report,
        TexturePaths {
            current_00: Some("/t/00.png".to_string()),
            current_01: None,
            original_00: Some("/o/00.png".to_string()),
            original_01: Some("/o/01.png".to_string()),
            has_original: true,
        }
    );
}

#[test]
fn originals_count_by_the_first_sheet() {
    let report = TexturePaths::from_probes(
        probe("/t/00.png", true),
        probe("/t/01.png", true),
        probe("/o/00.png", false),
        probe("/o/01.png", true),
    );
    assert!(!report.has_original);
    assert_eq!(report.original_00, None);
    assert_eq!(report.original_01, Some("/o/01.png".to_string()));
}
