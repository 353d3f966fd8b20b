use helide::direnv::{direnv_report, report_exports, DirenvReport};

fn loaded(r: DirenvReport) -> (Vec<(String, String)>, usize) {
    match r {
        DirenvReport::Loaded { mut vars, count } => {
            vars.sort();
            (vars, count)
        }
        other => panic!("expected variables, got {other:?}"),
    }
}

#[test]
fn no_envrc_runs_nothing() {
    assert!(matches!(direnv_report(false, true, true, br#"{"A":"1"}"#), DirenvReport::Skip));
}

#[test]
fn missing_direnv_is_reported() {
    assert!(matches!(direnv_report(true, false, false, b""), DirenvReport::NotInstalled));
}

#[test]
fn failed_export_is_reported() {
    assert!(matches!(direnv_report(true, true, false, br#"{"A":"1"}"#), DirenvReport::ExportFailed));
}

#[test]
fn exported_variables_are_loaded() {
    let (vars, count) = loaded(direnv_report(true, true, true, br#"{"PATH":"/bin","FOO":"bar"}"#));
    assert_eq!(count, 2);
    assert_eq!(
        vars,
        vec![("FOO".to_string(), "bar".to_string()), ("PATH".to_string(), "/bin".to_string())]
    );
}

#[test]
fn a_repeated_key_is_loaded_once_with_its_last_value() {
    let (vars, count) = loaded(direnv_report(true, true, true, br#"{"A":"1","A":"2"}"#));
    assert_eq!(count, 1);
    assert_eq!(vars, vec![("A".to_string(), "2".to_string())]);
}

#[test]
fn an_empty_object_loads_nothing() {
    let (vars, count) = loaded(direnv_report(true, true, true, b"{}"));
    assert_eq!(count, 0);
    assert!(vars.is_empty());
}

#[test]
fn output_that_is_not_a_map_of_strings_loads_nothing() {
    assert!(matches!(direnv_report(true, true, true, b""), DirenvReport::Unparsed));
    assert!(matches!(direnv_report(true, true, true, b"not json"), DirenvReport::Unparsed));
    assert!(matches!(direnv_report(true, true, true, br#"{"UNSET":null}"#), DirenvReport::Unparsed));
    assert!(matches!(direnv_report(true, true, true, b"[]"), DirenvReport::Unparsed));
}

#[test]
fn parsed_variables_are_reported_with_their_count() {
    let vars = vec![("X".to_string(), "1".to_string())];
    let (got, count) = loaded(report_exports(Some(vars.clone())));
    assert_eq!(got, vars);
    assert_eq!(count, 1);
    assert!(matches!(report_exports(None), DirenvReport::Unparsed));
}
