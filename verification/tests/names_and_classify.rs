use haru::classify::classify_outcome;
use haru::decimal::decimal_string;
use haru::launch::build_classify_launch;
use haru::notes::{candidate_file_name, candidate_folder_name, descend_depth, directory_label};

#[test]
fn decimal_exact_values() {
    assert_eq!(decimal_string(0), "0");
    assert_eq!(decimal_string(7), "7");
    assert_eq!(decimal_string(10), "10");
    assert_eq!(decimal_string(8801), "8801");
    assert_eq!(decimal_string(65535), "65535");
    assert_eq!(decimal_string(u64::MAX), "18446744073709551615");
}

#[test]
fn note_names() {
    assert_eq!(candidate_file_name(&None, 0), "New Note.md");
    assert_eq!(candidate_file_name(&None, 1), "New Note (1).md");
    assert_eq!(candidate_file_name(&Some("Idea".to_string()), 0), "Idea.md");
    assert_eq!(candidate_file_name(&Some("Idea".to_string()), 12), "Idea (12).md");
}

#[test]
fn folder_names() {
    assert_eq!(candidate_folder_name(0), "New Folder");
    assert_eq!(candidate_folder_name(3), "New Folder (3)");
}

#[test]
fn directory_labels() {
    assert_eq!(directory_label(&"D:\\notes".to_string()), "D:\\notes/");
}

#[test]
fn depth_budget() {
    assert_eq!(descend_depth(None), Some(None));
    assert_eq!(descend_depth(Some(0)), None);
    assert_eq!(descend_depth(Some(1)), Some(Some(0)));
    assert_eq!(descend_depth(Some(5)), Some(Some(4)));
}

#[test]
fn classifier_launch_is_fixed() {
    let spec = build_classify_launch();
    assert_eq!(
        spec.program,
        "D:\\Programming\\Projects\\Tauri\\haru\\src-tauri\\models\\fasttext.exe"
    );
    assert_eq!(
        spec.args,
        vec![
            "predict",
            "D:\\Programming\\Projects\\Tauri\\haru\\src-tauri\\weights\\model.bin",
            "D:\\Programming\\Projects\\Tauri\\haru\\src-tauri\\weights\\input.txt"
        ]
        .into_iter()
        .map(String::from)
        .collect::<Vec<_>>()
    );
    assert!(spec.current_dir.is_none());
}

#[test]
fn classify_success_trims_output() {
    let r = classify_outcome(
        true,
        &"exit status: 0".to_string(),
        &"  __label__greeting  \n".to_string(),
        &String::new(),
    );
    assert_eq!(r.unwrap(), "__label__greeting");
}

#[test]
fn classify_failure_names_status_and_stderr() {
    let r = classify_outcome(
        false,
        &"exit code: 1".to_string(),
        &String::new(),
        &"model file missing".to_string(),
    );
    assert_eq!(r.unwrap_err(), "FastText failed (exit code: 1): model file missing");
}
