use extension_adapter::adapter::handle_request;
use extension_adapter::dialog::{check_field_keys_distinct, new_open_dialog_action};
use extension_adapter::dispatch::{dispatch_action, render_submission};
use extension_adapter::model::{
    Action, AdapterError, DialogField, FieldKind, Request, Response, ResultBody, Setting,
    SideEffect, SubmissionEntry,
};
use extension_adapter::results::{build_dialog_fields, build_result_list};
use extension_adapter::settings::{resolve_setting, starter_name};

fn setting(key: &str, value: &str) -> Setting {
    Setting { key: key.to_string(), value: value.to_string() }
}

fn entry(key: &str, value: &str) -> SubmissionEntry {
    SubmissionEntry { key: key.to_string(), value: value.to_string() }
}

#[test]
fn resolve_setting_finds_value() {
    let settings = vec![setting("starter", "sprigatito"), setting("volume", "11")];
    assert_eq!(resolve_setting(&settings, "volume"), Ok("11".to_string()));
}

#[test]
fn resolve_setting_missing_key_fails() {
    let settings = vec![setting("starter", "sprigatito")];
    assert_eq!(resolve_setting(&settings, "volume"), Err(AdapterError::MissingSetting));
}

#[test]
fn starter_name_uses_value_directly() {
    let settings = vec![setting("starter", "Fuecoco")];
    assert_eq!(starter_name(&settings), Ok("Fuecoco".to_string()));
}

#[test]
fn starter_name_other_redirects() {
    let settings = vec![setting("starter", "other"), setting("other-pokemon", "Pikachu")];
    assert_eq!(starter_name(&settings), Ok("Pikachu".to_string()));
}

#[test]
fn starter_name_other_without_fallback_fails() {
    let settings = vec![setting("starter", "other")];
    assert_eq!(starter_name(&settings), Err(AdapterError::MissingSetting));
}

#[test]
fn fetch_results_with_other_starter_shows_pikachu() {
    let settings = vec![setting("starter", "other"), setting("other-pokemon", "Pikachu")];
    let response = handle_request(&Request::FetchResults, &settings, None).unwrap();
    match response {
        Response::Results { entries } => {
            let starter_entry = &entries[1];
            assert_eq!(starter_entry.key, Some("current-starter".to_string()));
            match &starter_entry.body {
                ResultBody::TitleAndSubtitle { title, subtitle } => {
                    assert_eq!(title, "Current Starter");
                    assert_eq!(subtitle, "Your starter is Pikachu");
                    assert!(subtitle.contains("Pikachu"));
                }
                other => panic!("unexpected body at the starter position: {:?}", other),
            }
        }
        Response::Effect { effect } => panic!("expected a result list, got {:?}", effect),
    }
}

#[test]
fn fetch_results_nonempty_with_distinct_keys() {
    let settings = vec![setting("starter", "Quaxly")];
    let entries = build_result_list(&settings, None).unwrap();
    assert!(!entries.is_empty());
    assert_eq!(entries.len(), 7);
    let keys: Vec<&String> = entries.iter().filter_map(|e| e.key.as_ref()).collect();
    for a in 0..keys.len() {
        for b in (a + 1)..keys.len() {
            assert_ne!(keys[a], keys[b]);
        }
    }
}

#[test]
fn fetch_results_without_starter_fails() {
    let settings: Vec<Setting> = Vec::new();
    assert_eq!(
        handle_request(&Request::FetchResults, &settings, None),
        Err(AdapterError::MissingSetting)
    );
}

#[test]
fn unknown_action_is_noop_any_number_of_times() {
    let settings = vec![setting("starter", "Sprigatito")];
    let submission: Vec<SubmissionEntry> = Vec::new();
    let args: Vec<String> = Vec::new();
    for _ in 0..3 {
        let effect = dispatch_action("not-declared", &args, &submission, &settings).unwrap();
        assert_eq!(effect, SideEffect::NoEffect);
    }
}

#[test]
fn notify_starter_triggers_single_notification() {
    let settings = vec![setting("starter", "Sprigatito")];
    let request = Request::RunAction {
        action: "notify-starter".to_string(),
        args: Vec::new(),
        submission: Vec::new(),
    };
    let response = handle_request(&request, &settings, None).unwrap();
    match response {
        Response::Effect { effect } => match effect {
            SideEffect::Notification { title, body } => {
                assert_eq!(title, "Starter");
                assert_eq!(body, "Your starter is Sprigatito");
            }
            other => panic!("expected one notification, got {:?}", other),
        },
        Response::Results { entries } => {
            panic!("expected no result list, got {} entries", entries.len())
        }
    }
}

#[test]
fn notify_starter_without_starter_fails() {
    let settings: Vec<Setting> = Vec::new();
    let request = Request::RunAction {
        action: "notify-starter".to_string(),
        args: Vec::new(),
        submission: Vec::new(),
    };
    assert_eq!(handle_request(&request, &settings, None), Err(AdapterError::MissingSetting));
}

#[test]
fn show_submission_prints_diagnostics() {
    let settings = vec![setting("starter", "Sprigatito")];
    let request = Request::RunAction {
        action: "show-submission".to_string(),
        args: Vec::new(),
        submission: vec![entry("trainer-name", "Ash"), entry("notes", "hi")],
    };
    let response = handle_request(&request, &settings, None).unwrap();
    assert_eq!(
        response,
        Response::Effect {
            effect: SideEffect::PrintDiagnostic { text: "trainer-name: Ash\nnotes: hi\n".to_string() }
        }
    );
}

#[test]
fn render_submission_exact_text() {
    let submission = vec![entry("a", "1"), entry("b", "2")];
    assert_eq!(render_submission(&submission), "a: 1\nb: 2\n");
}

#[test]
fn dialog_fields_have_distinct_keys() {
    let fields = build_dialog_fields(None);
    assert_eq!(fields.len(), 6);
    assert!(check_field_keys_distinct(&fields));
    let keys: Vec<&str> = fields.iter().map(|f| f.key.as_str()).collect();
    assert_eq!(
        keys,
        vec!["trainer-name", "notes", "shiny-hunt", "region", "team-file", "backup-folder"]
    );
}

#[test]
fn dialog_fields_carry_start_path() {
    let fields = build_dialog_fields(Some("/pictures".to_string()));
    match &fields[5].kind {
        FieldKind::FolderPicker { start_path } => {
            assert_eq!(start_path, &Some("/pictures".to_string()));
        }
        other => panic!("expected a folder picker, got {:?}", other),
    }
}

#[test]
fn open_dialog_action_rejects_duplicate_keys() {
    let make = |key: &str| DialogField {
        key: key.to_string(),
        label: "Label".to_string(),
        description: "Description".to_string(),
        kind: FieldKind::Text { placeholder: String::new() },
    };
    let duplicated = vec![make("twice"), make("twice")];
    assert!(new_open_dialog_action(duplicated, "submit".to_string()).is_none());
    let distinct = vec![make("once"), make("twice")];
    match new_open_dialog_action(distinct, "submit".to_string()) {
        Some(Action::OpenDialog { fields, submit_action }) => {
            assert_eq!(fields.len(), 2);
            assert_eq!(submit_action, "submit");
        }
        other => panic!("expected an open-dialog action, got {:?}", other),
    }
}
