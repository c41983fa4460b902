//! Construction of the demo content: the dialog field list and the result
//! list, both pure functions of the resolved settings (and of the folder the
//! edge hands in for the folder picker), with their keys pairwise distinct.

use vstd::prelude::*;
use vstd::string::StringExecFns;

use crate::dialog::new_open_dialog_action;
use crate::model::{
    Action, ActionV, AdapterError, BodyV, DialogField, EntryV, FieldKind, FieldKindV, FieldV,
    ResultBody, ResultEntry, SelectOption, Setting, entries_view, entry_keys_distinct,
    field_keys_distinct, fields_view, opt_str_view,
};
use crate::settings::{starter_name, starter_of};

verus! {

/// The dialog fields the extension asks for: one field of each kind, under
/// pairwise distinct keys.
pub open spec fn expected_dialog_fields(start_path: Option<Seq<char>>) -> Seq<FieldV> {
    seq![
        FieldV {
            key: "trainer-name"@,
            label: "Trainer Name"@,
            description: "The name to greet you by"@,
            kind: FieldKindV::Text { placeholder: "Ash"@ },
        },
        FieldV {
            key: "notes"@,
            label: "Notes"@,
            description: "Anything worth remembering"@,
            kind: FieldKindV::MultilineText { placeholder: "Write freely"@ },
        },
        FieldV {
            key: "shiny-hunt"@,
            label: "Shiny Hunt"@,
            description: "Whether to track shiny encounters"@,
            kind: FieldKindV::Toggle { enabled: true },
        },
        FieldV {
            key: "region"@,
            label: "Region"@,
            description: "The region to explore"@,
            kind: FieldKindV::SingleSelect {
                selected: "paldea"@,
                options: seq![("kanto"@, "Kanto"@), ("johto"@, "Johto"@), ("paldea"@, "Paldea"@)],
            },
        },
        FieldV {
            key: "team-file"@,
            label: "Team File"@,
            description: "Pick a saved team"@,
            kind: FieldKindV::FilePicker { filters: seq!["json"@, "txt"@] },
        },
        FieldV {
            key: "backup-folder"@,
            label: "Backup Folder"@,
            description: "Where backups are stored"@,
            kind: FieldKindV::FolderPicker { start_path: start_path },
        },
    ]
}

/// The result list shown for `FetchResults`, given the starter's display
/// name: a fixed sequence of entries whose keys, where present, are pairwise
/// distinct, with the current starter rendered at position 1.
pub open spec fn expected_entries(name: Seq<char>, start_path: Option<Seq<char>>) -> Seq<EntryV> {
    seq![
        EntryV {
            key: Some("intro"@),
            icon: Some("puzzle.svg"@),
            body: BodyV::PlainText { text: "Extension Example"@ },
            action: ActionV::NoOp,
        },
        EntryV {
            key: Some("current-starter"@),
            icon: Some("starter.png"@),
            body: BodyV::TitleAndSubtitle {
                title: "Current Starter"@,
                subtitle: "Your starter is "@ + name,
            },
            action: ActionV::CopyToClipboard { text: name },
        },
        EntryV { key: None, icon: None, body: BodyV::Divider, action: ActionV::NoOp },
        EntryV {
            key: Some("notify-starter"@),
            icon: Some("bell.svg"@),
            body: BodyV::TitleAndSubtitle {
                title: "Notify Starter"@,
                subtitle: "Send a notification with your starter"@,
            },
            action: ActionV::InvokeExtensionAction {
                action: "notify-starter"@,
                args: Seq::empty(),
            },
        },
        EntryV {
            key: Some("open-page"@),
            icon: Some("open.svg"@),
            body: BodyV::TitleAndSubtitle {
                title: "Open Project Page"@,
                subtitle: "Open the extension's project page"@,
            },
            action: ActionV::OpenUrl { url: "https://example.org/extensions"@ },
        },
        EntryV {
            key: Some("copy-greeting"@),
            icon: Some("copy.svg"@),
            body: BodyV::TitleAndSubtitle {
                title: "Copy Greeting"@,
                subtitle: "Copy a short greeting to the clipboard"@,
            },
            action: ActionV::CopyToClipboard { text: "Hello from the example extension"@ },
        },
        EntryV {
            key: Some("open-dialog"@),
            icon: Some("form.svg"@),
            body: BodyV::TitleAndSubtitle {
                title: "Fill Details"@,
                subtitle: "Open a dialog with one field of each kind"@,
            },
            action: ActionV::OpenDialog {
                fields: expected_dialog_fields(start_path),
                submit_action: "show-submission"@,
            },
        },
    ]
}

/// The keys of the expected dialog fields are pairwise distinct, whatever the
/// folder picker's start path.
pub proof fn lemma_expected_dialog_fields_distinct(start_path: Option<Seq<char>>)
    ensures
        field_keys_distinct(expected_dialog_fields(start_path)),
        expected_dialog_fields(start_path).len() == 6,
{
    let e = expected_dialog_fields(start_path);
    assert forall|i: int, j: int| 0 <= i < j < e.len() implies e[i].key != e[j].key by {
        reveal_strlit("trainer-name");
        reveal_strlit("notes");
        reveal_strlit("shiny-hunt");
        reveal_strlit("region");
        reveal_strlit("team-file");
        reveal_strlit("backup-folder");
        assert(e[0].key == "trainer-name"@);
        assert(e[1].key == "notes"@);
        assert(e[2].key == "shiny-hunt"@);
        assert(e[3].key == "region"@);
        assert(e[4].key == "team-file"@);
        assert(e[5].key == "backup-folder"@);
    }
}

/// Builds the dialog field list, one field of each kind; the folder picker
/// starts at `start_path` when the edge could resolve one.
pub fn build_dialog_fields(start_path: Option<String>) -> (r: Vec<DialogField>)
    ensures
        fields_view(r@) == expected_dialog_fields(opt_str_view(start_path)),
        field_keys_distinct(fields_view(r@)),
        r@.len() == 6,
{
    let f0 = DialogField {
        key: String::from_str("trainer-name"),
        label: String::from_str("Trainer Name"),
        description: String::from_str("The name to greet you by"),
        kind: FieldKind::Text { placeholder: String::from_str("Ash") },
    };
    let f1 = DialogField {
        key: String::from_str("notes"),
        label: String::from_str("Notes"),
        description: String::from_str("Anything worth remembering"),
        kind: FieldKind::MultilineText { placeholder: String::from_str("Write freely") },
    };
    let f2 = DialogField {
        key: String::from_str("shiny-hunt"),
        label: String::from_str("Shiny Hunt"),
        description: String::from_str("Whether to track shiny encounters"),
        kind: FieldKind::Toggle { enabled: true },
    };
    let f3 = DialogField {
        key: String::from_str("region"),
        label: String::from_str("Region"),
        description: String::from_str("The region to explore"),
        kind: FieldKind::SingleSelect {
            selected: String::from_str("paldea"),
            options: vec![
                SelectOption {
                    value: String::from_str("kanto"),
                    label: String::from_str("Kanto"),
                },
                SelectOption {
                    value: String::from_str("johto"),
                    label: String::from_str("Johto"),
                },
                SelectOption {
                    value: String::from_str("paldea"),
                    label: String::from_str("Paldea"),
                },
            ],
        },
    };
    let f4 = DialogField {
        key: String::from_str("team-file"),
        label: String::from_str("Team File"),
        description: String::from_str("Pick a saved team"),
        kind: FieldKind::FilePicker {
            filters: vec![String::from_str("json"), String::from_str("txt")],
        },
    };
    let f5 = DialogField {
        key: String::from_str("backup-folder"),
        label: String::from_str("Backup Folder"),
        description: String::from_str("Where backups are stored"),
        kind: FieldKind::FolderPicker { start_path },
    };
    let r = vec![f0, f1, f2, f3, f4, f5];
    proof {
        let e = expected_dialog_fields(opt_str_view(start_path));
        assert(fields_view(r@) =~~= e);
        lemma_expected_dialog_fields_distinct(opt_str_view(start_path));
    }
    r
}

/// The keys of the expected result entries, where present, are pairwise
/// distinct, whatever the starter's name.
pub proof fn lemma_expected_entries_distinct(name: Seq<char>, start_path: Option<Seq<char>>)
    ensures
        entry_keys_distinct(expected_entries(name, start_path)),
        expected_entries(name, start_path).len() == 7,
{
    let exp = expected_entries(name, start_path);
    assert forall|i: int, j: int|
        0 <= i < j < exp.len() && exp[i].key.is_some()
            && exp[j].key.is_some() implies exp[i].key.unwrap() != exp[j].key.unwrap() by {
        reveal_strlit("intro");
        reveal_strlit("current-starter");
        reveal_strlit("notify-starter");
        reveal_strlit("open-page");
        reveal_strlit("copy-greeting");
        reveal_strlit("open-dialog");
        assert(exp[0].key == Some("intro"@));
        assert(exp[1].key == Some("current-starter"@));
        assert(exp[2].key is None);
        assert(exp[3].key == Some("notify-starter"@));
        assert(exp[4].key == Some("open-page"@));
        assert(exp[5].key == Some("copy-greeting"@));
        assert(exp[6].key == Some("open-dialog"@));
        assert(exp[0].key.unwrap() == "intro"@);
        assert(exp[1].key.unwrap() == "current-starter"@);
        assert(exp[3].key.unwrap() == "notify-starter"@);
        assert(exp[4].key.unwrap() == "open-page"@);
        assert(exp[5].key.unwrap() == "copy-greeting"@);
        assert(exp[6].key.unwrap() == "open-dialog"@);
    }
}

/// Builds the result list for a `FetchResults` request from the resolved
/// settings, refusing with `MissingSetting` exactly when the starter's name
/// cannot be resolved.
pub fn build_result_list(settings: &Vec<Setting>, dialog_start_path: Option<String>) -> (r: Result<
    Vec<ResultEntry>,
    AdapterError,
>)
    ensures
        match r {
            Ok(entries) => starter_of(settings@) matches Some(name) && (entries_view(entries@)
                == expected_entries(name, opt_str_view(dialog_start_path)) && entry_keys_distinct(
                entries_view(entries@),
            ) && entries@.len() == 7),
            Err(e) => e == AdapterError::MissingSetting && starter_of(settings@) is None,
        },
{
    let name = match starter_name(settings) {
        Ok(v) => v,
        Err(e) => {
            return Err(e);
        },
    };
    let fields = build_dialog_fields(dialog_start_path);
    let dialog_action = match new_open_dialog_action(fields, String::from_str("show-submission")) {
        Some(a) => a,
        None => {
            proof {
                assert(false);
            }
            Action::NoOp
        },
    };
    let e0 = ResultEntry {
        key: Some(String::from_str("intro")),
        icon: Some(String::from_str("puzzle.svg")),
        body: ResultBody::PlainText { text: String::from_str("Extension Example") },
        action: Action::NoOp,
    };
    let e1 = ResultEntry {
        key: Some(String::from_str("current-starter")),
        icon: Some(String::from_str("starter.png")),
        body: ResultBody::TitleAndSubtitle {
            title: String::from_str("Current Starter"),
            subtitle: String::from_str("Your starter is ").concat(name.as_str()),
        },
        action: Action::CopyToClipboard { text: name.clone() },
    };
    let e2 = ResultEntry { key: None, icon: None, body: ResultBody::Divider, action: Action::NoOp };
    let e3 = ResultEntry {
        key: Some(String::from_str("notify-starter")),
        icon: Some(String::from_str("bell.svg")),
        body: ResultBody::TitleAndSubtitle {
            title: String::from_str("Notify Starter"),
            subtitle: String::from_str("Send a notification with your starter"),
        },
        action: Action::InvokeExtensionAction {
            action: String::from_str("notify-starter"),
            args: Vec::new(),
        },
    };
    let e4 = ResultEntry {
        key: Some(String::from_str("open-page")),
        icon: Some(String::from_str("open.svg")),
        body: ResultBody::TitleAndSubtitle {
            title: String::from_str("Open Project Page"),
            subtitle: String::from_str("Open the extension's project page"),
        },
        action: Action::OpenUrl { url: String::from_str("https://example.org/extensions") },
    };
    let e5 = ResultEntry {
        key: Some(String::from_str("copy-greeting")),
        icon: Some(String::from_str("copy.svg")),
        body: ResultBody::TitleAndSubtitle {
            title: String::from_str("Copy Greeting"),
            subtitle: String::from_str("Copy a short greeting to the clipboard"),
        },
        action: Action::CopyToClipboard {
            text: String::from_str("Hello from the example extension"),
        },
    };
    let e6 = ResultEntry {
        key: Some(String::from_str("open-dialog")),
        icon: Some(String::from_str("form.svg")),
        body: ResultBody::TitleAndSubtitle {
            title: String::from_str("Fill Details"),
            subtitle: String::from_str("Open a dialog with one field of each kind"),
        },
        action: dialog_action,
    };
    let entries = vec![e0, e1, e2, e3, e4, e5, e6];
    proof {
        let ev = entries_view(entries@);
        let exp = expected_entries(name@, opt_str_view(dialog_start_path));
        assert(ev =~~= exp);
        lemma_expected_entries_distinct(name@, opt_str_view(dialog_start_path));
    }
    Ok(entries)
}

} // verus!
