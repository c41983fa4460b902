//! The data the adapter exchanges with the host: requests, result entries,
//! dialog fields, actions and side effects, together with the mathematical
//! views the contracts speak about.

use vstd::prelude::*;

verus! {

/// Why the adapter refused a request or a lookup.
#[derive(Clone, Copy, Debug, PartialEq, Eq, Structural)]
pub enum AdapterError {
    /// The incoming payload could not be decoded into a known request.
    MalformedRequest,
    /// A configuration value the extension needs is absent from the host's store.
    MissingSetting,
}

/// One extension-scoped configuration value, owned by the host's store and
/// read-only for the extension.
#[derive(Debug, PartialEq, Eq)]
pub struct Setting {
    pub key: String,
    pub value: String,
}

/// One submitted dialog value, keyed by the field that produced it.
#[derive(Debug, PartialEq, Eq)]
pub struct SubmissionEntry {
    pub key: String,
    pub value: String,
}

/// Why the host invoked the extension process.
#[derive(Debug, PartialEq, Eq)]
pub enum Request {
    /// The host wants the list of display entries.
    FetchResults,
    /// The user activated a previously emitted action, identified by an opaque
    /// name, with its optional argument list and any dialog submission.
    RunAction { action: String, args: Vec<String>, submission: Vec<SubmissionEntry> },
}

/// A select option: the stable value submitted for it and its display label.
#[derive(Debug, PartialEq, Eq)]
pub struct SelectOption {
    pub value: String,
    pub label: String,
}

/// The input widget one dialog field asks the host to render.
#[derive(Debug, PartialEq, Eq)]
pub enum FieldKind {
    Text { placeholder: String },
    MultilineText { placeholder: String },
    Toggle { enabled: bool },
    SingleSelect { selected: String, options: Vec<SelectOption> },
    FilePicker { filters: Vec<String> },
    FolderPicker { start_path: Option<String> },
}

/// One input widget, under the stable key used to correlate its submitted
/// value later.
#[derive(Debug, PartialEq, Eq)]
pub struct DialogField {
    pub key: String,
    pub label: String,
    pub description: String,
    pub kind: FieldKind,
}

/// The effect to perform when a result entry is activated.
#[derive(Debug, PartialEq, Eq)]
pub enum Action {
    NoOp,
    CopyToClipboard { text: String },
    OpenUrl { url: String },
    InvokeExtensionAction { action: String, args: Vec<String> },
    OpenDialog { fields: Vec<DialogField>, submit_action: String },
}

/// What one line of the result list shows.
#[derive(Debug, PartialEq, Eq)]
pub enum ResultBody {
    PlainText { text: String },
    TitleAndSubtitle { title: String, subtitle: String },
    Divider,
}

/// One line in the host's result view.
#[derive(Debug, PartialEq, Eq)]
pub struct ResultEntry {
    pub key: Option<String>,
    pub icon: Option<String>,
    pub body: ResultBody,
    pub action: Action,
}

/// A side effect the adapter asks the host's environment to perform.
#[derive(Debug, PartialEq, Eq)]
pub enum SideEffect {
    /// Nothing to do; the answer to an action the extension does not claim.
    NoEffect,
    /// Send one desktop notification.
    Notification { title: String, body: String },
    /// Print one diagnostic line to the error stream.
    PrintDiagnostic { text: String },
}

/// The adapter's single answer to one request.
#[derive(Debug, PartialEq, Eq)]
pub enum Response {
    /// The entries to display, answering `FetchResults`.
    Results { entries: Vec<ResultEntry> },
    /// The one side effect to perform, answering `RunAction`.
    Effect { effect: SideEffect },
}

// ---------------------------------------------------------------------------
// Mathematical views
// ---------------------------------------------------------------------------

/// View of an optional string.
pub open spec fn opt_str_view(o: Option<String>) -> Option<Seq<char>> {
    match o {
        Some(s) => Some(s@),
        None => None,
    }
}

/// View of a sequence of strings, element by element.
pub open spec fn strs_view(v: Seq<String>) -> Seq<Seq<char>> {
    v.map_values(|s: String| s@)
}

/// View of a submission: each entry as a `(key, value)` pair.
pub open spec fn pairs_view(v: Seq<SubmissionEntry>) -> Seq<(Seq<char>, Seq<char>)> {
    v.map_values(|e: SubmissionEntry| (e.key@, e.value@))
}

/// Mathematical image of a `Request`.
#[verifier::ext_equal]
pub enum RequestV {
    FetchResults,
    RunAction { action: Seq<char>, args: Seq<Seq<char>>, submission: Seq<(Seq<char>, Seq<char>)> },
}

impl View for Request {
    type V = RequestV;

    open spec fn view(&self) -> RequestV {
        match self {
            Request::FetchResults => RequestV::FetchResults,
            Request::RunAction { action, args, submission } => RequestV::RunAction {
                action: action@,
                args: strs_view(args@),
                submission: pairs_view(submission@),
            },
        }
    }
}

/// Mathematical image of a `FieldKind`.
#[verifier::ext_equal]
pub enum FieldKindV {
    Text { placeholder: Seq<char> },
    MultilineText { placeholder: Seq<char> },
    Toggle { enabled: bool },
    SingleSelect { selected: Seq<char>, options: Seq<(Seq<char>, Seq<char>)> },
    FilePicker { filters: Seq<Seq<char>> },
    FolderPicker { start_path: Option<Seq<char>> },
}

impl View for FieldKind {
    type V = FieldKindV;

    open spec fn view(&self) -> FieldKindV {
        match self {
            FieldKind::Text { placeholder } => FieldKindV::Text { placeholder: placeholder@ },
            FieldKind::MultilineText { placeholder } => FieldKindV::MultilineText {
                placeholder: placeholder@,
            },
            FieldKind::Toggle { enabled } => FieldKindV::Toggle { enabled: *enabled },
            FieldKind::SingleSelect { selected, options } => FieldKindV::SingleSelect {
                selected: selected@,
                options: options@.map_values(|o: SelectOption| (o.value@, o.label@)),
            },
            FieldKind::FilePicker { filters } => FieldKindV::FilePicker {
                filters: strs_view(filters@),
            },
            FieldKind::FolderPicker { start_path } => FieldKindV::FolderPicker {
                start_path: match start_path {
                    Some(p) => Some(p@),
                    None => None,
                },
            },
        }
    }
}

/// Mathematical image of a `DialogField`.
#[verifier::ext_equal]
pub struct FieldV {
    pub key: Seq<char>,
    pub label: Seq<char>,
    pub description: Seq<char>,
    pub kind: FieldKindV,
}

impl View for DialogField {
    type V = FieldV;

    open spec fn view(&self) -> FieldV {
        FieldV {
            key: self.key@,
            label: self.label@,
            description: self.description@,
            kind: self.kind@,
        }
    }
}

/// View of a field list, element by element.
pub open spec fn fields_view(v: Seq<DialogField>) -> Seq<FieldV> {
    v.map_values(|f: DialogField| f@)
}

/// Mathematical image of an `Action`.
#[verifier::ext_equal]
pub enum ActionV {
    NoOp,
    CopyToClipboard { text: Seq<char> },
    OpenUrl { url: Seq<char> },
    InvokeExtensionAction { action: Seq<char>, args: Seq<Seq<char>> },
    OpenDialog { fields: Seq<FieldV>, submit_action: Seq<char> },
}

impl View for Action {
    type V = ActionV;

    open spec fn view(&self) -> ActionV {
        match self {
            Action::NoOp => ActionV::NoOp,
            Action::CopyToClipboard { text } => ActionV::CopyToClipboard { text: text@ },
            Action::OpenUrl { url } => ActionV::OpenUrl { url: url@ },
            Action::InvokeExtensionAction { action, args } => ActionV::InvokeExtensionAction {
                action: action@,
                args: strs_view(args@),
            },
            Action::OpenDialog { fields, submit_action } => ActionV::OpenDialog {
                fields: fields_view(fields@),
                submit_action: submit_action@,
            },
        }
    }
}

/// Mathematical image of a `ResultBody`.
#[verifier::ext_equal]
pub enum BodyV {
    PlainText { text: Seq<char> },
    TitleAndSubtitle { title: Seq<char>, subtitle: Seq<char> },
    Divider,
}

impl View for ResultBody {
    type V = BodyV;

    open spec fn view(&self) -> BodyV {
        match self {
            ResultBody::PlainText { text } => BodyV::PlainText { text: text@ },
            ResultBody::TitleAndSubtitle { title, subtitle } => BodyV::TitleAndSubtitle {
                title: title@,
                subtitle: subtitle@,
            },
            ResultBody::Divider => BodyV::Divider,
        }
    }
}

/// Mathematical image of a `ResultEntry`.
#[verifier::ext_equal]
pub struct EntryV {
    pub key: Option<Seq<char>>,
    pub icon: Option<Seq<char>>,
    pub body: BodyV,
    pub action: ActionV,
}

impl View for ResultEntry {
    type V = EntryV;

    open spec fn view(&self) -> EntryV {
        EntryV {
            key: match &self.key {
                Some(k) => Some(k@),
                None => None,
            },
            icon: match &self.icon {
                Some(i) => Some(i@),
                None => None,
            },
            body: self.body@,
            action: self.action@,
        }
    }
}

/// View of an entry list, element by element.
pub open spec fn entries_view(v: Seq<ResultEntry>) -> Seq<EntryV> {
    v.map_values(|e: ResultEntry| e@)
}

/// Mathematical image of a `SideEffect`.
#[verifier::ext_equal]
pub enum SideEffectV {
    NoEffect,
    Notification { title: Seq<char>, body: Seq<char> },
    PrintDiagnostic { text: Seq<char> },
}

impl View for SideEffect {
    type V = SideEffectV;

    open spec fn view(&self) -> SideEffectV {
        match self {
            SideEffect::NoEffect => SideEffectV::NoEffect,
            SideEffect::Notification { title, body } => SideEffectV::Notification {
                title: title@,
                body: body@,
            },
            SideEffect::PrintDiagnostic { text } => SideEffectV::PrintDiagnostic { text: text@ },
        }
    }
}

/// Mathematical image of a `Response`.
#[verifier::ext_equal]
pub enum ResponseV {
    Results { entries: Seq<EntryV> },
    Effect { effect: SideEffectV },
}

impl View for Response {
    type V = ResponseV;

    open spec fn view(&self) -> ResponseV {
        match self {
            Response::Results { entries } => ResponseV::Results {
                entries: entries_view(entries@),
            },
            Response::Effect { effect } => ResponseV::Effect { effect: effect@ },
        }
    }
}

// ---------------------------------------------------------------------------
// Key distinctness
// ---------------------------------------------------------------------------

/// The keys of a field list are pairwise distinct; the host joins a later
/// submission back to its field by this key.
pub open spec fn field_keys_distinct(s: Seq<FieldV>) -> bool {
    forall|i: int, j: int| 0 <= i < j < s.len() ==> s[i].key != s[j].key
}

/// The keys of a result list, where present, are pairwise distinct.
pub open spec fn entry_keys_distinct(s: Seq<EntryV>) -> bool {
    forall|i: int, j: int|
        0 <= i < j < s.len() && s[i].key.is_some() && s[j].key.is_some() ==> s[i].key.unwrap()
            != s[j].key.unwrap()
}

} // verus!
