//! The adapter's single step: one decoded request in, exactly one response
//! out — a result list for `FetchResults`, one side effect for `RunAction`.

use vstd::prelude::*;

use crate::dispatch::dispatch_action;
use crate::dispatch::dispatch_model;
use crate::model::{
    AdapterError, Request, RequestV, Response, ResponseV, Setting, SideEffectV, entry_keys_distinct,
    opt_str_view,
};
use crate::results::{
    build_result_list, expected_entries, lemma_expected_entries_distinct,
};
use crate::settings::starter_of;

verus! {

/// What the adapter must answer to each request: the expected result list for
/// `FetchResults`, the dispatched side effect for `RunAction`, and
/// `MissingSetting` exactly when a needed setting is absent.
pub open spec fn response_model(
    req: RequestV,
    settings: Seq<Setting>,
    start_path: Option<Seq<char>>,
) -> Result<ResponseV, AdapterError> {
    match req {
        RequestV::FetchResults => match starter_of(settings) {
            Some(name) => Ok(ResponseV::Results { entries: expected_entries(name, start_path) }),
            None => Err(AdapterError::MissingSetting),
        },
        RequestV::RunAction { action, args, submission } => match dispatch_model(
            action,
            submission,
            settings,
        ) {
            Ok(effect) => Ok(ResponseV::Effect { effect }),
            Err(e) => Err(e),
        },
    }
}

/// Handles one request end to end, as `response_model` demands: exactly one
/// response or one refusal, never both, never more.
pub fn handle_request(
    req: &Request,
    settings: &Vec<Setting>,
    dialog_start_path: Option<String>,
) -> (r: Result<Response, AdapterError>)
    ensures
        match r {
            Ok(resp) => response_model(req@, settings@, opt_str_view(dialog_start_path))
                == Ok::<ResponseV, AdapterError>(resp@),
            Err(e) => response_model(req@, settings@, opt_str_view(dialog_start_path))
                == Err::<ResponseV, AdapterError>(e),
        },
{
    match req {
        Request::FetchResults => match build_result_list(settings, dialog_start_path) {
            Ok(entries) => Ok(Response::Results { entries }),
            Err(e) => Err(e),
        },
        Request::RunAction { action, args, submission } => {
            match dispatch_action(action.as_str(), args, submission, settings) {
                Ok(effect) => Ok(Response::Effect { effect }),
                Err(e) => Err(e),
            }
        },
    }
}

/// A well-formed `FetchResults` request is answered with a non-empty result
/// list whose keys, where present, are pairwise distinct.
pub proof fn lemma_fetch_results_list(settings: Seq<Setting>, start_path: Option<Seq<char>>)
    requires
        starter_of(settings) is Some,
    ensures
        response_model(RequestV::FetchResults, settings, start_path) matches Ok(resp) && (
        resp matches ResponseV::Results { entries } && entries.len() > 0 && entry_keys_distinct(
            entries,
        )),
{
    lemma_expected_entries_distinct(starter_of(settings).unwrap(), start_path);
}

/// A `RunAction` request naming `notify-starter` is answered with exactly one
/// notification side effect carrying the starter's name, and no result list.
pub proof fn lemma_notify_starter_notifies(
    req: RequestV,
    settings: Seq<Setting>,
    start_path: Option<Seq<char>>,
)
    requires
        req matches RequestV::RunAction { action, .. } && action == "notify-starter"@,
        starter_of(settings) is Some,
    ensures
        response_model(req, settings, start_path) matches Ok(resp) && (
        resp matches ResponseV::Effect { effect } && effect == (SideEffectV::Notification {
            title: "Starter"@,
            body: "Your starter is "@ + starter_of(settings).unwrap(),
        })),
{
}

} // verus!
