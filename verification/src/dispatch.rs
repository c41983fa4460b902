//! Action dispatch: mapping the name of an activated action to the one side
//! effect the host should perform.  Names outside the extension's declared
//! set dispatch to a no-op rather than an error, since the host may route
//! actions the extension does not claim to support.

use vstd::prelude::*;
use vstd::string::StringExecFns;

use crate::model::{AdapterError, Setting, SideEffect, SideEffectV, SubmissionEntry, pairs_view};
use crate::settings::{starter_name, starter_of};
use crate::text::str_eq;

verus! {

/// The action names this extension claims to handle.
pub open spec fn declared_action(name: Seq<char>) -> bool {
    name == "notify-starter"@ || name == "show-submission"@
}

/// The diagnostic text for a submission: one `key: value` line per entry, in
/// submission order.
pub open spec fn submission_text(s: Seq<(Seq<char>, Seq<char>)>) -> Seq<char>
    decreases s.len(),
{
    if s.len() == 0 {
        Seq::empty()
    } else {
        s[0].0 + ": "@ + s[0].1 + "\n"@ + submission_text(s.subrange(1, s.len() as int))
    }
}

/// What dispatching an action name must produce: a notification carrying the
/// starter's name, a diagnostic print of the submission, or a no-op for any
/// name the extension does not declare.
pub open spec fn dispatch_model(
    action: Seq<char>,
    submission: Seq<(Seq<char>, Seq<char>)>,
    settings: Seq<Setting>,
) -> Result<SideEffectV, AdapterError> {
    if action == "notify-starter"@ {
        match starter_of(settings) {
            Some(name) => Ok(
                SideEffectV::Notification {
                    title: "Starter"@,
                    body: "Your starter is "@ + name,
                },
            ),
            None => Err(AdapterError::MissingSetting),
        }
    } else if action == "show-submission"@ {
        Ok(SideEffectV::PrintDiagnostic { text: submission_text(submission) })
    } else {
        Ok(SideEffectV::NoEffect)
    }
}

/// Renders the submission entries from `from` onward as diagnostic text.
fn render_submission_from(submission: &Vec<SubmissionEntry>, from: usize) -> (r: String)
    requires
        from <= submission@.len(),
    ensures
        r@ == submission_text(
            pairs_view(submission@).subrange(from as int, submission@.len() as int),
        ),
    decreases submission@.len() - from,
{
    let n = submission.len();
    if from == n {
        proof {
            assert(pairs_view(submission@).subrange(n as int, n as int) =~= Seq::<
                (Seq<char>, Seq<char>),
            >::empty());
        }
        String::new()
    } else {
        let entry = &submission[from];
        let head = entry.key.clone().concat(": ").concat(entry.value.as_str()).concat("\n");
        let rest = render_submission_from(submission, from + 1);
        let out = head.concat(rest.as_str());
        proof {
            let pv = pairs_view(submission@);
            let sub = pv.subrange(from as int, n as int);
            assert(sub[0] == pv[from as int]);
            assert(sub.subrange(1, sub.len() as int) =~= pv.subrange(from as int + 1, n as int));
            assert(out@ =~= submission_text(sub));
        }
        out
    }
}

/// Renders a whole submission as diagnostic text, one `key: value` line per
/// entry, in submission order.
pub fn render_submission(submission: &Vec<SubmissionEntry>) -> (r: String)
    ensures
        r@ == submission_text(pairs_view(submission@)),
{
    let r = render_submission_from(submission, 0);
    proof {
        assert(pairs_view(submission@).subrange(0, submission@.len() as int) =~= pairs_view(
            submission@,
        ));
    }
    r
}

/// Maps an activated action to the side effect the host should perform, as
/// `dispatch_model` demands; an undeclared name is answered with `NoEffect`.
pub fn dispatch_action(
    action: &str,
    args: &Vec<String>,
    submission: &Vec<SubmissionEntry>,
    settings: &Vec<Setting>,
) -> (r: Result<SideEffect, AdapterError>)
    ensures
        match r {
            Ok(eff) => dispatch_model(action@, pairs_view(submission@), settings@)
                == Ok::<SideEffectV, AdapterError>(eff@),
            Err(e) => dispatch_model(action@, pairs_view(submission@), settings@)
                == Err::<SideEffectV, AdapterError>(e),
        },
        !declared_action(action@) ==> (r matches Ok(eff) && eff@ == SideEffectV::NoEffect),
{
    let _ = args;
    if str_eq(action, "notify-starter") {
        let name = match starter_name(settings) {
            Ok(v) => v,
            Err(e) => {
                return Err(e);
            },
        };
        let body = String::from_str("Your starter is ").concat(name.as_str());
        Ok(SideEffect::Notification { title: String::from_str("Starter"), body })
    } else if str_eq(action, "show-submission") {
        Ok(SideEffect::PrintDiagnostic { text: render_submission(submission) })
    } else {
        Ok(SideEffect::NoEffect)
    }
}

/// An action name outside the extension's declared set dispatches to a no-op:
/// no side effect is requested, whatever the submission or settings, so the
/// dispatch is safe to attempt any number of times.
pub proof fn lemma_unknown_action_no_effect(
    action: Seq<char>,
    submission: Seq<(Seq<char>, Seq<char>)>,
    settings: Seq<Setting>,
)
    requires
        !declared_action(action),
    ensures
        dispatch_model(action, submission, settings) == Ok::<SideEffectV, AdapterError>(
            SideEffectV::NoEffect,
        ),
{
}

} // verus!
