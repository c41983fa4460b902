//! Dialog construction: a field list is only handed to the host when its keys
//! are pairwise distinct, since the host correlates a later submission to the
//! field that produced it by key.

use vstd::prelude::*;

use crate::model::{Action, ActionV, DialogField, field_keys_distinct, fields_view};
use crate::text::str_eq;

verus! {

/// Decides whether the keys of `fields` are pairwise distinct.
pub fn check_field_keys_distinct(fields: &Vec<DialogField>) -> (r: bool)
    ensures
        r == field_keys_distinct(fields_view(fields@)),
{
    let n = fields.len();
    let mut i: usize = 0;
    while i < n
        invariant
            n == fields@.len(),
            0 <= i <= n,
            forall|p: int, q: int|
                0 <= p < q < n && p < i ==> fields_view(fields@)[p].key != fields_view(
                    fields@,
                )[q].key,
        decreases n - i,
    {
        let mut j: usize = i + 1;
        while j < n
            invariant
                n == fields@.len(),
                0 <= i < n,
                i < j <= n,
                forall|p: int, q: int|
                    0 <= p < q < n && p < i ==> fields_view(fields@)[p].key != fields_view(
                        fields@,
                    )[q].key,
                forall|q: int|
                    i < q < j ==> fields_view(fields@)[i as int].key != fields_view(
                        fields@,
                    )[q].key,
            decreases n - j,
        {
            if str_eq(fields[i].key.as_str(), fields[j].key.as_str()) {
                proof {
                    assert(fields_view(fields@)[i as int].key == fields_view(
                        fields@,
                    )[j as int].key);
                }
                return false;
            }
            j = j + 1;
        }
        i = i + 1;
    }
    true
}

/// Builds an `OpenDialog` action, failing fast on a field list whose keys are
/// not pairwise distinct.
pub fn new_open_dialog_action(fields: Vec<DialogField>, submit_action: String) -> (r: Option<
    Action,
>)
    ensures
        match r {
            Some(a) => field_keys_distinct(fields_view(fields@)) && a@ == (ActionV::OpenDialog {
                fields: fields_view(fields@),
                submit_action: submit_action@,
            }),
            None => !field_keys_distinct(fields_view(fields@)),
        },
{
    if check_field_keys_distinct(&fields) {
        Some(Action::OpenDialog { fields, submit_action })
    } else {
        None
    }
}

} // verus!
