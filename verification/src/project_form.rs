//! The project form's validation rule: which submitted fields are taken
//! over into the project and which produce an error. Reading the request
//! body and parsing the date strings happen outside the library; the
//! fields arrive here already extracted, with each date reduced to
//! milliseconds or to nothing when it did not parse.

use vstd::prelude::*;
use crate::models::Project;

verus! {

/// The submitted form fields, each absent when it was missing or, for a
/// date, when it did not parse.
pub struct ProjectFields {
    pub name: Option<String>,
    pub sensor1_name: Option<String>,
    pub sensor2_name: Option<String>,
    pub start_ms: Option<u64>,
    pub end_ms: Option<u64>,
}

/// A text field was submitted and is not empty.
pub open spec fn spec_present(field: Option<String>) -> bool {
    match field {
        Some(s) => s@.len() > 0,
        None => false,
    }
}

/// The error messages the form's fields produce, in field order.
pub open spec fn spec_field_errors(fields: ProjectFields) -> Seq<Seq<char>> {
    let name_err: Seq<Seq<char>> = if spec_present(fields.name) {
        Seq::empty()
    } else {
        seq!["Invalid name"@]
    };
    let s1_err: Seq<Seq<char>> = if spec_present(fields.sensor1_name) {
        Seq::empty()
    } else {
        seq!["Invalid sensor1_name"@]
    };
    let s2_err: Seq<Seq<char>> = if spec_present(fields.sensor2_name) {
        Seq::empty()
    } else {
        seq!["Invalid sensor2_name"@]
    };
    let start_err: Seq<Seq<char>> = if fields.start_ms is Some {
        Seq::empty()
    } else {
        seq!["Invalid start"@]
    };
    let end_err: Seq<Seq<char>> = if fields.end_ms is Some {
        Seq::empty()
    } else {
        seq!["Invalid end"@]
    };
    name_err + s1_err + s2_err + start_err + end_err
}

/// Takes every valid field over into the project, leaves an invalid
/// field's old value alone, and appends one error message per invalid
/// field, in field order.
pub fn assign_project_fields(project: &mut Project, fields: ProjectFields, errors: &mut Vec<
    String,
>)
    ensures
        final(project).name@ == (match fields.name {
            Some(s) => if s@.len() > 0 {
                s@
            } else {
                old(project).name@
            },
            None => old(project).name@,
        }),
        final(project).sensor1_name@ == (match fields.sensor1_name {
            Some(s) => if s@.len() > 0 {
                s@
            } else {
                old(project).sensor1_name@
            },
            None => old(project).sensor1_name@,
        }),
        final(project).sensor2_name@ == (match fields.sensor2_name {
            Some(s) => if s@.len() > 0 {
                s@
            } else {
                old(project).sensor2_name@
            },
            None => old(project).sensor2_name@,
        }),
        final(project).start_ms == (match fields.start_ms {
            Some(ms) => ms,
            None => old(project).start_ms,
        }),
        final(project).end_ms == (match fields.end_ms {
            Some(ms) => ms,
            None => old(project).end_ms,
        }),
        final(project).id == old(project).id,
        final(project).created_at_ms == old(project).created_at_ms,
        final(project).updated_at_ms == old(project).updated_at_ms,
        final(errors)@.len() == old(errors)@.len() + spec_field_errors(fields).len(),
        forall|i: int| 0 <= i < old(errors)@.len() ==> final(errors)@[i] == old(errors)@[i],
        forall|k: int|
            0 <= k < spec_field_errors(fields).len() ==> #[trigger] final(errors)@[old(
                errors,
            )@.len() + k]@ == spec_field_errors(fields)[k],
{
    match fields.name {
        Some(s) => if !s.as_str().is_empty() {
            project.name = s;
        } else {
            errors.push("Invalid name".to_owned());
        },
        None => {
            errors.push("Invalid name".to_owned());
        },
    }

    match fields.sensor1_name {
        Some(s) => if !s.as_str().is_empty() {
            project.sensor1_name = s;
        } else {
            errors.push("Invalid sensor1_name".to_owned());
        },
        None => {
            errors.push("Invalid sensor1_name".to_owned());
        },
    }

    match fields.sensor2_name {
        Some(s) => if !s.as_str().is_empty() {
            project.sensor2_name = s;
        } else {
            errors.push("Invalid sensor2_name".to_owned());
        },
        None => {
            errors.push("Invalid sensor2_name".to_owned());
        },
    }

    match fields.start_ms {
        Some(ms) => {
            project.start_ms = ms;
        },
        None => {
            errors.push("Invalid start".to_owned());
        },
    }

    match fields.end_ms {
        Some(ms) => {
            project.end_ms = ms;
        },
        None => {
            errors.push("Invalid end".to_owned());
        },
    }
}

} // verus!
