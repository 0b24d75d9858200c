//! Carrying the smoothing of one stabilizer over to another.

use vstd::prelude::*;

use crate::float64::Float64;
use crate::text;

verus! {

/// A parameter of a smoothing algorithm, as far as it is described.
#[derive(Debug)]
pub struct SmoothingParameter {
    pub name: Option<String>,
    pub value: Option<Float64>,
}

/// The parameters that are described in full, as name and value, in order.
pub open spec fn complete_parameters(parameters: Seq<SmoothingParameter>) -> Seq<
    (Seq<char>, Float64),
>
    decreases parameters.len(),
{
    if parameters.len() == 0 {
        seq![]
    } else {
        let earlier = complete_parameters(parameters.drop_last());
        match (parameters.last().name, parameters.last().value) {
            (Some(name), Some(value)) => earlier.push((name@, value)),
            _ => earlier,
        }
    }
}

/// The parameters are carried over one by one, in order: one with a name and a value as they
/// are, any other not at all.
pub proof fn law_complete_parameter_is_carried_over(
    parameters: Seq<SmoothingParameter>,
    parameter: SmoothingParameter,
)
    ensures
        complete_parameters(Seq::<SmoothingParameter>::empty()) == Seq::<
            (Seq<char>, Float64),
        >::empty(),
        parameter.name is Some && parameter.value is Some ==> complete_parameters(
            parameters.push(parameter),
        ) == complete_parameters(parameters).push((parameter.name->0@, parameter.value->0)),
        parameter.name is None || parameter.value is None ==> complete_parameters(
            parameters.push(parameter),
        ) == complete_parameters(parameters),
{
    assert(parameters.push(parameter).drop_last() =~= parameters);
}

/// The contents of a list of names and values.
pub open spec fn assignments_view(assignments: Seq<(String, Float64)>) -> Seq<
    (Seq<char>, Float64),
> {
    assignments.map_values(|assignment: (String, Float64)| (assignment.0@, assignment.1))
}

/// The number of the algorithm called `name`, or zero where there is none.
pub fn method_index(algorithms: &Vec<String>, name: &str) -> (index: usize)
    ensures
        ({
            let names = text::texts(algorithms@);
            if names.contains(name@) {
                &&& index < names.len()
                &&& names[index as int] == name@
                &&& forall|earlier: int| 0 <= earlier < index ==> names[earlier] != name@
            } else {
                index == 0
            }
        }),
{
    let ghost names = text::texts(algorithms@);
    let mut at: usize = 0;
    while at < algorithms.len()
        invariant
            at <= algorithms.len(),
            names == text::texts(algorithms@),
            forall|earlier: int| 0 <= earlier < at ==> names[earlier] != name@,
        decreases algorithms.len() - at,
    {
        assert(names[at as int] == algorithms@[at as int]@);
        if text::same_text(name, &algorithms[at]) {
            return at;
        }
        at = at + 1;
    }
    0
}

/// The parameters that are described in full, as name and value, in order.
pub fn assignments(parameters: &Vec<SmoothingParameter>) -> (assignments: Vec<(String, Float64)>)
    ensures
        assignments_view(assignments@) == complete_parameters(parameters@),
{
    let mut assignments: Vec<(String, Float64)> = Vec::new();
    let mut at: usize = 0;
    assert(assignments_view(assignments@) =~= seq![]);
    while at < parameters.len()
        invariant
            at <= parameters.len(),
            assignments_view(assignments@) == complete_parameters(parameters@.take(at as int)),
        decreases parameters.len() - at,
    {
        let ghost before = assignments_view(assignments@);
        assert(parameters@.take(at + 1).drop_last() =~= parameters@.take(at as int));
        if let Some(name) = &parameters[at].name {
            if let Some(value) = parameters[at].value {
                assignments.push((name.clone(), value));
                assert(assignments_view(assignments@) =~= before.push((name@, value)));
            }
        }
        at = at + 1;
    }
    assert(parameters@.take(at as int) =~= parameters@);
    assignments
}

} // verus!
