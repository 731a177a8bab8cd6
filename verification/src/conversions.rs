use crate::consts::button_number_to_pair_of_units;
use crate::consts::spec_button_units;
use crate::objects::CalcError;
use crate::objects::Effect;
use crate::objects::Number;
use crate::objects::State;
use crate::objects::StateView;
use crate::objects::Unit;
use crate::objects::Variable;
use vstd::prelude::*;

verus! {

/// State and effects after a conversion key: the entry is kept for one
/// undo and emptied, and the caller is asked to convert the result. With
/// an empty entry the value of `Ans` is converted.
pub open spec fn spec_converstion_pressed(
    units: (Unit, Unit),
    state: StateView,
    evaluated: Result<Number, CalcError>,
) -> (StateView, Seq<Effect>) {
    if state.entry.len() == 0 {
        (state, seq![Effect::Convert(state.values[Variable::Ans], units.0, units.1)])
    } else {
        match evaluated {
            Err(error) => (state, seq![Effect::ShowError(error)]),
            Ok(result) => (
                StateView { entry: Seq::empty(), previous: state.entry, ..state },
                seq![
                    Effect::ShowEntry,
                    Effect::ShowPreviousEntry,
                    Effect::Convert(result, units.0, units.1),
                ],
            ),
        }
    }
}

/// Handles a key that converts the result from one unit to another. The
/// caller evaluates the entry under way first and passes the outcome as
/// `evaluated`. The conversion is left to the caller, who stores its
/// result in `Ans` with `store_result`.
pub fn converstion_pressed(key: u16, state: &mut State, evaluated: Result<Number, CalcError>) -> (effects:
    Vec<Effect>)
    requires
        spec_button_units(key) is Some,
    ensures
        (final(state)@, effects@) == spec_converstion_pressed(
            spec_button_units(key)->Some_0,
            old(state)@,
            evaluated,
        ),
        old(state).wf() ==> final(state).wf(),
{
    let units: (Unit, Unit) = button_number_to_pair_of_units(key);
    let mut effects: Vec<Effect> = Vec::new();
    if state.entry_field().len() == 0 {
        let answer: Number = state.variable_values().get(Variable::Ans);
        effects.push(Effect::Convert(answer, units.0, units.1));
        return effects;
    }
    match evaluated {
        Err(error) => {
            effects.push(Effect::ShowError(error));
        },
        Ok(result) => {
            state.archive_entry();
            effects.push(Effect::ShowEntry);
            effects.push(Effect::ShowPreviousEntry);
            effects.push(Effect::Convert(result, units.0, units.1));
        },
    }
    effects
}

} // verus!
