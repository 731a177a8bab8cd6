use crate::consts::button_number_to_token;
use crate::consts::spec_button_token;
use crate::objects::CalcError;
use crate::objects::Effect;
use crate::objects::Number;
use crate::objects::State;
use crate::objects::StateView;
use crate::objects::Variable;
use vstd::prelude::*;

verus! {

/// State and effects after a commit that first makes the result the new
/// answer. With an empty entry the result is the value of `Ans` and
/// nothing changes. An error changes nothing either. Otherwise `PrevAns`
/// takes the value of `Ans` and `Ans` the result, and the entry is kept
/// for one undo and emptied. The number returned is the result.
pub open spec fn spec_take_answer(state: StateView, evaluated: Result<Number, CalcError>) -> Result<
    (StateView, Seq<Effect>, Number),
    CalcError,
> {
    let answer = state.values[Variable::Ans];
    if state.entry.len() == 0 {
        Ok((state, Seq::empty(), answer))
    } else {
        match evaluated {
            Err(error) => Err(error),
            Ok(result) => Ok(
                (
                    StateView {
                        entry: Seq::empty(),
                        previous: state.entry,
                        values: state.values.insert(Variable::PrevAns, answer).insert(
                            Variable::Ans,
                            result,
                        ),
                    },
                    seq![
                        Effect::ShowVariable(Variable::PrevAns, answer),
                        Effect::ShowVariable(Variable::Ans, result),
                        Effect::ShowEntry,
                        Effect::ShowPreviousEntry,
                    ],
                    result,
                ),
            ),
        }
    }
}

fn take_answer(state: &mut State, evaluated: Result<Number, CalcError>) -> (outcome: Result<
    (Vec<Effect>, Number),
    CalcError,
>)
    ensures
        match spec_take_answer(old(state)@, evaluated) {
            Err(error) => outcome == Err::<(Vec<Effect>, Number), CalcError>(error) && final(state)@
                == old(state)@,
            Ok((after, effects, result)) => outcome is Ok && final(state)@ == after
                && outcome->Ok_0.0@ == effects && outcome->Ok_0.1 == result,
        },
        old(state).wf() ==> final(state).wf(),
{
    let mut effects: Vec<Effect> = Vec::new();
    let answer: Number = state.variable_values().get(Variable::Ans);
    if state.entry_field().len() == 0 {
        return Ok((effects, answer));
    }
    match evaluated {
        Err(error) => Err(error),
        Ok(result) => {
            effects.push(state.set_variable(Variable::PrevAns, answer));
            effects.push(state.set_variable(Variable::Ans, result));
            state.archive_entry();
            effects.push(Effect::ShowEntry);
            effects.push(Effect::ShowPreviousEntry);
            proof {
                let expected = spec_take_answer(old(state)@, evaluated)->Ok_0;
                assert(effects@ =~= expected.1);
            }
            Ok((effects, result))
        },
    }
}

/// The variable that an assign key or an add key names, if it names one.
pub open spec fn spec_button_variable(key: u16) -> Option<Variable> {
    match spec_button_token(key) {
        Some(token) => match token {
            crate::objects::Token::Variable(variable) => Some(variable),
            _ => None,
        },
        None => None,
    }
}

/// State and effects after an assign key: the result becomes the answer,
/// then the value of the variable.
pub open spec fn spec_assign_pressed(
    variable: Variable,
    state: StateView,
    evaluated: Result<Number, CalcError>,
) -> (StateView, Seq<Effect>) {
    match spec_take_answer(state, evaluated) {
        Err(error) => (state, seq![Effect::ShowError(error)]),
        Ok((after, effects, result)) => (
            StateView { values: after.values.insert(variable, result), ..after },
            effects.push(Effect::ShowVariable(variable, result)).push(Effect::Recompute),
        ),
    }
}

/// Handles a key that assigns the result to a variable. The caller
/// evaluates the entry under way first and passes the outcome as
/// `evaluated`.
pub fn assign_pressed(key: u16, state: &mut State, evaluated: Result<Number, CalcError>) -> (effects:
    Vec<Effect>)
    requires
        spec_button_variable(key) is Some,
    ensures
        (final(state)@, effects@) == spec_assign_pressed(
            spec_button_variable(key)->Some_0,
            old(state)@,
            evaluated,
        ),
        old(state).wf() ==> final(state).wf(),
{
    let variable: Variable = match button_number_to_token(key).to_inner_var() {
        Some(variable) => variable,
        None => vstd::pervasive::unreached(),
    };
    match take_answer(state, evaluated) {
        Err(error) => {
            let mut effects: Vec<Effect> = Vec::new();
            effects.push(Effect::ShowError(error));
            effects
        },
        Ok((mut effects, result)) => {
            effects.push(state.set_variable(variable, result));
            effects.push(Effect::Recompute);
            effects
        },
    }
}

/// State and effects after an add key: the result becomes the answer, and
/// the caller is asked to add it to the variable.
pub open spec fn spec_add_to_var_pressed(
    variable: Variable,
    state: StateView,
    evaluated: Result<Number, CalcError>,
) -> (StateView, Seq<Effect>) {
    match spec_take_answer(state, evaluated) {
        Err(error) => (state, seq![Effect::ShowError(error)]),
        Ok((after, effects, result)) => (
            after,
            effects.push(Effect::Accumulate(variable, after.values[variable], result)),
        ),
    }
}

/// Handles a key that adds the result to a variable. The caller evaluates
/// the entry under way first and passes the outcome as `evaluated`. The
/// sum is left to the caller, who stores it with `store_result`.
pub fn add_to_var_pressed(key: u16, state: &mut State, evaluated: Result<Number, CalcError>) -> (effects:
    Vec<Effect>)
    requires
        spec_button_variable(key) is Some,
    ensures
        (final(state)@, effects@) == spec_add_to_var_pressed(
            spec_button_variable(key)->Some_0,
            old(state)@,
            evaluated,
        ),
        old(state).wf() ==> final(state).wf(),
{
    let variable: Variable = match button_number_to_token(key).to_inner_var() {
        Some(variable) => variable,
        None => vstd::pervasive::unreached(),
    };
    match take_answer(state, evaluated) {
        Err(error) => {
            let mut effects: Vec<Effect> = Vec::new();
            effects.push(Effect::ShowError(error));
            effects
        },
        Ok((mut effects, result)) => {
            let current: Number = state.variable_values().get(variable);
            effects.push(Effect::Accumulate(variable, current, result));
            effects
        },
    }
}

} // verus!
