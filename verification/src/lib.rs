pub mod assignments;
pub mod computation;
pub mod consts;
pub mod conversions;
pub mod enum_map;
pub mod objects;

use crate::assignments::add_to_var_pressed;
use crate::assignments::assign_pressed;
use crate::assignments::spec_add_to_var_pressed;
use crate::assignments::spec_assign_pressed;
use crate::assignments::spec_button_variable;
use crate::computation::equals_pressed;
use crate::computation::spec_equals_pressed;
use crate::consts::button_number_to_token;
use crate::consts::spec_button_token;
use crate::consts::spec_button_units;
use crate::consts::token_of_button;
use crate::consts::units_of_button;
use crate::consts::BACKSPACE_BUTTON;
use crate::consts::CLEAR_BUTTON;
use crate::consts::EQUALS_BUTTON;
use crate::conversions::converstion_pressed;
use crate::conversions::spec_converstion_pressed;
use crate::objects::CalcError;
use crate::objects::valid_entry;
use crate::objects::Effect;
use crate::objects::Func;
use crate::objects::Number;
use crate::objects::Operator;
use crate::objects::Parenth;
use crate::objects::Show;
use crate::objects::State;
use crate::objects::StateView;
use crate::objects::Token;
use crate::objects::Variable;
use vstd::prelude::*;
use vstd::string::*;

verus! {

/// Whether a minus sign after these tokens negates what follows instead of
/// subtracting it: at the start, after an opening parenthesis, after an
/// operator and after a function.
pub open spec fn minus_negates(entry: Seq<Token>) -> bool {
    ||| entry.len() == 0
    ||| entry.last() == Token::Parenth(Parenth::Left)
    ||| entry.last() is Operator
    ||| entry.last() is Func
}

/// The token that really joins the entry: a minus sign becomes the
/// negation where it negates, every other token is itself.
pub open spec fn disambiguate(entry: Seq<Token>, token: Token) -> Token {
    if token == Token::Operator(Operator::Minus) && minus_negates(entry) {
        Token::Func(Func::Negation)
    } else {
        token
    }
}

/// Whether a multiplication is understood between the two tokens: a
/// function, digit, variable or opening parenthesis follows a variable, a
/// closing parenthesis or a digit, and the two are not both digits.
pub open spec fn implies_multiply(previous: Token, token: Token) -> bool {
    &&& token is Func || token is Digit || token is Variable || token == Token::Parenth(
        Parenth::Left,
    )
    &&& previous is Variable || previous == Token::Parenth(Parenth::Right) || previous is Digit
    &&& !(token is Digit && previous is Digit)
}

/// Whether the token is an operator that has nothing to work on: it
/// follows an operator, a function or an opening parenthesis.
pub open spec fn misplaced_operator(previous: Token, token: Token) -> bool {
    &&& token is Operator
    &&& previous is Operator || previous is Func || previous == Token::Parenth(Parenth::Left)
}

/// The entry after a token is inserted. A misplaced operator changes
/// nothing. An operator at the start is given `Ans` to work on. An
/// understood multiplication is written out.
pub open spec fn spec_insert(entry: Seq<Token>, token: Token) -> Seq<Token> {
    let joining = disambiguate(entry, token);
    if entry.len() == 0 {
        if joining is Operator {
            seq![Token::Variable(Variable::Ans), joining]
        } else {
            seq![joining]
        }
    } else if misplaced_operator(entry.last(), joining) {
        entry
    } else if implies_multiply(entry.last(), joining) {
        entry.push(Token::Operator(Operator::Multiply)).push(joining)
    } else {
        entry.push(joining)
    }
}

/// Inserts a token at the end of an entry and says whether the entry
/// changed.
pub fn insert_token(entry_field: &mut Vec<Token>, token: Token) -> (inserted: bool)
    ensures
        final(entry_field)@ == spec_insert(old(entry_field)@, token),
        inserted == (final(entry_field)@ != old(entry_field)@),
        inserted == (final(entry_field)@.len() > old(entry_field)@.len()),
{
    let length: usize = entry_field.len();
    if length == 0 {
        match token {
            Token::Operator(Operator::Minus) => {
                entry_field.push(Token::Func(Func::Negation));
            },
            Token::Operator(_) => {
                entry_field.push(Token::Variable(Variable::Ans));
                entry_field.push(token);
            },
            _ => {
                entry_field.push(token);
            },
        }
        assert(entry_field@ =~= spec_insert(old(entry_field)@, token));
        return true;
    }
    let previous: Token = entry_field[length - 1];
    let opens: bool = matches!(
        previous,
        Token::Parenth(Parenth::Left) | Token::Operator(_) | Token::Func(_)
    );
    let joining: Token = match token {
        Token::Operator(Operator::Minus) => {
            if opens {
                Token::Func(Func::Negation)
            } else {
                token
            }
        },
        _ => token,
    };
    assert(joining == disambiguate(old(entry_field)@, token));
    if matches!(joining, Token::Operator(_)) && opens {
        return false;
    }
    let starts_operand: bool = matches!(
        joining,
        Token::Func(_) | Token::Digit(_) | Token::Variable(_) | Token::Parenth(Parenth::Left)
    );
    let ends_operand: bool = matches!(
        previous,
        Token::Variable(_) | Token::Parenth(Parenth::Right) | Token::Digit(_)
    );
    let both_digits: bool = matches!(joining, Token::Digit(_)) && matches!(
        previous,
        Token::Digit(_)
    );
    if starts_operand && ends_operand && !both_digits {
        entry_field.push(Token::Operator(Operator::Multiply));
    }
    entry_field.push(joining);
    true
}

/// Inserting a token that is no resolved number into an entry leaves an
/// entry: no operator at the start and no two operators in a row.
pub proof fn lemma_insert_keeps_valid(entry: Seq<Token>, token: Token)
    requires
        valid_entry(entry),
        !(token is Num),
    ensures
        valid_entry(spec_insert(entry, token)),
{
}

/// A minus sign inserted at the start of an entry, after an opening
/// parenthesis, after an operator or after a function joins the entry as
/// the negation; after a digit, a variable or a closing parenthesis it
/// joins as the subtraction.
pub proof fn lemma_unary_minus(entry: Seq<Token>)
    ensures
        minus_negates(entry) ==> spec_insert(entry, Token::Operator(Operator::Minus)).last()
            == Token::Func(Func::Negation),
        entry.len() > 0 && (entry.last() is Digit || entry.last() is Variable || entry.last()
            == Token::Parenth(Parenth::Right)) ==> spec_insert(
            entry,
            Token::Operator(Operator::Minus),
        ) == entry.push(Token::Operator(Operator::Minus)),
{
}

/// A variable, function or opening parenthesis inserted right after a
/// digit, a variable or a closing parenthesis is preceded by a
/// multiplication; so is a digit after a variable or a closing parenthesis.
/// A digit after a digit is not.
pub proof fn lemma_implicit_multiplication(entry: Seq<Token>, token: Token)
    requires
        entry.len() > 0,
        entry.last() is Digit || entry.last() is Variable || entry.last() == Token::Parenth(
            Parenth::Right,
        ),
        token is Variable || token is Func || token is Digit || token == Token::Parenth(
            Parenth::Left,
        ),
    ensures
        !(token is Digit && entry.last() is Digit) ==> spec_insert(entry, token) == entry.push(
            Token::Operator(Operator::Multiply),
        ).push(token),
        token is Digit && entry.last() is Digit ==> spec_insert(entry, token) == entry.push(token),
{
}

/// An operator inserted right after an operator changes nothing, unless it
/// is the minus sign, which then negates.
pub proof fn lemma_operator_adjacency(entry: Seq<Token>, operator: Operator)
    requires
        entry.len() > 0,
        entry.last() is Operator,
    ensures
        operator != Operator::Minus ==> spec_insert(entry, Token::Operator(operator)) == entry,
        operator == Operator::Minus ==> spec_insert(entry, Token::Operator(operator))
            == entry.push(Token::Func(Func::Negation)),
{
}

/// State and effects after a key that stands for a token: the token is
/// inserted into the entry, and the entry is shown again if it changed.
pub open spec fn spec_token_pressed(state: StateView, token: Token) -> (StateView, Seq<Effect>) {
    let entry = spec_insert(state.entry, token);
    (
        StateView { entry, ..state },
        if entry != state.entry {
            seq![Effect::ShowEntry]
        } else {
            Seq::empty()
        },
    )
}

/// No key stands for a resolved number.
pub proof fn lemma_button_token_is_no_number(key: u16)
    ensures
        spec_button_token(key) is Some ==> !(spec_button_token(key)->Some_0 is Num),
{
}

/// Handles a key that stands for a token.
pub fn token_pressed(key: u16, state: &mut State) -> (effects: Vec<Effect>)
    requires
        spec_button_token(key) is Some,
    ensures
        (final(state)@, effects@) == spec_token_pressed(
            old(state)@,
            spec_button_token(key)->Some_0,
        ),
        old(state).wf() ==> final(state).wf(),
{
    let token: Token = button_number_to_token(key);
    proof {
        lemma_button_token_is_no_number(key);
        if old(state).wf() {
            lemma_insert_keeps_valid(old(state)@.entry, token);
        }
    }
    let mut effects: Vec<Effect> = Vec::new();
    if insert_token(&mut state.entry_field, token) {
        effects.push(Effect::ShowEntry);
    }
    effects
}

/// State and effects after the backspace key. It removes the last token of
/// the entry. On an empty entry it undoes the last commit instead: the
/// entry that was committed comes back, `Ans` takes the value of
/// `PrevAns`, and `PrevAns` becomes zero.
pub open spec fn spec_backspace_pressed(state: StateView) -> (StateView, Seq<Effect>) {
    if state.entry.len() > 0 {
        (StateView { entry: state.entry.drop_last(), ..state }, seq![Effect::ShowEntry])
    } else {
        let restored = state.values[Variable::PrevAns];
        let zero = Number { bits: 0 };
        (
            StateView {
                entry: state.previous,
                previous: Seq::empty(),
                values: state.values.insert(Variable::Ans, restored).insert(
                    Variable::PrevAns,
                    zero,
                ),
            },
            seq![
                Effect::ShowVariable(Variable::Ans, restored),
                Effect::ShowVariable(Variable::PrevAns, zero),
                Effect::ShowPreviousEntry,
                Effect::ShowEntry,
            ],
        )
    }
}

/// Handles the backspace key.
pub fn backspace_pressed(state: &mut State) -> (effects: Vec<Effect>)
    ensures
        (final(state)@, effects@) == spec_backspace_pressed(old(state)@),
        old(state).wf() ==> final(state).wf(),
{
    let mut effects: Vec<Effect> = Vec::new();
    if state.entry_field.len() > 0 {
        state.entry_field.pop();
    } else {
        std::mem::swap(&mut state.entry_field, &mut state.previous_entry_field);
        let restored: Number = state.variable_values.get(Variable::PrevAns);
        effects.push(state.set_variable(Variable::Ans, restored));
        effects.push(state.set_variable(Variable::PrevAns, Number::zero()));
        effects.push(Effect::ShowPreviousEntry);
        assert(state@.previous =~= Seq::empty());
    }
    effects.push(Effect::ShowEntry);
    assert(effects@ =~= spec_backspace_pressed(old(state)@).1);
    effects
}

/// Handles the clear key: the entry becomes empty and is shown again.
pub fn clear_pressed(state: &mut State) -> (effects: Vec<Effect>)
    ensures
        final(state)@ == (StateView { entry: Seq::empty(), ..old(state)@ }),
        effects@ == seq![Effect::ShowEntry],
        old(state).wf() ==> final(state).wf(),
{
    state.entry_field.clear();
    let mut effects: Vec<Effect> = Vec::new();
    effects.push(Effect::ShowEntry);
    effects
}

/// The text of a sequence of tokens: the texts of the tokens, one after
/// the other.
pub open spec fn rendered(tokens: Seq<Token>) -> Seq<char>
    decreases tokens.len(),
{
    if tokens.len() == 0 {
        Seq::empty()
    } else {
        rendered(tokens.drop_last()) + tokens.last().shown()
    }
}

/// Renders tokens none of which is a resolved number.
pub fn render(tokens: &Vec<Token>) -> (text: String)
    requires
        forall|i: int| 0 <= i < tokens@.len() ==> !(#[trigger] tokens@[i] is Num),
    ensures
        text@ == rendered(tokens@),
{
    let mut text = String::new();
    let mut at: usize = 0;
    while at < tokens.len()
        invariant
            at <= tokens@.len(),
            forall|i: int| 0 <= i < tokens@.len() ==> !(#[trigger] tokens@[i] is Num),
            text@ == rendered(tokens@.take(at as int)),
        decreases tokens@.len() - at,
    {
        let shown: String = tokens[at].show();
        text.append(shown.as_str());
        proof {
            assert(tokens@.take(at + 1).drop_last() =~= tokens@.take(at as int));
        }
        at = at + 1;
    }
    proof {
        assert(tokens@.take(at as int) =~= tokens@);
    }
    text
}

/// The text of the entry under way.
pub fn entry_field_as_str(state: &State) -> (text: String)
    requires
        state.wf(),
    ensures
        text@ == rendered(state@.entry),
{
    render(&state.entry_field)
}

/// The text of the entry that was committed last.
pub fn prev_entry_field_as_str(state: &State) -> (text: String)
    requires
        state.wf(),
    ensures
        text@ == rendered(state@.previous),
{
    render(&state.previous_entry_field)
}

/// Whether a key is one that the calculator has: a token key below 100,
/// an assign or add key from 100 to 299, a conversion key from 300 to 399,
/// or any key from 1000 to 1999.
pub open spec fn valid_key(key: u16) -> bool {
    if key <= 99 {
        spec_button_token(key) is Some
    } else if key <= 299 {
        spec_button_variable(key) is Some
    } else if key <= 399 {
        spec_button_units(key) is Some
    } else {
        1000 <= key <= 1999
    }
}

#[verifier::when_used_as_spec(valid_key)]
pub fn is_valid_key(key: u16) -> (valid: bool)
    ensures
        valid == valid_key(key),
{
    if key <= 99 {
        token_of_button(key).is_some()
    } else if key <= 299 {
        match token_of_button(key) {
            Some(Token::Variable(_)) => true,
            _ => false,
        }
    } else if key <= 399 {
        units_of_button(key).is_some()
    } else {
        1000 <= key && key <= 1999
    }
}

/// Whether the outcome of evaluating the entry matters for a key: it does
/// for the equals key and for the keys that assign, add and convert.
pub open spec fn commits(key: u16) -> bool {
    100 <= key <= 399 || key == EQUALS_BUTTON
}

#[verifier::when_used_as_spec(commits)]
pub fn is_commit_key(key: u16) -> (commit: bool)
    ensures
        commit == commits(key),
{
    (100 <= key && key <= 399) || key == EQUALS_BUTTON
}

/// State and effects after any key. Keys from 1000 on that have no
/// meaning do nothing.
pub open spec fn spec_key_pressed(key: u16, state: StateView, evaluated: Result<Number, CalcError>)
    -> (StateView, Seq<Effect>) {
    if key <= 99 {
        spec_token_pressed(state, spec_button_token(key)->Some_0)
    } else if key <= 199 {
        spec_assign_pressed(spec_button_variable(key)->Some_0, state, evaluated)
    } else if key <= 299 {
        spec_add_to_var_pressed(spec_button_variable(key)->Some_0, state, evaluated)
    } else if key <= 399 {
        spec_converstion_pressed(spec_button_units(key)->Some_0, state, evaluated)
    } else if key == EQUALS_BUTTON {
        spec_equals_pressed(state, evaluated)
    } else if key == BACKSPACE_BUTTON {
        spec_backspace_pressed(state)
    } else if key == CLEAR_BUTTON {
        (StateView { entry: Seq::empty(), ..state }, seq![Effect::ShowEntry])
    } else {
        (state, Seq::empty())
    }
}

/// Handles a key. For a key that commits, the caller evaluates the entry
/// under way first and passes the outcome as `evaluated`; for every other
/// key `evaluated` is ignored.
pub fn key_pressed(key: u16, state: &mut State, evaluated: Result<Number, CalcError>) -> (effects:
    Vec<Effect>)
    requires
        valid_key(key),
    ensures
        (final(state)@, effects@) == spec_key_pressed(key, old(state)@, evaluated),
        old(state).wf() ==> final(state).wf(),
{
    if key <= 99 {
        token_pressed(key, state)
    } else if key <= 199 {
        assign_pressed(key, state, evaluated)
    } else if key <= 299 {
        add_to_var_pressed(key, state, evaluated)
    } else if key <= 399 {
        converstion_pressed(key, state, evaluated)
    } else if key == EQUALS_BUTTON {
        equals_pressed(state, evaluated)
    } else if key == BACKSPACE_BUTTON {
        backspace_pressed(state)
    } else if key == CLEAR_BUTTON {
        clear_pressed(state)
    } else {
        Vec::new()
    }
}

/// Backspace on the empty entry that a commit leaves behind undoes the
/// commit: the committed entry is back and `Ans` has the value it had
/// before.
pub proof fn lemma_backspace_undoes_equals(state: StateView, result: Number)
    requires
        state.entry.len() > 0,
    ensures
        ({
            let committed = spec_equals_pressed(state, Ok(result)).0;
            let undone = spec_backspace_pressed(committed).0;
            &&& committed.values[Variable::Ans] == result
            &&& committed.entry.len() == 0
            &&& undone.entry == state.entry
            &&& undone.previous.len() == 0
            &&& undone.values[Variable::Ans] == state.values[Variable::Ans]
            &&& undone.values[Variable::PrevAns] == Number { bits: 0 }
        }),
{
}

/// Every key leaves both entries fit to be entries.
pub proof fn lemma_key_keeps_entries_valid(
    key: u16,
    state: StateView,
    evaluated: Result<Number, CalcError>,
)
    requires
        valid_key(key),
        valid_entry(state.entry),
        valid_entry(state.previous),
    ensures
        valid_entry(spec_key_pressed(key, state, evaluated).0.entry),
        valid_entry(spec_key_pressed(key, state, evaluated).0.previous),
{
    if key <= 99 {
        lemma_button_token_is_no_number(key);
        lemma_insert_keeps_valid(state.entry, spec_button_token(key)->Some_0);
    }
}

} // verus!
