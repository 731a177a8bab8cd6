use avicalc_backend::assignments::add_to_var_pressed;
use avicalc_backend::assignments::assign_pressed;
use avicalc_backend::computation::equals_pressed;
use avicalc_backend::computation::store_result;
use avicalc_backend::consts::button_number_to_pair_of_units;
use avicalc_backend::consts::button_number_to_token;
use avicalc_backend::consts::token_of_button;
use avicalc_backend::consts::units_of_button;
use avicalc_backend::consts::ALTITUDE_ADD_BUTTON;
use avicalc_backend::consts::ANS_BUTTON;
use avicalc_backend::consts::A_ADD_BUTTON;
use avicalc_backend::consts::A_ASSIGN_BUTTON;
use avicalc_backend::consts::A_BUTTON;
use avicalc_backend::consts::BACKSPACE_BUTTON;
use avicalc_backend::consts::CLEAR_BUTTON;
use avicalc_backend::consts::C_TO_F_BUTTON;
use avicalc_backend::consts::EQUALS_BUTTON;
use avicalc_backend::consts::FEET_TO_METERS;
use avicalc_backend::consts::GROUND_SPEED_BUTTON;
use avicalc_backend::consts::HECTOPASCALS_TO_INHG_BUTTON;
use avicalc_backend::consts::LEFT_PARENTH_BUTTON;
use avicalc_backend::consts::MINUS_BUTTON;
use avicalc_backend::consts::NM_TO_FEET_BUTTON;
use avicalc_backend::consts::PERIOD_BUTTON;
use avicalc_backend::consts::RIGHT_PARENTH_BUTTON;
use avicalc_backend::consts::SIN_BUTTON;
use avicalc_backend::consts::TEMP_ASSIGN_BUTTON;
use avicalc_backend::consts::THREE_BUTTON;
use avicalc_backend::consts::TWO_BUTTON;
use avicalc_backend::consts::WIND_HEADING_BUTTON;
use avicalc_backend::conversions::converstion_pressed;
use avicalc_backend::entry_field_as_str;
use avicalc_backend::enum_map::EnumMap;
use avicalc_backend::is_commit_key;
use avicalc_backend::is_valid_key;
use avicalc_backend::key_pressed;
use avicalc_backend::objects::default_value;
use avicalc_backend::objects::Associativity;
use avicalc_backend::objects::CalcError;
use avicalc_backend::objects::Digit;
use avicalc_backend::objects::Effect;
use avicalc_backend::objects::EnumMapOfVars;
use avicalc_backend::objects::Func;
use avicalc_backend::objects::Number;
use avicalc_backend::objects::Operator;
use avicalc_backend::objects::Parenth;
use avicalc_backend::objects::Resultable;
use avicalc_backend::objects::Show;
use avicalc_backend::objects::State;
use avicalc_backend::objects::Token;
use avicalc_backend::objects::Unit;
use avicalc_backend::objects::Variable;
use avicalc_backend::objects::NAN_BITS;
use avicalc_backend::objects::STANDARD_ALTIMETER_BITS;
use avicalc_backend::objects::STANDARD_TEMPERATURE_BITS;
use avicalc_backend::objects::VARIABLE_COUNT;
use avicalc_backend::render;
use avicalc_backend::token_pressed;

fn num(x: f64) -> Number {
    Number::from_bits(x.to_bits())
}

fn val(n: Number) -> f64 {
    f64::from_bits(n.to_bits())
}

fn state_with(values: &[(Variable, f64)]) -> State {
    State::new(|variable| {
        for (key, value) in values {
            if *key == variable {
                return num(*value);
            }
        }
        num(0.0)
    })
}

#[test]
fn tokens_show_as_on_the_keys() {
    assert_eq!(Operator::Plus.show(), "+");
    assert_eq!(Operator::Minus.show(), "-");
    assert_eq!(Operator::Multiply.show(), "*");
    assert_eq!(Operator::Divide.show(), "/");
    assert_eq!(Func::Negation.show(), "-");
    assert_eq!(Func::Sin.show(), "sin\u{200a}");
    assert_eq!(Func::Cos.show(), "cos\u{200a}");
    assert_eq!(Func::Tan.show(), "tan\u{200a}");
    assert_eq!(Func::Arcsin.show(), "asin\u{200a}");
    assert_eq!(Func::Arccos.show(), "acos\u{200a}");
    assert_eq!(Func::Arctan.show(), "atan\u{200a}");
    assert_eq!(Digit::Zero.show(), "0");
    assert_eq!(Digit::Nine.show(), "9");
    assert_eq!(Digit::Period.show(), ".");
    assert_eq!(Parenth::Left.show(), "(");
    assert_eq!(Parenth::Right.show(), ")");
    assert_eq!(Variable::Ans.show(), "ans");
    assert_eq!(Variable::PrevAns.show(), "");
    assert_eq!(Variable::Altimeter.show(), "prst");
    assert_eq!(Variable::GrdSpd.show(), "grsp");
    assert_eq!(Token::Variable(Variable::WindDir).show(), "wdr");
    assert_eq!(Token::Func(Func::Arctan).show(), "atan\u{200a}");
    assert_eq!(Token::Operator(Operator::Divide).show(), "/");
    assert_eq!(Token::Digit(Digit::Four).show(), "4");
    assert_eq!(Token::Parenth(Parenth::Left).show(), "(");
}

#[test]
fn entries_render_token_by_token() {
    let mut state = State::default();
    for key in [SIN_BUTTON, LEFT_PARENTH_BUTTON, TWO_BUTTON, PERIOD_BUTTON, THREE_BUTTON] {
        token_pressed(key, &mut state);
    }
    for key in [RIGHT_PARENTH_BUTTON, A_BUTTON, MINUS_BUTTON, MINUS_BUTTON, ANS_BUTTON] {
        token_pressed(key, &mut state);
    }
    assert_eq!(entry_field_as_str(&state), "sin\u{200a}(2.3)*a--ans");
    assert_eq!(render(&Vec::new()), "");
    assert_eq!(
        render(&vec![Token::Digit(Digit::One), Token::Operator(Operator::Plus)]),
        "1+"
    );
}

#[test]
fn digits_have_their_values() {
    let digits = [
        Digit::Zero,
        Digit::One,
        Digit::Two,
        Digit::Three,
        Digit::Four,
        Digit::Five,
        Digit::Six,
        Digit::Seven,
        Digit::Eight,
        Digit::Nine,
    ];
    for (value, digit) in digits.iter().enumerate() {
        assert_eq!(digit.to_int(), Ok(value as u8));
    }
    assert_eq!(Digit::Period.to_int(), Err("trying to convert period to int".to_string()));
}

#[test]
fn every_operator_groups_to_the_left() {
    for operator in [Operator::Plus, Operator::Minus, Operator::Multiply, Operator::Divide] {
        assert_eq!(operator.associativity(), Associativity::Left);
    }
    assert_eq!(Operator::Minus.precedence(), 2);
    assert_eq!(Operator::Multiply.precedence(), 3);
}

#[test]
fn a_nan_stands_for_a_failure() {
    assert_eq!(num(f64::NAN).to_result(CalcError::DomainError), Err(CalcError::DomainError));
    assert_eq!(num(-f64::NAN).to_result(CalcError::NotWellFormed), Err(CalcError::NotWellFormed));
    assert_eq!(num(1.5).to_result(CalcError::DomainError), Ok(num(1.5)));
    assert_eq!(num(f64::INFINITY).to_result(CalcError::DomainError), Ok(num(f64::INFINITY)));
    assert_eq!(NAN_BITS, f64::NAN.to_bits());
    assert_eq!(Number::from_bits(7).to_bits(), 7);
}

#[test]
fn keys_stand_for_tokens() {
    assert_eq!(button_number_to_token(TWO_BUTTON), Token::Digit(Digit::Two));
    assert_eq!(button_number_to_token(PERIOD_BUTTON), Token::Digit(Digit::Period));
    assert_eq!(button_number_to_token(MINUS_BUTTON), Token::Operator(Operator::Minus));
    assert_eq!(button_number_to_token(RIGHT_PARENTH_BUTTON), Token::Parenth(Parenth::Right));
    assert_eq!(button_number_to_token(SIN_BUTTON), Token::Func(Func::Sin));
    assert_eq!(button_number_to_token(ANS_BUTTON), Token::Variable(Variable::Ans));
    assert_eq!(button_number_to_token(WIND_HEADING_BUTTON), Token::Variable(Variable::WindDir));
    assert_eq!(button_number_to_token(GROUND_SPEED_BUTTON), Token::Variable(Variable::GrdSpd));
    assert_eq!(button_number_to_token(A_ASSIGN_BUTTON), Token::Variable(Variable::A));
    assert_eq!(button_number_to_token(TEMP_ASSIGN_BUTTON), Token::Variable(Variable::Temp));
    assert_eq!(button_number_to_token(ALTITUDE_ADD_BUTTON), Token::Variable(Variable::Altitude));
    assert_eq!(token_of_button(17), None);
    assert_eq!(token_of_button(99), None);
    assert_eq!(token_of_button(105), None);
    assert_eq!(token_of_button(EQUALS_BUTTON), None);
    assert_eq!(token_of_button(A_BUTTON), Some(Token::Variable(Variable::A)));
    assert_eq!(Token::Variable(Variable::B).to_inner_var(), Some(Variable::B));
    assert_eq!(Token::Digit(Digit::One).to_inner_var(), None);
}

#[test]
fn keys_stand_for_pairs_of_units() {
    assert_eq!(
        button_number_to_pair_of_units(NM_TO_FEET_BUTTON),
        (Unit::NauticalMile, Unit::Foot)
    );
    assert_eq!(button_number_to_pair_of_units(C_TO_F_BUTTON), (Unit::Celcius, Unit::Fahrenheit));
    assert_eq!(
        button_number_to_pair_of_units(HECTOPASCALS_TO_INHG_BUTTON),
        (Unit::Hectopascal, Unit::InHg)
    );
    assert_eq!(units_of_button(FEET_TO_METERS), None);
    assert_eq!(units_of_button(300), None);
    assert_eq!(units_of_button(TWO_BUTTON), None);
}

#[test]
fn keys_are_sorted_by_range() {
    for key in [0, 16, 30, 67, 101, 117, 204, 217, 301, 322, 1000, 1001, 1002, 1500, 1999] {
        assert!(is_valid_key(key), "{key}");
    }
    for key in [17, 20, 99, 100, 105, 199, 200, 299, 300, 323, 399, 400, 999, 2000, u16::MAX] {
        assert!(!is_valid_key(key), "{key}");
    }
    for key in [A_ASSIGN_BUTTON, A_ADD_BUTTON, C_TO_F_BUTTON, EQUALS_BUTTON] {
        assert!(is_commit_key(key));
    }
    for key in [TWO_BUTTON, BACKSPACE_BUTTON, CLEAR_BUTTON, 1500] {
        assert!(!is_commit_key(key));
    }
    // A key without a meaning changes nothing.
    let mut state = state_with(&[(Variable::Ans, 3.0)]);
    token_pressed(TWO_BUTTON, &mut state);
    assert_eq!(key_pressed(1500, &mut state, Ok(num(9.0))), vec![]);
    assert_eq!(state.entry_field(), &vec![Token::Digit(Digit::Two)]);
    assert_eq!(val(state.variable_values().get(Variable::Ans)), 3.0);
    // A token key ignores the outcome that it is handed.
    assert_eq!(
        key_pressed(THREE_BUTTON, &mut state, Err(CalcError::DivideByZero)),
        vec![Effect::ShowEntry]
    );
    assert_eq!(key_pressed(CLEAR_BUTTON, &mut state, Ok(num(9.0))), vec![Effect::ShowEntry]);
    assert!(state.entry_field().is_empty());
}

#[test]
fn a_session_starts_with_the_default_values() {
    let state = State::default();
    assert!(state.entry_field().is_empty());
    assert!(state.previous_entry_field().is_empty());
    let values = state.variable_values();
    assert_eq!(val(values.get(Variable::Altimeter)), 29.9212);
    assert_eq!(val(values.get(Variable::Temp)), 15.);
    for variable in [
        Variable::WindDir,
        Variable::WindSpeed,
        Variable::Altitude,
        Variable::Ias,
        Variable::Tas,
        Variable::GrdSpd,
        Variable::DensAlt,
        Variable::PressAlt,
        Variable::DevAngl,
        Variable::HeadWind,
        Variable::CrossWind,
        Variable::Heading,
    ] {
        assert_eq!(val(values.get(variable)).to_bits(), 0.0f64.to_bits());
    }
    for variable in
        [Variable::Ans, Variable::PrevAns, Variable::A, Variable::B, Variable::C, Variable::D]
    {
        assert!(val(values.get(variable)).is_nan());
        assert!(default_value(variable).is_nan());
    }
    assert_eq!(STANDARD_ALTIMETER_BITS, 29.9212f64.to_bits());
    assert_eq!(STANDARD_TEMPERATURE_BITS, 15.0f64.to_bits());
}

#[test]
fn variables_are_numbered_in_order() {
    assert_eq!(VARIABLE_COUNT, 20);
    for place in 0..VARIABLE_COUNT {
        let variable = Variable::from_index(place).unwrap();
        assert_eq!(variable.index(), place);
    }
    assert_eq!(Variable::from_index(0), Some(Variable::Ans));
    assert_eq!(Variable::from_index(19), Some(Variable::GrdSpd));
    assert_eq!(Variable::from_index(20), None);
    assert_eq!(Variable::Altimeter.index(), 9);
}

#[test]
fn a_map_holds_one_value_for_every_variable() {
    let mut map: EnumMap<u32> = EnumMap::new(|variable: Variable| variable.index() as u32 * 10);
    assert_eq!(map.get(Variable::Ans), 0);
    assert_eq!(map.get(Variable::D), 50);
    assert_eq!(map.get(Variable::GrdSpd), 190);
    map.set(Variable::D, 7);
    assert_eq!(map.get(Variable::D), 7);
    assert_eq!(map.get(Variable::C), 40);
    assert_eq!(map.get(Variable::Ias), 60);
    let copy = map.clone();
    map.set(Variable::D, 8);
    assert_eq!(copy.get(Variable::D), 7);

    let mut store = EnumMapOfVars::new(|variable| num(variable.index() as f64));
    assert_eq!(val(store.get(Variable::Tas)), 7.0);
    store.set(Variable::Tas, num(120.5));
    assert_eq!(val(store.get(Variable::Tas)), 120.5);
    assert_eq!(val(store.get(Variable::Altitude)), 8.0);
}

#[test]
fn the_values_of_a_state_can_be_taken_and_replaced() {
    let mut state = state_with(&[(Variable::A, 1.0), (Variable::B, 2.0)]);
    let mut values = state.to_enumMap();
    assert_eq!(val(values.get(Variable::B)), 2.0);
    values.set(Variable::B, num(20.0));
    assert_eq!(val(state.variable_values().get(Variable::B)), 2.0);
    state.from_enum_map(values);
    assert_eq!(val(state.variable_values().get(Variable::B)), 20.0);
    assert_eq!(val(state.variable_values().get(Variable::A)), 1.0);
    assert_eq!(val(Variable::B.substitute(&state)), 20.0);
    assert_eq!(
        state.set_variable(Variable::C, num(3.0)),
        Effect::ShowVariable(Variable::C, num(3.0))
    );
    let shown = state.refresh_variables_display();
    assert_eq!(shown.len(), 20);
    assert_eq!(shown[0], Effect::ShowVariable(Variable::Ans, num(0.0)));
    assert_eq!(shown[3], Effect::ShowVariable(Variable::B, num(20.0)));
    assert_eq!(shown[4], Effect::ShowVariable(Variable::C, num(3.0)));
    assert_eq!(shown[19], Effect::ShowVariable(Variable::GrdSpd, num(0.0)));
}

#[test]
fn equals_makes_the_result_the_answer() {
    let mut state = state_with(&[(Variable::Ans, 1.0), (Variable::PrevAns, 9.0)]);
    token_pressed(TWO_BUTTON, &mut state);
    // An error is shown and changes nothing.
    assert_eq!(
        equals_pressed(&mut state, Err(CalcError::DivideByZero)),
        vec![Effect::ShowError(CalcError::DivideByZero)]
    );
    assert_eq!(state.entry_field(), &vec![Token::Digit(Digit::Two)]);
    assert_eq!(val(state.variable_values().get(Variable::Ans)), 1.0);
    assert_eq!(val(state.variable_values().get(Variable::PrevAns)), 9.0);
    equals_pressed(&mut state, Ok(num(2.0)));
    assert_eq!(val(state.variable_values().get(Variable::Ans)), 2.0);
    assert_eq!(val(state.variable_values().get(Variable::PrevAns)), 1.0);
    assert_eq!(state.previous_entry_field(), &vec![Token::Digit(Digit::Two)]);
    // With an empty entry the answer stays and the outcome handed in is ignored.
    assert_eq!(
        equals_pressed(&mut state, Err(CalcError::NotWellFormed)),
        vec![
            Effect::ShowVariable(Variable::PrevAns, num(2.0)),
            Effect::ShowVariable(Variable::Ans, num(2.0)),
            Effect::Recompute,
        ]
    );
    assert_eq!(val(state.variable_values().get(Variable::Ans)), 2.0);
    assert_eq!(val(state.variable_values().get(Variable::PrevAns)), 2.0);
    assert_eq!(state.previous_entry_field(), &vec![Token::Digit(Digit::Two)]);
}

#[test]
fn assigning_stores_the_result() {
    let mut state = state_with(&[(Variable::Ans, 1.0)]);
    token_pressed(THREE_BUTTON, &mut state);
    assert_eq!(
        assign_pressed(A_ASSIGN_BUTTON, &mut state, Ok(num(3.0))),
        vec![
            Effect::ShowVariable(Variable::PrevAns, num(1.0)),
            Effect::ShowVariable(Variable::Ans, num(3.0)),
            Effect::ShowEntry,
            Effect::ShowPreviousEntry,
            Effect::ShowVariable(Variable::A, num(3.0)),
            Effect::Recompute,
        ]
    );
    assert_eq!(val(state.variable_values().get(Variable::A)), 3.0);
    assert_eq!(val(state.variable_values().get(Variable::Ans)), 3.0);
    assert_eq!(val(state.variable_values().get(Variable::PrevAns)), 1.0);
    assert!(state.entry_field().is_empty());
    assert_eq!(state.previous_entry_field(), &vec![Token::Digit(Digit::Three)]);
    // With an empty entry the answer is assigned and stays what it is.
    assert_eq!(
        assign_pressed(TEMP_ASSIGN_BUTTON, &mut state, Err(CalcError::NotWellFormed)),
        vec![Effect::ShowVariable(Variable::Temp, num(3.0)), Effect::Recompute]
    );
    assert_eq!(val(state.variable_values().get(Variable::Temp)), 3.0);
    assert_eq!(val(state.variable_values().get(Variable::PrevAns)), 1.0);
    // An error is shown and changes nothing.
    token_pressed(TWO_BUTTON, &mut state);
    assert_eq!(
        assign_pressed(A_ASSIGN_BUTTON, &mut state, Err(CalcError::MalformedNumber)),
        vec![Effect::ShowError(CalcError::MalformedNumber)]
    );
    assert_eq!(val(state.variable_values().get(Variable::A)), 3.0);
    assert_eq!(state.entry_field(), &vec![Token::Digit(Digit::Two)]);
}

#[test]
fn adding_asks_for_the_sum() {
    let mut state = state_with(&[(Variable::Ans, 1.0), (Variable::A, 10.0)]);
    token_pressed(THREE_BUTTON, &mut state);
    assert_eq!(
        add_to_var_pressed(A_ADD_BUTTON, &mut state, Ok(num(3.0))),
        vec![
            Effect::ShowVariable(Variable::PrevAns, num(1.0)),
            Effect::ShowVariable(Variable::Ans, num(3.0)),
            Effect::ShowEntry,
            Effect::ShowPreviousEntry,
            Effect::Accumulate(Variable::A, num(10.0), num(3.0)),
        ]
    );
    assert_eq!(val(state.variable_values().get(Variable::A)), 10.0);
    assert_eq!(
        store_result(&mut state, Variable::A, num(13.0)),
        vec![Effect::ShowVariable(Variable::A, num(13.0)), Effect::Recompute]
    );
    assert_eq!(val(state.variable_values().get(Variable::A)), 13.0);
    // With an empty entry the answer is added.
    assert_eq!(
        add_to_var_pressed(A_ADD_BUTTON, &mut state, Ok(num(99.0))),
        vec![Effect::Accumulate(Variable::A, num(13.0), num(3.0))]
    );
    token_pressed(TWO_BUTTON, &mut state);
    assert_eq!(
        add_to_var_pressed(A_ADD_BUTTON, &mut state, Err(CalcError::DomainError)),
        vec![Effect::ShowError(CalcError::DomainError)]
    );
}

#[test]
fn converting_asks_for_the_conversion() {
    let mut state = state_with(&[(Variable::Ans, 1.0), (Variable::PrevAns, 5.0)]);
    token_pressed(THREE_BUTTON, &mut state);
    assert_eq!(
        converstion_pressed(C_TO_F_BUTTON, &mut state, Ok(num(3.0))),
        vec![
            Effect::ShowEntry,
            Effect::ShowPreviousEntry,
            Effect::Convert(num(3.0), Unit::Celcius, Unit::Fahrenheit),
        ]
    );
    assert!(state.entry_field().is_empty());
    assert_eq!(state.previous_entry_field(), &vec![Token::Digit(Digit::Three)]);
    assert_eq!(val(state.variable_values().get(Variable::Ans)), 1.0);
    assert_eq!(val(state.variable_values().get(Variable::PrevAns)), 5.0);
    store_result(&mut state, Variable::Ans, num(37.4));
    assert_eq!(val(state.variable_values().get(Variable::Ans)), 37.4);
    // With an empty entry the answer is converted.
    assert_eq!(
        converstion_pressed(NM_TO_FEET_BUTTON, &mut state, Err(CalcError::NotWellFormed)),
        vec![Effect::Convert(num(37.4), Unit::NauticalMile, Unit::Foot)]
    );
    token_pressed(TWO_BUTTON, &mut state);
    assert_eq!(
        converstion_pressed(C_TO_F_BUTTON, &mut state, Err(CalcError::MismatchedParentheses)),
        vec![Effect::ShowError(CalcError::MismatchedParentheses)]
    );
    assert_eq!(state.entry_field(), &vec![Token::Digit(Digit::Two)]);
}
