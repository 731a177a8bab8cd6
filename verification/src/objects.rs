use crate::enum_map::EnumMap;
use vstd::prelude::*;
use vstd::string::*;

verus! {

/// Every bit of a binary64 value but the sign.
pub const MAGNITUDE_MASK: u64 = 0x7fff_ffff_ffff_ffff;

/// Magnitude bits of positive infinity. Every larger magnitude is a NaN.
pub const INFINITY_BITS: u64 = 0x7ff0_0000_0000_0000;

/// Bits of the quiet NaN that marks a variable without a value.
pub const NAN_BITS: u64 = 0x7ff8_0000_0000_0000;

/// Bits of `29.9212`, the standard altimeter setting in inches of mercury.
pub const STANDARD_ALTIMETER_BITS: u64 = 0x403d_ebd3_c361_1340;

/// Bits of `15.0`, the standard temperature in degrees Celsius.
pub const STANDARD_TEMPERATURE_BITS: u64 = 0x402e_0000_0000_0000;

/// Bits of `1e-7`, the largest divisor magnitude that is refused.
pub const DIVISOR_EPSILON_BITS: u64 = 0x3e7a_d7f2_9abc_af48;

/// An IEEE-754 binary64 value, held by its bit pattern.
///
/// The library moves numbers around and decides on them, but never does
/// arithmetic on them: sums, quotients and trigonometry are computed by the
/// caller and handed in.
#[derive(Debug, Clone, Copy, PartialEq, Eq, Structural)]
pub struct Number {
    pub bits: u64,
}

impl Number {
    /// The bit pattern without its sign: the bits of the absolute value.
    pub open spec fn magnitude(&self) -> u64 {
        self.bits & MAGNITUDE_MASK
    }

    /// Whether the pattern encodes a NaN.
    pub open spec fn spec_is_nan(&self) -> bool {
        self.magnitude() > INFINITY_BITS
    }

    /// Whether the absolute value is strictly greater than `1e-7`. For
    /// non-NaN values the order of magnitudes is the order of their bits,
    /// and a NaN is greater than nothing.
    pub open spec fn spec_is_safe_divisor(&self) -> bool {
        DIVISOR_EPSILON_BITS < self.magnitude() <= INFINITY_BITS
    }

    pub fn from_bits(bits: u64) -> (number: Number)
        ensures
            number.bits == bits,
    {
        Number { bits }
    }

    pub fn to_bits(&self) -> (bits: u64)
        ensures
            bits == self.bits,
    {
        self.bits
    }

    /// Positive zero.
    pub fn zero() -> (number: Number)
        ensures
            number.bits == 0,
    {
        Number { bits: 0 }
    }

    /// The NaN that stands for "no value yet".
    pub fn nan() -> (number: Number)
        ensures
            number.bits == NAN_BITS,
    {
        Number { bits: NAN_BITS }
    }

    #[verifier::when_used_as_spec(spec_is_nan)]
    pub fn is_nan(&self) -> (nan: bool)
        ensures
            nan == self.spec_is_nan(),
    {
        (self.bits & MAGNITUDE_MASK) > INFINITY_BITS
    }

    #[verifier::when_used_as_spec(spec_is_safe_divisor)]
    pub fn is_safe_divisor(&self) -> (safe: bool)
        ensures
            safe == self.spec_is_safe_divisor(),
    {
        let magnitude: u64 = self.bits & MAGNITUDE_MASK;
        DIVISOR_EPSILON_BITS < magnitude && magnitude <= INFINITY_BITS
    }
}

/// Why an entry could not be turned into a result.
#[derive(Debug, Clone, Copy, PartialEq, Eq, Structural)]
pub enum CalcError {
    /// A closing parenthesis without an opening one.
    MismatchedParentheses,
    /// A second decimal point inside one run of digits.
    MalformedNumber,
    /// The postfix queue ran out of operands, held a token that cannot be
    /// evaluated, or left more or fewer than one value.
    NotWellFormed,
    /// A divisor whose magnitude is at most `1e-7`.
    DivideByZero,
    /// An inverse sine or cosine of an argument outside `[-1, 1]`.
    DomainError,
}

impl CalcError {
    pub open spec fn spec_message(self) -> Seq<char> {
        match self {
            CalcError::MismatchedParentheses => "mismatched parentheses"@,
            CalcError::MalformedNumber => "digits can't be parsed as a number"@,
            CalcError::NotWellFormed => "not well-formed"@,
            CalcError::DivideByZero => "can't divide by 0"@,
            CalcError::DomainError => "argument out of range"@,
        }
    }

    /// The text shown to the user in place of the entry.
    pub fn message(&self) -> (text: String)
        ensures
            text@ == self.spec_message(),
    {
        match self {
            CalcError::MismatchedParentheses => String::from_str("mismatched parentheses"),
            CalcError::MalformedNumber => String::from_str("digits can't be parsed as a number"),
            CalcError::NotWellFormed => String::from_str("not well-formed"),
            CalcError::DivideByZero => String::from_str("can't divide by 0"),
            CalcError::DomainError => String::from_str("argument out of range"),
        }
    }
}

/// Whether a binary operator groups to the left or to the right.
#[derive(Debug, Clone, Copy, PartialEq, Eq, Structural)]
pub enum Associativity {
    Left,
    Right,
}

#[derive(Debug, Clone, Copy, PartialEq, Eq, Structural)]
pub enum Operator {
    Plus,
    Minus,
    Multiply,
    Divide,
}

impl Operator {
    pub open spec fn spec_precedence(&self) -> u8 {
        match self {
            Operator::Plus => 1,
            Operator::Minus => 2,
            Operator::Multiply => 3,
            Operator::Divide => 4,
        }
    }

    pub open spec fn spec_associativity(&self) -> Associativity {
        Associativity::Left
    }

    /// What applying the operator yields, given the divisor `b` and the
    /// value `computed` that the arithmetic produced.
    pub open spec fn spec_apply(self, b: Number, computed: Number) -> Result<Number, CalcError> {
        if self == Operator::Divide && !b.spec_is_safe_divisor() {
            Err(CalcError::DivideByZero)
        } else {
            Ok(computed)
        }
    }

    /// How tightly the operator binds: `Plus < Minus < Multiply < Divide`.
    #[verifier::when_used_as_spec(spec_precedence)]
    pub fn precedence(&self) -> (level: u8)
        ensures
            level == self.spec_precedence(),
    {
        match self {
            Operator::Plus => 1,
            Operator::Minus => 2,
            Operator::Multiply => 3,
            Operator::Divide => 4,
        }
    }

    #[verifier::when_used_as_spec(spec_associativity)]
    pub fn associativity(&self) -> (side: Associativity)
        ensures
            side == self.spec_associativity(),
    {
        match self {
            Operator::Plus => Associativity::Left,
            Operator::Minus => Associativity::Left,
            Operator::Multiply => Associativity::Left,
            Operator::Divide => Associativity::Left,
        }
    }

    /// Decides the outcome of `a op b`. The caller has computed the sum,
    /// difference, product or quotient and passes it as `computed`. Only
    /// division can fail: a divisor `b` within `1e-7` of zero, or a NaN
    /// divisor, is refused, whatever quotient was computed.
    pub fn apply(&self, b: Number, computed: Number) -> (outcome: Result<Number, CalcError>)
        ensures
            outcome == self.spec_apply(b, computed),
    {
        match self {
            Operator::Divide => {
                if b.is_safe_divisor() {
                    Ok(computed)
                } else {
                    Err(CalcError::DivideByZero)
                }
            },
            _ => Ok(computed),
        }
    }
}

/// Two operators bind equally tightly only if they are the same operator, so
/// a conversion never has to break a tie between different operators.
pub proof fn lemma_precedence_distinct(a: Operator, b: Operator)
    ensures
        a.spec_precedence() == b.spec_precedence() <==> a == b,
        Operator::Plus.spec_precedence() < Operator::Minus.spec_precedence(),
        Operator::Minus.spec_precedence() < Operator::Multiply.spec_precedence(),
        Operator::Multiply.spec_precedence() < Operator::Divide.spec_precedence(),
{
}

#[derive(Debug, Clone, Copy, PartialEq, Eq, Structural)]
pub enum Func {
    Negation,
    Sin,
    Cos,
    Tan,
    Arcsin,
    Arccos,
    Arctan,
}

impl Func {
    /// What applying the function yields, given the value `computed` that
    /// the arithmetic produced.
    pub open spec fn spec_apply(self, computed: Number) -> Result<Number, CalcError> {
        if (self == Func::Arcsin || self == Func::Arccos) && computed.spec_is_nan() {
            Err(CalcError::DomainError)
        } else {
            Ok(computed)
        }
    }

    /// Decides the outcome of applying the function. The caller has
    /// computed the value, in degrees where an angle is involved, and
    /// passes it as `computed`. The inverse sine and cosine fail when that
    /// value is a NaN; every other function passes it on.
    pub fn apply(&self, computed: Number) -> (outcome: Result<Number, CalcError>)
        ensures
            outcome == self.spec_apply(computed),
    {
        match self {
            Func::Arcsin => computed.to_result(CalcError::DomainError),
            Func::Arccos => computed.to_result(CalcError::DomainError),
            _ => Ok(computed),
        }
    }
}

/// A value that may itself stand for a failure, as a NaN does.
pub trait Resultable: Sized {
    type Item;

    spec fn spec_to_result(&self, error: CalcError) -> Result<Self::Item, CalcError>;

    /// The value, or `error` where the value stands for a failure.
    fn to_result(&self, error: CalcError) -> (outcome: Result<Self::Item, CalcError>)
        ensures
            outcome == self.spec_to_result(error),
    ;
}

impl Resultable for Number {
    type Item = Number;

    open spec fn spec_to_result(&self, error: CalcError) -> Result<Number, CalcError> {
        if self.spec_is_nan() {
            Err(error)
        } else {
            Ok(*self)
        }
    }

    fn to_result(&self, error: CalcError) -> (outcome: Result<Number, CalcError>) {
        if self.is_nan() {
            Err(error)
        } else {
            Ok(*self)
        }
    }
}

/// A key of the digit pad. The decimal point counts as a digit, so that a
/// run of digits can spell a fraction.
#[derive(Debug, Clone, Copy, PartialEq, Eq, Structural)]
pub enum Digit {
    Zero,
    One,
    Two,
    Three,
    Four,
    Five,
    Six,
    Seven,
    Eight,
    Nine,
    Period,
}

impl Digit {
    /// The digit's value; the decimal point has none.
    pub open spec fn value(self) -> Option<u8> {
        match self {
            Digit::Zero => Some(0u8),
            Digit::One => Some(1u8),
            Digit::Two => Some(2u8),
            Digit::Three => Some(3u8),
            Digit::Four => Some(4u8),
            Digit::Five => Some(5u8),
            Digit::Six => Some(6u8),
            Digit::Seven => Some(7u8),
            Digit::Eight => Some(8u8),
            Digit::Nine => Some(9u8),
            Digit::Period => None,
        }
    }

    pub fn to_int(&self) -> (outcome: Result<u8, String>)
        ensures
            match self.value() {
                Some(v) => outcome == Ok::<u8, String>(v),
                None => outcome is Err && outcome->Err_0@ == "trying to convert period to int"@,
            },
    {
        match self {
            Digit::Zero => Ok(0),
            Digit::One => Ok(1),
            Digit::Two => Ok(2),
            Digit::Three => Ok(3),
            Digit::Four => Ok(4),
            Digit::Five => Ok(5),
            Digit::Six => Ok(6),
            Digit::Seven => Ok(7),
            Digit::Eight => Ok(8),
            Digit::Nine => Ok(9),
            Digit::Period => Err(String::from_str("trying to convert period to int")),
        }
    }
}

#[derive(Debug, Clone, Copy, PartialEq, Eq, Structural)]
pub enum Parenth {
    Left,
    Right,
}

/// The named scalar slots of the calculator.
#[derive(Debug, Clone, Copy, PartialEq, Eq, Structural, Hash)]
pub enum Variable {
    Ans,
    PrevAns,
    A,
    B,
    C,
    D,
    Ias,
    Tas,
    Altitude,
    Altimeter,
    Temp,
    DensAlt,
    PressAlt,
    WindDir,
    WindSpeed,
    Heading,
    HeadWind,
    CrossWind,
    DevAngl,
    GrdSpd,
}

/// How many variables there are.
pub const VARIABLE_COUNT: usize = 20;

impl Variable {
    /// The variable's place in the order of declaration, from 0.
    pub open spec fn spec_index(&self) -> int {
        match self {
            Variable::Ans => 0,
            Variable::PrevAns => 1,
            Variable::A => 2,
            Variable::B => 3,
            Variable::C => 4,
            Variable::D => 5,
            Variable::Ias => 6,
            Variable::Tas => 7,
            Variable::Altitude => 8,
            Variable::Altimeter => 9,
            Variable::Temp => 10,
            Variable::DensAlt => 11,
            Variable::PressAlt => 12,
            Variable::WindDir => 13,
            Variable::WindSpeed => 14,
            Variable::Heading => 15,
            Variable::HeadWind => 16,
            Variable::CrossWind => 17,
            Variable::DevAngl => 18,
            Variable::GrdSpd => 19,
        }
    }

    pub fn index(&self) -> (i: usize)
        ensures
            i == self.spec_index(),
            i < VARIABLE_COUNT,
    {
        match self {
            Variable::Ans => 0,
            Variable::PrevAns => 1,
            Variable::A => 2,
            Variable::B => 3,
            Variable::C => 4,
            Variable::D => 5,
            Variable::Ias => 6,
            Variable::Tas => 7,
            Variable::Altitude => 8,
            Variable::Altimeter => 9,
            Variable::Temp => 10,
            Variable::DensAlt => 11,
            Variable::PressAlt => 12,
            Variable::WindDir => 13,
            Variable::WindSpeed => 14,
            Variable::Heading => 15,
            Variable::HeadWind => 16,
            Variable::CrossWind => 17,
            Variable::DevAngl => 18,
            Variable::GrdSpd => 19,
        }
    }

    /// The variable at place `i`; the last one for every place past the
    /// end.
    pub open spec fn spec_from_index(i: usize) -> Variable {
        match i {
            0 => Variable::Ans,
            1 => Variable::PrevAns,
            2 => Variable::A,
            3 => Variable::B,
            4 => Variable::C,
            5 => Variable::D,
            6 => Variable::Ias,
            7 => Variable::Tas,
            8 => Variable::Altitude,
            9 => Variable::Altimeter,
            10 => Variable::Temp,
            11 => Variable::DensAlt,
            12 => Variable::PressAlt,
            13 => Variable::WindDir,
            14 => Variable::WindSpeed,
            15 => Variable::Heading,
            16 => Variable::HeadWind,
            17 => Variable::CrossWind,
            18 => Variable::DevAngl,
            _ => Variable::GrdSpd,
        }
    }

    /// The variable at place `i`, if there is one.
    pub fn from_index(i: usize) -> (found: Option<Variable>)
        ensures
            i < VARIABLE_COUNT ==> found == Some(Variable::spec_from_index(i)),
            i < VARIABLE_COUNT ==> Variable::spec_from_index(i).spec_index() == i,
            i >= VARIABLE_COUNT ==> found is None,
    {
        match i {
            0 => Some(Variable::Ans),
            1 => Some(Variable::PrevAns),
            2 => Some(Variable::A),
            3 => Some(Variable::B),
            4 => Some(Variable::C),
            5 => Some(Variable::D),
            6 => Some(Variable::Ias),
            7 => Some(Variable::Tas),
            8 => Some(Variable::Altitude),
            9 => Some(Variable::Altimeter),
            10 => Some(Variable::Temp),
            11 => Some(Variable::DensAlt),
            12 => Some(Variable::PressAlt),
            13 => Some(Variable::WindDir),
            14 => Some(Variable::WindSpeed),
            15 => Some(Variable::Heading),
            16 => Some(Variable::HeadWind),
            17 => Some(Variable::CrossWind),
            18 => Some(Variable::DevAngl),
            19 => Some(Variable::GrdSpd),
            _ => None,
        }
    }
}

impl Variable {
    /// The value that the variable has in a state.
    pub fn substitute(&self, state: &State) -> (value: Number)
        ensures
            value == state@.values[*self],
    {
        state.variable_values.get(*self)
    }
}

/// Different variables have different places, and every place below
/// `VARIABLE_COUNT` is taken.
pub proof fn lemma_variable_index_injective(a: Variable, b: Variable)
    ensures
        0 <= a.spec_index() < VARIABLE_COUNT,
        a.spec_index() == b.spec_index() <==> a == b,
{
}

/// One lexical unit of an entry.
#[derive(Debug, Clone, Copy, PartialEq, Eq, Structural)]
pub enum Token {
    Operator(Operator),
    Digit(Digit),
    Parenth(Parenth),
    Variable(Variable),
    Func(Func),
    Num(Number),
}

impl Token {
    /// The variable that the token names, if it names one.
    pub fn to_inner_var(&self) -> (inner: Option<Variable>)
        ensures
            inner == match *self {
                Token::Variable(var) => Some(var),
                _ => None::<Variable>,
            },
    {
        if let Token::Variable(var) = *self {
            Some(var)
        } else {
            None
        }
    }
}

/// The physical units that a value can be converted between.
#[derive(Debug, Clone, Copy, PartialEq, Eq, Structural)]
pub enum Unit {
    NauticalMile,
    Mile,
    Kilometer,
    Foot,
    Meter,
    Knot,
    FeetPerMinute,
    MilesPerHour,
    KilometersPerHour,
    MetersPerMinute,
    Liter,
    Gallon,
    Kilogram,
    Pound,
    Celcius,
    Kelvin,
    Fahrenheit,
    AvigasPound,
    JetfuelPound,
    InHg,
    Kilopascal,
    Hectopascal,
    Pascal,
}

/// The value of every variable.
pub struct EnumMapOfVars {
    values_of_variables: EnumMap<Number>,
}

impl View for EnumMapOfVars {
    type V = Map<Variable, Number>;

    closed spec fn view(&self) -> Map<Variable, Number> {
        self.values_of_variables@
    }
}

impl EnumMapOfVars {
    /// The store in which every variable has the value that `values`
    /// returns for it.
    pub fn new<M>(values: M) -> (store: EnumMapOfVars) where M: Fn(Variable) -> Number
        requires
            forall|key: Variable| call_requires(values, (key,)),
        ensures
            store@.dom().is_full(),
            forall|key: Variable| call_ensures(values, (key,), #[trigger] store@[key]),
    {
        EnumMapOfVars { values_of_variables: EnumMap::new(values) }
    }

    pub fn get(&self, key: Variable) -> (value: Number)
        ensures
            self@.dom().is_full(),
            value == self@[key],
    {
        self.values_of_variables.get(key)
    }

    /// A copy of the values.
    pub fn to_enum_map(&self) -> (values: EnumMap<Number>)
        ensures
            values@ == self@,
    {
        self.values_of_variables.clone()
    }

    /// Replaces the values of all variables.
    pub fn replace(&mut self, values: EnumMap<Number>)
        ensures
            final(self)@ == values@,
    {
        self.values_of_variables = values;
    }

    /// Overwrites the value of `key`. Whoever displays the variable is told
    /// by the caller.
    pub fn set(&mut self, key: Variable, value: Number)
        ensures
            final(self)@ == old(self)@.insert(key, value),
    {
        self.values_of_variables.set(key, value);
    }
}

/// Whether a sequence of tokens can be an entry: it holds no resolved
/// number, starts with no operator, and holds no two operators in a row.
pub open spec fn valid_entry(entry: Seq<Token>) -> bool {
    &&& forall|i: int| 0 <= i < entry.len() ==> !(#[trigger] entry[i] is Num)
    &&& entry.len() > 0 ==> !(entry[0] is Operator)
    &&& forall|i: int|
        0 < i < entry.len() ==> !(entry[i - 1] is Operator && #[trigger] entry[i] is Operator)
}

/// The whole state of the calculator between two keys.
pub struct State {
    pub(crate) entry_field: Vec<Token>,
    pub(crate) previous_entry_field: Vec<Token>,
    pub(crate) variable_values: EnumMapOfVars,
}

pub struct StateView {
    /// The entry under way.
    pub entry: Seq<Token>,
    /// The entry that was committed last, kept for one undo.
    pub previous: Seq<Token>,
    /// The value of every variable.
    pub values: Map<Variable, Number>,
}

impl View for State {
    type V = StateView;

    open(crate) spec fn view(&self) -> StateView {
        StateView {
            entry: self.entry_field@,
            previous: self.previous_entry_field@,
            values: self.variable_values@,
        }
    }
}

/// What the owner of the displays and of the arithmetic has to do after a
/// key, in the order given.
#[derive(Debug, Clone, Copy, PartialEq, Eq, Structural)]
pub enum Effect {
    /// Show the entry under way on the entry display.
    ShowEntry,
    /// Show the entry that was committed last on its display.
    ShowPreviousEntry,
    /// Show the message of the error on the entry display.
    ShowError(CalcError),
    /// Tell whoever displays the variable that it now has this value.
    ShowVariable(Variable, Number),
    /// Add the second number to the first and store the sum in the
    /// variable.
    Accumulate(Variable, Number, Number),
    /// Convert the number from the first unit to the second and store the
    /// result in `Ans`.
    Convert(Number, Unit, Unit),
    /// Recompute the quantities that are derived from other variables.
    Recompute,
}

/// The value that a variable has before anything is assigned: the standard
/// atmosphere, zero for the flight values, and no value for the rest.
pub open spec fn spec_default_value(variable: Variable) -> Number {
    match variable {
        Variable::Altimeter => Number { bits: STANDARD_ALTIMETER_BITS },
        Variable::Temp => Number { bits: STANDARD_TEMPERATURE_BITS },
        Variable::WindDir
        | Variable::WindSpeed
        | Variable::Altitude
        | Variable::Ias
        | Variable::Tas
        | Variable::GrdSpd
        | Variable::DensAlt
        | Variable::PressAlt
        | Variable::DevAngl
        | Variable::HeadWind
        | Variable::CrossWind
        | Variable::Heading => Number { bits: 0 },
        _ => Number { bits: NAN_BITS },
    }
}

pub fn default_value(variable: Variable) -> (value: Number)
    ensures
        value == spec_default_value(variable),
{
    match variable {
        Variable::Altimeter => Number { bits: STANDARD_ALTIMETER_BITS },
        Variable::Temp => Number { bits: STANDARD_TEMPERATURE_BITS },
        Variable::WindDir
        | Variable::WindSpeed
        | Variable::Altitude
        | Variable::Ias
        | Variable::Tas
        | Variable::GrdSpd
        | Variable::DensAlt
        | Variable::PressAlt
        | Variable::DevAngl
        | Variable::HeadWind
        | Variable::CrossWind
        | Variable::Heading => Number { bits: 0 },
        _ => Number { bits: NAN_BITS },
    }
}

impl State {
    /// Whether both entries can be entries. Every state that this library
    /// hands out is well-formed, and every key keeps it so.
    pub open spec fn wf(&self) -> bool {
        &&& valid_entry(self@.entry)
        &&& valid_entry(self@.previous)
    }

    /// The state at the start of a session: empty entries and the default
    /// value of every variable.
    pub fn default() -> (state: State)
        ensures
            state.wf(),
            state@.entry.len() == 0,
            state@.previous.len() == 0,
            forall|variable: Variable| #[trigger]
                state@.values[variable] == spec_default_value(variable),
    {
        let values = |variable: Variable| -> (value: Number)
            ensures
                value == spec_default_value(variable),
            { default_value(variable) };
        State {
            entry_field: Vec::new(),
            previous_entry_field: Vec::new(),
            variable_values: EnumMapOfVars::new(values),
        }
    }

    /// The state with empty entries in which every variable has the value
    /// that `variable_values` returns for it.
    pub fn new<M>(variable_values: M) -> (state: State) where M: Fn(Variable) -> Number
        requires
            forall|key: Variable| call_requires(variable_values, (key,)),
        ensures
            state.wf(),
            state@.entry.len() == 0,
            state@.previous.len() == 0,
            forall|key: Variable|
                call_ensures(variable_values, (key,), #[trigger] state@.values[key]),
    {
        State {
            entry_field: Vec::new(),
            previous_entry_field: Vec::new(),
            variable_values: EnumMapOfVars::new(variable_values),
        }
    }

    pub fn entry_field(&self) -> (entry: &Vec<Token>)
        ensures
            entry@ == self@.entry,
    {
        &self.entry_field
    }

    pub fn previous_entry_field(&self) -> (entry: &Vec<Token>)
        ensures
            entry@ == self@.previous,
    {
        &self.previous_entry_field
    }

    pub fn variable_values(&self) -> (values: &EnumMapOfVars)
        ensures
            values@ == self@.values,
    {
        &self.variable_values
    }

    /// Keeps the entry under way as the entry committed last and empties
    /// it.
    pub fn archive_entry(&mut self)
        ensures
            final(self)@ == (StateView {
                entry: Seq::empty(),
                previous: old(self)@.entry,
                ..old(self)@
            }),
            old(self).wf() ==> final(self).wf(),
    {
        std::mem::swap(&mut self.entry_field, &mut self.previous_entry_field);
        self.entry_field.clear();
    }

    /// Overwrites one variable and says whom to tell.
    pub fn set_variable(&mut self, key: Variable, value: Number) -> (effect: Effect)
        ensures
            final(self)@ == (StateView {
                values: old(self)@.values.insert(key, value),
                ..old(self)@
            }),
            effect == Effect::ShowVariable(key, value),
            old(self).wf() ==> final(self).wf(),
    {
        self.variable_values.set(key, value);
        Effect::ShowVariable(key, value)
    }

    /// One `ShowVariable` for every variable, in the order of declaration,
    /// with the value that the variable has.
    pub fn refresh_variables_display(&self) -> (effects: Vec<Effect>)
        ensures
            effects@.len() == VARIABLE_COUNT,
            forall|i: int|
                0 <= i < VARIABLE_COUNT ==> #[trigger] effects@[i] == Effect::ShowVariable(
                    Variable::spec_from_index(i as usize),
                    self@.values[Variable::spec_from_index(i as usize)],
                ),
    {
        let mut effects: Vec<Effect> = Vec::new();
        let mut i: usize = 0;
        while i < VARIABLE_COUNT
            invariant
                i <= VARIABLE_COUNT,
                effects@.len() == i,
                forall|k: int|
                    0 <= k < i ==> #[trigger] effects@[k] == Effect::ShowVariable(
                        Variable::spec_from_index(k as usize),
                        self@.values[Variable::spec_from_index(k as usize)],
                    ),
            decreases VARIABLE_COUNT - i,
        {
            match Variable::from_index(i) {
                Some(variable) => {
                    effects.push(Effect::ShowVariable(variable, self.variable_values.get(variable)));
                },
                None => {},
            }
            i = i + 1;
        }
        effects
    }

    /// The values of all variables.
    #[allow(non_snake_case)]
    pub fn to_enumMap(&self) -> (values: EnumMap<Number>)
        ensures
            values@ == self@.values,
    {
        self.variable_values.to_enum_map()
    }

    /// Replaces the values of all variables.
    pub fn from_enum_map(&mut self, values: EnumMap<Number>)
        ensures
            final(self)@ == (StateView { values: values@, ..old(self)@ }),
            old(self).wf() ==> final(self).wf(),
    {
        self.variable_values.replace(values);
    }
}

/// What a token looks like on the display.
pub trait Show {
    /// Whether the value has a display form of its own. A resolved number
    /// has none: formatting it is left to whoever owns the display.
    spec fn showable(&self) -> bool;

    spec fn shown(&self) -> Seq<char>;

    fn show(&self) -> (text: String)
        requires
            self.showable(),
        ensures
            text@ == self.shown(),
    ;
}

impl Show for Operator {
    open spec fn showable(&self) -> bool {
        true
    }

    open spec fn shown(&self) -> Seq<char> {
        match self {
            Operator::Plus => "+"@,
            Operator::Minus => "-"@,
            Operator::Multiply => "*"@,
            Operator::Divide => "/"@,
        }
    }

    fn show(&self) -> (text: String) {
        match self {
            Operator::Plus => String::from_str("+"),
            Operator::Minus => String::from_str("-"),
            Operator::Multiply => String::from_str("*"),
            Operator::Divide => String::from_str("/"),
        }
    }
}

impl Show for Func {
    open spec fn showable(&self) -> bool {
        true
    }

    open spec fn shown(&self) -> Seq<char> {
        match self {
            Func::Negation => "-"@,
            Func::Sin => "sin\u{200a}"@,
            Func::Cos => "cos\u{200a}"@,
            Func::Tan => "tan\u{200a}"@,
            Func::Arcsin => "asin\u{200a}"@,
            Func::Arccos => "acos\u{200a}"@,
            Func::Arctan => "atan\u{200a}"@,
        }
    }

    fn show(&self) -> (text: String) {
        match self {
            Func::Negation => String::from_str("-"),
            Func::Sin => String::from_str("sin\u{200a}"),
            Func::Cos => String::from_str("cos\u{200a}"),
            Func::Tan => String::from_str("tan\u{200a}"),
            Func::Arcsin => String::from_str("asin\u{200a}"),
            Func::Arccos => String::from_str("acos\u{200a}"),
            Func::Arctan => String::from_str("atan\u{200a}"),
        }
    }
}

impl Show for Digit {
    open spec fn showable(&self) -> bool {
        true
    }

    open spec fn shown(&self) -> Seq<char> {
        match self {
            Digit::Zero => "0"@,
            Digit::One => "1"@,
            Digit::Two => "2"@,
            Digit::Three => "3"@,
            Digit::Four => "4"@,
            Digit::Five => "5"@,
            Digit::Six => "6"@,
            Digit::Seven => "7"@,
            Digit::Eight => "8"@,
            Digit::Nine => "9"@,
            Digit::Period => "."@,
        }
    }

    fn show(&self) -> (text: String) {
        match self {
            Digit::Zero => String::from_str("0"),
            Digit::One => String::from_str("1"),
            Digit::Two => String::from_str("2"),
            Digit::Three => String::from_str("3"),
            Digit::Four => String::from_str("4"),
            Digit::Five => String::from_str("5"),
            Digit::Six => String::from_str("6"),
            Digit::Seven => String::from_str("7"),
            Digit::Eight => String::from_str("8"),
            Digit::Nine => String::from_str("9"),
            Digit::Period => String::from_str("."),
        }
    }
}

impl Show for Parenth {
    open spec fn showable(&self) -> bool {
        true
    }

    open spec fn shown(&self) -> Seq<char> {
        match self {
            Parenth::Right => ")"@,
            Parenth::Left => "("@,
        }
    }

    fn show(&self) -> (text: String) {
        match self {
            Parenth::Right => String::from_str(")"),
            Parenth::Left => String::from_str("("),
        }
    }
}

impl Show for Variable {
    open spec fn showable(&self) -> bool {
        true
    }

    open spec fn shown(&self) -> Seq<char> {
        match self {
            Variable::Ans => "ans"@,
            Variable::PrevAns => ""@,
            Variable::A => "a"@,
            Variable::B => "b"@,
            Variable::C => "c"@,
            Variable::D => "d"@,
            Variable::Ias => "ias"@,
            Variable::Tas => "tas"@,
            Variable::Altitude => "alt"@,
            Variable::Altimeter => "prst"@,
            Variable::Temp => "tmp"@,
            Variable::DensAlt => "dal"@,
            Variable::PressAlt => "pal"@,
            Variable::WindDir => "wdr"@,
            Variable::WindSpeed => "wsp"@,
            Variable::Heading => "hdg"@,
            Variable::HeadWind => "hdwd"@,
            Variable::CrossWind => "crwd"@,
            Variable::DevAngl => "dang"@,
            Variable::GrdSpd => "grsp"@,
        }
    }

    fn show(&self) -> (text: String) {
        match self {
            Variable::Ans => String::from_str("ans"),
            Variable::PrevAns => String::from_str(""),
            Variable::A => String::from_str("a"),
            Variable::B => String::from_str("b"),
            Variable::C => String::from_str("c"),
            Variable::D => String::from_str("d"),
            Variable::Ias => String::from_str("ias"),
            Variable::Tas => String::from_str("tas"),
            Variable::Altitude => String::from_str("alt"),
            Variable::Altimeter => String::from_str("prst"),
            Variable::Temp => String::from_str("tmp"),
            Variable::DensAlt => String::from_str("dal"),
            Variable::PressAlt => String::from_str("pal"),
            Variable::WindDir => String::from_str("wdr"),
            Variable::WindSpeed => String::from_str("wsp"),
            Variable::Heading => String::from_str("hdg"),
            Variable::HeadWind => String::from_str("hdwd"),
            Variable::CrossWind => String::from_str("crwd"),
            Variable::DevAngl => String::from_str("dang"),
            Variable::GrdSpd => String::from_str("grsp"),
        }
    }
}

impl Show for Token {
    open spec fn showable(&self) -> bool {
        !(self is Num)
    }

    open spec fn shown(&self) -> Seq<char> {
        match self {
            Token::Operator(x) => x.shown(),
            Token::Digit(x) => x.shown(),
            Token::Parenth(x) => x.shown(),
            Token::Variable(x) => x.shown(),
            Token::Func(x) => x.shown(),
            Token::Num(_) => Seq::empty(),
        }
    }

    fn show(&self) -> (text: String) {
        match self {
            Token::Operator(x) => x.show(),
            Token::Digit(x) => x.show(),
            Token::Parenth(x) => x.show(),
            Token::Variable(x) => x.show(),
            Token::Func(x) => x.show(),
            Token::Num(_) => String::new(),
        }
    }
}

} // verus!
