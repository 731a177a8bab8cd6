use crate::objects::Associativity;
use crate::objects::CalcError;
use crate::objects::Digit;
use crate::objects::Effect;
use crate::objects::EnumMapOfVars;
use crate::objects::Func;
use crate::objects::Number;
use crate::objects::Operator;
use crate::objects::Parenth;
use crate::objects::State;
use crate::objects::StateView;
use crate::objects::Token;
use crate::objects::Variable;
use vstd::prelude::*;

verus! {

/// Whether the token at `at` opens a run of digits: it is a digit and the
/// token before it, if any, is none.
pub open spec fn starts_run(entry: Seq<Token>, at: int) -> bool {
    &&& 0 <= at < entry.len()
    &&& entry[at] is Digit
    &&& (at == 0 || !(entry[at - 1] is Digit))
}

/// How many runs of digits open among the first `n` tokens.
pub open spec fn run_count(entry: Seq<Token>, n: nat) -> nat
    decreases n,
{
    if n == 0 {
        0
    } else {
        run_count(entry, (n - 1) as nat) + if starts_run(entry, n - 1) {
            1nat
        } else {
            0nat
        }
    }
}

/// One run of digits, split at its first decimal point. Each digit is held
/// by its value, below ten.
pub struct DigitRun {
    /// The digits before the decimal point, the most significant first.
    pub whole: Vec<u8>,
    /// The digits after the decimal point: tenths first.
    pub fraction: Vec<u8>,
    /// Whether the run holds a decimal point.
    pub has_point: bool,
}

#[verifier::ext_equal]
pub struct DigitRunView {
    pub whole: Seq<u8>,
    pub fraction: Seq<u8>,
    pub has_point: bool,
}

impl View for DigitRun {
    type V = DigitRunView;

    open spec fn view(&self) -> DigitRunView {
        DigitRunView { whole: self.whole@, fraction: self.fraction@, has_point: self.has_point }
    }
}

/// The run after one more digit: a decimal point is noted, any other digit
/// joins the fraction if a point has been seen and the whole part if not.
pub open spec fn extend_run(run: DigitRunView, digit: Digit) -> DigitRunView {
    match digit.value() {
        None => DigitRunView { has_point: true, ..run },
        Some(value) => if run.has_point {
            DigitRunView { fraction: run.fraction.push(value), ..run }
        } else {
            DigitRunView { whole: run.whole.push(value), ..run }
        },
    }
}

/// The run that holds no digit yet.
pub open spec fn empty_run() -> DigitRunView {
    DigitRunView { whole: Seq::empty(), fraction: Seq::empty(), has_point: false }
}

/// The runs of digits among the first `n` tokens, in order. The last one
/// may go on after the `n`-th token.
pub open spec fn spec_literal_runs(entry: Seq<Token>, n: nat) -> Seq<DigitRunView>
    decreases n,
{
    if n == 0 {
        Seq::empty()
    } else {
        let before = spec_literal_runs(entry, (n - 1) as nat);
        match entry[n - 1] {
            Token::Digit(digit) => if starts_run(entry, n - 1) {
                before.push(extend_run(empty_run(), digit))
            } else {
                before.update(before.len() - 1, extend_run(before.last(), digit))
            },
            _ => before,
        }
    }
}

/// There is one run for every token that opens one.
pub proof fn lemma_literal_runs_len(entry: Seq<Token>, n: nat)
    requires
        n <= entry.len(),
    ensures
        spec_literal_runs(entry, n).len() == run_count(entry, n),
        n > 0 && entry[n - 1] is Digit ==> run_count(entry, n) > 0,
    decreases n,
{
    if n > 0 {
        lemma_literal_runs_len(entry, (n - 1) as nat);
    }
}

/// Where a conversion stands between two tokens.
pub struct Conversion {
    /// Operators, functions and open parentheses that wait for their
    /// operands, the most recent last.
    pub stack: Seq<Token>,
    /// The postfix queue so far.
    pub output: Seq<Token>,
    /// How many literal values have been taken.
    pub literals_used: nat,
    /// Whether the last token was a digit.
    pub in_number: bool,
    /// Whether the run of digits under way holds a decimal point.
    pub seen_point: bool,
}

/// Whether an operator on top of the stack leaves before `incoming` enters:
/// it binds more tightly, or as tightly and `incoming` groups to the left.
pub open spec fn yields_to(incoming: Operator, stacked: Operator) -> bool {
    ||| incoming.spec_precedence() < stacked.spec_precedence()
    ||| (incoming.spec_precedence() == stacked.spec_precedence() && incoming.spec_associativity()
        == Associativity::Left)
}

/// Stack and queue after an operator arrives. Functions on top of the stack
/// and operators that yield move to the queue, then the operator is stacked.
/// A parenthesis is a barrier.
pub open spec fn place_operator(stack: Seq<Token>, output: Seq<Token>, incoming: Operator) -> (
    Seq<Token>,
    Seq<Token>,
)
    decreases stack.len(),
{
    if stack.len() == 0 {
        (stack.push(Token::Operator(incoming)), output)
    } else {
        match stack.last() {
            Token::Func(_) => place_operator(
                stack.drop_last(),
                output.push(stack.last()),
                incoming,
            ),
            Token::Operator(stacked) => if yields_to(incoming, stacked) {
                place_operator(stack.drop_last(), output.push(stack.last()), incoming)
            } else {
                (stack.push(Token::Operator(incoming)), output)
            },
            _ => (stack.push(Token::Operator(incoming)), output),
        }
    }
}

/// Stack and queue after a closing parenthesis arrives: what was stacked
/// since the matching opening parenthesis moves to the queue and the
/// opening parenthesis is dropped. `None` if there is no opening one.
pub open spec fn close_parenthesis(stack: Seq<Token>, output: Seq<Token>) -> Option<
    (Seq<Token>, Seq<Token>),
>
    decreases stack.len(),
{
    if stack.len() == 0 {
        None
    } else {
        match stack.last() {
            Token::Parenth(Parenth::Left) => Some((stack.drop_last(), output)),
            Token::Parenth(Parenth::Right) => None,
            _ => close_parenthesis(stack.drop_last(), output.push(stack.last())),
        }
    }
}

/// The conversion after one more token. A run of digits takes the next
/// literal value when it opens; a variable is replaced by its value.
pub open spec fn convert_token(
    before: Conversion,
    token: Token,
    variables: Map<Variable, Number>,
    literals: Seq<Number>,
) -> Result<Conversion, CalcError> {
    match token {
        Token::Digit(digit) => {
            if !before.in_number {
                Ok(
                    Conversion {
                        output: before.output.push(
                            Token::Num(literals[before.literals_used as int]),
                        ),
                        literals_used: before.literals_used + 1,
                        in_number: true,
                        seen_point: digit == Digit::Period,
                        ..before
                    },
                )
            } else if digit == Digit::Period {
                if before.seen_point {
                    Err(CalcError::MalformedNumber)
                } else {
                    Ok(Conversion { seen_point: true, ..before })
                }
            } else {
                Ok(before)
            }
        },
        Token::Num(_) => Ok(
            Conversion { output: before.output.push(token), in_number: false, ..before },
        ),
        Token::Variable(variable) => Ok(
            Conversion {
                output: before.output.push(Token::Num(variables[variable])),
                in_number: false,
                ..before
            },
        ),
        Token::Parenth(Parenth::Left) => Ok(
            Conversion { stack: before.stack.push(token), in_number: false, ..before },
        ),
        Token::Parenth(Parenth::Right) => match close_parenthesis(before.stack, before.output) {
            None => Err(CalcError::MismatchedParentheses),
            Some((stack, output)) => Ok(Conversion { stack, output, in_number: false, ..before }),
        },
        Token::Func(_) => Ok(
            Conversion { stack: before.stack.push(token), in_number: false, ..before },
        ),
        Token::Operator(incoming) => {
            let (stack, output) = place_operator(before.stack, before.output, incoming);
            Ok(Conversion { stack, output, in_number: false, ..before })
        },
    }
}

/// The conversion after the first `n` tokens of `entry`, or the error that
/// one of them raised.
pub open spec fn converted_prefix(
    entry: Seq<Token>,
    variables: Map<Variable, Number>,
    literals: Seq<Number>,
    n: nat,
) -> Result<Conversion, CalcError>
    decreases n,
{
    if n == 0 {
        Ok(
            Conversion {
                stack: Seq::empty(),
                output: Seq::empty(),
                literals_used: 0,
                in_number: false,
                seen_point: false,
            },
        )
    } else {
        match converted_prefix(entry, variables, literals, (n - 1) as nat) {
            Err(error) => Err(error),
            Ok(before) => convert_token(before, entry[n - 1], variables, literals),
        }
    }
}

/// The postfix queue of `entry`: every token is taken in order, then what
/// is left on the stack follows, the most recent first. `literals` holds
/// the value of each run of digits, in order.
pub open spec fn spec_rpn(
    entry: Seq<Token>,
    variables: Map<Variable, Number>,
    literals: Seq<Number>,
) -> Result<Seq<Token>, CalcError> {
    match converted_prefix(entry, variables, literals, entry.len()) {
        Err(error) => Err(error),
        Ok(end) => Ok(end.output + end.stack.reverse()),
    }
}

/// Once a token has raised an error, the error stands for every longer
/// prefix.
pub proof fn lemma_error_stands(
    entry: Seq<Token>,
    variables: Map<Variable, Number>,
    literals: Seq<Number>,
    n: nat,
    m: nat,
)
    requires
        n <= m,
        converted_prefix(entry, variables, literals, n) is Err,
    ensures
        converted_prefix(entry, variables, literals, m) == converted_prefix(
            entry,
            variables,
            literals,
            n,
        ),
    decreases m,
{
    if n < m {
        lemma_error_stands(entry, variables, literals, n, (m - 1) as nat);
    }
}

/// A longer prefix opens at least as many runs of digits.
pub proof fn lemma_run_count_grows(entry: Seq<Token>, n: nat, m: nat)
    requires
        n <= m,
    ensures
        run_count(entry, n) <= run_count(entry, m),
    decreases m,
{
    if n < m {
        lemma_run_count_grows(entry, n, (m - 1) as nat);
    }
}

fn shunt_operator(stack: &mut Vec<Token>, output: &mut Vec<Token>, incoming: Operator)
    ensures
        (final(stack)@, final(output)@) == place_operator(old(stack)@, old(output)@, incoming),
{
    loop
        invariant_except_break
            place_operator(stack@, output@, incoming) == place_operator(
                old(stack)@,
                old(output)@,
                incoming,
            ),
        ensures
            (stack@, output@) == place_operator(old(stack)@, old(output)@, incoming),
        decreases stack.len(),
    {
        if stack.len() == 0 {
            stack.push(Token::Operator(incoming));
            break ;
        }
        let top: Token = stack[stack.len() - 1];
        let leaves: bool = match top {
            Token::Func(_) => true,
            Token::Operator(stacked) => {
                let incoming_level: u8 = incoming.precedence();
                let stacked_level: u8 = stacked.precedence();
                incoming_level < stacked_level || (incoming_level == stacked_level && matches!(
                    incoming.associativity(),
                    Associativity::Left
                ))
            },
            _ => false,
        };
        if leaves {
            stack.pop();
            output.push(top);
        } else {
            stack.push(Token::Operator(incoming));
            break ;
        }
    }
}

fn shunt_closing(stack: &mut Vec<Token>, output: &mut Vec<Token>) -> (matched: bool)
    ensures
        match close_parenthesis(old(stack)@, old(output)@) {
            Some(after) => matched && (final(stack)@, final(output)@) == after,
            None => !matched,
        },
{
    loop
        invariant
            close_parenthesis(stack@, output@) == close_parenthesis(old(stack)@, old(output)@),
        decreases stack.len(),
    {
        match stack.pop() {
            None => {
                return false;
            },
            Some(Token::Parenth(Parenth::Left)) => {
                return true;
            },
            Some(Token::Parenth(Parenth::Right)) => {
                return false;
            },
            Some(top) => {
                output.push(top);
            },
        }
    }
}

/// Lists the runs of digits of an entry, in order, so that the caller can
/// compute the value of each: the whole part digit by digit, then the
/// fraction, the first digit counting tenths.
pub fn literal_runs(entry_field: &Vec<Token>) -> (runs: Vec<DigitRun>)
    ensures
        runs@.map_values(|run: DigitRun| run@) == spec_literal_runs(
            entry_field@,
            entry_field@.len(),
        ),
        runs@.len() == run_count(entry_field@, entry_field@.len()),
        forall|k: int, j: int|
            0 <= k < runs@.len() && 0 <= j < runs@[k].whole@.len() ==> #[trigger] runs@[k].whole@[j]
                < 10,
        forall|k: int, j: int|
            0 <= k < runs@.len() && 0 <= j < runs@[k].fraction@.len()
                ==> #[trigger] runs@[k].fraction@[j] < 10,
{
    let mut runs: Vec<DigitRun> = Vec::new();
    let mut whole: Vec<u8> = Vec::new();
    let mut fraction: Vec<u8> = Vec::new();
    let mut has_point: bool = false;
    let mut in_number: bool = false;
    let mut at: usize = 0;
    while at < entry_field.len()
        invariant
            at <= entry_field@.len(),
            in_number == (at > 0 && entry_field@[at - 1] is Digit),
            !in_number ==> whole@.len() == 0 && fraction@.len() == 0 && !has_point,
            spec_literal_runs(entry_field@, at as nat) == if in_number {
                runs@.map_values(|run: DigitRun| run@).push(
                    DigitRunView { whole: whole@, fraction: fraction@, has_point },
                )
            } else {
                runs@.map_values(|run: DigitRun| run@)
            },
            forall|j: int| 0 <= j < whole@.len() ==> whole@[j] < 10,
            forall|j: int| 0 <= j < fraction@.len() ==> fraction@[j] < 10,
            forall|k: int, j: int|
                0 <= k < runs@.len() && 0 <= j < runs@[k].whole@.len()
                    ==> #[trigger] runs@[k].whole@[j] < 10,
            forall|k: int, j: int|
                0 <= k < runs@.len() && 0 <= j < runs@[k].fraction@.len()
                    ==> #[trigger] runs@[k].fraction@[j] < 10,
        decreases entry_field@.len() - at,
    {
        let token: Token = entry_field[at];
        let ghost finished = runs@.map_values(|run: DigitRun| run@);
        let ghost open_run = DigitRunView { whole: whole@, fraction: fraction@, has_point };
        match token {
            Token::Digit(digit) => {
                match digit.to_int() {
                    Err(_) => {
                        has_point = true;
                    },
                    Ok(value) => {
                        if has_point {
                            fraction.push(value);
                        } else {
                            whole.push(value);
                        }
                    },
                }
                proof {
                    let grown = DigitRunView { whole: whole@, fraction: fraction@, has_point };
                    assert(grown =~~= extend_run(open_run, digit));
                    if in_number {
                        assert(!starts_run(entry_field@, at as int));
                        assert(finished.push(open_run).update(finished.len() as int, grown)
                            =~~= finished.push(grown));
                    } else {
                        assert(starts_run(entry_field@, at as int));
                        assert(open_run =~~= empty_run());
                    }
                    assert(spec_literal_runs(entry_field@, (at + 1) as nat) =~~= finished.push(
                        grown,
                    ));
                }
                in_number = true;
            },
            _ => {
                if in_number {
                    runs.push(DigitRun { whole, fraction, has_point });
                    whole = Vec::new();
                    fraction = Vec::new();
                    has_point = false;
                    in_number = false;
                }
                assert(runs@.map_values(|run: DigitRun| run@) =~~= spec_literal_runs(
                    entry_field@,
                    at as nat,
                ));
            },
        }
        at = at + 1;
    }
    if in_number {
        let ghost finished = runs@.map_values(|run: DigitRun| run@);
        runs.push(DigitRun { whole, fraction, has_point });
        assert(runs@.map_values(|run: DigitRun| run@) =~~= finished.push(runs@.last()@));
    }
    proof {
        lemma_literal_runs_len(entry_field@, entry_field@.len());
    }
    runs
}

/// Converts an entry to its postfix queue by the shunting-yard method.
///
/// The entry is read, not consumed. Each run of digits becomes one number,
/// whose value the caller has computed from `literal_runs` and passes in
/// `literals`, in order. Each variable becomes a number with the value it
/// has now. A run with a second decimal point and a closing parenthesis
/// without an opening one are errors; whichever comes first in the entry is
/// reported. An opening parenthesis that is never closed ends up in the
/// queue.
pub fn entry_field_to_rpn(
    entry_field: &Vec<Token>,
    variable_values: &EnumMapOfVars,
    literals: &Vec<Number>,
) -> (outcome: Result<Vec<Token>, CalcError>)
    requires
        run_count(entry_field@, entry_field@.len()) <= literals@.len(),
    ensures
        match outcome {
            Ok(queue) => spec_rpn(entry_field@, variable_values@, literals@) == Ok::<
                Seq<Token>,
                CalcError,
            >(queue@),
            Err(error) => spec_rpn(entry_field@, variable_values@, literals@) == Err::<
                Seq<Token>,
                CalcError,
            >(error),
        },
{
    let mut stack: Vec<Token> = Vec::new();
    let mut output: Vec<Token> = Vec::new();
    let mut used: usize = 0;
    let mut in_number: bool = false;
    let mut seen_point: bool = false;
    let mut at: usize = 0;
    while at < entry_field.len()
        invariant
            at <= entry_field@.len(),
            run_count(entry_field@, entry_field@.len()) <= literals@.len(),
            used == run_count(entry_field@, at as nat),
            in_number == (at > 0 && entry_field@[at - 1] is Digit),
            converted_prefix(entry_field@, variable_values@, literals@, at as nat) == Ok::<
                Conversion,
                CalcError,
            >(
                Conversion {
                    stack: stack@,
                    output: output@,
                    literals_used: used as nat,
                    in_number,
                    seen_point,
                },
            ),
        decreases entry_field@.len() - at,
    {
        let token: Token = entry_field[at];
        proof {
            lemma_run_count_grows(entry_field@, (at + 1) as nat, entry_field@.len());
        }
        match token {
            Token::Digit(digit) => {
                if !in_number {
                    assert(starts_run(entry_field@, at as int));
                    assert(run_count(entry_field@, (at + 1) as nat) == used + 1);
                    assert(used < literals.len());
                    output.push(Token::Num(literals[used]));
                    used = used + 1;
                    in_number = true;
                    seen_point = matches!(digit, Digit::Period);
                } else if matches!(digit, Digit::Period) {
                    if seen_point {
                        proof {
                            lemma_error_stands(
                                entry_field@,
                                variable_values@,
                                literals@,
                                (at + 1) as nat,
                                entry_field@.len(),
                            );
                        }
                        return Err(CalcError::MalformedNumber);
                    }
                    seen_point = true;
                }
            },
            Token::Num(_) => {
                output.push(token);
                in_number = false;
            },
            Token::Variable(variable) => {
                output.push(Token::Num(variable_values.get(variable)));
                in_number = false;
            },
            Token::Parenth(Parenth::Left) => {
                stack.push(token);
                in_number = false;
            },
            Token::Parenth(Parenth::Right) => {
                if !shunt_closing(&mut stack, &mut output) {
                    proof {
                        lemma_error_stands(
                            entry_field@,
                            variable_values@,
                            literals@,
                            (at + 1) as nat,
                            entry_field@.len(),
                        );
                    }
                    return Err(CalcError::MismatchedParentheses);
                }
                in_number = false;
            },
            Token::Func(_) => {
                stack.push(token);
                in_number = false;
            },
            Token::Operator(incoming) => {
                shunt_operator(&mut stack, &mut output, incoming);
                in_number = false;
            },
        }
        at = at + 1;
    }
    let ghost end_stack = stack@;
    let ghost end_output = output@;
    while stack.len() > 0
        invariant
            output@ + stack@.reverse() == end_output + end_stack.reverse(),
        decreases stack.len(),
    {
        let ghost before = stack@;
        let ghost queued = output@;
        let top: Token = stack[stack.len() - 1];
        stack.pop();
        output.push(top);
        assert(output@ + stack@.reverse() =~= queued + before.reverse());
    }
    assert(output@ =~= output@ + stack@.reverse());
    Ok(output)
}

/// An arithmetic step that the caller carries out for an evaluation.
#[derive(Debug, Clone, Copy, PartialEq, Eq, Structural)]
pub enum Request {
    /// Apply the function to the operand.
    Func(Func, Number),
    /// Apply the operator to the left operand and the right operand, in
    /// this order.
    Operator(Operator, Number, Number),
}

/// What an evaluation reports when it is polled.
#[derive(Debug, Clone, Copy, PartialEq, Eq)]
pub enum Progress {
    /// The evaluation is over, with this outcome.
    Finished(Result<Number, CalcError>),
    /// The evaluation waits for the result of this step.
    Pending(Request),
}

/// The evaluation of a postfix queue, which stops wherever arithmetic is
/// needed and goes on when the caller supplies its result.
pub struct Evaluation {
    queue: Vec<Token>,
    position: usize,
    operands: Vec<Number>,
    failure: Option<CalcError>,
}

pub struct EvaluationView {
    /// The tokens that are still to be taken.
    pub rest: Seq<Token>,
    /// The operand stack, the most recent value last.
    pub operands: Seq<Number>,
    /// The error that ended the evaluation, if one did.
    pub failure: Option<CalcError>,
}

/// The evaluation after the numbers at the head of the queue have moved to
/// the operand stack.
pub open spec fn settle(evaluation: EvaluationView) -> EvaluationView
    decreases evaluation.rest.len(),
{
    if evaluation.failure is None && evaluation.rest.len() > 0 && evaluation.rest[0] is Num {
        settle(
            EvaluationView {
                rest: evaluation.rest.drop_first(),
                operands: evaluation.operands.push(evaluation.rest[0]->Num_0),
                ..evaluation
            },
        )
    } else {
        evaluation
    }
}

/// What a settled evaluation reports: its failure; at the end of the queue
/// the one value left, and an error if none or several are left; the next
/// step if its operands are there, and an error if they are not or if the
/// token is neither a function nor an operator.
pub open spec fn status(evaluation: EvaluationView) -> Progress {
    let operands = evaluation.operands;
    if evaluation.failure is Some {
        Progress::Finished(Err(evaluation.failure->Some_0))
    } else if evaluation.rest.len() == 0 {
        if operands.len() == 1 {
            Progress::Finished(Ok(operands[0]))
        } else {
            Progress::Finished(Err(CalcError::NotWellFormed))
        }
    } else {
        match evaluation.rest[0] {
            Token::Func(func) => if operands.len() >= 1 {
                Progress::Pending(Request::Func(func, operands.last()))
            } else {
                Progress::Finished(Err(CalcError::NotWellFormed))
            },
            Token::Operator(operator) => if operands.len() >= 2 {
                Progress::Pending(
                    Request::Operator(operator, operands[operands.len() - 2], operands.last()),
                )
            } else {
                Progress::Finished(Err(CalcError::NotWellFormed))
            },
            _ => Progress::Finished(Err(CalcError::NotWellFormed)),
        }
    }
}

/// A settled evaluation after its pending step was answered with
/// `computed`: the operands of the step give way to its value, or the
/// evaluation fails. Without a pending step nothing changes.
pub open spec fn answered(evaluation: EvaluationView, computed: Number) -> EvaluationView {
    let operands = evaluation.operands;
    match status(evaluation) {
        Progress::Finished(_) => evaluation,
        Progress::Pending(Request::Func(func, _)) => match func.spec_apply(computed) {
            Err(error) => EvaluationView { failure: Some(error), ..evaluation },
            Ok(value) => EvaluationView {
                rest: evaluation.rest.drop_first(),
                operands: operands.drop_last().push(value),
                ..evaluation
            },
        },
        Progress::Pending(Request::Operator(operator, _, right)) => match operator.spec_apply(
            right,
            computed,
        ) {
            Err(error) => EvaluationView { failure: Some(error), ..evaluation },
            Ok(value) => EvaluationView {
                rest: evaluation.rest.drop_first(),
                operands: operands.drop_last().drop_last().push(value),
                ..evaluation
            },
        },
    }
}

/// The evaluation of `queue` before any token is taken. An empty queue
/// stands for zero.
pub open spec fn evaluation_of(queue: Seq<Token>) -> EvaluationView {
    EvaluationView {
        rest: queue,
        operands: if queue.len() == 0 {
            seq![Number { bits: 0 }]
        } else {
            Seq::empty()
        },
        failure: None,
    }
}

/// The value of a postfix queue, read token by token against an operand
/// stack, where `arithmetic` says what each step computes. A number is
/// pushed; a function takes one operand and an operator two, the right one
/// on top; at the end exactly one value must be left.
pub open spec fn evaluate_tokens(
    queue: Seq<Token>,
    operands: Seq<Number>,
    arithmetic: spec_fn(Request) -> Number,
) -> Result<Number, CalcError>
    decreases queue.len(),
{
    if queue.len() == 0 {
        if operands.len() == 1 {
            Ok(operands[0])
        } else {
            Err(CalcError::NotWellFormed)
        }
    } else {
        match queue[0] {
            Token::Num(number) => evaluate_tokens(
                queue.drop_first(),
                operands.push(number),
                arithmetic,
            ),
            Token::Func(func) => if operands.len() < 1 {
                Err(CalcError::NotWellFormed)
            } else {
                match func.spec_apply(arithmetic(Request::Func(func, operands.last()))) {
                    Err(error) => Err(error),
                    Ok(value) => evaluate_tokens(
                        queue.drop_first(),
                        operands.drop_last().push(value),
                        arithmetic,
                    ),
                }
            },
            Token::Operator(operator) => if operands.len() < 2 {
                Err(CalcError::NotWellFormed)
            } else {
                let left = operands[operands.len() - 2];
                let right = operands.last();
                match operator.spec_apply(
                    right,
                    arithmetic(Request::Operator(operator, left, right)),
                ) {
                    Err(error) => Err(error),
                    Ok(value) => evaluate_tokens(
                        queue.drop_first(),
                        operands.drop_last().drop_last().push(value),
                        arithmetic,
                    ),
                }
            },
            _ => Err(CalcError::NotWellFormed),
        }
    }
}

/// The value of a postfix queue. The empty queue has the value zero.
pub open spec fn spec_evaluate_rpn(queue: Seq<Token>, arithmetic: spec_fn(Request) -> Number)
    -> Result<Number, CalcError> {
    if queue.len() == 0 {
        Ok(Number { bits: 0 })
    } else {
        evaluate_tokens(queue, Seq::empty(), arithmetic)
    }
}

/// What an evaluation comes to in the end, if every step is answered as
/// `arithmetic` says.
pub open spec fn outcome(evaluation: EvaluationView, arithmetic: spec_fn(Request) -> Number)
    -> Result<Number, CalcError> {
    match evaluation.failure {
        Some(error) => Err(error),
        None => evaluate_tokens(evaluation.rest, evaluation.operands, arithmetic),
    }
}

/// Taking the numbers at the head of the queue does not change what an
/// evaluation comes to.
pub proof fn lemma_settle_keeps_outcome(
    evaluation: EvaluationView,
    arithmetic: spec_fn(Request) -> Number,
)
    ensures
        outcome(settle(evaluation), arithmetic) == outcome(evaluation, arithmetic),
    decreases evaluation.rest.len(),
{
    if evaluation.failure is None && evaluation.rest.len() > 0 && evaluation.rest[0] is Num {
        lemma_settle_keeps_outcome(
            EvaluationView {
                rest: evaluation.rest.drop_first(),
                operands: evaluation.operands.push(evaluation.rest[0]->Num_0),
                ..evaluation
            },
            arithmetic,
        );
    }
}

/// An exchange of `poll` and `supply` keeps what an evaluation comes to:
/// when polling reports the end, it reports that outcome, and when it
/// reports a step, answering the step as `arithmetic` says leaves an
/// evaluation with the same outcome and a shorter queue, or one that has
/// failed.
pub proof fn lemma_exchange_keeps_outcome(
    evaluation: EvaluationView,
    arithmetic: spec_fn(Request) -> Number,
)
    ensures
        match status(settle(evaluation)) {
            Progress::Finished(result) => result == outcome(evaluation, arithmetic),
            Progress::Pending(request) => {
                let next = answered(settle(evaluation), arithmetic(request));
                &&& outcome(next, arithmetic) == outcome(evaluation, arithmetic)
                &&& (next.failure is Some || next.rest.len() < evaluation.rest.len())
            },
        },
{
    lemma_settle_keeps_outcome(evaluation, arithmetic);
    lemma_settle_shortens(evaluation);
    let settled = settle(evaluation);
    match status(settled) {
        Progress::Finished(result) => {
            assert(result == outcome(settled, arithmetic));
        },
        Progress::Pending(request) => {
            let next = answered(settled, arithmetic(request));
            assert(outcome(next, arithmetic) == outcome(settled, arithmetic));
        },
    }
}

/// Settling never makes the queue longer, and touches nothing once the
/// evaluation has failed.
pub proof fn lemma_settle_shortens(evaluation: EvaluationView)
    ensures
        settle(evaluation).rest.len() <= evaluation.rest.len(),
        settle(evaluation).failure == evaluation.failure,
        settle(settle(evaluation)) == settle(evaluation),
        settle(evaluation).failure is None && settle(evaluation).rest.len() > 0 ==> !(settle(
            evaluation,
        ).rest[0] is Num),
    decreases evaluation.rest.len(),
{
    if evaluation.failure is None && evaluation.rest.len() > 0 && evaluation.rest[0] is Num {
        lemma_settle_shortens(
            EvaluationView {
                rest: evaluation.rest.drop_first(),
                operands: evaluation.operands.push(evaluation.rest[0]->Num_0),
                ..evaluation
            },
        );
    }
}

/// The empty entry converts to the empty queue, and the empty queue has
/// the value zero, whatever the variables hold.
pub proof fn lemma_empty_entry_is_zero(
    variables: Map<Variable, Number>,
    literals: Seq<Number>,
    arithmetic: spec_fn(Request) -> Number,
)
    ensures
        spec_rpn(Seq::empty(), variables, literals) == Ok::<Seq<Token>, CalcError>(Seq::empty()),
        spec_evaluate_rpn(Seq::empty(), arithmetic) == Ok::<Number, CalcError>(Number { bits: 0 }),
{
    let end = converted_prefix(Seq::empty(), variables, literals, 0)->Ok_0;
    assert(end.output + end.stack.reverse() =~= Seq::<Token>::empty());
}

/// A fresh evaluation comes to the value of its queue.
pub proof fn lemma_evaluation_of_queue(queue: Seq<Token>, arithmetic: spec_fn(Request) -> Number)
    ensures
        outcome(evaluation_of(queue), arithmetic) == spec_evaluate_rpn(queue, arithmetic),
{
}

impl View for Evaluation {
    type V = EvaluationView;

    closed spec fn view(&self) -> EvaluationView {
        EvaluationView {
            rest: if self.position <= self.queue@.len() {
                self.queue@.skip(self.position as int)
            } else {
                Seq::empty()
            },
            operands: self.operands@,
            failure: self.failure,
        }
    }
}

impl Evaluation {

    /// Starts the evaluation of a postfix queue.
    pub fn new(queue: Vec<Token>) -> (evaluation: Evaluation)
        ensures
            evaluation@ == evaluation_of(queue@),
    {
        let mut operands: Vec<Number> = Vec::new();
        if queue.len() == 0 {
            operands.push(Number::zero());
        }
        let evaluation = Evaluation { queue, position: 0, operands, failure: None };
        assert(evaluation@.rest =~= queue@);
        assert(evaluation@.operands =~= evaluation_of(queue@).operands);
        evaluation
    }

    /// Takes numbers from the queue until arithmetic is needed or the
    /// evaluation is over, and says which. Polling again without supplying
    /// changes nothing.
    pub fn poll(&mut self) -> (progress: Progress)
        ensures
            final(self)@ == settle(old(self)@),
            progress == status(settle(old(self)@)),
    {
        if let Some(error) = self.failure {
            return Progress::Finished(Err(error));
        }
        if self.position > self.queue.len() {
            self.position = self.queue.len();
            assert(self@.rest =~= old(self)@.rest);
        }
        let mut position: usize = self.position;
        while position < self.queue.len()
            invariant
                position <= self.queue@.len(),
                self.failure is None,
                self.queue == old(self).queue,
                settle(
                    EvaluationView {
                        rest: self.queue@.skip(position as int),
                        operands: self.operands@,
                        failure: None,
                    },
                ) == settle(old(self)@),
            ensures
                position == self.queue@.len() || !(self.queue@[position as int] is Num),
            decreases self.queue@.len() - position,
        {
            let ghost before = EvaluationView {
                rest: self.queue@.skip(position as int),
                operands: self.operands@,
                failure: None,
            };
            match self.queue[position] {
                Token::Num(number) => {
                    self.operands.push(number);
                    position = position + 1;
                    assert(self.queue@.skip(position as int) =~= before.rest.drop_first());
                },
                _ => {
                    break ;
                },
            }
        }
        self.position = position;
        assert(self@.rest =~= self.queue@.skip(position as int));
        let count: usize = self.operands.len();
        if position == self.queue.len() {
            if count == 1 {
                Progress::Finished(Ok(self.operands[0]))
            } else {
                Progress::Finished(Err(CalcError::NotWellFormed))
            }
        } else {
            match self.queue[position] {
                Token::Func(func) => {
                    if count >= 1 {
                        Progress::Pending(Request::Func(func, self.operands[count - 1]))
                    } else {
                        Progress::Finished(Err(CalcError::NotWellFormed))
                    }
                },
                Token::Operator(operator) => {
                    if count >= 2 {
                        Progress::Pending(
                            Request::Operator(
                                operator,
                                self.operands[count - 2],
                                self.operands[count - 1],
                            ),
                        )
                    } else {
                        Progress::Finished(Err(CalcError::NotWellFormed))
                    }
                },
                _ => Progress::Finished(Err(CalcError::NotWellFormed)),
            }
        }
    }

    /// Answers the pending step with the value that the caller computed
    /// for it. The value replaces the operands of the step, unless the
    /// function or the operator refuses it: then the evaluation has failed.
    /// Without a pending step the value is ignored.
    pub fn supply(&mut self, computed: Number)
        ensures
            final(self)@ == answered(settle(old(self)@), computed),
    {
        match self.poll() {
            Progress::Finished(_) => {},
            Progress::Pending(Request::Func(func, _)) => {
                let ghost before = self@;
                let length: usize = self.queue.len();
                assert(self.position < length);
                match func.apply(computed) {
                    Err(error) => {
                        self.failure = Some(error);
                    },
                    Ok(value) => {
                        self.operands.pop();
                        self.operands.push(value);
                        self.position = self.position + 1;
                        assert(self@.rest =~= before.rest.drop_first());
                    },
                }
            },
            Progress::Pending(Request::Operator(operator, _, right)) => {
                let ghost before = self@;
                let length: usize = self.queue.len();
                assert(self.position < length);
                match operator.apply(right, computed) {
                    Err(error) => {
                        self.failure = Some(error);
                    },
                    Ok(value) => {
                        self.operands.pop();
                        self.operands.pop();
                        self.operands.push(value);
                        self.position = self.position + 1;
                        assert(self@.rest =~= before.rest.drop_first());
                    },
                }
            },
        }
    }
}

/// State and effects after the equals key. `evaluated` is what the entry
/// under way evaluates to; it counts only if the entry is not empty.
///
/// An error is shown and changes nothing. Otherwise `PrevAns` takes the
/// value of `Ans` and `Ans` the result; the entry is kept for one undo
/// and emptied. With an empty entry the result is the value of `Ans`.
pub open spec fn spec_equals_pressed(state: StateView, evaluated: Result<Number, CalcError>) -> (
    StateView,
    Seq<Effect>,
) {
    let answer = state.values[Variable::Ans];
    if state.entry.len() == 0 {
        (
            StateView { values: state.values.insert(Variable::PrevAns, answer), ..state },
            seq![
                Effect::ShowVariable(Variable::PrevAns, answer),
                Effect::ShowVariable(Variable::Ans, answer),
                Effect::Recompute,
            ],
        )
    } else {
        match evaluated {
            Err(error) => (state, seq![Effect::ShowError(error)]),
            Ok(result) => (
                StateView {
                    entry: Seq::empty(),
                    previous: state.entry,
                    values: state.values.insert(Variable::PrevAns, answer).insert(
                        Variable::Ans,
                        result,
                    ),
                },
                seq![
                    Effect::ShowVariable(Variable::PrevAns, answer),
                    Effect::ShowVariable(Variable::Ans, result),
                    Effect::ShowEntry,
                    Effect::ShowPreviousEntry,
                    Effect::Recompute,
                ],
            ),
        }
    }
}

/// Handles the equals key. The caller evaluates the entry under way first
/// and passes the outcome as `evaluated`.
pub fn equals_pressed(state: &mut State, evaluated: Result<Number, CalcError>) -> (effects: Vec<
    Effect,
>)
    ensures
        (final(state)@, effects@) == spec_equals_pressed(old(state)@, evaluated),
        old(state).wf() ==> final(state).wf(),
{
    let mut effects: Vec<Effect> = Vec::new();
    let answer: Number = state.variable_values().get(Variable::Ans);
    let result: Number = if state.entry_field().len() == 0 {
        answer
    } else {
        match evaluated {
            Err(error) => {
                effects.push(Effect::ShowError(error));
                return effects;
            },
            Ok(result) => result,
        }
    };
    effects.push(state.set_variable(Variable::PrevAns, answer));
    effects.push(state.set_variable(Variable::Ans, result));
    if state.entry_field().len() > 0 {
        state.archive_entry();
        effects.push(Effect::ShowEntry);
        effects.push(Effect::ShowPreviousEntry);
    }
    effects.push(Effect::Recompute);
    proof {
        let expected = spec_equals_pressed(old(state)@, evaluated);
        assert(effects@ =~= expected.1);
        assert(state@.values =~= expected.0.values);
    }
    effects
}

/// Stores a value that the caller computed on request, for an
/// `Accumulate` or a `Convert`, and says what remains to be done.
pub fn store_result(state: &mut State, variable: Variable, value: Number) -> (effects: Vec<Effect>)
    ensures
        final(state)@ == (StateView {
            values: old(state)@.values.insert(variable, value),
            ..old(state)@
        }),
        effects@ == seq![Effect::ShowVariable(variable, value), Effect::Recompute],
        old(state).wf() ==> final(state).wf(),
{
    let mut effects: Vec<Effect> = Vec::new();
    effects.push(state.set_variable(variable, value));
    effects.push(Effect::Recompute);
    effects
}

} // verus!
