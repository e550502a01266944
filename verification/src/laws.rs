//! Laws of the language: what holds of every program, proved from the machine
//! that specifies the interpreter.

use vstd::prelude::*;
use crate::ast::{ExpressionModel, FunctionModel, LiteralModel, StatementModel};
use crate::grammar::{binding_power, binds, right_power, Input, Parsed};
use crate::machine::{
    builtin_named, define, function_from, function_named, unwind, Builtin, MachineModel, TaskModel,
    UseModel,
};
use crate::protocol::{ActionView, ArithmeticOp, ReplyView, RequestView, RuntimeErrorView};
use crate::token::TokenKind;
use crate::value::{bind, is_zero, lemma_bind_lookup, lookup, Bindings, ValueModel};

verus! {

/// The operators that are tried before division and remainder are others.
proof fn lemma_operators_differ()
    ensures
        "/"@ != "+"@,
        "/"@ != "-"@,
        "/"@ != "*"@,
        "%"@ != "+"@,
        "%"@ != "-"@,
        "%"@ != "*"@,
        "%"@ != "/"@,
{
    reveal_strlit("/");
    reveal_strlit("%");
    reveal_strlit("+");
    reveal_strlit("-");
    reveal_strlit("*");
    assert("/"@[0] == '/');
    assert("%"@[0] == '%');
    assert("+"@[0] == '+');
    assert("-"@[0] == '-');
    assert("*"@[0] == '*');
}

/// Division and remainder by zero never fail: whatever the dividend, the
/// result is `null` and the run goes on.
pub proof fn law_division_by_zero_gives_null(machine: MachineModel, dividend: u64, zero: u64)
    requires
        is_zero(zero),
    ensures
        machine.binary("/"@, ValueModel::Number(dividend), ValueModel::Number(zero))
            == machine.push(ValueModel::Null).proceed(),
        machine.binary("%"@, ValueModel::Number(dividend), ValueModel::Number(zero))
            == machine.push(ValueModel::Null).proceed(),
{
    lemma_operators_differ();
}

/// Division and remainder by a number that is not zero are asked of the host,
/// and what the host answers is the result.
pub proof fn law_division_is_asked_of_the_host(
    machine: MachineModel,
    dividend: u64,
    divisor: u64,
    answer: u64,
)
    requires
        !is_zero(divisor),
    ensures
        machine.binary("/"@, ValueModel::Number(dividend), ValueModel::Number(divisor)) == machine.ask(
            RequestView::Arithmetic(ArithmeticOp::Divide, dividend, divisor),
            UseModel::PushNumber,
        ),
        machine.take(UseModel::PushNumber, ReplyView::Number(answer)) == machine.push(
            ValueModel::Number(answer),
        ).proceed(),
{
    lemma_operators_differ();
}

/// Reading an array at a number asks the host for the index; at an index
/// outside the array, or at a number below zero, the result is `null` and the
/// run goes on, and inside the array it is the element.
pub proof fn law_reading_outside_an_array_gives_null(
    machine: MachineModel,
    items: Seq<ValueModel>,
    number: u64,
    in_range: bool,
    index: usize,
)
    ensures
        machine.access(ValueModel::Array(items), ValueModel::Number(number)).action
            == ActionView::Request(RequestView::Truncate(number)),
        !(in_range && index < items.len()) ==> machine.take(
            UseModel::ArrayIndex { items, in_range },
            ReplyView::Index(index),
        ) == machine.push(ValueModel::Null).proceed(),
        in_range && index < items.len() ==> machine.take(
            UseModel::ArrayIndex { items, in_range },
            ReplyView::Index(index),
        ) == machine.push(items[index as int]).proceed(),
{
}

/// Writing an array at an index outside it, or at a number below zero, fails;
/// inside the array it changes that element and nothing else.
pub proof fn law_writing_outside_an_array_fails(
    machine: MachineModel,
    target: Option<Seq<char>>,
    items: Seq<ValueModel>,
    value: ValueModel,
    in_range: bool,
    index: usize,
)
    ensures
        !(in_range && index < items.len()) ==> machine.take(
            UseModel::StoreIndex { target, items, value, in_range },
            ReplyView::Index(index),
        ).action == ActionView::Failed(
            RuntimeErrorView::IndexOutOfBounds { index, length: items.len() as usize },
        ),
        in_range && index < items.len() ==> machine.take(
            UseModel::StoreIndex { target, items, value, in_range },
            ReplyView::Index(index),
        ) == machine.write_back(
            target,
            ValueModel::Array(items.update(index as int, value)),
        ).proceed(),
{
}

/// A call succeeds exactly when it has as many arguments as the function has
/// parameters: with any other number it fails with an arity mismatch, and the
/// variables stay as they were.
pub proof fn law_call_checks_the_number_of_arguments(
    machine: MachineModel,
    name: Seq<char>,
    arguments: Seq<ValueModel>,
)
    requires
        function_named(machine.functions, name) is Some,
    ensures
        ({
            let function = function_named(machine.functions, name)->0;
            let outcome = machine.call(name, arguments);
            &&& arguments.len() == function.parameters.len() ==> outcome.action
                == ActionView::Continue
            &&& arguments.len() != function.parameters.len() ==> outcome.action
                == ActionView::Failed(
                RuntimeErrorView::ArityMismatch {
                    function: function.name,
                    expected: function.parameters.len() as usize,
                    found: arguments.len() as usize,
                },
            ) && outcome.machine.variables == machine.variables
        }),
{
}

/// A call saves the variables of the caller as they are.
pub proof fn law_call_saves_the_variables(
    machine: MachineModel,
    name: Seq<char>,
    arguments: Seq<ValueModel>,
)
    requires
        function_named(machine.functions, name) is Some,
        arguments.len() == function_named(machine.functions, name)->0.parameters.len(),
    ensures
        ({
            let function = function_named(machine.functions, name)->0;
            let after = machine.call(name, arguments).machine;
            &&& after.tasks.len() == machine.tasks.len() + 2
            &&& after.tasks.take(machine.tasks.len() as int) == machine.tasks
            &&& after.tasks[machine.tasks.len() as int] == (TaskModel::CallEnd {
                saved: machine.variables,
                base: machine.values.len() as usize,
            })
            &&& after.tasks.last() == (TaskModel::Body { statements: function.body, index: 0 })
        }),
{
    let after = machine.call(name, arguments).machine;
    assert(after.tasks.take(machine.tasks.len() as int) =~= machine.tasks);
}

/// The end of a call gives the caller its variables back exactly as the call
/// saved them: nothing that the body bound is left, and nothing that it
/// changed stays changed.
pub proof fn law_call_end_restores_the_variables(
    machine: MachineModel,
    saved: Bindings,
    base: usize,
    reply: ReplyView,
)
    requires
        machine.tasks.len() > 0,
        machine.tasks.last() == (TaskModel::CallEnd { saved, base }),
        machine.values.len() > 0,
    ensures
        machine.step(reply).action == ActionView::Continue,
        machine.step(reply).machine.variables == saved,
        machine.step(reply).machine.functions == machine.functions,
        machine.step(reply).machine.tasks == machine.tasks.drop_last(),
        machine.step(reply).machine.values.last() == machine.values.last(),
{
}

/// What `unwind` keeps is the lower part of the tasks, and it keeps the end of
/// every call.
proof fn lemma_unwind(tasks: Seq<TaskModel>, place: int)
    ensures
        unwind(tasks).len() <= tasks.len(),
        unwind(tasks) == tasks.take(unwind(tasks).len() as int),
        0 <= place < tasks.len() && tasks[place] is CallEnd ==> place < unwind(tasks).len(),
    decreases tasks.len(),
{
    if tasks.len() == 0 {
        assert(tasks.take(0) =~= tasks);
    } else if tasks.last() is CallEnd || tasks.last() is Program {
        assert(tasks.take(tasks.len() as int) =~= tasks);
    } else {
        lemma_unwind(tasks.drop_last(), place);
        assert(unwind(tasks) =~= tasks.take(unwind(tasks).len() as int));
    }
}

/// A step never touches the tasks below the one it does: the ones that stay
/// are the same as before.
pub proof fn law_step_keeps_the_tasks_below(machine: MachineModel, reply: ReplyView, place: int)
    requires
        0 <= place < machine.tasks.len() - 1,
    ensures
        place < machine.step(reply).machine.tasks.len() ==> machine.step(reply).machine.tasks[place]
            == machine.tasks[place],
{
    let below = MachineModel { tasks: machine.tasks.drop_last(), ..machine };
    let task = machine.tasks.last();
    lemma_unwind(below.tasks, place);
    lemma_perform_keeps_the_tasks_below(below, task, reply, place);
}

/// While a call runs, the end of the call stays where it is with the variables
/// it has saved, unless the run fails: no step of the body, and no `return`
/// inside it, takes it away or changes it.
pub proof fn law_step_keeps_the_end_of_a_call(machine: MachineModel, reply: ReplyView, place: int)
    requires
        0 <= place < machine.tasks.len() - 1,
        machine.tasks[place] is CallEnd,
    ensures
        machine.step(reply).action is Failed || (place < machine.step(reply).machine.tasks.len()
            && machine.step(reply).machine.tasks[place] == machine.tasks[place]),
{
    let below = MachineModel { tasks: machine.tasks.drop_last(), ..machine };
    let task = machine.tasks.last();
    lemma_unwind(below.tasks, place);
    lemma_perform_keeps_the_tasks_below(below, task, reply, place);
}

/// What a task does leaves the tasks that were there in place, or fails, or
/// in the case of `return` keeps their lower part.
proof fn lemma_perform_keeps_the_tasks_below(
    below: MachineModel,
    task: TaskModel,
    reply: ReplyView,
    place: int,
)
    requires
        0 <= place < below.tasks.len(),
    ensures
        ({
            let after = below.perform(task, reply);
            &&& place < after.machine.tasks.len() ==> after.machine.tasks[place]
                == below.tasks[place]
            &&& below.tasks[place] is CallEnd ==> after.action is Failed || place
                < after.machine.tasks.len()
        }),
{
    // By cases on the task: `return` keeps the lower part of the tasks down to
    // the end of the innermost call, a failure drops them all, and every
    // other task leaves them in place and puts more on top.
    match task {
        TaskModel::Return => {
            lemma_unwind(below.tasks, place);
        },
        _ => {},
    }
}

/// The machine after the steps that take `replies` one after the other.
pub open spec fn after(machine: MachineModel, replies: Seq<ReplyView>) -> MachineModel
    decreases replies.len(),
{
    if replies.len() == 0 {
        machine
    } else {
        after(machine, replies.drop_last()).step(replies.last()).machine
    }
}

/// Whether one of the steps that take `replies` fails.
pub open spec fn fails(machine: MachineModel, replies: Seq<ReplyView>) -> bool
    decreases replies.len(),
{
    if replies.len() == 0 {
        false
    } else {
        fails(machine, replies.drop_last()) || after(machine, replies.drop_last()).step(
            replies.last(),
        ).action is Failed
    }
}

/// Whether before each of the steps that take `replies` more than `height`
/// tasks are left: the task at `height` has not been done yet.
pub open spec fn pending(machine: MachineModel, replies: Seq<ReplyView>, height: int) -> bool
    decreases replies.len(),
{
    if replies.len() == 0 {
        true
    } else {
        pending(machine, replies.drop_last(), height) && after(
            machine,
            replies.drop_last(),
        ).tasks.len() > height
    }
}

/// A call is isolated from its caller. Whatever the body does and however
/// long it runs without failing, the variables that the call saved stay saved
/// unchanged; and at the step that ends the call, the variables are exactly
/// those that the caller had when it made the call. So nothing that the body
/// assigns is visible to the caller afterwards, and a variable of the caller
/// that the body assigns under the same name has its old value again.
pub proof fn law_call_is_isolated(
    caller: MachineModel,
    name: Seq<char>,
    arguments: Seq<ValueModel>,
    replies: Seq<ReplyView>,
)
    requires
        function_named(caller.functions, name) is Some,
        arguments.len() == function_named(caller.functions, name)->0.parameters.len(),
        !fails(caller.call(name, arguments).machine, replies),
        pending(caller.call(name, arguments).machine, replies, caller.tasks.len() as int),
    ensures
        ({
            let height = caller.tasks.len() as int;
            let now = after(caller.call(name, arguments).machine, replies);
            ||| now.tasks.len() > height && now.tasks[height] == (TaskModel::CallEnd {
                saved: caller.variables,
                base: caller.values.len() as usize,
            })
            ||| now.tasks.len() == height && now.variables == caller.variables
        }),
    decreases replies.len(),
{
    let started = caller.call(name, arguments).machine;
    let height = caller.tasks.len() as int;
    if replies.len() == 0 {
        law_call_saves_the_variables(caller, name, arguments);
    } else {
        law_call_is_isolated(caller, name, arguments, replies.drop_last());
        let before = after(started, replies.drop_last());
        if before.tasks.len() - 1 == height {
            assert(before.tasks.last() == before.tasks[height]);
        } else {
            law_step_keeps_the_end_of_a_call(before, replies.last(), height);
        }
    }
}

/// The expression that joins `left` and `right` by the operator of kind `kind`.
pub open spec fn joined(
    kind: TokenKind,
    left: ExpressionModel,
    right: ExpressionModel,
) -> ExpressionModel {
    if kind == TokenKind::Range {
        ExpressionModel::Range { start: Box::new(left), end: Box::new(right) }
    } else {
        ExpressionModel::BinaryOp {
            left: Box::new(left),
            operator: kind.spelling(),
            right: Box::new(right),
        }
    }
}

/// The identifier that the token at `pos` names.
pub open spec fn named(input: Input, pos: nat) -> ExpressionModel {
    ExpressionModel::Identifier { name: input.text(pos) }
}

/// Whether an operator of kind `inner` binds tighter than one of kind
/// `outer`: it is taken into the right side of `outer`, and does not take
/// `outer` into its own.
pub open spec fn tighter(inner: TokenKind, outer: TokenKind) -> bool {
    binds(inner, right_power(outer)) && !binds(outer, right_power(inner))
}

/// The binding powers put the operators in this order, from the loosest to the
/// tightest: `||`, `&&`, equality, order, `..`, sum, product, `**`. All group
/// to the left but `**`, which groups to the right.
pub proof fn law_operators_are_ordered()
    ensures
        tighter(TokenKind::And, TokenKind::Or),
        tighter(TokenKind::Equals, TokenKind::And),
        tighter(TokenKind::NotEquals, TokenKind::And),
        tighter(TokenKind::LessThan, TokenKind::Equals),
        tighter(TokenKind::LessEqual, TokenKind::NotEquals),
        tighter(TokenKind::GreaterThan, TokenKind::Equals),
        tighter(TokenKind::GreaterEqual, TokenKind::Equals),
        tighter(TokenKind::Range, TokenKind::LessThan),
        tighter(TokenKind::Plus, TokenKind::Range),
        tighter(TokenKind::Minus, TokenKind::Range),
        tighter(TokenKind::Multiply, TokenKind::Plus),
        tighter(TokenKind::Divide, TokenKind::Minus),
        tighter(TokenKind::Modulo, TokenKind::Plus),
        tighter(TokenKind::Power, TokenKind::Multiply),
        !binds(TokenKind::Plus, right_power(TokenKind::Minus)),
        !binds(TokenKind::Multiply, right_power(TokenKind::Divide)),
        !binds(TokenKind::Or, right_power(TokenKind::Or)),
        binds(TokenKind::Power, right_power(TokenKind::Power)),
{
}

/// Precedence and associativity. Three names with two binary operators
/// between them, `a op1 b op2 c`, group to the right, as `a op1 (b op2 c)`,
/// exactly when the second operator binds its left side at least as tightly as
/// the first binds its right side; otherwise they group to the left, as
/// `(a op1 b) op2 c`. So `a + b * c` is `a + (b * c)`, `a * b + c` is
/// `(a * b) + c`, `a - b - c` is `(a - b) - c`, and `a ** b ** c` is
/// `a ** (b ** c)`.
pub proof fn law_operators_group_by_binding_power(input: Input, first: TokenKind, second: TokenKind)
    requires
        input.tokens.len() == 5,
        input.has(0, TokenKind::Identifier),
        input.has(1, first),
        input.has(2, TokenKind::Identifier),
        input.has(3, second),
        input.has(4, TokenKind::Identifier),
        binding_power(first) is Some,
        binding_power(second) is Some,
    ensures
        binds(second, right_power(first)) ==> input.expression(0, 0) == (Parsed::Done {
            value: joined(first, named(input, 0), joined(second, named(input, 2), named(input, 4))),
            next: 5,
        }),
        !binds(second, right_power(first)) ==> input.expression(0, 0) == (Parsed::Done {
            value: joined(second, joined(first, named(input, 0), named(input, 2)), named(input, 4)),
            next: 5,
        }),
{
    reveal_with_fuel(Input::binary, 4);
    reveal_with_fuel(Input::climb, 4);
    reveal_with_fuel(Input::prefix, 4);
    reveal_with_fuel(Input::atom, 4);
    reveal_with_fuel(Input::postfix, 4);
    let a = named(input, 0);
    let b = named(input, 2);
    let c = named(input, 4);
    assert(input.prefix(0, 0) == Parsed::Done { value: a, next: 1 });
    assert(input.prefix(2, 0) == Parsed::Done { value: b, next: 3 });
    assert(input.prefix(4, 0) == Parsed::Done { value: c, next: 5 });
    assert(input.kind(5) is None);
    let inner = right_power(first);
    assert(input.binary(4, 0, right_power(second)) == Parsed::Done { value: c, next: 5 });
    if binds(second, inner) {
        assert(input.climb(b, 3, 0, inner) == Parsed::Done {
            value: joined(second, b, c),
            next: 5,
        });
        assert(input.binary(2, 0, inner) == Parsed::Done { value: joined(second, b, c), next: 5 });
    } else {
        assert(input.binary(2, 0, inner) == Parsed::Done { value: b, next: 3 });
        assert(binds(second, 0));
    }
}

/// Whether every call that the machine has still to make names a function
/// that is defined.
pub open spec fn calls_are_defined(machine: MachineModel) -> bool {
    forall|i: int|
        0 <= i < machine.tasks.len() ==> match #[trigger] machine.tasks[i] {
            TaskModel::Call { name, spread } => function_named(machine.functions, name) is Some,
            _ => true,
        }
}

/// A position found among the functions lies inside them and holds the name,
/// and nothing is found only if no function has the name.
proof fn lemma_function_from(functions: Seq<FunctionModel>, name: Seq<char>, from: int)
    requires
        0 <= from,
    ensures
        match function_from(functions, name, from) {
            Some(i) => from <= i < functions.len() && functions[i].name == name,
            None => forall|j: int| from <= j < functions.len() ==> functions[j].name != name,
        },
    decreases functions.len() - from,
{
    if from < functions.len() && functions[from].name != name {
        lemma_function_from(functions, name, from + 1);
    }
}

/// Defining a function never takes a function away: every name that was
/// defined is still defined, and so is the new one.
pub proof fn law_functions_stay_defined(
    functions: Seq<FunctionModel>,
    function: FunctionModel,
    name: Seq<char>,
)
    ensures
        function_named(define(functions, function), function.name) is Some,
        function_named(functions, name) is Some ==> function_named(
            define(functions, function),
            name,
        ) is Some,
{
    let defined = define(functions, function);
    lemma_function_from(functions, function.name, 0);
    lemma_function_from(functions, name, 0);
    lemma_function_from(defined, function.name, 0);
    lemma_function_from(defined, name, 0);
    match function_from(functions, function.name, 0) {
        Some(i) => {
            assert(defined[i].name == function.name);
        },
        None => {
            assert(defined[functions.len() as int].name == function.name);
        },
    }
    if let Some(j) = function_from(functions, name, 0) {
        assert(defined[j].name == name);
    }
}

/// A function that is called is defined when the call is made. If every call
/// that a machine has still to make names a function that is defined, then a
/// step does not fail for want of a function, and the same holds of the
/// machine after the step.
pub proof fn law_calls_stay_defined(machine: MachineModel, reply: ReplyView)
    requires
        calls_are_defined(machine),
    ensures
        calls_are_defined(machine.step(reply).machine),
        !(machine.step(reply).action matches ActionView::Failed(
            RuntimeErrorView::UndefinedFunction { .. },
        )),
{
    if machine.tasks.len() > 0 {
        let below = MachineModel { tasks: machine.tasks.drop_last(), ..machine };
        let task = machine.tasks.last();
        let next = below.perform(task, reply).machine;
        assert(task == machine.tasks[machine.tasks.len() - 1]);
        assert forall|i: int| 0 <= i < below.tasks.len() implies match #[trigger] below.tasks[i] {
            TaskModel::Call { name, spread } => function_named(next.functions, name) is Some,
            _ => true,
        } by {
            assert(below.tasks[i] == machine.tasks[i]);
            if let TaskModel::Call { name, spread } = below.tasks[i] {
                if let TaskModel::Run(StatementModel::Function { name: defined, parameters, return_type, body }) = task {
                    law_functions_stay_defined(
                        below.functions,
                        FunctionModel { name: defined, parameters, return_type, body },
                        name,
                    );
                }
            }
        }
        assert forall|i: int| 0 <= i < next.tasks.len() implies match #[trigger] next.tasks[i] {
            TaskModel::Call { name, spread } => function_named(next.functions, name) is Some,
            _ => true,
        } by {
            if i < below.tasks.len() {
                lemma_perform_keeps_the_tasks_below(below, task, reply, i);
            } else {
                lemma_perform_schedules_defined_calls(below, task, reply, i);
            }
        }
        lemma_perform_finds_its_function(below, task, reply);
    }
}

/// The only call that a task schedules is the call of a function that is
/// defined.
proof fn lemma_perform_schedules_defined_calls(
    below: MachineModel,
    task: TaskModel,
    reply: ReplyView,
    place: int,
)
    requires
        below.tasks.len() <= place < below.perform(task, reply).machine.tasks.len(),
    ensures
        match below.perform(task, reply).machine.tasks[place] {
            TaskModel::Call { name, spread } => function_named(
                below.perform(task, reply).machine.functions,
                name,
            ) is Some,
            _ => true,
        },
{
    match task {
        TaskModel::Return => {
            lemma_unwind(below.tasks, 0);
        },
        TaskModel::Eval(expression) => {},
        TaskModel::Run(statement) => {},
        TaskModel::Take(purpose) => {},
        TaskModel::Builtin { function, spread } => {},
        TaskModel::Binary { operator } => {},
        TaskModel::Unary { operator } => {},
        _ => {},
    }
}

/// A call of a function that is defined does not fail for want of it, and no
/// other task fails so.
proof fn lemma_perform_finds_its_function(below: MachineModel, task: TaskModel, reply: ReplyView)
    requires
        task matches TaskModel::Call { name, spread } ==> function_named(below.functions, name)
            is Some,
    ensures
        !(below.perform(task, reply).action matches ActionView::Failed(
            RuntimeErrorView::UndefinedFunction { .. },
        )),
{
    match task {
        TaskModel::Call { name, spread } => {},
        TaskModel::Eval(expression) => {},
        TaskModel::Run(statement) => {},
        TaskModel::Take(purpose) => {},
        TaskModel::Builtin { function, spread } => {},
        TaskModel::Binary { operator } => {},
        TaskModel::Unary { operator } => {},
        _ => {},
    }
}

/// No run of a program fails for want of a function to call: from a machine
/// that has no call to make, such as one into which a program has just been
/// loaded, every call that is ever made finds its function.
pub proof fn law_every_call_finds_its_function(machine: MachineModel, replies: Seq<ReplyView>)
    requires
        calls_are_defined(machine),
    ensures
        calls_are_defined(after(machine, replies)),
        replies.len() > 0 ==> !(after(machine, replies.drop_last()).step(
            replies.last(),
        ).action matches ActionView::Failed(RuntimeErrorView::UndefinedFunction { .. })),
    decreases replies.len(),
{
    if replies.len() > 0 {
        law_every_call_finds_its_function(machine, replies.drop_last());
        law_calls_stay_defined(after(machine, replies.drop_last()), replies.last());
    }
}

/// A machine into which a program has just been loaded has no call to make,
/// if it had none before.
pub proof fn law_loading_schedules_no_call(machine: MachineModel, statements: Seq<StatementModel>)
    requires
        calls_are_defined(machine),
    ensures
        calls_are_defined(machine.load(statements)),
{
    let loaded = machine.load(statements);
    assert forall|i: int| 0 <= i < loaded.tasks.len() implies match #[trigger] loaded.tasks[i] {
        TaskModel::Call { name, spread } => function_named(loaded.functions, name) is Some,
        _ => true,
    } by {
        if i < machine.tasks.len() {
            assert(loaded.tasks[i] == machine.tasks[i]);
        }
    }
}

/// The text of a string is the string: `str` of a string literal gives a
/// value that equals the literal.
pub proof fn law_str_of_a_string_is_the_string(machine: MachineModel, text: Seq<char>)
    ensures
        machine.eval(
            ExpressionModel::Literal { value: LiteralModel::String(text), literal_type: "string"@ },
        ) == machine.push(ValueModel::String(text)).proceed(),
        machine.builtin(Builtin::Str, false, ValueModel::String(text)) == machine.push(
            ValueModel::String(Seq::empty()),
        ).schedule(TaskModel::Render(ValueModel::String(text))).proceed(),
        machine.push(ValueModel::String(Seq::empty())).render(ValueModel::String(text))
            == machine.push(ValueModel::String(text)).proceed(),
        machine.equality(false, ValueModel::String(text), ValueModel::String(text)) == machine.push(
            ValueModel::Boolean(true),
        ).proceed(),
{
    let started = machine.push(ValueModel::String(Seq::empty()));
    assert(started.peek(0) == ValueModel::String(Seq::empty()));
    assert(Seq::<char>::empty() + text =~= text);
    assert(started.drop(1).values =~= machine.values);
}

/// Every literal evaluates to a value of its own kind: a string, a boolean
/// and `null` at once, a number as soon as the host has said which number the
/// text denotes.
pub proof fn law_literals_evaluate_to_their_kind(
    machine: MachineModel,
    value: LiteralModel,
    literal_type: Seq<char>,
    number: u64,
)
    ensures
        ({
            let outcome = machine.eval(ExpressionModel::Literal { value, literal_type });
            match value {
                LiteralModel::Number(text) => outcome == machine.ask(
                    RequestView::ParseNumber(text),
                    UseModel::PushNumber,
                ) && machine.take(UseModel::PushNumber, ReplyView::Number(number)) == machine.push(
                    ValueModel::Number(number),
                ).proceed(),
                LiteralModel::String(text) => outcome == machine.push(
                    ValueModel::String(text),
                ).proceed(),
                LiteralModel::Boolean(b) => outcome == machine.push(
                    ValueModel::Boolean(b),
                ).proceed(),
                LiteralModel::Null => outcome == machine.push(ValueModel::Null).proceed(),
            }
        }),
{
}

/// Reading a name that is bound to no value always fails, and reading one
/// that is bound gives its value.
pub proof fn law_undefined_variable_fails(machine: MachineModel, name: Seq<char>)
    ensures
        match lookup(machine.variables, name) {
            None => machine.eval(ExpressionModel::Identifier { name }) == machine.fail(
                RuntimeErrorView::UndefinedVariable { name },
            ),
            Some(value) => machine.eval(ExpressionModel::Identifier { name }) == machine.push(
                value,
            ).proceed(),
        },
{
}

/// Calling a name that is no built-in function, no variable and no function
/// always fails: the name is read as a variable first, and that fails.
pub proof fn law_undefined_function_fails(
    machine: MachineModel,
    name: Seq<char>,
    index: ExpressionModel,
    reply: ReplyView,
)
    requires
        builtin_named(name) is None,
        lookup(machine.variables, name) is None,
        function_named(machine.functions, name) is None,
    ensures
        ({
            let called = ExpressionModel::Index {
                container: Box::new(ExpressionModel::Identifier { name }),
                index: Box::new(index),
            };
            let started = machine.eval(called);
            &&& started.action == ActionView::Continue
            &&& started.machine.variables == machine.variables
            &&& started.machine.functions == machine.functions
            &&& started.machine.step(reply).action == ActionView::Failed(
                RuntimeErrorView::UndefinedVariable { name },
            )
        }),
{
    let called = ExpressionModel::Index {
        container: Box::new(ExpressionModel::Identifier { name }),
        index: Box::new(index),
    };
    let started = machine.eval(called).machine;
    assert(started.tasks.last() == TaskModel::Eval(ExpressionModel::Identifier { name }));
}

/// A dictionary read at a key that it holds gives the value of that key, and
/// read at a string that it does not hold it fails.
pub proof fn law_dictionary_access(machine: MachineModel, entries: Bindings, key: Seq<char>)
    ensures
        match lookup(entries, key) {
            Some(value) => machine.access(ValueModel::Dictionary(entries), ValueModel::String(key))
                == machine.push(value).proceed(),
            None => machine.access(ValueModel::Dictionary(entries), ValueModel::String(key))
                == machine.fail(RuntimeErrorView::KeyNotFound { key }),
        },
{
}

/// A key that was bound in a dictionary is read back with the value it was
/// bound to, and binding it leaves every other key as it was.
pub proof fn law_dictionary_holds_what_was_bound(
    entries: Bindings,
    key: Seq<char>,
    value: ValueModel,
    other: Seq<char>,
)
    ensures
        lookup(bind(entries, key, value), key) == Some(value),
        other != key ==> lookup(bind(entries, key, value), other) == lookup(entries, other),
{
    lemma_bind_lookup(entries, key, value, other);
}

} // verus!
