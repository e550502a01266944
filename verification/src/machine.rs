//! The meaning of a Cortex program, as an abstract machine.
//!
//! The machine holds the variables, the functions, a stack of values and a
//! stack of tasks. A step takes the task on top and does it: it schedules the
//! tasks it breaks down into, or works on the values, or asks the host for
//! something and schedules the task that takes the reply. The interpreter is
//! specified by this machine: each of its steps is the step described here.
//!
//! Function calls save the variables of the caller and restore them when the
//! body is done; a `return` drops the tasks of the body it stands in. Errors
//! are of two kinds: some operations answer what cannot be done with `null`
//! and go on (division by zero, reading an array out of bounds, the square
//! root of a number below zero), all others fail and end the run.

use vstd::prelude::*;
use crate::ast::{ExpressionModel, FunctionModel, LiteralModel, StatementModel, VariableModel};
use crate::protocol::{
    ActionView, ArithmeticOp, CompareOp, MathOp, ReplyView, RequestView, RuntimeErrorView,
};
use crate::text::{lowercase_of, split_of, uppercase_of};
use crate::value::{
    bind, is_at_least_zero, is_below_zero, is_zero, lookup, negated, truthy, Bindings, ValueModel,
};

verus! {

/// The bit pattern of the number one.
pub const ONE: u64 = 0x3FF0_0000_0000_0000;

/// The functions that are built into the language.
#[derive(Debug, Clone, Copy, PartialEq, Eq, Structural)]
pub enum Builtin {
    Print,
    Str,
    Len,
    Push,
    Pop,
    Keys,
    Values,
    Abs,
    Min,
    Max,
    Substring,
    Upper,
    Lower,
    Split,
    Sqrt,
    Floor,
    Ceil,
    Round,
}

/// The built-in function of the given name, if there is one.
pub open spec fn builtin_named(name: Seq<char>) -> Option<Builtin> {
    if name == "print"@ {
        Some(Builtin::Print)
    } else if name == "str"@ {
        Some(Builtin::Str)
    } else if name == "len"@ {
        Some(Builtin::Len)
    } else if name == "push"@ {
        Some(Builtin::Push)
    } else if name == "pop"@ {
        Some(Builtin::Pop)
    } else if name == "keys"@ {
        Some(Builtin::Keys)
    } else if name == "values"@ {
        Some(Builtin::Values)
    } else if name == "abs"@ {
        Some(Builtin::Abs)
    } else if name == "min"@ {
        Some(Builtin::Min)
    } else if name == "max"@ {
        Some(Builtin::Max)
    } else if name == "substring"@ {
        Some(Builtin::Substring)
    } else if name == "upper"@ {
        Some(Builtin::Upper)
    } else if name == "lower"@ {
        Some(Builtin::Lower)
    } else if name == "split"@ {
        Some(Builtin::Split)
    } else if name == "sqrt"@ {
        Some(Builtin::Sqrt)
    } else if name == "floor"@ {
        Some(Builtin::Floor)
    } else if name == "ceil"@ {
        Some(Builtin::Ceil)
    } else if name == "round"@ {
        Some(Builtin::Round)
    } else {
        None
    }
}

/// What the reply of the host is used for.
pub enum UseModel {
    /// The number is the value of an expression.
    PushNumber,
    /// The flag, or its opposite, is the value of an expression.
    PushFlag { negate: bool },
    /// The text goes to the end of the string on top of the values.
    AppendText,
    /// The line was printed; the value of the call is `null`.
    Printed,
    /// The index reads `items`; `in_range` says that it was not below zero.
    ArrayIndex { items: Seq<ValueModel>, in_range: bool },
    /// The index says where `value` is stored in `items`, which are written
    /// back to the variable `target`.
    StoreIndex { target: Option<Seq<char>>, items: Seq<ValueModel>, value: ValueModel, in_range: bool },
    /// The flag says whether `current` is still below `end`.
    RangeFlag { current: u64, end: u64 },
    /// The number is the next element of the range.
    RangeNext { end: u64 },
    /// The index is the number of rounds of a loop over a number.
    CountStart { variable: Seq<char>, body: Seq<StatementModel> },
    /// The number is the round of a counting loop.
    CountIndex { variable: Seq<char>, body: Seq<StatementModel>, count: usize, index: usize },
    /// The number is the position of the element of a loop over an array.
    ItemIndex { variable: Seq<char>, body: Seq<StatementModel>, items: Seq<ValueModel>, index: usize },
    /// The flag says whether the number at `index` takes the place of `best`.
    ExtremeFlag { greater: bool, items: Seq<u64>, index: usize, best: u64 },
    /// The index is where a substring starts.
    SubstringStart { text: Seq<char>, length: u64 },
    /// The index is how long a substring is.
    SubstringLength { text: Seq<char>, start: usize },
}

/// A piece of work that the machine has still to do.
pub enum TaskModel {
    /// The statements of a program from `index` on.
    Program { statements: Seq<StatementModel>, index: usize },
    /// The statements of a block from `index` on.
    Block { statements: Seq<StatementModel>, index: usize },
    /// The statements of a function body from `index` on. The value of the
    /// body is that of its last statement if that is an expression, else `null`.
    Body { statements: Seq<StatementModel>, index: usize },
    /// A statement.
    Run(StatementModel),
    /// An expression; its value goes on top of the values.
    Eval(ExpressionModel),
    /// Drop the value on top.
    Discard,
    /// Bind the value on top to the name.
    Assign { name: Seq<char> },
    /// Go on with one of the two blocks as the value on top says.
    Branch { then_block: Seq<StatementModel>, else_block: Option<Seq<StatementModel>> },
    /// A loop: test the condition, then run the body and start again.
    While { condition: ExpressionModel, body: Seq<StatementModel> },
    /// Run the body and the loop again if the value on top says so.
    LoopTest { condition: ExpressionModel, body: Seq<StatementModel> },
    /// Start a loop over the value on top.
    ForStart { variable: Seq<char>, body: Seq<StatementModel> },
    /// A loop over the elements of an array from `index` on.
    ForArray { variable: Seq<char>, body: Seq<StatementModel>, items: Seq<ValueModel>, index: usize },
    /// A loop that counts from `index` up to `count`.
    ForCount { variable: Seq<char>, body: Seq<StatementModel>, count: usize, index: usize },
    /// A loop over the entries of a dictionary from `index` on.
    ForDictionary { variable: Seq<char>, body: Seq<StatementModel>, entries: Bindings, index: usize },
    /// Leave the function with the value on top.
    Return,
    /// The end of a call: the value on top is its result, the variables of the
    /// caller come back, and the values above `base` are dropped.
    CallEnd { saved: Bindings, base: usize },
    /// Store the value on top in the container below it at the index between
    /// them, and write the container back to `target`.
    StoreIndex { target: Option<Seq<char>> },
    /// Apply the operator to the two values on top.
    Binary { operator: Seq<char> },
    /// Apply the operator to the value on top.
    Unary { operator: Seq<char> },
    /// The elements of an array literal from `index` on.
    ArrayFrom { elements: Seq<ExpressionModel>, index: usize },
    /// Put the value on top at the end of the array below it.
    AppendItem,
    /// The pairs of a dictionary literal from `index` on.
    DictionaryFrom { pairs: Seq<(ExpressionModel, ExpressionModel)>, index: usize },
    /// Turn the key below the value on top into text.
    InsertPair,
    /// Bind the key on top to the value below it in the dictionary below that.
    InsertKeyed,
    /// Start the range between the two numbers on top.
    MakeRange,
    /// Go on with the range at `current`.
    RangeStep { current: u64, end: u64 },
    /// Read the container below the index on top.
    IndexValue,
    /// Read the dictionary below the key on top.
    LookupKey,
    /// Call a built-in function with the value on top. `spread` says that the
    /// argument was written as a list.
    Builtin { function: Builtin, spread: bool },
    /// Call the function of the given name with the value on top.
    Call { name: Seq<char>, spread: bool },
    /// Put the text of the value at the end of the string on top.
    Render(ValueModel),
    /// The texts of the items from `index` on, with the separator between them.
    RenderItems { items: Seq<ValueModel>, index: usize, separator: Seq<char> },
    /// The texts of the entries from `index` on.
    RenderEntries { entries: Bindings, index: usize },
    /// Put the text at the end of the string on top.
    Emit(Seq<char>),
    /// Print the string on top.
    PrintTop,
    /// The smallest or greatest of the numbers, from `index` on, `best` so far.
    Extreme { greater: bool, items: Seq<u64>, index: usize, best: u64 },
    /// Take the reply of the host.
    Take(UseModel),
}

/// The state of the machine.
pub struct MachineModel {
    pub variables: Bindings,
    pub functions: Seq<FunctionModel>,
    pub tasks: Seq<TaskModel>,
    pub values: Seq<ValueModel>,
}

/// A step: the state after it and how it ended.
pub struct Outcome {
    pub machine: MachineModel,
    pub action: ActionView,
}

/// The failure of an operation on values of the wrong kind.
pub open spec fn mismatch(message: Seq<char>) -> RuntimeErrorView {
    RuntimeErrorView::TypeMismatch { message }
}

/// The failure of a machine whose values or reply are not what the task on top
/// needs. A machine that runs a program from the start never gets there.
pub open spec fn broken(message: Seq<char>) -> RuntimeErrorView {
    RuntimeErrorView::Protocol { message }
}

/// The position of the function named `name` at or after `from`.
pub open spec fn function_from(
    functions: Seq<FunctionModel>,
    name: Seq<char>,
    from: int,
) -> Option<int>
    decreases functions.len() - from,
{
    if from < 0 || from >= functions.len() {
        None
    } else if functions[from].name == name {
        Some(from)
    } else {
        function_from(functions, name, from + 1)
    }
}

/// The function named `name`, if it is defined.
pub open spec fn function_named(
    functions: Seq<FunctionModel>,
    name: Seq<char>,
) -> Option<FunctionModel> {
    match function_from(functions, name, 0) {
        Some(i) => Some(functions[i]),
        None => None,
    }
}

/// `functions` with `function` defined: in place of the function of the same
/// name, or as a new last one.
pub open spec fn define(
    functions: Seq<FunctionModel>,
    function: FunctionModel,
) -> Seq<FunctionModel> {
    match function_from(functions, function.name, 0) {
        Some(i) => functions.update(i, function),
        None => functions.push(function),
    }
}

/// `variables` with the parameters from `from` on bound to the arguments at
/// the same places.
pub open spec fn bind_all(
    variables: Bindings,
    parameters: Seq<VariableModel>,
    arguments: Seq<ValueModel>,
    from: int,
) -> Bindings
    decreases parameters.len() - from,
{
    if from < 0 || from >= parameters.len() || from >= arguments.len() {
        variables
    } else {
        bind_all(
            bind(variables, parameters[from].name, arguments[from]),
            parameters,
            arguments,
            from + 1,
        )
    }
}

/// The tasks that stay when a function is left: those up to and with the end
/// of the innermost call, or up to and with the program if no call is open.
pub open spec fn unwind(tasks: Seq<TaskModel>) -> Seq<TaskModel>
    decreases tasks.len(),
{
    if tasks.len() == 0 {
        tasks
    } else if tasks.last() is CallEnd || tasks.last() is Program {
        tasks
    } else {
        unwind(tasks.drop_last())
    }
}

/// Whether every value is a number.
pub open spec fn all_numbers(items: Seq<ValueModel>) -> bool {
    forall|i: int| 0 <= i < items.len() ==> #[trigger] items[i] is Number
}

/// The bit patterns of values that are numbers.
pub open spec fn numbers_of(items: Seq<ValueModel>) -> Seq<u64> {
    items.map_values(|v: ValueModel| v->Number_0)
}

/// The keys of the entries, as string values.
pub open spec fn keys_of(entries: Bindings) -> Seq<ValueModel> {
    entries.map_values(|e: (Seq<char>, ValueModel)| ValueModel::String(e.0))
}

/// The values of the entries.
pub open spec fn values_of(entries: Bindings) -> Seq<ValueModel> {
    entries.map_values(|e: (Seq<char>, ValueModel)| e.1)
}

/// The texts as string values.
pub open spec fn strings_of(texts: Seq<Seq<char>>) -> Seq<ValueModel> {
    texts.map_values(|t: Seq<char>| ValueModel::String(t))
}

/// The `length` characters of `text` from `start` on, or as many as there are.
pub open spec fn clipped(text: Seq<char>, start: usize, length: usize) -> Seq<char> {
    if start >= text.len() {
        Seq::empty()
    } else if start + length >= text.len() {
        text.subrange(start as int, text.len() as int)
    } else {
        text.subrange(start as int, start + length)
    }
}

/// The text that a dictionary key of any kind but number is turned into.
pub open spec fn key_text(key: ValueModel) -> Seq<char> {
    match key {
        ValueModel::String(s) => s,
        ValueModel::Boolean(b) => if b {
            "true"@
        } else {
            "false"@
        },
        ValueModel::Null => "null"@,
        ValueModel::Array(_) => "array"@,
        ValueModel::Dictionary(_) => "dict"@,
        ValueModel::Number(_) => Seq::empty(),
    }
}

/// The name of a built-in function of one number.
pub open spec fn math_name(function: Builtin) -> Seq<char> {
    match function {
        Builtin::Abs => "abs"@,
        Builtin::Sqrt => "sqrt"@,
        Builtin::Floor => "floor"@,
        Builtin::Ceil => "ceil"@,
        _ => "round"@,
    }
}

/// The operation behind a built-in function of one number.
pub open spec fn math_op(function: Builtin) -> MathOp {
    match function {
        Builtin::Abs => MathOp::Abs,
        Builtin::Sqrt => MathOp::Sqrt,
        Builtin::Floor => MathOp::Floor,
        Builtin::Ceil => MathOp::Ceil,
        _ => MathOp::Round,
    }
}

impl MachineModel {
    /// The machine with `task` on top of its tasks.
    pub open spec fn schedule(self, task: TaskModel) -> MachineModel {
        MachineModel { tasks: self.tasks.push(task), ..self }
    }

    /// The machine with `value` on top of its values.
    pub open spec fn push(self, value: ValueModel) -> MachineModel {
        MachineModel { values: self.values.push(value), ..self }
    }

    /// The machine without its `count` topmost values.
    pub open spec fn drop(self, count: int) -> MachineModel {
        MachineModel { values: self.values.take(self.values.len() - count), ..self }
    }

    /// The value `depth` places below the top.
    pub open spec fn peek(self, depth: int) -> ValueModel {
        self.values[self.values.len() - 1 - depth]
    }

    /// The machine with other variables.
    pub open spec fn with_variables(self, variables: Bindings) -> MachineModel {
        MachineModel { variables, ..self }
    }

    /// The step that goes on.
    pub open spec fn proceed(self) -> Outcome {
        Outcome { machine: self, action: ActionView::Continue }
    }

    /// The step that asks the host and takes its reply for `purpose`.
    pub open spec fn ask(self, request: RequestView, purpose: UseModel) -> Outcome {
        Outcome {
            machine: self.schedule(TaskModel::Take(purpose)),
            action: ActionView::Request(request),
        }
    }

    /// The step that fails: nothing is left to do, and the variables and
    /// functions stay as they are.
    pub open spec fn fail(self, error: RuntimeErrorView) -> Outcome {
        Outcome {
            machine: MachineModel { tasks: Seq::empty(), values: Seq::empty(), ..self },
            action: ActionView::Failed(error),
        }
    }

    /// The step that puts `text` at the end of the string on top of the values.
    pub open spec fn append(self, text: Seq<char>) -> Outcome {
        if self.values.len() > 0 && self.peek(0) is String {
            self.drop(1).push(ValueModel::String(self.peek(0)->String_0 + text)).proceed()
        } else {
            self.fail(broken("no text to append to"@))
        }
    }

    /// The machine that starts to run a program: its statements are the task
    /// below all others.
    pub open spec fn load(self, statements: Seq<StatementModel>) -> MachineModel {
        self.schedule(TaskModel::Program { statements, index: 0 })
    }

    /// One step of the machine: the task on top is taken off and done.
    pub open spec fn step(self, reply: ReplyView) -> Outcome {
        if self.tasks.len() == 0 {
            Outcome { machine: self, action: ActionView::Finished }
        } else {
            MachineModel { tasks: self.tasks.drop_last(), ..self }.perform(self.tasks.last(), reply)
        }
    }

    /// What `task` does to the machine.
    pub open spec fn perform(self, task: TaskModel, reply: ReplyView) -> Outcome {
        match task {
            TaskModel::Program { statements, index } => self.program(statements, index),
            TaskModel::Block { statements, index } => self.block(statements, index),
            TaskModel::Body { statements, index } => self.body(statements, index),
            TaskModel::Run(statement) => self.run(statement),
            TaskModel::Eval(expression) => self.eval(expression),
            TaskModel::Discard => self.discard(),
            TaskModel::Assign { name } => self.assign(name),
            TaskModel::Branch { then_block, else_block } => self.branch(then_block, else_block),
            TaskModel::While { condition, body } => self.repeat(condition, body),
            TaskModel::LoopTest { condition, body } => self.loop_test(condition, body),
            TaskModel::ForStart { variable, body } => self.for_start(variable, body),
            TaskModel::ForArray { variable, body, items, index } => self.for_array(
                variable,
                body,
                items,
                index,
            ),
            TaskModel::ForCount { variable, body, count, index } => self.for_count(
                variable,
                body,
                count,
                index,
            ),
            TaskModel::ForDictionary { variable, body, entries, index } => self.for_dictionary(
                variable,
                body,
                entries,
                index,
            ),
            TaskModel::Return => self.leave(),
            TaskModel::CallEnd { saved, base } => self.call_end(saved, base),
            TaskModel::StoreIndex { target } => self.store_top(target),
            TaskModel::Binary { operator } => self.binary_top(operator),
            TaskModel::Unary { operator } => self.unary_top(operator),
            TaskModel::ArrayFrom { elements, index } => self.array_from(elements, index),
            TaskModel::AppendItem => self.append_item(),
            TaskModel::DictionaryFrom { pairs, index } => self.dictionary_from(pairs, index),
            TaskModel::InsertPair => self.insert_pair(),
            TaskModel::InsertKeyed => self.insert_keyed(),
            TaskModel::MakeRange => self.make_range(),
            TaskModel::RangeStep { current, end } => self.range_step(current, end),
            TaskModel::IndexValue => self.index_top(),
            TaskModel::LookupKey => self.lookup_top(),
            TaskModel::Builtin { function, spread } => self.builtin_top(function, spread),
            TaskModel::Call { name, spread } => self.call_top(name, spread),
            TaskModel::Render(value) => self.render(value),
            TaskModel::RenderItems { items, index, separator } => self.render_items(
                items,
                index,
                separator,
            ),
            TaskModel::RenderEntries { entries, index } => self.render_entries(entries, index),
            TaskModel::Emit(text) => self.append(text),
            TaskModel::PrintTop => self.print_top(),
            TaskModel::Extreme { greater, items, index, best } => self.extreme(
                greater,
                items,
                index,
                best,
            ),
            TaskModel::Take(purpose) => self.take(purpose, reply),
        }
    }

    /// The statements of a program from `index` on: the next one is run, then
    /// the rest.
    pub open spec fn program(self, statements: Seq<StatementModel>, index: usize) -> Outcome {
        if index < statements.len() {
            self.schedule(
                TaskModel::Program { statements, index: (index + 1) as usize },
            ).schedule(TaskModel::Run(statements[index as int])).proceed()
        } else {
            self.proceed()
        }
    }

    /// The statements of a block from `index` on: the next one is run, then the
    /// rest.
    pub open spec fn block(self, statements: Seq<StatementModel>, index: usize) -> Outcome {
        if index < statements.len() {
            self.schedule(
                TaskModel::Block { statements, index: (index + 1) as usize },
            ).schedule(TaskModel::Run(statements[index as int])).proceed()
        } else {
            self.proceed()
        }
    }

    /// The statements of a function body from `index` on. The value of the last
    /// statement is the value of the body if that statement is an expression;
    /// a body that ends otherwise has the value `null`.
    pub open spec fn body(self, statements: Seq<StatementModel>, index: usize) -> Outcome {
        if index >= statements.len() {
            self.push(ValueModel::Null).proceed()
        } else if index + 1 == statements.len() && statements[index as int] is Expression {
            self.schedule(TaskModel::Eval(statements[index as int]->Expression_0)).proceed()
        } else {
            self.schedule(
                TaskModel::Body { statements, index: (index + 1) as usize },
            ).schedule(TaskModel::Run(statements[index as int])).proceed()
        }
    }

    /// Dropping the value on top.
    pub open spec fn discard(self) -> Outcome {
        if self.values.len() > 0 {
            self.drop(1).proceed()
        } else {
            self.fail(broken("no value to drop"@))
        }
    }

    /// Binding the value on top to `name`.
    pub open spec fn assign(self, name: Seq<char>) -> Outcome {
        if self.values.len() > 0 {
            self.drop(1).with_variables(bind(self.variables, name, self.peek(0))).proceed()
        } else {
            self.fail(broken("no value to assign"@))
        }
    }

    /// Going on with the block that the condition on top chooses.
    pub open spec fn branch(
        self,
        then_block: Seq<StatementModel>,
        else_block: Option<Seq<StatementModel>>,
    ) -> Outcome {
        if self.values.len() == 0 {
            self.fail(broken("no condition"@))
        } else if truthy(self.peek(0)) {
            self.drop(1).schedule(
                TaskModel::Block { statements: then_block, index: 0 },
            ).proceed()
        } else {
            match else_block {
                Some(statements) => self.drop(1).schedule(
                    TaskModel::Block { statements, index: 0 },
                ).proceed(),
                None => self.drop(1).proceed(),
            }
        }
    }

    /// A loop: its condition is evaluated and then tested.
    pub open spec fn repeat(
        self,
        condition: ExpressionModel,
        body: Seq<StatementModel>,
    ) -> Outcome {
        self.schedule(
                TaskModel::LoopTest { condition, body },
            ).schedule(TaskModel::Eval(condition)).proceed()
    }

    /// Running the body and then the loop again if the condition on top holds.
    pub open spec fn loop_test(
        self,
        condition: ExpressionModel,
        body: Seq<StatementModel>,
    ) -> Outcome {
        if self.values.len() == 0 {
            self.fail(broken("no condition"@))
        } else if truthy(self.peek(0)) {
            self.drop(1).schedule(TaskModel::While { condition, body }).schedule(
                TaskModel::Block { statements: body, index: 0 },
            ).proceed()
        } else {
            self.drop(1).proceed()
        }
    }

    /// Starting a loop over the value on top: over the elements of an array, up
    /// to a number, or over the entries of a dictionary.
    pub open spec fn for_start(self, variable: Seq<char>, body: Seq<StatementModel>) -> Outcome {
        if self.values.len() == 0 {
            self.fail(broken("nothing to loop over"@))
        } else {
            match self.peek(0) {
                ValueModel::Array(items) => self.drop(1).schedule(
                    TaskModel::ForArray { variable, body, items, index: 0 },
                ).proceed(),
                ValueModel::Number(n) => self.drop(1).ask(
                    RequestView::Truncate(n),
                    UseModel::CountStart { variable, body },
                ),
                ValueModel::Dictionary(entries) => self.drop(1).schedule(
                    TaskModel::ForDictionary { variable, body, entries, index: 0 },
                ).proceed(),
                _ => self.fail(
                    mismatch("Cannot iterate over non-array, number, or dictionary value"@),
                ),
            }
        }
    }

    /// A loop over the elements of an array from `index` on.
    pub open spec fn for_array(
        self,
        variable: Seq<char>,
        body: Seq<StatementModel>,
        items: Seq<ValueModel>,
        index: usize,
    ) -> Outcome {
        if index < items.len() {
            self.ask(
                RequestView::FromIndex(index),
                UseModel::ItemIndex { variable, body, items, index },
            )
        } else {
            self.proceed()
        }
    }

    /// A loop that counts from `index` up to `count`.
    pub open spec fn for_count(
        self,
        variable: Seq<char>,
        body: Seq<StatementModel>,
        count: usize,
        index: usize,
    ) -> Outcome {
        if index < count {
            self.ask(
                RequestView::FromIndex(index),
                UseModel::CountIndex { variable, body, count, index },
            )
        } else {
            self.proceed()
        }
    }

    /// A loop over the entries of a dictionary from `index` on: the variable
    /// holds the key, and the variable named after it with `_value` the value.
    pub open spec fn for_dictionary(
        self,
        variable: Seq<char>,
        body: Seq<StatementModel>,
        entries: Bindings,
        index: usize,
    ) -> Outcome {
        if index < entries.len() {
            self.with_variables(
                bind(
                    bind(
                        self.variables,
                        variable,
                        ValueModel::String(entries[index as int].0),
                    ),
                    variable + "_value"@,
                    entries[index as int].1,
                ),
            ).schedule(
                TaskModel::ForDictionary {
                    variable,
                    body,
                    entries,
                    index: (index + 1) as usize,
                },
            ).schedule(TaskModel::Block { statements: body, index: 0 }).proceed()
        } else {
            self.proceed()
        }
    }

    /// Leaving the function that is running with the value on top: the tasks of
    /// its body are dropped. Outside every function the tasks of the statement
    /// are dropped, and the value with them.
    pub open spec fn leave(self) -> Outcome {
        if self.values.len() == 0 {
            self.fail(broken("no value to return"@))
        } else {
            let kept = unwind(self.tasks);
            if kept.len() > 0 && kept.last() is CallEnd {
                MachineModel { tasks: kept, ..self }.proceed()
            } else {
                MachineModel { tasks: kept, values: Seq::empty(), ..self }.proceed()
            }
        }
    }

    /// The end of a call: the variables of the caller come back exactly as they
    /// were saved, and the result is the only value that the call leaves.
    pub open spec fn call_end(self, saved: Bindings, base: usize) -> Outcome {
        if self.values.len() == 0 {
            self.fail(broken("no result of the call"@))
        } else {
            MachineModel {
                variables: saved,
                values: (if base < self.values.len() {
                    self.values.take(base as int)
                } else {
                    self.values.drop_last()
                }).push(self.peek(0)),
                ..self
            }.proceed()
        }
    }

    /// Storing the value on top in the container two below it, at the index
    /// between them.
    pub open spec fn store_top(self, target: Option<Seq<char>>) -> Outcome {
        if self.values.len() < 3 {
            self.fail(broken("nothing to store"@))
        } else {
            self.drop(3).store(target, self.peek(2), self.peek(1), self.peek(0))
        }
    }

    /// Applying a binary operator to the two values on top.
    pub open spec fn binary_top(self, operator: Seq<char>) -> Outcome {
        if self.values.len() < 2 {
            self.fail(broken("no operands"@))
        } else {
            self.drop(2).binary(operator, self.peek(1), self.peek(0))
        }
    }

    /// Applying a prefix operator to the value on top.
    pub open spec fn unary_top(self, operator: Seq<char>) -> Outcome {
        if self.values.len() < 1 {
            self.fail(broken("no operand"@))
        } else {
            self.drop(1).unary(operator, self.peek(0))
        }
    }

    /// The elements of an array literal from `index` on: each is evaluated and
    /// put at the end of the array.
    pub open spec fn array_from(self, elements: Seq<ExpressionModel>, index: usize) -> Outcome {
        if index < elements.len() {
            self.schedule(
                TaskModel::ArrayFrom { elements, index: (index + 1) as usize },
            ).schedule(TaskModel::AppendItem).schedule(
                TaskModel::Eval(elements[index as int]),
            ).proceed()
        } else {
            self.proceed()
        }
    }

    /// Putting the value on top at the end of the array below it.
    pub open spec fn append_item(self) -> Outcome {
        if self.values.len() >= 2 && self.peek(1) is Array {
            self.drop(2).push(
                ValueModel::Array(self.peek(1)->Array_0.push(self.peek(0))),
            ).proceed()
        } else {
            self.fail(broken("no array to append to"@))
        }
    }

    /// The pairs of a dictionary literal from `index` on: key and value are
    /// evaluated and inserted.
    pub open spec fn dictionary_from(
        self,
        pairs: Seq<(ExpressionModel, ExpressionModel)>,
        index: usize,
    ) -> Outcome {
        if index < pairs.len() {
            self.schedule(
                TaskModel::DictionaryFrom { pairs, index: (index + 1) as usize },
            ).schedule(TaskModel::InsertPair).schedule(
                TaskModel::Eval(pairs[index as int].1),
            ).schedule(TaskModel::Eval(pairs[index as int].0)).proceed()
        } else {
            self.proceed()
        }
    }

    /// Turning the key below the value on top into text: a string is the key
    /// itself, a number its text, anything else the name of what it is.
    pub open spec fn insert_pair(self) -> Outcome {
        if self.values.len() < 2 {
            self.fail(broken("no pair to insert"@))
        } else {
            match self.peek(1) {
                ValueModel::Number(n) => self.drop(2).push(self.peek(0)).push(
                    ValueModel::String(Seq::empty()),
                ).schedule(TaskModel::InsertKeyed).ask(
                    RequestView::FormatNumber(n),
                    UseModel::AppendText,
                ),
                key => self.drop(2).push(self.peek(0)).push(
                    ValueModel::String(key_text(key)),
                ).schedule(TaskModel::InsertKeyed).proceed(),
            }
        }
    }

    /// Binding the key on top to the value below it in the dictionary below
    /// that.
    pub open spec fn insert_keyed(self) -> Outcome {
        if self.values.len() >= 3 && self.peek(0) is String && self.peek(2) is Dictionary {
            self.drop(3).push(
                ValueModel::Dictionary(
                    bind(
                        self.peek(2)->Dictionary_0,
                        self.peek(0)->String_0,
                        self.peek(1),
                    ),
                ),
            ).proceed()
        } else {
            self.fail(broken("no dictionary to insert into"@))
        }
    }

    /// Starting the range between the two numbers on top.
    pub open spec fn make_range(self) -> Outcome {
        if self.values.len() < 2 {
            self.fail(broken("no bounds of the range"@))
        } else if self.peek(1) is Number && self.peek(0) is Number {
            self.drop(2).push(ValueModel::Array(Seq::empty())).schedule(
                TaskModel::RangeStep {
                    current: self.peek(1)->Number_0,
                    end: self.peek(0)->Number_0,
                },
            ).proceed()
        } else {
            self.fail(mismatch("Range expressions require numbers"@))
        }
    }

    /// Going on with a range: `current` belongs to it if it is below `end`.
    pub open spec fn range_step(self, current: u64, end: u64) -> Outcome {
        self.ask(
                RequestView::Compare(CompareOp::Less, current, end),
                UseModel::RangeFlag { current, end },
            )
    }

    /// Reading the container below the index on top.
    pub open spec fn index_top(self) -> Outcome {
        if self.values.len() < 2 {
            self.fail(broken("nothing to index"@))
        } else {
            self.drop(2).access(self.peek(1), self.peek(0))
        }
    }

    /// Reading the dictionary below the key on top.
    pub open spec fn lookup_top(self) -> Outcome {
        if self.values.len() >= 2 && self.peek(0) is String && self.peek(1) is Dictionary {
            self.drop(2).access(self.peek(1), self.peek(0))
        } else {
            self.fail(broken("no dictionary to look up in"@))
        }
    }

    /// Calling a built-in function with the value on top.
    pub open spec fn builtin_top(self, function: Builtin, spread: bool) -> Outcome {
        if self.values.len() == 0 {
            self.fail(broken("no argument"@))
        } else {
            self.drop(1).builtin(function, spread, self.peek(0))
        }
    }

    /// Calling the function named `name` with the value on top: `null` stands
    /// for no argument, a list that was written as one for its elements, and
    /// anything else for itself.
    pub open spec fn call_top(self, name: Seq<char>, spread: bool) -> Outcome {
        if self.values.len() == 0 {
            self.fail(broken("no argument"@))
        } else {
            self.drop(1).call(
                name,
                match self.peek(0) {
                    ValueModel::Null => Seq::empty(),
                    ValueModel::Array(items) if spread => items,
                    single => seq![single],
                },
            )
        }
    }

    /// The texts of the items from `index` on, with the separator between them.
    pub open spec fn render_items(
        self,
        items: Seq<ValueModel>,
        index: usize,
        separator: Seq<char>,
    ) -> Outcome {
        if index < items.len() {
            let next = self.schedule(
                TaskModel::RenderItems { items, index: (index + 1) as usize, separator },
            ).schedule(TaskModel::Render(items[index as int]));
            if index > 0 {
                next.schedule(TaskModel::Emit(separator)).proceed()
            } else {
                next.proceed()
            }
        } else {
            self.proceed()
        }
    }

    /// The texts of the entries from `index` on: each key in quotes, a colon and
    /// the value, with commas between them.
    pub open spec fn render_entries(self, entries: Bindings, index: usize) -> Outcome {
        if index < entries.len() {
            self.schedule(
                TaskModel::RenderEntries { entries, index: (index + 1) as usize },
            ).schedule(TaskModel::Render(entries[index as int].1)).schedule(
                TaskModel::Emit(
                    (if index > 0 {
                        ", \""@
                    } else {
                        "\""@
                    }) + entries[index as int].0 + "\": "@,
                ),
            ).proceed()
        } else {
            self.proceed()
        }
    }

    /// Printing the string on top.
    pub open spec fn print_top(self) -> Outcome {
        if self.values.len() > 0 && self.peek(0) is String {
            self.drop(1).ask(RequestView::Print(self.peek(0)->String_0), UseModel::Printed)
        } else {
            self.fail(broken("no text to print"@))
        }
    }

    /// The smallest or greatest of the numbers: the one at `index` is held
    /// against the best so far.
    pub open spec fn extreme(
        self,
        greater: bool,
        items: Seq<u64>,
        index: usize,
        best: u64,
    ) -> Outcome {
        if index < items.len() {
            self.ask(
                RequestView::Compare(
                    if greater {
                        CompareOp::Greater
                    } else {
                        CompareOp::Less
                    },
                    items[index as int],
                    best,
                ),
                UseModel::ExtremeFlag { greater, items, index, best },
            )
        } else {
            self.push(ValueModel::Number(best)).proceed()
        }
    }

    /// What a statement does.
    pub open spec fn run(self, statement: StatementModel) -> Outcome {
        match statement {
            StatementModel::Function { name, parameters, return_type, body } => MachineModel {
                functions: define(
                    self.functions,
                    FunctionModel { name, parameters, return_type, body },
                ),
                ..self
            }.proceed(),
            StatementModel::IfStatement { condition, then_block, else_block } => self.schedule(
                TaskModel::Branch { then_block, else_block },
            ).schedule(TaskModel::Eval(condition)).proceed(),
            StatementModel::WhileLoop { condition, body } => self.schedule(
                TaskModel::While { condition, body },
            ).proceed(),
            StatementModel::ForLoop { variable, iterable, body } => match iterable {
                Some(expression) => self.schedule(TaskModel::ForStart { variable, body }).schedule(
                    TaskModel::Eval(expression),
                ).proceed(),
                None => self.schedule(
                    TaskModel::ForCount { variable, body, count: 10, index: 0 },
                ).proceed(),
            },
            StatementModel::ReturnStatement { value } => match value {
                Some(expression) => self.schedule(TaskModel::Return).schedule(
                    TaskModel::Eval(expression),
                ).proceed(),
                None => self.push(ValueModel::Null).schedule(TaskModel::Return).proceed(),
            },
            StatementModel::Assignment { variable, value } => self.schedule(
                TaskModel::Assign { name: variable },
            ).schedule(TaskModel::Eval(value)).proceed(),
            StatementModel::ConstantAssignment { variable, value } => self.schedule(
                TaskModel::Assign { name: variable },
            ).schedule(TaskModel::Eval(value)).proceed(),
            StatementModel::IndexAssignment { container, index, value } => self.schedule(
                TaskModel::StoreIndex {
                    target: match container {
                        ExpressionModel::Identifier { name } => Some(name),
                        _ => None,
                    },
                },
            ).schedule(TaskModel::Eval(value)).schedule(TaskModel::Eval(index)).schedule(
                TaskModel::Eval(container),
            ).proceed(),
            StatementModel::Expression(expression) => self.schedule(TaskModel::Discard).schedule(
                TaskModel::Eval(expression),
            ).proceed(),
        }
    }

    /// How the value of an expression comes about.
    pub open spec fn eval(self, expression: ExpressionModel) -> Outcome {
        match expression {
            ExpressionModel::Literal { value, literal_type } => match value {
                LiteralModel::Number(text) => self.ask(
                    RequestView::ParseNumber(text),
                    UseModel::PushNumber,
                ),
                LiteralModel::String(s) => self.push(ValueModel::String(s)).proceed(),
                LiteralModel::Boolean(b) => self.push(ValueModel::Boolean(b)).proceed(),
                LiteralModel::Null => self.push(ValueModel::Null).proceed(),
            },
            ExpressionModel::Identifier { name } => match lookup(self.variables, name) {
                Some(value) => self.push(value).proceed(),
                None => self.fail(RuntimeErrorView::UndefinedVariable { name }),
            },
            ExpressionModel::BinaryOp { left, operator, right } => self.schedule(
                TaskModel::Binary { operator },
            ).schedule(TaskModel::Eval(*right)).schedule(TaskModel::Eval(*left)).proceed(),
            ExpressionModel::UnaryOp { operator, operand } => self.schedule(
                TaskModel::Unary { operator },
            ).schedule(TaskModel::Eval(*operand)).proceed(),
            ExpressionModel::Array { elements } => self.push(
                ValueModel::Array(Seq::empty()),
            ).schedule(TaskModel::ArrayFrom { elements, index: 0 }).proceed(),
            ExpressionModel::Dictionary { pairs } => self.push(
                ValueModel::Dictionary(Seq::empty()),
            ).schedule(TaskModel::DictionaryFrom { pairs, index: 0 }).proceed(),
            ExpressionModel::Range { start, end } => self.schedule(TaskModel::MakeRange).schedule(
                TaskModel::Eval(*end),
            ).schedule(TaskModel::Eval(*start)).proceed(),
            ExpressionModel::Index { container, index } => match *container {
                ExpressionModel::Identifier { name } => {
                    if builtin_named(name) is Some {
                        self.schedule(
                            TaskModel::Builtin {
                                function: builtin_named(name)->0,
                                spread: *index is Array,
                            },
                        ).schedule(TaskModel::Eval(*index)).proceed()
                    } else if lookup(self.variables, name) is None && function_named(
                        self.functions,
                        name,
                    ) is Some {
                        self.schedule(TaskModel::Call { name, spread: *index is Array }).schedule(
                            TaskModel::Eval(*index),
                        ).proceed()
                    } else {
                        self.schedule(TaskModel::IndexValue).schedule(
                            TaskModel::Eval(*index),
                        ).schedule(TaskModel::Eval(*container)).proceed()
                    }
                },
                _ => self.schedule(TaskModel::IndexValue).schedule(TaskModel::Eval(*index)).schedule(
                    TaskModel::Eval(*container),
                ).proceed(),
            },
        }
    }

    /// Arithmetic on two values, which must be numbers.
    pub open spec fn arithmetic(
        self,
        op: ArithmeticOp,
        left: ValueModel,
        right: ValueModel,
        message: Seq<char>,
    ) -> Outcome {
        match (left, right) {
            (ValueModel::Number(a), ValueModel::Number(b)) => self.ask(
                RequestView::Arithmetic(op, a, b),
                UseModel::PushNumber,
            ),
            _ => self.fail(mismatch(message)),
        }
    }

    /// Division or remainder: by zero it gives `null`.
    pub open spec fn division(
        self,
        op: ArithmeticOp,
        left: ValueModel,
        right: ValueModel,
        message: Seq<char>,
    ) -> Outcome {
        match (left, right) {
            (ValueModel::Number(a), ValueModel::Number(b)) => if is_zero(b) {
                self.push(ValueModel::Null).proceed()
            } else {
                self.ask(RequestView::Arithmetic(op, a, b), UseModel::PushNumber)
            },
            _ => self.fail(mismatch(message)),
        }
    }

    /// An order test on two values, which must be numbers.
    pub open spec fn comparison(
        self,
        op: CompareOp,
        left: ValueModel,
        right: ValueModel,
    ) -> Outcome {
        match (left, right) {
            (ValueModel::Number(a), ValueModel::Number(b)) => self.ask(
                RequestView::Compare(op, a, b),
                UseModel::PushFlag { negate: false },
            ),
            _ => self.fail(mismatch("Cannot compare these values"@)),
        }
    }

    /// Whether two values are equal, or with `negate` whether they are not.
    /// Numbers are equal when they are near each other, strings and booleans
    /// when they are the same, `null` equals itself, and nothing else is equal.
    pub open spec fn equality(self, negate: bool, left: ValueModel, right: ValueModel) -> Outcome {
        match (left, right) {
            (ValueModel::Number(a), ValueModel::Number(b)) => self.ask(
                RequestView::Compare(CompareOp::Near, a, b),
                UseModel::PushFlag { negate },
            ),
            (ValueModel::String(a), ValueModel::String(b)) => self.push(
                ValueModel::Boolean((a == b) != negate),
            ).proceed(),
            (ValueModel::Boolean(a), ValueModel::Boolean(b)) => self.push(
                ValueModel::Boolean((a == b) != negate),
            ).proceed(),
            (ValueModel::Null, ValueModel::Null) => self.push(ValueModel::Boolean(!negate)).proceed(),
            _ => self.push(ValueModel::Boolean(negate)).proceed(),
        }
    }

    /// The sum of two numbers, or the two texts joined when at least one of
    /// the values is a string and the other a string or a number.
    pub open spec fn addition(self, left: ValueModel, right: ValueModel) -> Outcome {
        match (left, right) {
            (ValueModel::Number(a), ValueModel::Number(b)) => self.ask(
                RequestView::Arithmetic(ArithmeticOp::Add, a, b),
                UseModel::PushNumber,
            ),
            (ValueModel::String(a), ValueModel::String(b)) => self.push(
                ValueModel::String(a + b),
            ).proceed(),
            (ValueModel::String(a), ValueModel::Number(b)) => self.push(ValueModel::String(a)).ask(
                RequestView::FormatNumber(b),
                UseModel::AppendText,
            ),
            (ValueModel::Number(a), ValueModel::String(b)) => self.push(
                ValueModel::String(Seq::empty()),
            ).schedule(TaskModel::Emit(b)).ask(RequestView::FormatNumber(a), UseModel::AppendText),
            _ => self.fail(mismatch("Cannot add these values"@)),
        }
    }

    /// What a binary operator does to its operands.
    pub open spec fn binary(
        self,
        operator: Seq<char>,
        left: ValueModel,
        right: ValueModel,
    ) -> Outcome {
        if operator == "+"@ {
            self.addition(left, right)
        } else if operator == "-"@ {
            self.arithmetic(ArithmeticOp::Subtract, left, right, "Cannot subtract these values"@)
        } else if operator == "*"@ {
            self.arithmetic(ArithmeticOp::Multiply, left, right, "Cannot multiply these values"@)
        } else if operator == "/"@ {
            self.division(ArithmeticOp::Divide, left, right, "Cannot divide these values"@)
        } else if operator == "%"@ {
            self.division(ArithmeticOp::Remainder, left, right, "Cannot modulo these values"@)
        } else if operator == "**"@ {
            self.arithmetic(ArithmeticOp::Power, left, right, "Cannot raise these values"@)
        } else if operator == "=="@ {
            self.equality(false, left, right)
        } else if operator == "!="@ {
            self.equality(true, left, right)
        } else if operator == "<"@ {
            self.comparison(CompareOp::Less, left, right)
        } else if operator == "<="@ {
            self.comparison(CompareOp::LessEqual, left, right)
        } else if operator == ">"@ {
            self.comparison(CompareOp::Greater, left, right)
        } else if operator == ">="@ {
            self.comparison(CompareOp::GreaterEqual, left, right)
        } else if operator == "&&"@ {
            self.push(ValueModel::Boolean(truthy(left) && truthy(right))).proceed()
        } else if operator == "||"@ {
            self.push(ValueModel::Boolean(truthy(left) || truthy(right))).proceed()
        } else if operator == "@"@ {
            self.access(left, right)
        } else {
            self.fail(RuntimeErrorView::UnsupportedOperator { operator })
        }
    }

    /// What a prefix operator does to its operand.
    pub open spec fn unary(self, operator: Seq<char>, operand: ValueModel) -> Outcome {
        if operator == "!"@ {
            self.push(ValueModel::Boolean(!truthy(operand))).proceed()
        } else if operator == "-"@ {
            match operand {
                ValueModel::Number(n) => self.push(ValueModel::Number(negated(n))).proceed(),
                _ => self.fail(mismatch("Cannot negate non-number value"@)),
            }
        } else if operator == "+"@ {
            match operand {
                ValueModel::Number(n) => self.push(ValueModel::Number(n)).proceed(),
                _ => self.fail(mismatch("Cannot apply unary plus to non-number value"@)),
            }
        } else {
            self.fail(RuntimeErrorView::UnsupportedOperator { operator })
        }
    }

    /// Reading a container at an index. An array is read at a number; outside
    /// the array that gives `null`. A dictionary is read at a string, or at
    /// the text of a number, and fails at a key that it does not hold.
    pub open spec fn access(self, container: ValueModel, index: ValueModel) -> Outcome {
        match container {
            ValueModel::Array(items) => match index {
                ValueModel::Number(n) => self.ask(
                    RequestView::Truncate(n),
                    UseModel::ArrayIndex { items, in_range: is_at_least_zero(n) },
                ),
                _ => self.fail(mismatch("Array index must be a number"@)),
            },
            ValueModel::Dictionary(entries) => match index {
                ValueModel::String(key) => match lookup(entries, key) {
                    Some(value) => self.push(value).proceed(),
                    None => self.fail(RuntimeErrorView::KeyNotFound { key }),
                },
                ValueModel::Number(n) => self.push(ValueModel::Dictionary(entries)).push(
                    ValueModel::String(Seq::empty()),
                ).schedule(TaskModel::LookupKey).ask(
                    RequestView::FormatNumber(n),
                    UseModel::AppendText,
                ),
                _ => self.fail(mismatch("Dictionary key must be a string or number"@)),
            },
            _ => self.fail(mismatch("Cannot access elements of non-container type"@)),
        }
    }

    /// The machine after a container that was changed is written back to the
    /// variable it was read from, if it was read from one.
    pub open spec fn write_back(
        self,
        target: Option<Seq<char>>,
        container: ValueModel,
    ) -> MachineModel {
        match target {
            Some(name) => self.with_variables(bind(self.variables, name, container)),
            None => self,
        }
    }

    /// Storing a value in a container at an index. An array is written at a
    /// number inside it; a dictionary takes any string key.
    pub open spec fn store(
        self,
        target: Option<Seq<char>>,
        container: ValueModel,
        index: ValueModel,
        value: ValueModel,
    ) -> Outcome {
        match (container, index) {
            (ValueModel::Array(items), ValueModel::Number(n)) => self.ask(
                RequestView::Truncate(n),
                UseModel::StoreIndex { target, items, value, in_range: is_at_least_zero(n) },
            ),
            (ValueModel::Dictionary(entries), ValueModel::String(key)) => self.write_back(
                target,
                ValueModel::Dictionary(bind(entries, key, value)),
            ).proceed(),
            _ => self.fail(mismatch("Cannot assign to non-array or non-dictionary value"@)),
        }
    }

    /// Calling the function named `name` with the arguments: the variables of
    /// the caller are saved, the parameters are bound, and the body is run.
    pub open spec fn call(self, name: Seq<char>, arguments: Seq<ValueModel>) -> Outcome {
        match function_named(self.functions, name) {
            None => self.fail(RuntimeErrorView::UndefinedFunction { name }),
            Some(function) => {
                if arguments.len() != function.parameters.len() {
                    self.fail(
                        RuntimeErrorView::ArityMismatch {
                            function: function.name,
                            expected: function.parameters.len() as usize,
                            found: arguments.len() as usize,
                        },
                    )
                } else {
                    self.with_variables(
                        bind_all(self.variables, function.parameters, arguments, 0),
                    ).schedule(
                        TaskModel::CallEnd {
                            saved: self.variables,
                            base: self.values.len() as usize,
                        },
                    ).schedule(TaskModel::Body { statements: function.body, index: 0 }).proceed()
                }
            },
        }
    }

    /// Putting the text of a value at the end of the string on top.
    pub open spec fn render(self, value: ValueModel) -> Outcome {
        match value {
            ValueModel::Number(n) => self.ask(RequestView::FormatNumber(n), UseModel::AppendText),
            ValueModel::String(s) => self.append(s),
            ValueModel::Boolean(b) => self.append(
                if b {
                    "true"@
                } else {
                    "false"@
                },
            ),
            ValueModel::Null => self.append("null"@),
            ValueModel::Array(items) => self.schedule(TaskModel::Emit("]"@)).schedule(
                TaskModel::RenderItems { items, index: 0, separator: ", "@ },
            ).schedule(TaskModel::Emit("["@)).proceed(),
            ValueModel::Dictionary(entries) => self.schedule(TaskModel::Emit("}"@)).schedule(
                TaskModel::RenderEntries { entries, index: 0 },
            ).schedule(TaskModel::Emit("{"@)).proceed(),
        }
    }

    /// What a built-in function does with its argument.
    pub open spec fn builtin(
        self,
        function: Builtin,
        spread: bool,
        argument: ValueModel,
    ) -> Outcome {
        match function {
            Builtin::Print => match argument {
                ValueModel::Array(items) if spread => self.push(
                    ValueModel::String(Seq::empty()),
                ).schedule(TaskModel::PrintTop).schedule(
                    TaskModel::RenderItems { items, index: 0, separator: " "@ },
                ).proceed(),
                _ => self.push(ValueModel::String(Seq::empty())).schedule(
                    TaskModel::PrintTop,
                ).schedule(TaskModel::Render(argument)).proceed(),
            },
            Builtin::Str => self.push(ValueModel::String(Seq::empty())).schedule(
                TaskModel::Render(argument),
            ).proceed(),
            Builtin::Len => match argument {
                ValueModel::Array(items) => self.ask(
                    RequestView::FromIndex(items.len() as usize),
                    UseModel::PushNumber,
                ),
                ValueModel::Dictionary(entries) => self.ask(
                    RequestView::FromIndex(entries.len() as usize),
                    UseModel::PushNumber,
                ),
                ValueModel::String(s) => self.ask(
                    RequestView::FromIndex(s.len() as usize),
                    UseModel::PushNumber,
                ),
                ValueModel::Null => self.fail(
                    mismatch(
                        "len() requires an argument - provide an array, dictionary, or string"@,
                    ),
                ),
                _ => self.fail(mismatch("len() expects array, dictionary, or string"@)),
            },
            Builtin::Push => match argument {
                ValueModel::Array(arguments) => {
                    if arguments.len() != 2 {
                        self.fail(
                            mismatch("push() expects exactly 2 arguments: array and value"@),
                        )
                    } else {
                        match arguments[0] {
                            ValueModel::Array(items) => self.push(
                                ValueModel::Array(items.push(arguments[1])),
                            ).proceed(),
                            _ => self.fail(mismatch("push() first argument must be an array"@)),
                        }
                    }
                },
                _ => self.fail(mismatch("push() expects array arguments"@)),
            },
            Builtin::Pop => match argument {
                ValueModel::Array(items) => if items.len() == 0 {
                    self.push(ValueModel::Null).proceed()
                } else {
                    self.push(items.last()).proceed()
                },
                _ => self.fail(mismatch("pop() expects an array"@)),
            },
            Builtin::Keys => match argument {
                ValueModel::Dictionary(entries) => self.push(
                    ValueModel::Array(keys_of(entries)),
                ).proceed(),
                _ => self.fail(mismatch("keys() expects a dictionary"@)),
            },
            Builtin::Values => match argument {
                ValueModel::Dictionary(entries) => self.push(
                    ValueModel::Array(values_of(entries)),
                ).proceed(),
                _ => self.fail(mismatch("values() expects a dictionary"@)),
            },
            Builtin::Abs | Builtin::Floor | Builtin::Ceil | Builtin::Round | Builtin::Sqrt => {
                match argument {
                    ValueModel::Number(n) => if function == Builtin::Sqrt && is_below_zero(n) {
                        self.push(ValueModel::Null).proceed()
                    } else {
                        self.ask(RequestView::Math(math_op(function), n), UseModel::PushNumber)
                    },
                    _ => self.fail(mismatch(math_name(function) + "() expects a number"@)),
                }
            },
            Builtin::Min | Builtin::Max => {
                let name = if function == Builtin::Max {
                    "max"@
                } else {
                    "min"@
                };
                match argument {
                    ValueModel::Array(items) => {
                        if items.len() == 0 {
                            self.fail(mismatch(name + "() expects at least one argument"@))
                        } else if !all_numbers(items) {
                            self.fail(mismatch(name + "() expects all arguments to be numbers"@))
                        } else {
                            self.schedule(
                                TaskModel::Extreme {
                                    greater: function == Builtin::Max,
                                    items: numbers_of(items),
                                    index: 1,
                                    best: numbers_of(items)[0],
                                },
                            ).proceed()
                        }
                    },
                    _ => self.fail(mismatch(name + "() expects array of numbers"@)),
                }
            },
            Builtin::Substring => match argument {
                ValueModel::Array(arguments) => {
                    if arguments.len() != 3 {
                        self.fail(
                            mismatch(
                                "substring() expects exactly 3 arguments: string, start, length"@,
                            ),
                        )
                    } else {
                        match (arguments[0], arguments[1], arguments[2]) {
                            (
                                ValueModel::String(text),
                                ValueModel::Number(start),
                                ValueModel::Number(length),
                            ) => self.ask(
                                RequestView::Truncate(start),
                                UseModel::SubstringStart { text, length },
                            ),
                            _ => self.fail(
                                mismatch("substring() expects string, number, number arguments"@),
                            ),
                        }
                    }
                },
                _ => self.fail(mismatch("substring() expects array of arguments"@)),
            },
            Builtin::Upper => match argument {
                ValueModel::String(s) => self.push(ValueModel::String(uppercase_of(s))).proceed(),
                _ => self.fail(mismatch("upper() expects a string"@)),
            },
            Builtin::Lower => match argument {
                ValueModel::String(s) => self.push(ValueModel::String(lowercase_of(s))).proceed(),
                _ => self.fail(mismatch("lower() expects a string"@)),
            },
            Builtin::Split => match argument {
                ValueModel::Array(arguments) => {
                    if arguments.len() != 2 {
                        self.fail(
                            mismatch("split() expects exactly 2 arguments: string, delimiter"@),
                        )
                    } else {
                        match (arguments[0], arguments[1]) {
                            (ValueModel::String(text), ValueModel::String(separator)) => self.push(
                                ValueModel::Array(strings_of(split_of(text, separator))),
                            ).proceed(),
                            _ => self.fail(mismatch("split() expects string, string arguments"@)),
                        }
                    }
                },
                _ => self.fail(mismatch("split() expects array of arguments"@)),
            },
        }
    }

    /// What the reply of the host does, taken for `purpose`.
    pub open spec fn take(self, purpose: UseModel, reply: ReplyView) -> Outcome {
        match (purpose, reply) {
            (UseModel::PushNumber, ReplyView::Number(n)) => self.push(ValueModel::Number(n)).proceed(),
            (UseModel::PushFlag { negate }, ReplyView::Flag(b)) => self.push(
                ValueModel::Boolean(b != negate),
            ).proceed(),
            (UseModel::AppendText, ReplyView::Text(text)) => self.append(text),
            (UseModel::Printed, ReplyView::Done) => self.push(ValueModel::Null).proceed(),
            (UseModel::ArrayIndex { items, in_range }, ReplyView::Index(i)) => {
                if in_range && i < items.len() {
                    self.push(items[i as int]).proceed()
                } else {
                    self.push(ValueModel::Null).proceed()
                }
            },
            (UseModel::StoreIndex { target, items, value, in_range }, ReplyView::Index(i)) => {
                if in_range && i < items.len() {
                    self.write_back(target, ValueModel::Array(items.update(i as int, value))).proceed()
                } else {
                    self.fail(
                        RuntimeErrorView::IndexOutOfBounds {
                            index: i,
                            length: items.len() as usize,
                        },
                    )
                }
            },
            (UseModel::RangeFlag { current, end }, ReplyView::Flag(b)) => {
                if !b {
                    self.proceed()
                } else if self.values.len() > 0 && self.peek(0) is Array {
                    self.drop(1).push(
                        ValueModel::Array(self.peek(0)->Array_0.push(ValueModel::Number(current))),
                    ).ask(
                        RequestView::Arithmetic(ArithmeticOp::Add, current, ONE),
                        UseModel::RangeNext { end },
                    )
                } else {
                    self.fail(broken("no range to extend"@))
                }
            },
            (UseModel::RangeNext { end }, ReplyView::Number(n)) => self.schedule(
                TaskModel::RangeStep { current: n, end },
            ).proceed(),
            (UseModel::CountStart { variable, body }, ReplyView::Index(count)) => self.schedule(
                TaskModel::ForCount { variable, body, count, index: 0 },
            ).proceed(),
            (UseModel::CountIndex { variable, body, count, index }, ReplyView::Number(n)) => {
                if index < count {
                    self.with_variables(
                        bind(self.variables, variable, ValueModel::Number(n)),
                    ).schedule(
                        TaskModel::ForCount { variable, body, count, index: (index + 1) as usize },
                    ).schedule(TaskModel::Block { statements: body, index: 0 }).proceed()
                } else {
                    self.fail(broken("a loop beyond its end"@))
                }
            },
            (UseModel::ItemIndex { variable, body, items, index }, ReplyView::Number(n)) => {
                if index < items.len() {
                    self.with_variables(
                        bind(
                            bind(self.variables, variable + "_index"@, ValueModel::Number(n)),
                            variable,
                            items[index as int],
                        ),
                    ).schedule(
                        TaskModel::ForArray { variable, body, items, index: (index + 1) as usize },
                    ).schedule(TaskModel::Block { statements: body, index: 0 }).proceed()
                } else {
                    self.fail(broken("a loop beyond its end"@))
                }
            },
            (UseModel::ExtremeFlag { greater, items, index, best }, ReplyView::Flag(b)) => {
                if index < items.len() {
                    self.schedule(
                        TaskModel::Extreme {
                            greater,
                            items,
                            index: (index + 1) as usize,
                            best: if b {
                                items[index as int]
                            } else {
                                best
                            },
                        },
                    ).proceed()
                } else {
                    self.fail(broken("a comparison beyond the end"@))
                }
            },
            (UseModel::SubstringStart { text, length }, ReplyView::Index(start)) => self.ask(
                RequestView::Truncate(length),
                UseModel::SubstringLength { text, start },
            ),
            (UseModel::SubstringLength { text, start }, ReplyView::Index(length)) => self.push(
                ValueModel::String(clipped(text, start, length)),
            ).proceed(),
            _ => self.fail(broken("unexpected reply"@)),
        }
    }
}

} // verus!
