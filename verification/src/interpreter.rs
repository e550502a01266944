//! The interpreter: the abstract machine of the language, run step by step.
//!
//! The interpreter does one step at a time and hands every step's outcome to
//! its host: whether to go on, what to print, which arithmetic to do. The host
//! calls [`Interpreter::step`] until the program is finished or has failed.
//! Every step is exactly the step of the machine that specifies the language.

use vstd::prelude::*;
use vstd::string::*;
use crate::ast::{
    Array, Block, Dictionary, Expression, ForLoop, Function, FunctionModel, IfStatement,
    LiteralValue, Program, Statement, WhileLoop,
};
use crate::machine::{
    all_numbers, bind_all, broken, builtin_named, clipped, define, function_from, function_named,
    keys_of, math_name, math_op, mismatch, numbers_of, strings_of, unwind, values_of,
    Builtin, MachineModel, Outcome, TaskModel, UseModel, ONE,
};
use crate::protocol::{
    Action, ArithmeticOp, CompareOp, MathOp, Reply, ReplyView, Request, RuntimeError,
};
use crate::text::{chars_of, same_text, split_text, string_of_range, texts_of, to_lower, to_upper};
use crate::value::{
    bind, bind_entry, duplicate_entries, entry_models, find_entry, lookup,
    lookup_entry, value_models, Number, Value, ValueModel,
};

verus! {

/// What the reply of the host is used for.
pub enum Use<'a> {
    PushNumber,
    PushFlag { negate: bool },
    AppendText,
    Printed,
    ArrayIndex { items: Vec<Value>, in_range: bool },
    StoreIndex { target: Option<&'a String>, items: Vec<Value>, value: Value, in_range: bool },
    RangeFlag { current: Number, end: Number },
    RangeNext { end: Number },
    CountStart { each: &'a ForLoop },
    CountIndex { each: &'a ForLoop, count: usize, index: usize },
    ItemIndex { each: &'a ForLoop, items: Vec<Value>, index: usize },
    ExtremeFlag { greater: bool, items: Vec<Number>, index: usize, best: Number },
    SubstringStart { text: String, length: Number },
    SubstringLength { text: String, start: usize },
}

/// A piece of work that the interpreter has still to do.
pub enum Task<'a> {
    Program(&'a Program, usize),
    Block(&'a Block, usize),
    Body(&'a Block, usize),
    Run(&'a Statement),
    Eval(&'a Expression),
    Discard,
    Assign(&'a String),
    Branch(&'a IfStatement),
    While(&'a WhileLoop),
    LoopTest(&'a WhileLoop),
    ForStart(&'a ForLoop),
    ForArray(&'a ForLoop, Vec<Value>, usize),
    ForCount(&'a ForLoop, usize, usize),
    ForDictionary(&'a ForLoop, Vec<(String, Value)>, usize),
    Return,
    CallEnd(Vec<(String, Value)>, usize),
    StoreIndex(Option<&'a String>),
    Binary(&'a String),
    Unary(&'a String),
    ArrayFrom(&'a Array, usize),
    AppendItem,
    DictionaryFrom(&'a Dictionary, usize),
    InsertPair,
    InsertKeyed,
    MakeRange,
    RangeStep(Number, Number),
    IndexValue,
    LookupKey,
    Builtin(Builtin, bool),
    Call(&'a String, bool),
    Render(Value),
    RenderItems(Vec<Value>, usize, &'static str),
    RenderEntries(Vec<(String, Value)>, usize),
    Emit(String),
    PrintTop,
    Extreme(bool, Vec<Number>, usize, Number),
    Take(Use<'a>),
}

/// The bit patterns of the numbers of `v`, in order.
pub open spec fn number_bits(v: Vec<Number>) -> Seq<u64> {
    Seq::new(v.len() as nat, |i: int| v[i].bits)
}

/// The text of an optional name.
pub open spec fn optional_name(name: Option<&String>) -> Option<Seq<char>> {
    match name {
        Some(text) => Some(text@),
        None => None,
    }
}

impl<'a> View for Use<'a> {
    type V = UseModel;

    open spec fn view(&self) -> UseModel {
        match self {
            Use::PushNumber => UseModel::PushNumber,
            Use::PushFlag { negate } => UseModel::PushFlag { negate: *negate },
            Use::AppendText => UseModel::AppendText,
            Use::Printed => UseModel::Printed,
            Use::ArrayIndex { items, in_range } => UseModel::ArrayIndex {
                items: value_models(*items),
                in_range: *in_range,
            },
            Use::StoreIndex { target, items, value, in_range } => UseModel::StoreIndex {
                target: optional_name(*target),
                items: value_models(*items),
                value: value@,
                in_range: *in_range,
            },
            Use::RangeFlag { current, end } => UseModel::RangeFlag {
                current: current.bits,
                end: end.bits,
            },
            Use::RangeNext { end } => UseModel::RangeNext { end: end.bits },
            Use::CountStart { each } => UseModel::CountStart {
                variable: each.variable@,
                body: each.body@,
            },
            Use::CountIndex { each, count, index } => UseModel::CountIndex {
                variable: each.variable@,
                body: each.body@,
                count: *count,
                index: *index,
            },
            Use::ItemIndex { each, items, index } => UseModel::ItemIndex {
                variable: each.variable@,
                body: each.body@,
                items: value_models(*items),
                index: *index,
            },
            Use::ExtremeFlag { greater, items, index, best } => UseModel::ExtremeFlag {
                greater: *greater,
                items: number_bits(*items),
                index: *index,
                best: best.bits,
            },
            Use::SubstringStart { text, length } => UseModel::SubstringStart {
                text: text@,
                length: length.bits,
            },
            Use::SubstringLength { text, start } => UseModel::SubstringLength {
                text: text@,
                start: *start,
            },
        }
    }
}

impl<'a> View for Task<'a> {
    type V = TaskModel;

    open spec fn view(&self) -> TaskModel {
        match self {
            Task::Program(program, index) => TaskModel::Program {
                statements: program@,
                index: *index,
            },
            Task::Block(block, index) => TaskModel::Block { statements: block@, index: *index },
            Task::Body(block, index) => TaskModel::Body { statements: block@, index: *index },
            Task::Run(statement) => TaskModel::Run(statement@),
            Task::Eval(expression) => TaskModel::Eval(expression@),
            Task::Discard => TaskModel::Discard,
            Task::Assign(name) => TaskModel::Assign { name: name@ },
            Task::Branch(choice) => TaskModel::Branch {
                then_block: choice.then_block@,
                else_block: match choice.else_block {
                    Some(block) => Some(block@),
                    None => None,
                },
            },
            Task::While(each) => TaskModel::While { condition: each.condition@, body: each.body@ },
            Task::LoopTest(each) => TaskModel::LoopTest {
                condition: each.condition@,
                body: each.body@,
            },
            Task::ForStart(each) => TaskModel::ForStart {
                variable: each.variable@,
                body: each.body@,
            },
            Task::ForArray(each, items, index) => TaskModel::ForArray {
                variable: each.variable@,
                body: each.body@,
                items: value_models(*items),
                index: *index,
            },
            Task::ForCount(each, count, index) => TaskModel::ForCount {
                variable: each.variable@,
                body: each.body@,
                count: *count,
                index: *index,
            },
            Task::ForDictionary(each, entries, index) => TaskModel::ForDictionary {
                variable: each.variable@,
                body: each.body@,
                entries: entry_models(*entries),
                index: *index,
            },
            Task::Return => TaskModel::Return,
            Task::CallEnd(saved, base) => TaskModel::CallEnd {
                saved: entry_models(*saved),
                base: *base,
            },
            Task::StoreIndex(target) => TaskModel::StoreIndex { target: optional_name(*target) },
            Task::Binary(operator) => TaskModel::Binary { operator: operator@ },
            Task::Unary(operator) => TaskModel::Unary { operator: operator@ },
            Task::ArrayFrom(array, index) => TaskModel::ArrayFrom {
                elements: crate::ast::expression_models(array.elements),
                index: *index,
            },
            Task::AppendItem => TaskModel::AppendItem,
            Task::DictionaryFrom(dictionary, index) => TaskModel::DictionaryFrom {
                pairs: crate::ast::pair_models(dictionary.pairs),
                index: *index,
            },
            Task::InsertPair => TaskModel::InsertPair,
            Task::InsertKeyed => TaskModel::InsertKeyed,
            Task::MakeRange => TaskModel::MakeRange,
            Task::RangeStep(current, end) => TaskModel::RangeStep {
                current: current.bits,
                end: end.bits,
            },
            Task::IndexValue => TaskModel::IndexValue,
            Task::LookupKey => TaskModel::LookupKey,
            Task::Builtin(function, spread) => TaskModel::Builtin {
                function: *function,
                spread: *spread,
            },
            Task::Call(name, spread) => TaskModel::Call { name: name@, spread: *spread },
            Task::Render(value) => TaskModel::Render(value@),
            Task::RenderItems(items, index, separator) => TaskModel::RenderItems {
                items: value_models(*items),
                index: *index,
                separator: separator@,
            },
            Task::RenderEntries(entries, index) => TaskModel::RenderEntries {
                entries: entry_models(*entries),
                index: *index,
            },
            Task::Emit(text) => TaskModel::Emit(text@),
            Task::PrintTop => TaskModel::PrintTop,
            Task::Extreme(greater, items, index, best) => TaskModel::Extreme {
                greater: *greater,
                items: number_bits(*items),
                index: *index,
                best: best.bits,
            },
            Task::Take(purpose) => TaskModel::Take(purpose@),
        }
    }
}

/// The models of the tasks of `v`, in order.
pub open spec fn task_models<'a>(v: Vec<Task<'a>>) -> Seq<TaskModel> {
    Seq::new(v.len() as nat, |i: int| v[i]@)
}

/// The models of the functions of `v`, in order.
pub open spec fn function_models<'a>(v: Vec<&'a Function>) -> Seq<FunctionModel> {
    Seq::new(v.len() as nat, |i: int| v[i]@)
}

/// The interpreter of Cortex programs.
///
/// It holds the variables and the functions of the programs it has run, and
/// the work that is still to do for the program it is running.
pub struct Interpreter<'a> {
    variables: Vec<(String, Value)>,
    functions: Vec<&'a Function>,
    tasks: Vec<Task<'a>>,
    values: Vec<Value>,
}

impl<'a> View for Interpreter<'a> {
    type V = MachineModel;

    closed spec fn view(&self) -> MachineModel {
        MachineModel {
            variables: entry_models(self.variables),
            functions: function_models(self.functions),
            tasks: task_models(self.tasks),
            values: value_models(self.values),
        }
    }
}

/// The built-in function of the given name, if there is one.
pub fn builtin_of(name: &str) -> (found: Option<Builtin>)
    ensures
        found == builtin_named(name@),
{
    if same_text(name, "print") {
        Some(Builtin::Print)
    } else if same_text(name, "str") {
        Some(Builtin::Str)
    } else if same_text(name, "len") {
        Some(Builtin::Len)
    } else if same_text(name, "push") {
        Some(Builtin::Push)
    } else if same_text(name, "pop") {
        Some(Builtin::Pop)
    } else if same_text(name, "keys") {
        Some(Builtin::Keys)
    } else if same_text(name, "values") {
        Some(Builtin::Values)
    } else if same_text(name, "abs") {
        Some(Builtin::Abs)
    } else if same_text(name, "min") {
        Some(Builtin::Min)
    } else if same_text(name, "max") {
        Some(Builtin::Max)
    } else if same_text(name, "substring") {
        Some(Builtin::Substring)
    } else if same_text(name, "upper") {
        Some(Builtin::Upper)
    } else if same_text(name, "lower") {
        Some(Builtin::Lower)
    } else if same_text(name, "split") {
        Some(Builtin::Split)
    } else if same_text(name, "sqrt") {
        Some(Builtin::Sqrt)
    } else if same_text(name, "floor") {
        Some(Builtin::Floor)
    } else if same_text(name, "ceil") {
        Some(Builtin::Ceil)
    } else if same_text(name, "round") {
        Some(Builtin::Round)
    } else {
        None
    }
}

/// The failure of an operation on values of the wrong kind.
fn mismatch_of(message: &str) -> (e: RuntimeError)
    ensures
        e@ == mismatch(message@),
{
    RuntimeError::TypeMismatch { message: String::from_str(message) }
}

/// The failure of a machine whose values or reply are not what a task needs.
fn broken_of(message: &str) -> (e: RuntimeError)
    ensures
        e@ == broken(message@),
{
    RuntimeError::Protocol { message: String::from_str(message) }
}

impl<'a> Interpreter<'a> {
    /// Creates a new interpreter with no variables and no functions.
    pub fn new() -> (interpreter: Self)
        ensures
            interpreter@ == (MachineModel {
                variables: Seq::empty(),
                functions: Seq::empty(),
                tasks: Seq::empty(),
                values: Seq::empty(),
            }),
    {
        let interpreter = Interpreter {
            variables: Vec::new(),
            functions: Vec::new(),
            tasks: Vec::new(),
            values: Vec::new(),
        };
        assert(interpreter@.variables =~= Seq::empty());
        assert(interpreter@.functions =~= Seq::empty());
        assert(interpreter@.tasks =~= Seq::empty());
        assert(interpreter@.values =~= Seq::empty());
        interpreter
    }

    /// Puts `task` on top of the tasks.
    fn schedule(&mut self, task: Task<'a>)
        ensures
            final(self)@ == old(self)@.schedule(task@),
    {
        let ghost before = task_models(self.tasks);
        self.tasks.push(task);
        assert(task_models(self.tasks) =~= before.push(task@));
    }

    /// Puts `value` on top of the values.
    fn push(&mut self, value: Value)
        ensures
            final(self)@ == old(self)@.push(value@),
    {
        let ghost before = value_models(self.values);
        self.values.push(value);
        assert(value_models(self.values) =~= before.push(value@));
    }

    /// The number of values.
    fn height(&self) -> (n: usize)
        ensures
            n == self@.values.len(),
    {
        self.values.len()
    }

    /// Takes the value on top.
    fn pop(&mut self) -> (value: Value)
        requires
            old(self)@.values.len() > 0,
        ensures
            value@ == old(self)@.peek(0),
            final(self)@ == old(self)@.drop(1),
    {
        let ghost before = value_models(self.values);
        let value = self.values.pop().unwrap();
        assert(value_models(self.values) =~= before.take(before.len() - 1));
        value
    }

    /// Takes the two values on top; the topmost comes last.
    fn pop_two(&mut self) -> (values: (Value, Value))
        requires
            old(self)@.values.len() >= 2,
        ensures
            values.0@ == old(self)@.peek(1),
            values.1@ == old(self)@.peek(0),
            final(self)@ == old(self)@.drop(2),
    {
        let ghost before = value_models(self.values);
        let second = self.values.pop().unwrap();
        let first = self.values.pop().unwrap();
        assert(value_models(self.values) =~= before.take(before.len() - 2));
        (first, second)
    }

    /// Takes the three values on top; the topmost comes last.
    fn pop_three(&mut self) -> (values: (Value, Value, Value))
        requires
            old(self)@.values.len() >= 3,
        ensures
            values.0@ == old(self)@.peek(2),
            values.1@ == old(self)@.peek(1),
            values.2@ == old(self)@.peek(0),
            final(self)@ == old(self)@.drop(3),
    {
        let ghost before = value_models(self.values);
        let third = self.values.pop().unwrap();
        let second = self.values.pop().unwrap();
        let first = self.values.pop().unwrap();
        assert(value_models(self.values) =~= before.take(before.len() - 3));
        (first, second, third)
    }

    /// Binds `name` to `value`.
    fn bind(&mut self, name: String, value: Value)
        ensures
            final(self)@ == old(self)@.with_variables(bind(old(self)@.variables, name@, value@)),
    {
        bind_entry(&mut self.variables, name, value);
    }

    /// Ends the step with a request to the host, whose reply is taken for
    /// `purpose`.
    fn ask(&mut self, request: Request, purpose: Use<'a>) -> (action: Action)
        ensures
            (Outcome { machine: final(self)@, action: action@ }) == old(self)@.ask(
                request@,
                purpose@,
            ),
    {
        self.schedule(Task::Take(purpose));
        Action::Request(request)
    }

    /// Ends the step and the run with a failure.
    fn fail(&mut self, error: RuntimeError) -> (action: Action)
        ensures
            (Outcome { machine: final(self)@, action: action@ }) == old(self)@.fail(error@),
    {
        self.tasks.clear();
        self.values.clear();
        assert(task_models(self.tasks) =~= Seq::empty());
        assert(value_models(self.values) =~= Seq::empty());
        Action::Failed(error)
    }

    /// A copy of the value of the variable `name`, if it is bound.
    pub fn variable(&self, name: &str) -> (found: Option<Value>)
        ensures
            match lookup(self@.variables, name@) {
                Some(value) => found matches Some(v) && v@ == value,
                None => found is None,
            },
    {
        lookup_entry(&self.variables, name)
    }

    /// A copy of all variables, in the order in which their names were first
    /// bound.
    pub fn variables(&self) -> (all: Vec<(String, Value)>)
        ensures
            entry_models(all) == self@.variables,
    {
        duplicate_entries(&self.variables)
    }

    /// Whether a function named `name` is defined.
    pub fn has_function(&self, name: &str) -> (b: bool)
        ensures
            b == function_named(self@.functions, name@) is Some,
    {
        self.find_function(name).is_some()
    }

    /// Whether nothing is left to do.
    pub fn is_finished(&self) -> (b: bool)
        ensures
            b == (self@.tasks.len() == 0),
    {
        self.tasks.len() == 0
    }

    /// The position of the function named `name`.
    fn find_function(&self, name: &str) -> (found: Option<usize>)
        ensures
            match function_from(self@.functions, name@, 0) {
                Some(i) => found == Some(i as usize) && 0 <= i < self.functions.len(),
                None => found is None,
            },
            found matches Some(i) ==> i < self.functions.len(),
    {
        let mut i: usize = 0;
        while i < self.functions.len()
            invariant
                i <= self.functions.len(),
                function_from(self@.functions, name@, 0) == function_from(
                    self@.functions,
                    name@,
                    i as int,
                ),
            decreases self.functions.len() - i,
        {
            if same_text(self.functions[i].name.as_str(), name) {
                return Some(i);
            }
            i += 1;
        }
        None
    }

    /// Defines `function`, in place of the function of the same name if there
    /// is one.
    fn define(&mut self, function: &'a Function)
        ensures
            final(self)@ == (MachineModel {
                functions: define(old(self)@.functions, function@),
                ..old(self)@
            }),
    {
        let ghost before = function_models(self.functions);
        match self.find_function(function.name.as_str()) {
            Some(i) => {
                self.functions[i] = function;
                assert(function_models(self.functions) =~= before.update(i as int, function@));
            },
            None => {
                self.functions.push(function);
                assert(function_models(self.functions) =~= before.push(function@));
            },
        }
    }

    /// Starts to run `program`: its statements become the task below all
    /// others, and the first step is done.
    pub fn interpret(&mut self, program: &'a Program) -> (action: Action)
        ensures
            (Outcome { machine: final(self)@, action: action@ }) == old(self)@.load(program@).step(
                ReplyView::Done,
            ),
    {
        let ghost before = task_models(self.tasks);
        self.schedule(Task::Program(program, 0));
        self.step(Reply::Done)
    }

    /// Does one step: the task on top is taken off and done. `reply` is the
    /// answer to the request that the previous step ended with, if it ended
    /// with one.
    pub fn step(&mut self, reply: Reply) -> (action: Action)
        ensures
            (Outcome { machine: final(self)@, action: action@ }) == old(self)@.step(reply@),
    {
        let ghost before = task_models(self.tasks);
        match self.tasks.pop() {
            Some(task) => {
                assert(task_models(self.tasks) =~= before.drop_last());
                self.perform(task, reply)
            },
            None => Action::Finished,
        }
    }

    /// Does `task`.
    fn perform(&mut self, task: Task<'a>, reply: Reply) -> (action: Action)
        ensures
            (Outcome { machine: final(self)@, action: action@ }) == old(self)@.perform(
                task@,
                reply@,
            ),
    {
        match task {
            Task::Program(program, index) => self.program(program, index),
            Task::Block(block, index) => self.block(block, index),
            Task::Body(block, index) => self.body(block, index),
            Task::Run(statement) => self.run(statement),
            Task::Eval(expression) => self.eval(expression),
            Task::Discard => self.discard(),
            Task::Assign(name) => self.assign(name),
            Task::Branch(choice) => self.branch(choice),
            Task::While(each) => self.repeat(each),
            Task::LoopTest(each) => self.loop_test(each),
            Task::ForStart(each) => self.for_start(each),
            Task::ForArray(each, items, index) => self.for_array(each, items, index),
            Task::ForCount(each, count, index) => self.for_count(each, count, index),
            Task::ForDictionary(each, entries, index) => self.for_dictionary(each, entries, index),
            Task::Return => self.leave(),
            Task::CallEnd(saved, base) => self.call_end(saved, base),
            Task::StoreIndex(target) => self.store_top(target),
            Task::Binary(operator) => self.binary_top(operator),
            Task::Unary(operator) => self.unary_top(operator),
            Task::ArrayFrom(array, index) => self.array_from(array, index),
            Task::AppendItem => self.append_item(),
            Task::DictionaryFrom(dictionary, index) => self.dictionary_from(dictionary, index),
            Task::InsertPair => self.insert_pair(),
            Task::InsertKeyed => self.insert_keyed(),
            Task::MakeRange => self.make_range(),
            Task::RangeStep(current, end) => self.range_step(current, end),
            Task::IndexValue => self.index_top(),
            Task::LookupKey => self.lookup_top(),
            Task::Builtin(function, spread) => self.builtin_top(function, spread),
            Task::Call(name, spread) => self.call_top(name, spread),
            Task::Render(value) => self.render(value),
            Task::RenderItems(items, index, separator) => self.render_items(
                items,
                index,
                separator,
            ),
            Task::RenderEntries(entries, index) => self.render_entries(entries, index),
            Task::Emit(text) => self.append(text.as_str()),
            Task::PrintTop => self.print_top(),
            Task::Extreme(greater, items, index, best) => self.extreme(greater, items, index, best),
            Task::Take(purpose) => self.take(purpose, reply),
        }
    }

    /// Runs the next statement of a program, then the rest.
    fn program(&mut self, program: &'a Program, index: usize) -> (action: Action)
        ensures
            (Outcome { machine: final(self)@, action: action@ }) == old(self)@.program(
                program@,
                index,
            ),
    {
        if index < program.statements.len() {
            self.schedule(Task::Program(program, index + 1));
            self.schedule(Task::Run(&program.statements[index]));
        }
        Action::Continue
    }

    /// Runs the next statement of a block, then the rest.
    fn block(&mut self, block: &'a Block, index: usize) -> (action: Action)
        ensures
            (Outcome { machine: final(self)@, action: action@ }) == old(self)@.block(block@, index),
    {
        if index < block.statements.len() {
            self.schedule(Task::Block(block, index + 1));
            self.schedule(Task::Run(&block.statements[index]));
        }
        Action::Continue
    }

    /// Runs the next statement of a function body, then the rest.
    fn body(&mut self, block: &'a Block, index: usize) -> (action: Action)
        ensures
            (Outcome { machine: final(self)@, action: action@ }) == old(self)@.body(block@, index),
    {
        if index >= block.statements.len() {
            self.push(Value::Null);
            return Action::Continue;
        }
        if index + 1 == block.statements.len() {
            match &block.statements[index] {
                Statement::Expression(expression) => {
                    self.schedule(Task::Eval(expression));
                    return Action::Continue;
                },
                _ => {},
            }
        }
        self.schedule(Task::Body(block, index + 1));
        self.schedule(Task::Run(&block.statements[index]));
        Action::Continue
    }

    /// Drops the value on top.
    fn discard(&mut self) -> (action: Action)
        ensures
            (Outcome { machine: final(self)@, action: action@ }) == old(self)@.discard(),
    {
        if self.height() > 0 {
            let _dropped = self.pop();
            Action::Continue
        } else {
            self.fail(broken_of("no value to drop"))
        }
    }

    /// Binds the value on top to `name`.
    fn assign(&mut self, name: &'a String) -> (action: Action)
        ensures
            (Outcome { machine: final(self)@, action: action@ }) == old(self)@.assign(name@),
    {
        if self.height() > 0 {
            let value = self.pop();
            self.bind(name.clone(), value);
            Action::Continue
        } else {
            self.fail(broken_of("no value to assign"))
        }
    }

    /// Goes on with the block that the condition on top chooses.
    fn branch(&mut self, choice: &'a IfStatement) -> (action: Action)
        ensures
            (Outcome { machine: final(self)@, action: action@ }) == old(self)@.branch(choice.then_block@,
                match choice.else_block {
                    Some(block) => Some(block@),
                    None => None,
                }),
    {
        if self.height() == 0 {
            return self.fail(broken_of("no condition"));
        }
        let condition = self.pop();
        if condition.is_truthy() {
            self.schedule(Task::Block(&choice.then_block, 0));
        } else {
            match &choice.else_block {
                Some(block) => {
                    self.schedule(Task::Block(block, 0));
                },
                None => {},
            }
        }
        Action::Continue
    }

    /// Starts a round of a loop with the evaluation of its condition.
    fn repeat(&mut self, each: &'a WhileLoop) -> (action: Action)
        ensures
            (Outcome { machine: final(self)@, action: action@ }) == old(self)@.repeat(
                each.condition@,
                each.body@,
            ),
    {
        self.schedule(Task::LoopTest(each));
        self.schedule(Task::Eval(&each.condition));
        Action::Continue
    }

    /// Runs the body and then the loop again if the condition on top holds.
    fn loop_test(&mut self, each: &'a WhileLoop) -> (action: Action)
        ensures
            (Outcome { machine: final(self)@, action: action@ }) == old(self)@.loop_test(
                each.condition@,
                each.body@,
            ),
    {
        if self.height() == 0 {
            return self.fail(broken_of("no condition"));
        }
        let condition = self.pop();
        if condition.is_truthy() {
            self.schedule(Task::While(each));
            self.schedule(Task::Block(&each.body, 0));
        }
        Action::Continue
    }

    /// Starts a loop over the value on top.
    fn for_start(&mut self, each: &'a ForLoop) -> (action: Action)
        ensures
            (Outcome { machine: final(self)@, action: action@ }) == old(self)@.for_start(
                each.variable@,
                each.body@,
            ),
    {
        if self.height() == 0 {
            return self.fail(broken_of("nothing to loop over"));
        }
        match self.pop() {
            Value::Array(items) => {
                self.schedule(Task::ForArray(each, items, 0));
                Action::Continue
            },
            Value::Number(n) => self.ask(Request::Truncate(n), Use::CountStart { each }),
            Value::Dictionary(entries) => {
                self.schedule(Task::ForDictionary(each, entries, 0));
                Action::Continue
            },
            _ => self.fail(
                mismatch_of("Cannot iterate over non-array, number, or dictionary value"),
            ),
        }
    }

    /// Goes on with a loop over the elements of an array.
    fn for_array(&mut self, each: &'a ForLoop, items: Vec<Value>, index: usize) -> (action: Action)
        ensures
            (Outcome { machine: final(self)@, action: action@ }) == old(self)@.for_array(
                each.variable@,
                each.body@,
                value_models(items),
                index,
            ),
    {
        if index < items.len() {
            self.ask(Request::FromIndex(index), Use::ItemIndex { each, items, index })
        } else {
            Action::Continue
        }
    }

    /// Goes on with a loop that counts.
    fn for_count(&mut self, each: &'a ForLoop, count: usize, index: usize) -> (action: Action)
        ensures
            (Outcome { machine: final(self)@, action: action@ }) == old(self)@.for_count(
                each.variable@,
                each.body@,
                count,
                index,
            ),
    {
        if index < count {
            self.ask(Request::FromIndex(index), Use::CountIndex { each, count, index })
        } else {
            Action::Continue
        }
    }

    /// Goes on with a loop over the entries of a dictionary.
    fn for_dictionary(
        &mut self,
        each: &'a ForLoop,
        entries: Vec<(String, Value)>,
        index: usize,
    ) -> (action: Action)
        ensures
            (Outcome { machine: final(self)@, action: action@ }) == old(self)@.for_dictionary(
                each.variable@,
                each.body@,
                entry_models(entries),
                index,
            ),
    {
        if index < entries.len() {
            let key = entries[index].0.clone();
            let value = entries[index].1.duplicate();
            let mut value_name = each.variable.clone();
            value_name.append("_value");
            self.bind(each.variable.clone(), Value::String(key));
            self.bind(value_name, value);
            self.schedule(Task::ForDictionary(each, entries, index + 1));
            self.schedule(Task::Block(&each.body, 0));
        }
        Action::Continue
    }

    /// Ends a call: the variables of the caller come back, and the result is the
    /// only value that the call leaves.
    fn call_end(&mut self, saved: Vec<(String, Value)>, base: usize) -> (action: Action)
        ensures
            (Outcome { machine: final(self)@, action: action@ }) == old(self)@.call_end(
                entry_models(saved),
                base,
            ),
    {
        if self.height() == 0 {
            return self.fail(broken_of("no result of the call"));
        }
        let ghost before = value_models(self.values);
        let ghost whole = self.values@;
        let result = self.values.pop().unwrap();
        if base < self.values.len() {
            self.values.truncate(base);
            assert(self.values@ =~= whole.subrange(0, base as int));
            assert(value_models(self.values) =~= before.take(base as int));
        } else {
            assert(self.values@ =~= whole.drop_last());
            assert(value_models(self.values) =~= before.drop_last());
            assert(base + 1 == before.len() ==> before.take(base as int) =~= before.drop_last());
        }
        self.variables = saved;
        self.push(result);
        Action::Continue
    }

    /// Stores the value on top in the container two below it.
    fn store_top(&mut self, target: Option<&'a String>) -> (action: Action)
        ensures
            (Outcome { machine: final(self)@, action: action@ }) == old(self)@.store_top(
                optional_name(target),
            ),
    {
        if self.height() < 3 {
            return self.fail(broken_of("nothing to store"));
        }
        let (container, index, value) = self.pop_three();
        self.store(target, container, index, value)
    }

    /// Applies a binary operator to the two values on top.
    fn binary_top(&mut self, operator: &'a String) -> (action: Action)
        ensures
            (Outcome { machine: final(self)@, action: action@ }) == old(self)@.binary_top(
                operator@,
            ),
    {
        if self.height() < 2 {
            return self.fail(broken_of("no operands"));
        }
        let (left, right) = self.pop_two();
        self.binary(operator, left, right)
    }

    /// Applies a prefix operator to the value on top.
    fn unary_top(&mut self, operator: &'a String) -> (action: Action)
        ensures
            (Outcome { machine: final(self)@, action: action@ }) == old(self)@.unary_top(operator@),
    {
        if self.height() < 1 {
            return self.fail(broken_of("no operand"));
        }
        let operand = self.pop();
        self.unary(operator, operand)
    }

    /// Goes on with the elements of an array literal.
    fn array_from(&mut self, array: &'a Array, index: usize) -> (action: Action)
        ensures
            (Outcome { machine: final(self)@, action: action@ }) == old(self)@.array_from(
                crate::ast::expression_models(array.elements),
                index,
            ),
    {
        if index < array.elements.len() {
            self.schedule(Task::ArrayFrom(array, index + 1));
            self.schedule(Task::AppendItem);
            self.schedule(Task::Eval(&array.elements[index]));
        }
        Action::Continue
    }

    /// Puts the value on top at the end of the array below it.
    fn append_item(&mut self) -> (action: Action)
        ensures
            (Outcome { machine: final(self)@, action: action@ }) == old(self)@.append_item(),
    {
        if self.height() < 2 {
            return self.fail(broken_of("no array to append to"));
        }
        let (array, item) = self.pop_two();
        match array {
            Value::Array(mut items) => {
                let ghost before = value_models(items);
                items.push(item);
                assert(value_models(items) =~= before.push(item@));
                self.push(Value::Array(items));
                Action::Continue
            },
            _ => self.fail(broken_of("no array to append to")),
        }
    }

    /// Goes on with the pairs of a dictionary literal.
    fn dictionary_from(&mut self, dictionary: &'a Dictionary, index: usize) -> (action: Action)
        ensures
            (Outcome { machine: final(self)@, action: action@ }) == old(self)@.dictionary_from(
                crate::ast::pair_models(dictionary.pairs),
                index,
            ),
    {
        if index < dictionary.pairs.len() {
            self.schedule(Task::DictionaryFrom(dictionary, index + 1));
            self.schedule(Task::InsertPair);
            self.schedule(Task::Eval(&dictionary.pairs[index].1));
            self.schedule(Task::Eval(&dictionary.pairs[index].0));
        }
        Action::Continue
    }

    /// Turns the key below the value on top into text.
    fn insert_pair(&mut self) -> (action: Action)
        ensures
            (Outcome { machine: final(self)@, action: action@ }) == old(self)@.insert_pair(),
    {
        if self.height() < 2 {
            return self.fail(broken_of("no pair to insert"));
        }
        let (key, value) = self.pop_two();
        self.push(value);
        match key {
            Value::Number(n) => {
                self.push(Value::String(String::new()));
                self.schedule(Task::InsertKeyed);
                self.ask(Request::FormatNumber(n), Use::AppendText)
            },
            Value::String(text) => {
                self.push(Value::String(text));
                self.schedule(Task::InsertKeyed);
                Action::Continue
            },
            Value::Boolean(b) => {
                self.push(
                    Value::String(
                        String::from_str(
                            if b {
                                "true"
                            } else {
                                "false"
                            },
                        ),
                    ),
                );
                self.schedule(Task::InsertKeyed);
                Action::Continue
            },
            Value::Null => {
                self.push(Value::String(String::from_str("null")));
                self.schedule(Task::InsertKeyed);
                Action::Continue
            },
            Value::Array(_) => {
                self.push(Value::String(String::from_str("array")));
                self.schedule(Task::InsertKeyed);
                Action::Continue
            },
            Value::Dictionary(_) => {
                self.push(Value::String(String::from_str("dict")));
                self.schedule(Task::InsertKeyed);
                Action::Continue
            },
        }
    }

    /// Binds the key on top to the value below it in the dictionary below that.
    fn insert_keyed(&mut self) -> (action: Action)
        ensures
            (Outcome { machine: final(self)@, action: action@ }) == old(self)@.insert_keyed(),
    {
        if self.height() < 3 {
            return self.fail(broken_of("no dictionary to insert into"));
        }
        let (dictionary, value, key) = self.pop_three();
        match (dictionary, key) {
            (Value::Dictionary(mut entries), Value::String(name)) => {
                bind_entry(&mut entries, name, value);
                self.push(Value::Dictionary(entries));
                Action::Continue
            },
            _ => self.fail(broken_of("no dictionary to insert into")),
        }
    }

    /// Starts the range between the two numbers on top.
    fn make_range(&mut self) -> (action: Action)
        ensures
            (Outcome { machine: final(self)@, action: action@ }) == old(self)@.make_range(),
    {
        if self.height() < 2 {
            return self.fail(broken_of("no bounds of the range"));
        }
        match self.pop_two() {
            (Value::Number(start), Value::Number(end)) => {
                let empty: Vec<Value> = Vec::new();
                assert(value_models(empty) =~= Seq::<ValueModel>::empty());
                self.push(Value::Array(empty));
                self.schedule(Task::RangeStep(start, end));
                Action::Continue
            },
            _ => self.fail(mismatch_of("Range expressions require numbers")),
        }
    }

    /// Asks whether the range goes on.
    fn range_step(&mut self, current: Number, end: Number) -> (action: Action)
        ensures
            (Outcome { machine: final(self)@, action: action@ }) == old(self)@.range_step(
                current.bits,
                end.bits,
            ),
    {
        self.ask(
                Request::Compare(CompareOp::Less, current, end),
                Use::RangeFlag { current, end },
            )
    }

    /// Reads the container below the index on top.
    fn index_top(&mut self) -> (action: Action)
        ensures
            (Outcome { machine: final(self)@, action: action@ }) == old(self)@.index_top(),
    {
        if self.height() < 2 {
            return self.fail(broken_of("nothing to index"));
        }
        let (container, index) = self.pop_two();
        self.access(container, index)
    }

    /// Reads the dictionary below the key on top.
    fn lookup_top(&mut self) -> (action: Action)
        ensures
            (Outcome { machine: final(self)@, action: action@ }) == old(self)@.lookup_top(),
    {
        if self.height() < 2 {
            return self.fail(broken_of("no dictionary to look up in"));
        }
        let (container, index) = self.pop_two();
        match (&container, &index) {
            (Value::Dictionary(_), Value::String(_)) => self.access(container, index),
            _ => self.fail(broken_of("no dictionary to look up in")),
        }
    }

    /// Calls a built-in function with the value on top.
    fn builtin_top(&mut self, function: Builtin, spread: bool) -> (action: Action)
        ensures
            (Outcome { machine: final(self)@, action: action@ }) == old(self)@.builtin_top(
                function,
                spread,
            ),
    {
        if self.height() == 0 {
            return self.fail(broken_of("no argument"));
        }
        let argument = self.pop();
        self.builtin(function, spread, argument)
    }

    /// Calls the function named `name` with the value on top.
    fn call_top(&mut self, name: &'a String, spread: bool) -> (action: Action)
        ensures
            (Outcome { machine: final(self)@, action: action@ }) == old(self)@.call_top(
                name@,
                spread,
            ),
    {
        if self.height() == 0 {
            return self.fail(broken_of("no argument"));
        }
        let arguments = match self.pop() {
            Value::Null => {
                let none: Vec<Value> = Vec::new();
                assert(value_models(none) =~= Seq::<ValueModel>::empty());
                none
            },
            Value::Array(items) => {
                if spread {
                    items
                } else {
                    let mut one: Vec<Value> = Vec::new();
                    let single = Value::Array(items);
                    one.push(single);
                    assert(value_models(one) =~= seq![single@]);
                    one
                }
            },
            single => {
                let mut one: Vec<Value> = Vec::new();
                one.push(single);
                assert(value_models(one) =~= seq![single@]);
                one
            },
        };
        self.call(name.as_str(), arguments)
    }

    /// Goes on with the texts of the items of a list.
    fn render_items(
        &mut self,
        items: Vec<Value>,
        index: usize,
        separator: &'static str,
    ) -> (action: Action)
        ensures
            (Outcome { machine: final(self)@, action: action@ }) == old(self)@.render_items(
                value_models(items),
                index,
                separator@,
            ),
    {
        if index < items.len() {
            let item = items[index].duplicate();
            self.schedule(Task::RenderItems(items, index + 1, separator));
            self.schedule(Task::Render(item));
            if index > 0 {
                self.schedule(Task::Emit(String::from_str(separator)));
            }
        }
        Action::Continue
    }

    /// Goes on with the texts of the entries of a dictionary.
    fn render_entries(&mut self, entries: Vec<(String, Value)>, index: usize) -> (action: Action)
        ensures
            (Outcome { machine: final(self)@, action: action@ }) == old(self)@.render_entries(
                entry_models(entries),
                index,
            ),
    {
        if index < entries.len() {
            let mut label = String::from_str(
                if index > 0 {
                    ", \""
                } else {
                    "\""
                },
            );
            label.append(entries[index].0.as_str());
            label.append("\": ");
            let value = entries[index].1.duplicate();
            self.schedule(Task::RenderEntries(entries, index + 1));
            self.schedule(Task::Render(value));
            self.schedule(Task::Emit(label));
        }
        Action::Continue
    }

    /// Prints the string on top.
    fn print_top(&mut self) -> (action: Action)
        ensures
            (Outcome { machine: final(self)@, action: action@ }) == old(self)@.print_top(),
    {
        if self.height() == 0 {
            return self.fail(broken_of("no text to print"));
        }
        match self.pop() {
            Value::String(line) => self.ask(Request::Print(line), Use::Printed),
            _ => self.fail(broken_of("no text to print")),
        }
    }

    /// Goes on with the search for the smallest or greatest number.
    fn extreme(
        &mut self,
        greater: bool,
        items: Vec<Number>,
        index: usize,
        best: Number,
    ) -> (action: Action)
        ensures
            (Outcome { machine: final(self)@, action: action@ }) == old(self)@.extreme(
                greater,
                number_bits(items),
                index,
                best.bits,
            ),
    {
        if index < items.len() {
            let candidate = items[index];
            self.ask(
                Request::Compare(
                    if greater {
                        CompareOp::Greater
                    } else {
                        CompareOp::Less
                    },
                    candidate,
                    best,
                ),
                Use::ExtremeFlag { greater, items, index, best },
            )
        } else {
            self.push(Value::Number(best));
            Action::Continue
        }
    }

    /// Leaves the function that is running with the value on top: the tasks of
    /// its body are dropped. Outside every function the tasks of the
    /// statement are dropped, and the value with them.
    fn leave(&mut self) -> (action: Action)
        ensures
            (Outcome { machine: final(self)@, action: action@ }) == old(self)@.leave(),
    {
        if self.height() == 0 {
            return self.fail(broken_of("no value to return"));
        }
        let mut in_call = false;
        loop
            invariant_except_break
                !in_call,
            invariant
                self.variables == old(self).variables,
                self.functions == old(self).functions,
                self.values == old(self).values,
                unwind(old(self)@.tasks) == unwind(self@.tasks),
            ensures
                self.variables == old(self).variables,
                self.functions == old(self).functions,
                self.values == old(self).values,
                self@.tasks == unwind(old(self)@.tasks),
                in_call == (self@.tasks.len() > 0 && self@.tasks.last() is CallEnd),
            decreases self.tasks.len(),
        {
            let n = self.tasks.len();
            if n == 0 {
                break;
            }
            match &self.tasks[n - 1] {
                Task::CallEnd(_, _) => {
                    in_call = true;
                    break;
                },
                Task::Program(_, _) => {
                    break;
                },
                _ => {},
            }
            let ghost before = task_models(self.tasks);
            let _dropped = self.tasks.pop();
            assert(task_models(self.tasks) =~= before.drop_last());
        }
        if !in_call {
            self.values.clear();
            assert(value_models(self.values) =~= Seq::<ValueModel>::empty());
        }
        Action::Continue
    }

    /// Does what a statement does.
    fn run(&mut self, statement: &'a Statement) -> (action: Action)
        ensures
            (Outcome { machine: final(self)@, action: action@ }) == old(self)@.run(statement@),
    {
        reveal_with_fuel(Expression::model, 2);
        match statement {
            Statement::Function(function) => {
                self.define(function);
                Action::Continue
            },
            Statement::IfStatement(choice) => {
                self.schedule(Task::Branch(choice));
                self.schedule(Task::Eval(&choice.condition));
                Action::Continue
            },
            Statement::WhileLoop(each) => {
                self.schedule(Task::While(each));
                Action::Continue
            },
            Statement::ForLoop(each) => {
                match &each.iterable {
                    Some(expression) => {
                        self.schedule(Task::ForStart(each));
                        self.schedule(Task::Eval(expression));
                    },
                    None => {
                        self.schedule(Task::ForCount(each, 10, 0));
                    },
                }
                Action::Continue
            },
            Statement::ReturnStatement(leave) => {
                match &leave.value {
                    Some(expression) => {
                        self.schedule(Task::Return);
                        self.schedule(Task::Eval(expression));
                    },
                    None => {
                        self.push(Value::Null);
                        self.schedule(Task::Return);
                    },
                }
                Action::Continue
            },
            Statement::Assignment(assignment) => {
                self.schedule(Task::Assign(&assignment.variable));
                self.schedule(Task::Eval(&assignment.value));
                Action::Continue
            },
            Statement::ConstantAssignment(assignment) => {
                self.schedule(Task::Assign(&assignment.variable));
                self.schedule(Task::Eval(&assignment.value));
                Action::Continue
            },
            Statement::IndexAssignment(assignment) => {
                let target = match &*assignment.container {
                    Expression::Identifier(identifier) => Some(&identifier.name),
                    _ => None,
                };
                self.schedule(Task::StoreIndex(target));
                self.schedule(Task::Eval(&*assignment.value));
                self.schedule(Task::Eval(&*assignment.index));
                self.schedule(Task::Eval(&*assignment.container));
                Action::Continue
            },
            Statement::Expression(expression) => {
                self.schedule(Task::Discard);
                self.schedule(Task::Eval(expression));
                Action::Continue
            },
        }
    }

    /// Starts the evaluation of an expression.
    fn eval(&mut self, expression: &'a Expression) -> (action: Action)
        ensures
            (Outcome { machine: final(self)@, action: action@ }) == old(self)@.eval(expression@),
    {
        reveal_with_fuel(Expression::model, 2);
        match expression {
            Expression::Literal(literal) => match &literal.value {
                LiteralValue::Number(text) => self.ask(
                    Request::ParseNumber(text.clone()),
                    Use::PushNumber,
                ),
                LiteralValue::String(s) => {
                    self.push(Value::String(s.clone()));
                    Action::Continue
                },
                LiteralValue::Boolean(b) => {
                    self.push(Value::Boolean(*b));
                    Action::Continue
                },
                LiteralValue::Null => {
                    self.push(Value::Null);
                    Action::Continue
                },
            },
            Expression::Identifier(identifier) => {
                match lookup_entry(&self.variables, identifier.name.as_str()) {
                    Some(value) => {
                        self.push(value);
                        Action::Continue
                    },
                    None => self.fail(
                        RuntimeError::UndefinedVariable { name: identifier.name.clone() },
                    ),
                }
            },
            Expression::BinaryOp(operation) => {
                self.schedule(Task::Binary(&operation.operator));
                self.schedule(Task::Eval(&*operation.right));
                self.schedule(Task::Eval(&*operation.left));
                Action::Continue
            },
            Expression::UnaryOp(operation) => {
                self.schedule(Task::Unary(&operation.operator));
                self.schedule(Task::Eval(&*operation.operand));
                Action::Continue
            },
            Expression::Array(array) => {
                let empty: Vec<Value> = Vec::new();
                assert(value_models(empty) =~= Seq::<ValueModel>::empty());
                self.push(Value::Array(empty));
                self.schedule(Task::ArrayFrom(array, 0));
                Action::Continue
            },
            Expression::Dictionary(dictionary) => {
                let empty: Vec<(String, Value)> = Vec::new();
                assert(entry_models(empty) =~= Seq::<(Seq<char>, ValueModel)>::empty());
                self.push(Value::Dictionary(empty));
                self.schedule(Task::DictionaryFrom(dictionary, 0));
                Action::Continue
            },
            Expression::Range(range) => {
                self.schedule(Task::MakeRange);
                self.schedule(Task::Eval(&*range.end));
                self.schedule(Task::Eval(&*range.start));
                Action::Continue
            },
            Expression::Index(indexed) => {
                let spread = match &*indexed.index {
                    Expression::Array(_) => true,
                    _ => false,
                };
                match &*indexed.container {
                    Expression::Identifier(identifier) => {
                        let name = identifier.name.as_str();
                        match builtin_of(name) {
                            Some(function) => {
                                self.schedule(Task::Builtin(function, spread));
                                self.schedule(Task::Eval(&*indexed.index));
                                return Action::Continue;
                            },
                            None => {},
                        }
                        if find_entry(&self.variables, name).is_none() && self.find_function(
                            name,
                        ).is_some() {
                            self.schedule(Task::Call(&identifier.name, spread));
                            self.schedule(Task::Eval(&*indexed.index));
                            return Action::Continue;
                        }
                    },
                    _ => {},
                }
                self.schedule(Task::IndexValue);
                self.schedule(Task::Eval(&*indexed.index));
                self.schedule(Task::Eval(&*indexed.container));
                Action::Continue
            },
        }
    }

    /// Arithmetic on two values, which must be numbers.
    fn arithmetic(
        &mut self,
        op: ArithmeticOp,
        left: Value,
        right: Value,
        message: &str,
    ) -> (action: Action)
        ensures
            (Outcome { machine: final(self)@, action: action@ }) == old(self)@.arithmetic(
                op,
                left@,
                right@,
                message@,
            ),
    {
        match (left, right) {
            (Value::Number(a), Value::Number(b)) => self.ask(
                Request::Arithmetic(op, a, b),
                Use::PushNumber,
            ),
            _ => self.fail(mismatch_of(message)),
        }
    }

    /// Division or remainder: by zero it gives `null`.
    fn division(
        &mut self,
        op: ArithmeticOp,
        left: Value,
        right: Value,
        message: &str,
    ) -> (action: Action)
        ensures
            (Outcome { machine: final(self)@, action: action@ }) == old(self)@.division(
                op,
                left@,
                right@,
                message@,
            ),
    {
        match (left, right) {
            (Value::Number(a), Value::Number(b)) => {
                if b.is_zero() {
                    self.push(Value::Null);
                    Action::Continue
                } else {
                    self.ask(Request::Arithmetic(op, a, b), Use::PushNumber)
                }
            },
            _ => self.fail(mismatch_of(message)),
        }
    }

    /// An order test on two values, which must be numbers.
    fn comparison(&mut self, op: CompareOp, left: Value, right: Value) -> (action: Action)
        ensures
            (Outcome { machine: final(self)@, action: action@ }) == old(self)@.comparison(
                op,
                left@,
                right@,
            ),
    {
        match (left, right) {
            (Value::Number(a), Value::Number(b)) => self.ask(
                Request::Compare(op, a, b),
                Use::PushFlag { negate: false },
            ),
            _ => self.fail(mismatch_of("Cannot compare these values")),
        }
    }

    /// Whether two values are equal, or with `negate` whether they are not.
    fn equality(&mut self, negate: bool, left: Value, right: Value) -> (action: Action)
        ensures
            (Outcome { machine: final(self)@, action: action@ }) == old(self)@.equality(
                negate,
                left@,
                right@,
            ),
    {
        match (left, right) {
            (Value::Number(a), Value::Number(b)) => self.ask(
                Request::Compare(CompareOp::Near, a, b),
                Use::PushFlag { negate },
            ),
            (Value::String(a), Value::String(b)) => {
                self.push(Value::Boolean((a == b) != negate));
                Action::Continue
            },
            (Value::Boolean(a), Value::Boolean(b)) => {
                self.push(Value::Boolean((a == b) != negate));
                Action::Continue
            },
            (Value::Null, Value::Null) => {
                self.push(Value::Boolean(!negate));
                Action::Continue
            },
            _ => {
                self.push(Value::Boolean(negate));
                Action::Continue
            },
        }
    }

    /// The sum of two numbers, or two texts joined.
    fn addition(&mut self, left: Value, right: Value) -> (action: Action)
        ensures
            (Outcome { machine: final(self)@, action: action@ }) == old(self)@.addition(
                left@,
                right@,
            ),
    {
        match (left, right) {
            (Value::Number(a), Value::Number(b)) => self.ask(
                Request::Arithmetic(ArithmeticOp::Add, a, b),
                Use::PushNumber,
            ),
            (Value::String(a), Value::String(b)) => {
                let mut joined = a;
                joined.append(b.as_str());
                self.push(Value::String(joined));
                Action::Continue
            },
            (Value::String(a), Value::Number(b)) => {
                self.push(Value::String(a));
                self.ask(Request::FormatNumber(b), Use::AppendText)
            },
            (Value::Number(a), Value::String(b)) => {
                self.push(Value::String(String::new()));
                self.schedule(Task::Emit(b));
                self.ask(Request::FormatNumber(a), Use::AppendText)
            },
            _ => self.fail(mismatch_of("Cannot add these values")),
        }
    }

    /// Applies a binary operator to its operands.
    fn binary(&mut self, operator: &str, left: Value, right: Value) -> (action: Action)
        ensures
            (Outcome { machine: final(self)@, action: action@ }) == old(self)@.binary(
                operator@,
                left@,
                right@,
            ),
    {
        if same_text(operator, "+") {
            self.addition(left, right)
        } else if same_text(operator, "-") {
            self.arithmetic(ArithmeticOp::Subtract, left, right, "Cannot subtract these values")
        } else if same_text(operator, "*") {
            self.arithmetic(ArithmeticOp::Multiply, left, right, "Cannot multiply these values")
        } else if same_text(operator, "/") {
            self.division(ArithmeticOp::Divide, left, right, "Cannot divide these values")
        } else if same_text(operator, "%") {
            self.division(ArithmeticOp::Remainder, left, right, "Cannot modulo these values")
        } else if same_text(operator, "**") {
            self.arithmetic(ArithmeticOp::Power, left, right, "Cannot raise these values")
        } else if same_text(operator, "==") {
            self.equality(false, left, right)
        } else if same_text(operator, "!=") {
            self.equality(true, left, right)
        } else if same_text(operator, "<") {
            self.comparison(CompareOp::Less, left, right)
        } else if same_text(operator, "<=") {
            self.comparison(CompareOp::LessEqual, left, right)
        } else if same_text(operator, ">") {
            self.comparison(CompareOp::Greater, left, right)
        } else if same_text(operator, ">=") {
            self.comparison(CompareOp::GreaterEqual, left, right)
        } else if same_text(operator, "&&") {
            self.push(Value::Boolean(left.is_truthy() && right.is_truthy()));
            Action::Continue
        } else if same_text(operator, "||") {
            self.push(Value::Boolean(left.is_truthy() || right.is_truthy()));
            Action::Continue
        } else if same_text(operator, "@") {
            self.access(left, right)
        } else {
            self.fail(RuntimeError::UnsupportedOperator { operator: String::from_str(operator) })
        }
    }

    /// Applies a prefix operator to its operand.
    fn unary(&mut self, operator: &str, operand: Value) -> (action: Action)
        ensures
            (Outcome { machine: final(self)@, action: action@ }) == old(self)@.unary(
                operator@,
                operand@,
            ),
    {
        if same_text(operator, "!") {
            self.push(Value::Boolean(!operand.is_truthy()));
            Action::Continue
        } else if same_text(operator, "-") {
            match operand {
                Value::Number(n) => {
                    self.push(Value::Number(n.negated()));
                    Action::Continue
                },
                _ => self.fail(mismatch_of("Cannot negate non-number value")),
            }
        } else if same_text(operator, "+") {
            match operand {
                Value::Number(n) => {
                    self.push(Value::Number(n));
                    Action::Continue
                },
                _ => self.fail(mismatch_of("Cannot apply unary plus to non-number value")),
            }
        } else {
            self.fail(RuntimeError::UnsupportedOperator { operator: String::from_str(operator) })
        }
    }

    /// Reads a container at an index.
    fn access(&mut self, container: Value, index: Value) -> (action: Action)
        ensures
            (Outcome { machine: final(self)@, action: action@ }) == old(self)@.access(
                container@,
                index@,
            ),
    {
        match container {
            Value::Array(items) => match index {
                Value::Number(n) => self.ask(
                    Request::Truncate(n),
                    Use::ArrayIndex { items, in_range: n.is_at_least_zero() },
                ),
                _ => self.fail(mismatch_of("Array index must be a number")),
            },
            Value::Dictionary(entries) => match index {
                Value::String(key) => match lookup_entry(&entries, key.as_str()) {
                    Some(value) => {
                        self.push(value);
                        Action::Continue
                    },
                    None => self.fail(RuntimeError::KeyNotFound { key }),
                },
                Value::Number(n) => {
                    self.push(Value::Dictionary(entries));
                    self.push(Value::String(String::new()));
                    self.schedule(Task::LookupKey);
                    self.ask(Request::FormatNumber(n), Use::AppendText)
                },
                _ => self.fail(mismatch_of("Dictionary key must be a string or number")),
            },
            _ => self.fail(mismatch_of("Cannot access elements of non-container type")),
        }
    }

    /// Writes a container that was changed back to the variable it was read
    /// from, if it was read from one.
    fn write_back(&mut self, target: Option<&'a String>, container: Value)
        ensures
            final(self)@ == old(self)@.write_back(optional_name(target), container@),
    {
        match target {
            Some(name) => {
                self.bind(name.clone(), container);
            },
            None => {},
        }
    }

    /// Stores a value in a container at an index.
    fn store(
        &mut self,
        target: Option<&'a String>,
        container: Value,
        index: Value,
        value: Value,
    ) -> (action: Action)
        ensures
            (Outcome { machine: final(self)@, action: action@ }) == old(self)@.store(
                optional_name(target),
                container@,
                index@,
                value@,
            ),
    {
        match (container, index) {
            (Value::Array(items), Value::Number(n)) => self.ask(
                Request::Truncate(n),
                Use::StoreIndex { target, items, value, in_range: n.is_at_least_zero() },
            ),
            (Value::Dictionary(mut entries), Value::String(key)) => {
                bind_entry(&mut entries, key, value);
                self.write_back(target, Value::Dictionary(entries));
                Action::Continue
            },
            _ => self.fail(mismatch_of("Cannot assign to non-array or non-dictionary value")),
        }
    }

    /// Calls the function named `name` with the arguments.
    fn call(&mut self, name: &str, arguments: Vec<Value>) -> (action: Action)
        ensures
            (Outcome { machine: final(self)@, action: action@ }) == old(self)@.call(
                name@,
                value_models(arguments),
            ),
    {
        match self.find_function(name) {
            None => self.fail(RuntimeError::UndefinedFunction { name: String::from_str(name) }),
            Some(i) => {
                let function: &'a Function = self.functions[i];
                if arguments.len() != function.parameters.len() {
                    return self.fail(
                        RuntimeError::ArityMismatch {
                            function: function.name.clone(),
                            expected: function.parameters.len(),
                            found: arguments.len(),
                        },
                    );
                }
                let saved = duplicate_entries(&self.variables);
                let base = self.values.len();
                let mut at: usize = 0;
                while at < function.parameters.len()
                    invariant
                        at <= function.parameters.len(),
                        arguments.len() == function.parameters.len(),
                        self.functions == old(self).functions,
                        self.tasks == old(self).tasks,
                        self.values == old(self).values,
                        bind_all(
                            old(self)@.variables,
                            function@.parameters,
                            value_models(arguments),
                            0,
                        ) == bind_all(
                            self@.variables,
                            function@.parameters,
                            value_models(arguments),
                            at as int,
                        ),
                    decreases function.parameters.len() - at,
                {
                    bind_entry(
                        &mut self.variables,
                        function.parameters[at].name.clone(),
                        arguments[at].duplicate(),
                    );
                    at += 1;
                }
                self.schedule(Task::CallEnd(saved, base));
                self.schedule(Task::Body(&function.body, 0));
                Action::Continue
            },
        }
    }

    /// Puts the text of a value at the end of the string on top.
    fn render(&mut self, value: Value) -> (action: Action)
        ensures
            (Outcome { machine: final(self)@, action: action@ }) == old(self)@.render(value@),
    {
        match value {
            Value::Number(n) => self.ask(Request::FormatNumber(n), Use::AppendText),
            Value::String(s) => self.append(s.as_str()),
            Value::Boolean(b) => self.append(
                if b {
                    "true"
                } else {
                    "false"
                },
            ),
            Value::Null => self.append("null"),
            Value::Array(items) => {
                self.schedule(Task::Emit(String::from_str("]")));
                self.schedule(Task::RenderItems(items, 0, ", "));
                self.schedule(Task::Emit(String::from_str("[")));
                Action::Continue
            },
            Value::Dictionary(entries) => {
                self.schedule(Task::Emit(String::from_str("}")));
                self.schedule(Task::RenderEntries(entries, 0));
                self.schedule(Task::Emit(String::from_str("{")));
                Action::Continue
            },
        }
    }

    /// The name of a built-in function of one number.
    fn name_of_math(function: Builtin) -> (name: &'static str)
        ensures
            name@ == math_name(function),
    {
        match function {
            Builtin::Abs => "abs",
            Builtin::Sqrt => "sqrt",
            Builtin::Floor => "floor",
            Builtin::Ceil => "ceil",
            _ => "round",
        }
    }

    /// The operation behind a built-in function of one number.
    fn op_of_math(function: Builtin) -> (op: MathOp)
        ensures
            op == math_op(function),
    {
        match function {
            Builtin::Abs => MathOp::Abs,
            Builtin::Sqrt => MathOp::Sqrt,
            Builtin::Floor => MathOp::Floor,
            Builtin::Ceil => MathOp::Ceil,
            _ => MathOp::Round,
        }
    }

    /// The failure named `name` followed by `rest`.
    fn named_mismatch(name: &str, rest: &str) -> (e: RuntimeError)
        ensures
            e@ == mismatch(name@ + rest@),
    {
        let mut message = String::from_str(name);
        message.append(rest);
        RuntimeError::TypeMismatch { message }
    }

    /// The numbers of `items`, if they are all numbers.
    fn numbers(items: &Vec<Value>) -> (found: Option<Vec<Number>>)
        ensures
            match found {
                Some(numbers) => all_numbers(value_models(*items)) && number_bits(numbers)
                    == numbers_of(value_models(*items)) && numbers.len() == items.len(),
                None => !all_numbers(value_models(*items)),
            },
    {
        let mut numbers: Vec<Number> = Vec::new();
        let mut i: usize = 0;
        while i < items.len()
            invariant
                i <= items.len(),
                numbers.len() == i,
                forall|j: int|
                    0 <= j < i ==> (#[trigger] value_models(*items)[j]) is Number
                        && numbers[j].bits == value_models(*items)[j]->Number_0,
            decreases items.len() - i,
        {
            match &items[i] {
                Value::Number(n) => {
                    numbers.push(*n);
                },
                _ => {
                    assert(!(value_models(*items)[i as int] is Number));
                    return None;
                },
            }
            i += 1;
        }
        assert(number_bits(numbers) =~= numbers_of(value_models(*items)));
        Some(numbers)
    }

    /// The keys of the entries, as string values.
    fn keys(entries: &Vec<(String, Value)>) -> (found: Vec<Value>)
        ensures
            value_models(found) == keys_of(entry_models(*entries)),
    {
        let mut found: Vec<Value> = Vec::new();
        let mut i: usize = 0;
        while i < entries.len()
            invariant
                i <= entries.len(),
                found.len() == i,
                forall|j: int| 0 <= j < i ==> found[j]@ == ValueModel::String(entries[j].0@),
            decreases entries.len() - i,
        {
            found.push(Value::String(entries[i].0.clone()));
            i += 1;
        }
        assert(value_models(found) =~= keys_of(entry_models(*entries)));
        found
    }

    /// The values of the entries.
    fn values(entries: &Vec<(String, Value)>) -> (found: Vec<Value>)
        ensures
            value_models(found) == values_of(entry_models(*entries)),
    {
        let mut found: Vec<Value> = Vec::new();
        let mut i: usize = 0;
        while i < entries.len()
            invariant
                i <= entries.len(),
                found.len() == i,
                forall|j: int| 0 <= j < i ==> found[j]@ == entries[j].1@,
            decreases entries.len() - i,
        {
            found.push(entries[i].1.duplicate());
            i += 1;
        }
        assert(value_models(found) =~= values_of(entry_models(*entries)));
        found
    }

    /// The texts as string values.
    fn strings(texts: Vec<String>) -> (found: Vec<Value>)
        ensures
            value_models(found) == strings_of(texts_of(texts@)),
    {
        let mut found: Vec<Value> = Vec::new();
        let mut i: usize = 0;
        while i < texts.len()
            invariant
                i <= texts.len(),
                found.len() == i,
                forall|j: int| 0 <= j < i ==> found[j]@ == ValueModel::String(texts[j]@),
            decreases texts.len() - i,
        {
            found.push(Value::String(texts[i].clone()));
            i += 1;
        }
        assert(value_models(found) =~= strings_of(texts_of(texts@)));
        found
    }

    /// The `length` characters of `text` from `start` on, or as many as there
    /// are.
    fn clip(text: &str, start: usize, length: usize) -> (r: String)
        ensures
            r@ == clipped(text@, start, length),
    {
        let chars = chars_of(text);
        let n = chars.len();
        if start >= n {
            String::new()
        } else if length >= n - start {
            string_of_range(&chars, start, n)
        } else {
            string_of_range(&chars, start, start + length)
        }
    }

    /// Does what a built-in function does with its argument.
    fn builtin(&mut self, function: Builtin, spread: bool, argument: Value) -> (action: Action)
        ensures
            (Outcome { machine: final(self)@, action: action@ }) == old(self)@.builtin(
                function,
                spread,
                argument@,
            ),
    {
        match function {
            Builtin::Print => {
                self.push(Value::String(String::new()));
                self.schedule(Task::PrintTop);
                match argument {
                    Value::Array(items) => {
                        if spread {
                            self.schedule(Task::RenderItems(items, 0, " "));
                        } else {
                            self.schedule(Task::Render(Value::Array(items)));
                        }
                    },
                    other => {
                        self.schedule(Task::Render(other));
                    },
                }
                Action::Continue
            },
            Builtin::Str => {
                self.push(Value::String(String::new()));
                self.schedule(Task::Render(argument));
                Action::Continue
            },
            Builtin::Len => match argument {
                Value::Array(items) => self.ask(Request::FromIndex(items.len()), Use::PushNumber),
                Value::Dictionary(entries) => self.ask(
                    Request::FromIndex(entries.len()),
                    Use::PushNumber,
                ),
                Value::String(s) => self.ask(
                    Request::FromIndex(s.as_str().unicode_len()),
                    Use::PushNumber,
                ),
                Value::Null => self.fail(
                    mismatch_of(
                        "len() requires an argument - provide an array, dictionary, or string",
                    ),
                ),
                _ => self.fail(mismatch_of("len() expects array, dictionary, or string")),
            },
            Builtin::Push => match argument {
                Value::Array(mut arguments) => {
                    if arguments.len() != 2 {
                        return self.fail(
                            mismatch_of("push() expects exactly 2 arguments: array and value"),
                        );
                    }
                    let ghost given = value_models(arguments);
                    let item = arguments.pop().unwrap();
                    let first = arguments.pop().unwrap();
                    assert(item@ == given[1] && first@ == given[0]);
                    match first {
                        Value::Array(mut items) => {
                            let ghost before = value_models(items);
                            items.push(item);
                            assert(value_models(items) =~= before.push(item@));
                            self.push(Value::Array(items));
                            Action::Continue
                        },
                        _ => self.fail(mismatch_of("push() first argument must be an array")),
                    }
                },
                _ => self.fail(mismatch_of("push() expects array arguments")),
            },
            Builtin::Pop => match argument {
                Value::Array(mut items) => {
                    let ghost given = value_models(items);
                    match items.pop() {
                        Some(last) => {
                            assert(last@ == given.last());
                            self.push(last);
                        },
                        None => {
                            self.push(Value::Null);
                        },
                    }
                    Action::Continue
                },
                _ => self.fail(mismatch_of("pop() expects an array")),
            },
            Builtin::Keys => match argument {
                Value::Dictionary(entries) => {
                    self.push(Value::Array(Self::keys(&entries)));
                    Action::Continue
                },
                _ => self.fail(mismatch_of("keys() expects a dictionary")),
            },
            Builtin::Values => match argument {
                Value::Dictionary(entries) => {
                    self.push(Value::Array(Self::values(&entries)));
                    Action::Continue
                },
                _ => self.fail(mismatch_of("values() expects a dictionary")),
            },
            Builtin::Abs | Builtin::Floor | Builtin::Ceil | Builtin::Round | Builtin::Sqrt => {
                match argument {
                    Value::Number(n) => {
                        if function == Builtin::Sqrt && n.is_below_zero() {
                            self.push(Value::Null);
                            Action::Continue
                        } else {
                            self.ask(Request::Math(Self::op_of_math(function), n), Use::PushNumber)
                        }
                    },
                    _ => self.fail(
                        Self::named_mismatch(Self::name_of_math(function), "() expects a number"),
                    ),
                }
            },
            Builtin::Min | Builtin::Max => {
                let greater = function == Builtin::Max;
                let name = if greater {
                    "max"
                } else {
                    "min"
                };
                match argument {
                    Value::Array(items) => {
                        if items.len() == 0 {
                            return self.fail(
                                Self::named_mismatch(name, "() expects at least one argument"),
                            );
                        }
                        match Self::numbers(&items) {
                            Some(numbers) => {
                                let best = numbers[0];
                                self.schedule(Task::Extreme(greater, numbers, 1, best));
                                Action::Continue
                            },
                            None => self.fail(
                                Self::named_mismatch(
                                    name,
                                    "() expects all arguments to be numbers",
                                ),
                            ),
                        }
                    },
                    _ => self.fail(Self::named_mismatch(name, "() expects array of numbers")),
                }
            },
            Builtin::Substring => match argument {
                Value::Array(mut arguments) => {
                    if arguments.len() != 3 {
                        return self.fail(
                            mismatch_of(
                                "substring() expects exactly 3 arguments: string, start, length",
                            ),
                        );
                    }
                    let ghost given = value_models(arguments);
                    let third = arguments.pop().unwrap();
                    let second = arguments.pop().unwrap();
                    let first = arguments.pop().unwrap();
                    assert(third@ == given[2] && second@ == given[1] && first@ == given[0]);
                    match (first, second, third) {
                        (Value::String(text), Value::Number(start), Value::Number(length)) => {
                            self.ask(
                                Request::Truncate(start),
                                Use::SubstringStart { text, length },
                            )
                        },
                        _ => self.fail(
                            mismatch_of("substring() expects string, number, number arguments"),
                        ),
                    }
                },
                _ => self.fail(mismatch_of("substring() expects array of arguments")),
            },
            Builtin::Upper => match argument {
                Value::String(s) => {
                    self.push(Value::String(to_upper(s.as_str())));
                    Action::Continue
                },
                _ => self.fail(mismatch_of("upper() expects a string")),
            },
            Builtin::Lower => match argument {
                Value::String(s) => {
                    self.push(Value::String(to_lower(s.as_str())));
                    Action::Continue
                },
                _ => self.fail(mismatch_of("lower() expects a string")),
            },
            Builtin::Split => match argument {
                Value::Array(mut arguments) => {
                    if arguments.len() != 2 {
                        return self.fail(
                            mismatch_of("split() expects exactly 2 arguments: string, delimiter"),
                        );
                    }
                    let ghost given = value_models(arguments);
                    let second = arguments.pop().unwrap();
                    let first = arguments.pop().unwrap();
                    assert(second@ == given[1] && first@ == given[0]);
                    match (first, second) {
                        (Value::String(text), Value::String(separator)) => {
                            let pieces = split_text(text.as_str(), separator.as_str());
                            self.push(Value::Array(Self::strings(pieces)));
                            Action::Continue
                        },
                        _ => self.fail(mismatch_of("split() expects string, string arguments")),
                    }
                },
                _ => self.fail(mismatch_of("split() expects array of arguments")),
            },
        }
    }

    /// Takes the reply of the host for `purpose`.
    fn take(&mut self, purpose: Use<'a>, reply: Reply) -> (action: Action)
        ensures
            (Outcome { machine: final(self)@, action: action@ }) == old(self)@.take(
                purpose@,
                reply@,
            ),
    {
        match (purpose, reply) {
            (Use::PushNumber, Reply::Number(n)) => {
                self.push(Value::Number(n));
                Action::Continue
            },
            (Use::PushFlag { negate }, Reply::Flag(b)) => {
                self.push(Value::Boolean(b != negate));
                Action::Continue
            },
            (Use::AppendText, Reply::Text(text)) => self.append(text.as_str()),
            (Use::Printed, Reply::Done) => {
                self.push(Value::Null);
                Action::Continue
            },
            (Use::ArrayIndex { items, in_range }, Reply::Index(i)) => {
                if in_range && i < items.len() {
                    self.push(items[i].duplicate());
                } else {
                    self.push(Value::Null);
                }
                Action::Continue
            },
            (Use::StoreIndex { target, items, value, in_range }, Reply::Index(i)) => {
                if in_range && i < items.len() {
                    let mut items = items;
                    let ghost before = value_models(items);
                    items[i] = value;
                    assert(value_models(items) =~= before.update(i as int, value@));
                    self.write_back(target, Value::Array(items));
                    Action::Continue
                } else {
                    self.fail(RuntimeError::IndexOutOfBounds { index: i, length: items.len() })
                }
            },
            (Use::RangeFlag { current, end }, Reply::Flag(b)) => {
                if !b {
                    return Action::Continue;
                }
                if self.height() == 0 {
                    return self.fail(broken_of("no range to extend"));
                }
                match self.pop() {
                    Value::Array(mut items) => {
                        let ghost before = value_models(items);
                        items.push(Value::Number(current));
                        assert(value_models(items) =~= before.push(
                            ValueModel::Number(current.bits),
                        ));
                        self.push(Value::Array(items));
                        self.ask(
                            Request::Arithmetic(ArithmeticOp::Add, current, Number { bits: ONE }),
                            Use::RangeNext { end },
                        )
                    },
                    _ => self.fail(broken_of("no range to extend")),
                }
            },
            (Use::RangeNext { end }, Reply::Number(n)) => {
                self.schedule(Task::RangeStep(n, end));
                Action::Continue
            },
            (Use::CountStart { each }, Reply::Index(count)) => {
                self.schedule(Task::ForCount(each, count, 0));
                Action::Continue
            },
            (Use::CountIndex { each, count, index }, Reply::Number(n)) => {
                if index < count {
                    self.bind(each.variable.clone(), Value::Number(n));
                    self.schedule(Task::ForCount(each, count, index + 1));
                    self.schedule(Task::Block(&each.body, 0));
                    Action::Continue
                } else {
                    self.fail(broken_of("a loop beyond its end"))
                }
            },
            (Use::ItemIndex { each, items, index }, Reply::Number(n)) => {
                if index < items.len() {
                    let mut index_name = each.variable.clone();
                    index_name.append("_index");
                    let item = items[index].duplicate();
                    self.bind(index_name, Value::Number(n));
                    self.bind(each.variable.clone(), item);
                    self.schedule(Task::ForArray(each, items, index + 1));
                    self.schedule(Task::Block(&each.body, 0));
                    Action::Continue
                } else {
                    self.fail(broken_of("a loop beyond its end"))
                }
            },
            (Use::ExtremeFlag { greater, items, index, best }, Reply::Flag(b)) => {
                if index < items.len() {
                    let next = if b {
                        items[index]
                    } else {
                        best
                    };
                    self.schedule(Task::Extreme(greater, items, index + 1, next));
                    Action::Continue
                } else {
                    self.fail(broken_of("a comparison beyond the end"))
                }
            },
            (Use::SubstringStart { text, length }, Reply::Index(start)) => self.ask(
                Request::Truncate(length),
                Use::SubstringLength { text, start },
            ),
            (Use::SubstringLength { text, start }, Reply::Index(length)) => {
                self.push(Value::String(Self::clip(text.as_str(), start, length)));
                Action::Continue
            },
            _ => self.fail(broken_of("unexpected reply")),
        }
    }

    /// Puts `text` at the end of the string on top of the values.
    fn append(&mut self, text: &str) -> (action: Action)
        ensures
            (Outcome { machine: final(self)@, action: action@ }) == old(self)@.append(text@),
    {
        if self.height() == 0 {
            return self.fail(broken_of("no text to append to"));
        }
        match self.pop() {
            Value::String(mut buffer) => {
                buffer.append(text);
                self.push(Value::String(buffer));
                Action::Continue
            },
            _ => self.fail(broken_of("no text to append to")),
        }
    }
}

} // verus!
