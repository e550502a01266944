//! Passes over the syntax tree: a checker for names that are used without
//! being declared, a finder of operations on literals, and a printer.
//!
//! Each pass walks the whole tree in source order. What it finds is stated as
//! a function of the tree.

use vstd::prelude::*;
use vstd::string::*;
use crate::ast::{
    expression_models, pair_models, statement_models, variable_models, Block, Expression,
    ExpressionModel, Function, LiteralModel, LiteralValue, Program, Statement, StatementModel,
    Variable, VariableModel,
};
use crate::text::{decimal_text, same_text, texts_of};

verus! {

/// Whether an operation on nothing but literals stands anywhere in `e`: a
/// binary operator between two literals, or a prefix operator in front of one.
pub open spec fn folds(e: ExpressionModel) -> bool
    decreases e,
{
    match e {
        ExpressionModel::Literal { .. } => false,
        ExpressionModel::Identifier { .. } => false,
        ExpressionModel::BinaryOp { left, operator, right } => folds(*left) || folds(*right) || (
        *left is Literal && *right is Literal),
        ExpressionModel::UnaryOp { operator, operand } => folds(*operand) || *operand is Literal,
        ExpressionModel::Array { elements } => folds_any(elements, 0),
        ExpressionModel::Dictionary { pairs } => folds_any_pair(pairs, 0),
        ExpressionModel::Index { container, index } => folds(*container) || folds(*index),
        ExpressionModel::Range { start, end } => folds(*start) || folds(*end),
    }
}

/// Whether [`folds`] holds of one of the expressions from `from` on.
pub open spec fn folds_any(list: Seq<ExpressionModel>, from: int) -> bool
    decreases list, list.len() - from,
{
    if 0 <= from < list.len() {
        folds(list[from]) || folds_any(list, from + 1)
    } else {
        false
    }
}

/// Whether [`folds`] holds of a key or a value of one of the pairs from `from` on.
pub open spec fn folds_any_pair(list: Seq<(ExpressionModel, ExpressionModel)>, from: int) -> bool
    decreases list, list.len() - from,
{
    if 0 <= from < list.len() {
        folds(list[from].0) || folds(list[from].1) || folds_any_pair(list, from + 1)
    } else {
        false
    }
}

/// Whether [`folds`] holds of an optional expression.
pub open spec fn folds_optional(e: Option<ExpressionModel>) -> bool {
    match e {
        Some(e) => folds(e),
        None => false,
    }
}

/// Whether [`folds`] holds of an expression of the statement.
pub open spec fn folds_in(s: StatementModel) -> bool
    decreases s,
{
    match s {
        StatementModel::Function { name, parameters, return_type, body } => folds_in_any(body, 0),
        StatementModel::IfStatement { condition, then_block, else_block } => folds(condition)
            || folds_in_any(then_block, 0) || match else_block {
            Some(block) => folds_in_any(block, 0),
            None => false,
        },
        StatementModel::WhileLoop { condition, body } => folds(condition) || folds_in_any(body, 0),
        StatementModel::ForLoop { variable, iterable, body } => folds_optional(iterable)
            || folds_in_any(body, 0),
        StatementModel::ReturnStatement { value } => folds_optional(value),
        StatementModel::Assignment { variable, value } => folds(value),
        StatementModel::ConstantAssignment { variable, value } => folds(value),
        StatementModel::IndexAssignment { container, index, value } => folds(container) || folds(
            index,
        ) || folds(value),
        StatementModel::Expression(e) => folds(e),
    }
}

/// Whether [`folds_in`] holds of one of the statements from `from` on.
pub open spec fn folds_in_any(list: Seq<StatementModel>, from: int) -> bool
    decreases list, list.len() - from,
{
    if 0 <= from < list.len() {
        folds_in(list[from]) || folds_in_any(list, from + 1)
    } else {
        false
    }
}

/// Finds operations on nothing but literals, which could be computed before
/// the program runs.
pub struct ConstantFolder {
    optimized: bool,
}

impl ConstantFolder {
    /// Whether an operation on literals has been found.
    pub closed spec fn found(&self) -> bool {
        self.optimized
    }

    pub fn new() -> (folder: Self)
        ensures
            !folder.found(),
    {
        Self { optimized: false }
    }

    pub fn was_optimized(&self) -> (b: bool)
        ensures
            b == self.found(),
    {
        self.optimized
    }

    /// Looks for operations on literals in the whole program.
    pub fn visit_program(&mut self, program: &Program)
        ensures
            final(self).found() == (old(self).found() || folds_in_any(program@, 0)),
    {
        let found = Self::visit_statements(&program.statements);
        self.optimized = self.optimized || found;
    }

    fn is_literal(e: &Expression) -> (b: bool)
        ensures
            b == e@ is Literal,
    {
        match e {
            Expression::Literal(_) => true,
            _ => false,
        }
    }

    fn visit_statements(statements: &Vec<Statement>) -> (found: bool)
        ensures
            found == folds_in_any(statement_models(*statements), 0),
        decreases *statements,
    {
        let mut found = false;
        let mut i: usize = 0;
        while i < statements.len()
            invariant
                i <= statements.len(),
                folds_in_any(statement_models(*statements), 0) == (found || folds_in_any(
                    statement_models(*statements),
                    i as int,
                )),
            decreases statements.len() - i,
        {
            let here = Self::visit_statement(&statements[i]);
            found = found || here;
            i += 1;
        }
        found
    }

    fn visit_optional(e: &Option<Expression>) -> (found: bool)
        ensures
            found == folds_optional(crate::ast::optional_expression(*e)),
        decreases *e,
    {
        match e {
            Some(e) => Self::visit_expression(e),
            None => false,
        }
    }

    /// Looks for operations on literals in a statement.
    pub fn visit_statement(statement: &Statement) -> (found: bool)
        ensures
            found == folds_in(statement@),
        decreases *statement,
    {
        match statement {
            Statement::Function(function) => Self::visit_statements(&function.body.statements),
            Statement::IfStatement(choice) => {
                let condition = Self::visit_expression(&choice.condition);
                let then_block = Self::visit_statements(&choice.then_block.statements);
                let else_block = match &choice.else_block {
                    Some(block) => Self::visit_statements(&block.statements),
                    None => false,
                };
                condition || then_block || else_block
            },
            Statement::WhileLoop(each) => {
                let condition = Self::visit_expression(&each.condition);
                let body = Self::visit_statements(&each.body.statements);
                condition || body
            },
            Statement::ForLoop(each) => {
                let iterable = Self::visit_optional(&each.iterable);
                let body = Self::visit_statements(&each.body.statements);
                iterable || body
            },
            Statement::ReturnStatement(leave) => Self::visit_optional(&leave.value),
            Statement::Assignment(assignment) => Self::visit_expression(&assignment.value),
            Statement::ConstantAssignment(assignment) => Self::visit_expression(&assignment.value),
            Statement::IndexAssignment(assignment) => {
                let container = Self::visit_expression(&*assignment.container);
                let index = Self::visit_expression(&*assignment.index);
                let value = Self::visit_expression(&*assignment.value);
                container || index || value
            },
            Statement::Expression(e) => Self::visit_expression(e),
        }
    }

    fn visit_expressions(list: &Vec<Expression>) -> (found: bool)
        ensures
            found == folds_any(expression_models(*list), 0),
        decreases *list,
    {
        let mut found = false;
        let mut i: usize = 0;
        while i < list.len()
            invariant
                i <= list.len(),
                folds_any(expression_models(*list), 0) == (found || folds_any(
                    expression_models(*list),
                    i as int,
                )),
            decreases list.len() - i,
        {
            let here = Self::visit_expression(&list[i]);
            found = found || here;
            i += 1;
        }
        found
    }

    fn visit_pairs(list: &Vec<(Expression, Expression)>) -> (found: bool)
        ensures
            found == folds_any_pair(pair_models(*list), 0),
        decreases *list,
    {
        let mut found = false;
        let mut i: usize = 0;
        while i < list.len()
            invariant
                i <= list.len(),
                folds_any_pair(pair_models(*list), 0) == (found || folds_any_pair(
                    pair_models(*list),
                    i as int,
                )),
            decreases list.len() - i,
        {
            let key = Self::visit_expression(&list[i].0);
            let value = Self::visit_expression(&list[i].1);
            found = found || key || value;
            i += 1;
        }
        found
    }

    /// Looks for operations on literals in an expression.
    pub fn visit_expression(e: &Expression) -> (found: bool)
        ensures
            found == folds(e@),
        decreases *e,
    {
        reveal_with_fuel(Expression::model, 2);
        match e {
            Expression::Literal(_) => false,
            Expression::Identifier(_) => false,
            Expression::BinaryOp(operation) => {
                let left = Self::visit_expression(&*operation.left);
                let right = Self::visit_expression(&*operation.right);
                left || right || (Self::is_literal(&*operation.left) && Self::is_literal(
                    &*operation.right,
                ))
            },
            Expression::UnaryOp(operation) => {
                let operand = Self::visit_expression(&*operation.operand);
                operand || Self::is_literal(&*operation.operand)
            },
            Expression::Array(array) => Self::visit_expressions(&array.elements),
            Expression::Dictionary(dictionary) => Self::visit_pairs(&dictionary.pairs),
            Expression::Index(indexed) => {
                let container = Self::visit_expression(&*indexed.container);
                let index = Self::visit_expression(&*indexed.index);
                container || index
            },
            Expression::Range(range) => {
                let start = Self::visit_expression(&*range.start);
                let end = Self::visit_expression(&*range.end);
                start || end
            },
        }
    }
}

/// What a check has found so far: the names that are declared, and the
/// complaints in the order in which they were made.
pub struct CheckModel {
    pub declared: Seq<Seq<char>>,
    pub errors: Seq<Seq<char>>,
}

impl CheckModel {
    /// The check after one more complaint.
    pub open spec fn complain(self, message: Seq<char>) -> CheckModel {
        CheckModel { errors: self.errors.push(message), ..self }
    }

    /// The check after one more name is declared.
    pub open spec fn declare(self, name: Seq<char>) -> CheckModel {
        CheckModel { declared: self.declared.push(name), ..self }
    }
}

/// The check after an expression: every name that is read without being
/// declared is complained about.
pub open spec fn check_expression(state: CheckModel, e: ExpressionModel) -> CheckModel
    decreases e,
{
    match e {
        ExpressionModel::Literal { .. } => state,
        ExpressionModel::Identifier { name } => if state.declared.contains(name) {
            state
        } else {
            state.complain("Undefined variable: "@ + name)
        },
        ExpressionModel::BinaryOp { left, operator, right } => check_expression(
            check_expression(state, *left),
            *right,
        ),
        ExpressionModel::UnaryOp { operator, operand } => check_expression(state, *operand),
        ExpressionModel::Array { elements } => check_expressions(state, elements, 0),
        ExpressionModel::Dictionary { pairs } => check_pairs(state, pairs, 0),
        ExpressionModel::Index { container, index } => check_expression(
            check_expression(state, *container),
            *index,
        ),
        ExpressionModel::Range { start, end } => check_expression(
            check_expression(state, *start),
            *end,
        ),
    }
}

/// The check after the expressions from `from` on.
pub open spec fn check_expressions(
    state: CheckModel,
    list: Seq<ExpressionModel>,
    from: int,
) -> CheckModel
    decreases list, list.len() - from,
{
    if 0 <= from < list.len() {
        check_expressions(check_expression(state, list[from]), list, from + 1)
    } else {
        state
    }
}

/// The check after the keys and values of the pairs from `from` on.
pub open spec fn check_pairs(
    state: CheckModel,
    list: Seq<(ExpressionModel, ExpressionModel)>,
    from: int,
) -> CheckModel
    decreases list, list.len() - from,
{
    if 0 <= from < list.len() {
        check_pairs(
            check_expression(check_expression(state, list[from].0), list[from].1),
            list,
            from + 1,
        )
    } else {
        state
    }
}

/// The check after an optional expression.
pub open spec fn check_optional(state: CheckModel, e: Option<ExpressionModel>) -> CheckModel {
    match e {
        Some(e) => check_expression(state, e),
        None => state,
    }
}

/// The check after the parameters from `from` on: a parameter with a type
/// annotation is declared, one without is complained about.
pub open spec fn check_parameters(
    state: CheckModel,
    list: Seq<VariableModel>,
    from: int,
) -> CheckModel
    decreases list.len() - from,
{
    if 0 <= from < list.len() {
        check_parameters(
            match list[from].type_annotation {
                Some(_) => state.declare(list[from].name),
                None => state.complain(
                    "Function parameter '"@ + list[from].name + "' must have type annotation"@,
                ),
            },
            list,
            from + 1,
        )
    } else {
        state
    }
}

/// The check after a statement.
pub open spec fn check_statement(state: CheckModel, s: StatementModel) -> CheckModel
    decreases s,
{
    match s {
        StatementModel::Function { name, parameters, return_type, body } => check_statements(
            check_parameters(state, parameters, 0),
            body,
            0,
        ),
        StatementModel::IfStatement { condition, then_block, else_block } => {
            let after_then = check_statements(check_expression(state, condition), then_block, 0);
            match else_block {
                Some(block) => check_statements(after_then, block, 0),
                None => after_then,
            }
        },
        StatementModel::WhileLoop { condition, body } => check_statements(
            check_expression(state, condition),
            body,
            0,
        ),
        StatementModel::ForLoop { variable, iterable, body } => check_statements(
            check_optional(state, iterable),
            body,
            0,
        ),
        StatementModel::ReturnStatement { value } => check_optional(state, value),
        StatementModel::Assignment { variable, value } => check_expression(state, value),
        StatementModel::ConstantAssignment { variable, value } => check_expression(state, value),
        StatementModel::IndexAssignment { container, index, value } => check_expression(
            check_expression(check_expression(state, container), index),
            value,
        ),
        StatementModel::Expression(e) => check_expression(state, e),
    }
}

/// The check after the statements from `from` on.
pub open spec fn check_statements(
    state: CheckModel,
    list: Seq<StatementModel>,
    from: int,
) -> CheckModel
    decreases list, list.len() - from,
{
    if 0 <= from < list.len() {
        check_statements(check_statement(state, list[from]), list, from + 1)
    } else {
        state
    }
}

/// Checks that names are declared before they are read. Only the parameters
/// of functions that carry a type annotation count as declared.
pub struct TypeChecker {
    symbol_table: Vec<String>,
    errors: Vec<String>,
}

impl View for TypeChecker {
    type V = CheckModel;

    closed spec fn view(&self) -> CheckModel {
        CheckModel { declared: texts_of(self.symbol_table@), errors: texts_of(self.errors@) }
    }
}

impl TypeChecker {
    pub fn new() -> (checker: Self)
        ensures
            checker@ == (CheckModel { declared: Seq::empty(), errors: Seq::empty() }),
    {
        let checker = Self { symbol_table: Vec::new(), errors: Vec::new() };
        assert(checker@.declared =~= Seq::empty());
        assert(checker@.errors =~= Seq::empty());
        checker
    }

    /// The complaints made so far, in order.
    pub fn get_errors(&self) -> (errors: &[String])
        ensures
            texts_of(errors@) == self@.errors,
    {
        self.errors.as_slice()
    }

    fn add_error(&mut self, message: String)
        ensures
            final(self)@ == old(self)@.complain(message@),
    {
        let ghost before = texts_of(self.errors@);
        self.errors.push(message);
        assert(texts_of(self.errors@) =~= before.push(message@));
    }

    fn declare(&mut self, name: String)
        ensures
            final(self)@ == old(self)@.declare(name@),
    {
        let ghost before = texts_of(self.symbol_table@);
        self.symbol_table.push(name);
        assert(texts_of(self.symbol_table@) =~= before.push(name@));
    }

    fn is_declared(&self, name: &str) -> (b: bool)
        ensures
            b == self@.declared.contains(name@),
    {
        let mut i: usize = 0;
        while i < self.symbol_table.len()
            invariant
                i <= self.symbol_table.len(),
                forall|j: int| 0 <= j < i ==> texts_of(self.symbol_table@)[j] != name@,
            decreases self.symbol_table.len() - i,
        {
            if same_text(self.symbol_table[i].as_str(), name) {
                assert(texts_of(self.symbol_table@)[i as int] == name@);
                return true;
            }
            i += 1;
        }
        false
    }

    /// Checks a whole program.
    pub fn visit_program(&mut self, program: &Program) -> (r: Result<(), String>)
        ensures
            r is Ok,
            final(self)@ == check_statements(old(self)@, program@, 0),
    {
        self.visit_statements(&program.statements);
        Ok(())
    }

    fn visit_statements(&mut self, list: &Vec<Statement>)
        ensures
            final(self)@ == check_statements(old(self)@, statement_models(*list), 0),
        decreases *list,
    {
        let mut i: usize = 0;
        while i < list.len()
            invariant
                i <= list.len(),
                check_statements(old(self)@, statement_models(*list), 0) == check_statements(
                    self@,
                    statement_models(*list),
                    i as int,
                ),
            decreases list.len() - i,
        {
            self.visit_statement(&list[i]);
            i += 1;
        }
    }

    fn visit_expressions(&mut self, list: &Vec<Expression>)
        ensures
            final(self)@ == check_expressions(old(self)@, expression_models(*list), 0),
        decreases *list,
    {
        let mut i: usize = 0;
        while i < list.len()
            invariant
                i <= list.len(),
                check_expressions(old(self)@, expression_models(*list), 0) == check_expressions(
                    self@,
                    expression_models(*list),
                    i as int,
                ),
            decreases list.len() - i,
        {
            self.visit_expression(&list[i]);
            i += 1;
        }
    }

    fn visit_pairs(&mut self, list: &Vec<(Expression, Expression)>)
        ensures
            final(self)@ == check_pairs(old(self)@, pair_models(*list), 0),
        decreases *list,
    {
        let mut i: usize = 0;
        while i < list.len()
            invariant
                i <= list.len(),
                check_pairs(old(self)@, pair_models(*list), 0) == check_pairs(
                    self@,
                    pair_models(*list),
                    i as int,
                ),
            decreases list.len() - i,
        {
            self.visit_expression(&list[i].0);
            self.visit_expression(&list[i].1);
            i += 1;
        }
    }

    fn visit_optional(&mut self, e: &Option<Expression>)
        ensures
            final(self)@ == check_optional(old(self)@, crate::ast::optional_expression(*e)),
        decreases *e,
    {
        match e {
            Some(e) => {
                self.visit_expression(e);
            },
            None => {},
        }
    }

    fn visit_parameters(&mut self, list: &Vec<Variable>)
        ensures
            final(self)@ == check_parameters(old(self)@, variable_models(*list), 0),
    {
        let mut i: usize = 0;
        while i < list.len()
            invariant
                i <= list.len(),
                check_parameters(old(self)@, variable_models(*list), 0) == check_parameters(
                    self@,
                    variable_models(*list),
                    i as int,
                ),
            decreases list.len() - i,
        {
            match &list[i].type_annotation {
                Some(_) => {
                    self.declare(list[i].name.clone());
                },
                None => {
                    let mut message = String::from_str("Function parameter '");
                    message.append(list[i].name.as_str());
                    message.append("' must have type annotation");
                    self.add_error(message);
                },
            }
            i += 1;
        }
    }

    /// Checks a statement.
    pub fn visit_statement(&mut self, statement: &Statement)
        ensures
            final(self)@ == check_statement(old(self)@, statement@),
        decreases *statement,
    {
        match statement {
            Statement::Function(function) => {
                self.visit_parameters(&function.parameters);
                self.visit_statements(&function.body.statements);
            },
            Statement::IfStatement(choice) => {
                self.visit_expression(&choice.condition);
                self.visit_statements(&choice.then_block.statements);
                match &choice.else_block {
                    Some(block) => {
                        self.visit_statements(&block.statements);
                    },
                    None => {},
                }
            },
            Statement::WhileLoop(each) => {
                self.visit_expression(&each.condition);
                self.visit_statements(&each.body.statements);
            },
            Statement::ForLoop(each) => {
                self.visit_optional(&each.iterable);
                self.visit_statements(&each.body.statements);
            },
            Statement::ReturnStatement(leave) => {
                self.visit_optional(&leave.value);
            },
            Statement::Assignment(assignment) => {
                self.visit_expression(&assignment.value);
            },
            Statement::ConstantAssignment(assignment) => {
                self.visit_expression(&assignment.value);
            },
            Statement::IndexAssignment(assignment) => {
                self.visit_expression(&*assignment.container);
                self.visit_expression(&*assignment.index);
                self.visit_expression(&*assignment.value);
            },
            Statement::Expression(e) => {
                self.visit_expression(e);
            },
        }
    }

    /// Checks an expression.
    pub fn visit_expression(&mut self, e: &Expression)
        ensures
            final(self)@ == check_expression(old(self)@, e@),
        decreases *e,
    {
        match e {
            Expression::Literal(_) => {},
            Expression::Identifier(identifier) => {
                if !self.is_declared(identifier.name.as_str()) {
                    let mut message = String::from_str("Undefined variable: ");
                    message.append(identifier.name.as_str());
                    self.add_error(message);
                }
            },
            Expression::BinaryOp(operation) => {
                self.visit_expression(&*operation.left);
                self.visit_expression(&*operation.right);
            },
            Expression::UnaryOp(operation) => {
                self.visit_expression(&*operation.operand);
            },
            Expression::Array(array) => {
                self.visit_expressions(&array.elements);
            },
            Expression::Dictionary(dictionary) => {
                self.visit_pairs(&dictionary.pairs);
            },
            Expression::Index(indexed) => {
                self.visit_expression(&*indexed.container);
                self.visit_expression(&*indexed.index);
            },
            Expression::Range(range) => {
                self.visit_expression(&*range.start);
                self.visit_expression(&*range.end);
            },
        }
    }
}

/// The level one deeper than `indent`.
pub open spec fn deeper(indent: usize) -> usize {
    if indent < usize::MAX {
        (indent + 1) as usize
    } else {
        indent
    }
}

/// Two spaces for each level of `indent`.
pub open spec fn indentation(indent: nat) -> Seq<char>
    decreases indent,
{
    if indent == 0 {
        Seq::empty()
    } else {
        indentation((indent - 1) as nat) + "  "@
    }
}

/// A line of the printed tree: the indentation, the text, and a line feed.
pub open spec fn line(indent: usize, text: Seq<char>) -> Seq<char> {
    indentation(indent as nat) + text + "\n"@
}

/// A literal as it is printed: a string in double quotes, a number as it was
/// written.
pub open spec fn literal_text(value: LiteralModel) -> Seq<char> {
    match value {
        LiteralModel::Number(text) => text,
        LiteralModel::String(text) => "\""@ + text + "\""@,
        LiteralModel::Boolean(b) => if b {
            "true"@
        } else {
            "false"@
        },
        LiteralModel::Null => "null"@,
    }
}

/// The lines for an expression. Literals and identifiers take a line each, a
/// binary operation a line for itself and for each side with the operands
/// below; everything else shows only its parts.
pub open spec fn print_expression(e: ExpressionModel, indent: usize) -> Seq<char>
    decreases e,
{
    match e {
        ExpressionModel::Literal { value, literal_type } => line(
            indent,
            "Literal: "@ + literal_text(value),
        ),
        ExpressionModel::Identifier { name } => line(indent, "Identifier: "@ + name),
        ExpressionModel::BinaryOp { left, operator, right } => line(
            indent,
            "BinaryOp: "@ + operator,
        ) + line(deeper(indent), "Left:"@) + print_expression(*left, deeper(deeper(indent))) + line(
            deeper(indent),
            "Right:"@,
        ) + print_expression(*right, deeper(deeper(indent))),
        ExpressionModel::UnaryOp { operator, operand } => print_expression(*operand, indent),
        ExpressionModel::Array { elements } => print_expressions(elements, indent, 0),
        ExpressionModel::Dictionary { pairs } => print_pairs(pairs, indent, 0),
        ExpressionModel::Index { container, index } => print_expression(*container, indent)
            + print_expression(*index, indent),
        ExpressionModel::Range { start, end } => print_expression(*start, indent)
            + print_expression(*end, indent),
    }
}

/// The lines for the expressions from `from` on.
pub open spec fn print_expressions(
    list: Seq<ExpressionModel>,
    indent: usize,
    from: int,
) -> Seq<char>
    decreases list, list.len() - from,
{
    if 0 <= from < list.len() {
        print_expression(list[from], indent) + print_expressions(list, indent, from + 1)
    } else {
        Seq::empty()
    }
}

/// The lines for the keys and values of the pairs from `from` on.
pub open spec fn print_pairs(
    list: Seq<(ExpressionModel, ExpressionModel)>,
    indent: usize,
    from: int,
) -> Seq<char>
    decreases list, list.len() - from,
{
    if 0 <= from < list.len() {
        print_expression(list[from].0, indent) + print_expression(list[from].1, indent)
            + print_pairs(list, indent, from + 1)
    } else {
        Seq::empty()
    }
}

/// The lines for an optional expression.
pub open spec fn print_optional(e: Option<ExpressionModel>, indent: usize) -> Seq<char> {
    match e {
        Some(e) => print_expression(e, indent),
        None => Seq::empty(),
    }
}

/// The lines for the parameters from `from` on, one each.
pub open spec fn print_parameters(list: Seq<VariableModel>, indent: usize, from: int) -> Seq<char>
    decreases list.len() - from,
{
    if 0 <= from < list.len() {
        line(
            indent,
            "Variable: "@ + list[from].name + match list[from].type_annotation {
                Some(name) => ": "@ + name,
                None => Seq::empty(),
            },
        ) + print_parameters(list, indent, from + 1)
    } else {
        Seq::empty()
    }
}

/// The lines for a statement. Functions and assignments take a line for
/// themselves with their parts below; everything else shows only its parts.
pub open spec fn print_statement(s: StatementModel, indent: usize) -> Seq<char>
    decreases s,
{
    match s {
        StatementModel::Function { name, parameters, return_type, body } => line(
            indent,
            "Function: "@ + name,
        ) + line(deeper(indent), "Parameters:"@) + print_parameters(
            parameters,
            deeper(deeper(indent)),
            0,
        ) + line(deeper(indent), "Body:"@) + print_block(body, deeper(deeper(indent)), 0),
        StatementModel::IfStatement { condition, then_block, else_block } => print_expression(
            condition,
            indent,
        ) + print_block(then_block, indent, 0) + match else_block {
            Some(block) => print_block(block, indent, 0),
            None => Seq::empty(),
        },
        StatementModel::WhileLoop { condition, body } => print_expression(condition, indent)
            + print_block(body, indent, 0),
        StatementModel::ForLoop { variable, iterable, body } => print_optional(iterable, indent)
            + print_block(body, indent, 0),
        StatementModel::ReturnStatement { value } => print_optional(value, indent),
        StatementModel::Assignment { variable, value } => line(
            indent,
            "Assignment: "@ + variable + " ="@,
        ) + print_expression(value, deeper(indent)),
        StatementModel::ConstantAssignment { variable, value } => print_expression(value, indent),
        StatementModel::IndexAssignment { container, index, value } => print_expression(
            container,
            indent,
        ) + print_expression(index, indent) + print_expression(value, indent),
        StatementModel::Expression(e) => print_expression(e, indent),
    }
}

/// The lines for the statements of a block from `from` on: a numbered line
/// for each, with the statement below it.
pub open spec fn print_block(list: Seq<StatementModel>, indent: usize, from: int) -> Seq<char>
    decreases list, list.len() - from,
{
    if 0 <= from < list.len() {
        line(indent, "Block Statement "@ + decimal_text(from as nat) + ":"@) + print_statement(
            list[from],
            deeper(indent),
        ) + print_block(list, indent, from + 1)
    } else {
        Seq::empty()
    }
}

/// The lines for the statements of a program from `from` on: a numbered line
/// for each, with the statement below it.
pub open spec fn print_statements(list: Seq<StatementModel>, indent: usize, from: int) -> Seq<char>
    decreases list, list.len() - from,
{
    if 0 <= from < list.len() {
        line(indent, "Statement "@ + decimal_text(from as nat) + ":"@) + print_statement(
            list[from],
            deeper(indent),
        ) + print_statements(list, indent, from + 1)
    } else {
        Seq::empty()
    }
}

/// The lines for a program.
pub open spec fn print_program(statements: Seq<StatementModel>, indent: usize) -> Seq<char> {
    line(indent, "Program:"@) + print_statements(statements, deeper(indent), 0)
}

/// Prints the structure of a syntax tree, one node a line, indented by depth.
pub struct AstPrinter {
    indent_level: usize,
    output: String,
}

/// The level one deeper than `indent`.
fn next_level(indent: usize) -> (level: usize)
    ensures
        level == deeper(indent),
{
    if indent < usize::MAX {
        indent + 1
    } else {
        indent
    }
}

impl AstPrinter {
    /// What has been printed so far.
    pub closed spec fn printed(&self) -> Seq<char> {
        self.output@
    }

    /// The level at which a program is printed.
    pub closed spec fn level(&self) -> usize {
        self.indent_level
    }

    pub fn new() -> (printer: Self)
        ensures
            printer.printed() == Seq::<char>::empty(),
            printer.level() == 0,
    {
        Self { indent_level: 0, output: String::new() }
    }

    /// What has been printed so far.
    pub fn get_output(&self) -> (output: &str)
        ensures
            output@ == self.printed(),
    {
        self.output.as_str()
    }

    /// The indentation of the current level.
    fn indent(&self) -> (text: String)
        ensures
            text@ == indentation(self.level() as nat),
    {
        Self::indent_of(self.indent_level)
    }

    fn indent_of(indent: usize) -> (text: String)
        ensures
            text@ == indentation(indent as nat),
    {
        let mut text = String::new();
        let mut i: usize = 0;
        while i < indent
            invariant
                i <= indent,
                text@ == indentation(i as nat),
            decreases indent - i,
        {
            text.append("  ");
            i += 1;
        }
        text
    }

    /// Prints a line at the current level.
    fn println(&mut self, text: &str)
        ensures
            final(self).level() == old(self).level(),
            final(self).printed() == old(self).printed() + line(old(self).level(), text@),
    {
        self.print_line(self.indent_level, text);
    }

    /// Prints a line at the level `indent`.
    fn print_line(&mut self, indent: usize, text: &str)
        ensures
            final(self).level() == old(self).level(),
            final(self).printed() == old(self).printed() + line(indent, text@),
    {
        let indentation = Self::indent_of(indent);
        self.output.append(indentation.as_str());
        self.output.append(text);
        self.output.append("\n");
        assert(self.output@ =~= old(self).output@ + line(indent, text@));
    }

    /// Prints a whole program.
    pub fn visit_program(&mut self, program: &Program) -> (r: Result<(), String>)
        ensures
            r is Ok,
            final(self).level() == old(self).level(),
            final(self).printed() == old(self).printed() + print_program(
                program@,
                old(self).level(),
            ),
    {
        let indent = self.indent_level;
        self.println("Program:");
        let inner = next_level(indent);
        let list = &program.statements;
        let mut i: usize = 0;
        assert(print_statements(program@, inner, list.len() as int) =~= Seq::<char>::empty());
        while i < list.len()
            invariant
                i <= list.len(),
                self.level() == old(self).level(),
                inner == deeper(old(self).level()),
                list == &program.statements,
                old(self).printed() + print_program(program@, old(self).level())
                    == self.printed() + print_statements(program@, inner, i as int),
            decreases list.len() - i,
        {
            let ghost before = self.printed();
            let mut label = String::from_str("Statement ");
            label.append(crate::text::decimal_string(i).as_str());
            label.append(":");
            self.print_line(inner, label.as_str());
            self.print_statement(&list[i], next_level(inner));
            assert(self.printed() + print_statements(program@, inner, i + 1) =~= before
                + print_statements(program@, inner, i as int));
            i += 1;
        }
        assert(self.printed() + Seq::<char>::empty() =~= self.printed());
        Ok(())
    }

    fn print_block(&mut self, list: &Vec<Statement>, indent: usize)
        ensures
            final(self).level() == old(self).level(),
            final(self).printed() == old(self).printed() + print_block(
                statement_models(*list),
                indent,
                0,
            ),
        decreases *list,
    {
        let mut i: usize = 0;
        while i < list.len()
            invariant
                i <= list.len(),
                self.level() == old(self).level(),
                old(self).printed() + print_block(statement_models(*list), indent, 0)
                    == self.printed() + print_block(statement_models(*list), indent, i as int),
            decreases list.len() - i,
        {
            let ghost before = self.printed();
            let mut label = String::from_str("Block Statement ");
            label.append(crate::text::decimal_string(i).as_str());
            label.append(":");
            self.print_line(indent, label.as_str());
            self.print_statement(&list[i], next_level(indent));
            assert(self.printed() + print_block(statement_models(*list), indent, i + 1)
                =~= before + print_block(statement_models(*list), indent, i as int));
            i += 1;
        }
        assert(self.printed() + Seq::<char>::empty() =~= self.printed());
    }

    fn print_expressions(&mut self, list: &Vec<Expression>, indent: usize)
        ensures
            final(self).level() == old(self).level(),
            final(self).printed() == old(self).printed() + print_expressions(
                expression_models(*list),
                indent,
                0,
            ),
        decreases *list,
    {
        let mut i: usize = 0;
        while i < list.len()
            invariant
                i <= list.len(),
                self.level() == old(self).level(),
                old(self).printed() + print_expressions(expression_models(*list), indent, 0)
                    == self.printed() + print_expressions(
                    expression_models(*list),
                    indent,
                    i as int,
                ),
            decreases list.len() - i,
        {
            let ghost before = self.printed();
            self.print_expression(&list[i], indent);
            assert(self.printed() + print_expressions(expression_models(*list), indent, i + 1)
                =~= before + print_expressions(expression_models(*list), indent, i as int));
            i += 1;
        }
        assert(self.printed() + Seq::<char>::empty() =~= self.printed());
    }

    fn print_pairs(&mut self, list: &Vec<(Expression, Expression)>, indent: usize)
        ensures
            final(self).level() == old(self).level(),
            final(self).printed() == old(self).printed() + print_pairs(
                pair_models(*list),
                indent,
                0,
            ),
        decreases *list,
    {
        let mut i: usize = 0;
        while i < list.len()
            invariant
                i <= list.len(),
                self.level() == old(self).level(),
                old(self).printed() + print_pairs(pair_models(*list), indent, 0)
                    == self.printed() + print_pairs(pair_models(*list), indent, i as int),
            decreases list.len() - i,
        {
            let ghost before = self.printed();
            self.print_expression(&list[i].0, indent);
            self.print_expression(&list[i].1, indent);
            assert(self.printed() + print_pairs(pair_models(*list), indent, i + 1) =~= before
                + print_pairs(pair_models(*list), indent, i as int));
            i += 1;
        }
        assert(self.printed() + Seq::<char>::empty() =~= self.printed());
    }

    fn print_optional(&mut self, e: &Option<Expression>, indent: usize)
        ensures
            final(self).level() == old(self).level(),
            final(self).printed() == old(self).printed() + print_optional(
                crate::ast::optional_expression(*e),
                indent,
            ),
        decreases *e,
    {
        match e {
            Some(e) => {
                self.print_expression(e, indent);
            },
            None => {
                assert(self.printed() + Seq::<char>::empty() =~= self.printed());
            },
        }
    }

    fn print_parameters(&mut self, list: &Vec<Variable>, indent: usize)
        ensures
            final(self).level() == old(self).level(),
            final(self).printed() == old(self).printed() + print_parameters(
                variable_models(*list),
                indent,
                0,
            ),
    {
        let mut i: usize = 0;
        while i < list.len()
            invariant
                i <= list.len(),
                self.level() == old(self).level(),
                old(self).printed() + print_parameters(variable_models(*list), indent, 0)
                    == self.printed() + print_parameters(variable_models(*list), indent, i as int),
            decreases list.len() - i,
        {
            let ghost before = self.printed();
            let mut label = String::from_str("Variable: ");
            label.append(list[i].name.as_str());
            match &list[i].type_annotation {
                Some(annotation) => {
                    label.append(": ");
                    label.append(annotation.name.as_str());
                    assert(label@ =~= "Variable: "@ + list[i as int].name@ + (": "@
                        + annotation.name@));
                },
                None => {
                    assert(label@ =~= "Variable: "@ + list[i as int].name@ + Seq::<char>::empty());
                },
            }
            self.print_line(indent, label.as_str());
            assert(self.printed() + print_parameters(variable_models(*list), indent, i + 1)
                =~= before + print_parameters(variable_models(*list), indent, i as int));
            i += 1;
        }
        assert(self.printed() + Seq::<char>::empty() =~= self.printed());
    }

    /// Prints a statement at the level `indent`.
    pub fn print_statement(&mut self, statement: &Statement, indent: usize)
        ensures
            final(self).level() == old(self).level(),
            final(self).printed() == old(self).printed() + print_statement(statement@, indent),
        decreases *statement,
    {
        let ghost before = self.printed();
        match statement {
            Statement::Function(function) => {
                let mut label = String::from_str("Function: ");
                label.append(function.name.as_str());
                self.print_line(indent, label.as_str());
                self.print_line(next_level(indent), "Parameters:");
                self.print_parameters(&function.parameters, next_level(next_level(indent)));
                self.print_line(next_level(indent), "Body:");
                self.print_block(&function.body.statements, next_level(next_level(indent)));
            },
            Statement::IfStatement(choice) => {
                self.print_expression(&choice.condition, indent);
                self.print_block(&choice.then_block.statements, indent);
                match &choice.else_block {
                    Some(block) => {
                        self.print_block(&block.statements, indent);
                    },
                    None => {},
                }
            },
            Statement::WhileLoop(each) => {
                self.print_expression(&each.condition, indent);
                self.print_block(&each.body.statements, indent);
            },
            Statement::ForLoop(each) => {
                self.print_optional(&each.iterable, indent);
                self.print_block(&each.body.statements, indent);
            },
            Statement::ReturnStatement(leave) => {
                self.print_optional(&leave.value, indent);
            },
            Statement::Assignment(assignment) => {
                let mut label = String::from_str("Assignment: ");
                label.append(assignment.variable.as_str());
                label.append(" =");
                self.print_line(indent, label.as_str());
                self.print_expression(&assignment.value, next_level(indent));
            },
            Statement::ConstantAssignment(assignment) => {
                self.print_expression(&assignment.value, indent);
            },
            Statement::IndexAssignment(assignment) => {
                self.print_expression(&*assignment.container, indent);
                self.print_expression(&*assignment.index, indent);
                self.print_expression(&*assignment.value, indent);
            },
            Statement::Expression(e) => {
                self.print_expression(e, indent);
            },
        }
        assert(self.printed() =~= before + print_statement(statement@, indent));
    }

    /// Prints an expression at the level `indent`.
    pub fn print_expression(&mut self, e: &Expression, indent: usize)
        ensures
            final(self).level() == old(self).level(),
            final(self).printed() == old(self).printed() + print_expression(e@, indent),
        decreases *e,
    {
        let ghost before = self.printed();
        match e {
            Expression::Literal(literal) => {
                let mut label = String::from_str("Literal: ");
                match &literal.value {
                    LiteralValue::Number(text) => {
                        label.append(text.as_str());
                    },
                    LiteralValue::String(text) => {
                        label.append("\"");
                        label.append(text.as_str());
                        label.append("\"");
                        assert(label@ =~= "Literal: "@ + ("\""@ + text@ + "\""@));
                    },
                    LiteralValue::Boolean(b) => {
                        label.append(
                            if *b {
                                "true"
                            } else {
                                "false"
                            },
                        );
                    },
                    LiteralValue::Null => {
                        label.append("null");
                    },
                }
                self.print_line(indent, label.as_str());
            },
            Expression::Identifier(identifier) => {
                let mut label = String::from_str("Identifier: ");
                label.append(identifier.name.as_str());
                self.print_line(indent, label.as_str());
            },
            Expression::BinaryOp(operation) => {
                let mut label = String::from_str("BinaryOp: ");
                label.append(operation.operator.as_str());
                self.print_line(indent, label.as_str());
                self.print_line(next_level(indent), "Left:");
                self.print_expression(&*operation.left, next_level(next_level(indent)));
                self.print_line(next_level(indent), "Right:");
                self.print_expression(&*operation.right, next_level(next_level(indent)));
            },
            Expression::UnaryOp(operation) => {
                self.print_expression(&*operation.operand, indent);
            },
            Expression::Array(array) => {
                self.print_expressions(&array.elements, indent);
            },
            Expression::Dictionary(dictionary) => {
                self.print_pairs(&dictionary.pairs, indent);
            },
            Expression::Index(indexed) => {
                self.print_expression(&*indexed.container, indent);
                self.print_expression(&*indexed.index, indent);
            },
            Expression::Range(range) => {
                self.print_expression(&*range.start, indent);
                self.print_expression(&*range.end, indent);
            },
        }
        assert(self.printed() =~= before + print_expression(e@, indent));
    }
}

} // verus!
