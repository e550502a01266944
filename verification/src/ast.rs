//! The syntax tree of a Cortex program, and its mathematical model.
//!
//! The tree owns its children top-down. Every node type has a `model`: the same
//! tree with texts as character sequences and vectors as sequences, which is
//! what the contracts of the parser and the interpreter speak about.

use vstd::prelude::*;
use crate::error::optional_text;

verus! {

/// The value written in a literal. A number is kept as the decimal text that
/// was written; it is turned into a number when it is evaluated.
#[derive(Debug, Clone)]
pub enum LiteralValue {
    Number(String),
    String(String),
    Boolean(bool),
    Null,
}

/// The model of a [`LiteralValue`].
pub enum LiteralModel {
    Number(Seq<char>),
    String(Seq<char>),
    Boolean(bool),
    Null,
}

impl View for LiteralValue {
    type V = LiteralModel;

    open spec fn view(&self) -> LiteralModel {
        match self {
            LiteralValue::Number(n) => LiteralModel::Number(n@),
            LiteralValue::String(s) => LiteralModel::String(s@),
            LiteralValue::Boolean(b) => LiteralModel::Boolean(*b),
            LiteralValue::Null => LiteralModel::Null,
        }
    }
}

/// The model of an [`Expression`].
pub enum ExpressionModel {
    Literal { value: LiteralModel, literal_type: Seq<char> },
    Identifier { name: Seq<char> },
    BinaryOp { left: Box<ExpressionModel>, operator: Seq<char>, right: Box<ExpressionModel> },
    UnaryOp { operator: Seq<char>, operand: Box<ExpressionModel> },
    Array { elements: Seq<ExpressionModel> },
    Dictionary { pairs: Seq<(ExpressionModel, ExpressionModel)> },
    Index { container: Box<ExpressionModel>, index: Box<ExpressionModel> },
    Range { start: Box<ExpressionModel>, end: Box<ExpressionModel> },
}

/// The model of a [`Variable`].
pub struct VariableModel {
    pub name: Seq<char>,
    pub type_annotation: Option<Seq<char>>,
}

/// The model of a [`Function`].
pub struct FunctionModel {
    pub name: Seq<char>,
    pub parameters: Seq<VariableModel>,
    pub return_type: Option<Seq<char>>,
    pub body: Seq<StatementModel>,
}

/// The model of a [`Statement`]. A block is the sequence of its statements.
pub enum StatementModel {
    Function {
        name: Seq<char>,
        parameters: Seq<VariableModel>,
        return_type: Option<Seq<char>>,
        body: Seq<StatementModel>,
    },
    IfStatement {
        condition: ExpressionModel,
        then_block: Seq<StatementModel>,
        else_block: Option<Seq<StatementModel>>,
    },
    WhileLoop { condition: ExpressionModel, body: Seq<StatementModel> },
    ForLoop { variable: Seq<char>, iterable: Option<ExpressionModel>, body: Seq<StatementModel> },
    ReturnStatement { value: Option<ExpressionModel> },
    Assignment { variable: Seq<char>, value: ExpressionModel },
    ConstantAssignment { variable: Seq<char>, value: ExpressionModel },
    IndexAssignment { container: ExpressionModel, index: ExpressionModel, value: ExpressionModel },
    Expression(ExpressionModel),
}

#[derive(Debug)]
pub enum Expression {
    Literal(Literal),
    Identifier(Identifier),
    BinaryOp(BinaryOp),
    UnaryOp(UnaryOp),
    Array(Array),
    Dictionary(Dictionary),
    Index(IndexExpression),
    Range(RangeExpression),
}

#[derive(Debug)]
pub enum Statement {
    Function(Function),
    IfStatement(IfStatement),
    WhileLoop(WhileLoop),
    ForLoop(ForLoop),
    ReturnStatement(ReturnStatement),
    Assignment(Assignment),
    ConstantAssignment(ConstantAssignment),
    IndexAssignment(IndexAssignment),
    Expression(Expression),
}

#[derive(Debug)]
pub struct Program {
    pub statements: Vec<Statement>,
}

#[derive(Debug)]
pub struct Function {
    pub name: String,
    pub parameters: Vec<Variable>,
    pub return_type: Option<String>,
    pub body: Block,
}

#[derive(Debug, Clone)]
pub struct Variable {
    pub name: String,
    pub type_annotation: Option<TypeAnnotation>,
}

#[derive(Debug, Clone)]
pub struct TypeAnnotation {
    pub name: String,
}

#[derive(Debug)]
pub struct BinaryOp {
    pub left: Box<Expression>,
    pub operator: String,
    pub right: Box<Expression>,
}

#[derive(Debug)]
pub struct UnaryOp {
    pub operator: String,
    pub operand: Box<Expression>,
}

#[derive(Debug)]
pub struct Array {
    pub elements: Vec<Expression>,
}

#[derive(Debug)]
pub struct Dictionary {
    pub pairs: Vec<(Expression, Expression)>,
}

#[derive(Debug)]
pub struct IndexExpression {
    pub container: Box<Expression>,
    pub index: Box<Expression>,
}

#[derive(Debug)]
pub struct RangeExpression {
    pub start: Box<Expression>,
    pub end: Box<Expression>,
}

#[derive(Debug, Clone)]
pub struct Literal {
    pub value: LiteralValue,
    pub literal_type: String,
}

#[derive(Debug, Clone)]
pub struct Identifier {
    pub name: String,
}

#[derive(Debug)]
pub struct Block {
    pub statements: Vec<Statement>,
}

#[derive(Debug)]
pub struct IfStatement {
    pub condition: Expression,
    pub then_block: Block,
    pub else_block: Option<Block>,
}

#[derive(Debug)]
pub struct WhileLoop {
    pub condition: Expression,
    pub body: Block,
}

#[derive(Debug)]
pub struct ForLoop {
    pub variable: String,
    pub iterable: Option<Expression>,
    pub body: Block,
}

#[derive(Debug)]
pub struct ReturnStatement {
    pub value: Option<Expression>,
}

#[derive(Debug)]
pub struct Assignment {
    pub variable: String,
    pub value: Expression,
}

#[derive(Debug)]
pub struct ConstantAssignment {
    pub variable: String,
    pub value: Expression,
}

#[derive(Debug)]
pub struct IndexAssignment {
    pub container: Box<Expression>,
    pub index: Box<Expression>,
    pub value: Box<Expression>,
}

/// The models of the expressions of `v`, in order.
pub open spec fn expression_models(v: Vec<Expression>) -> Seq<ExpressionModel>
    decreases v,
{
    Seq::new(
        v.len() as nat,
        |i: int|
            if 0 <= i < v.len() {
                v[i].model()
            } else {
                arbitrary()
            },
    )
}

/// The models of the key and value expressions of `v`, in order.
pub open spec fn pair_models(
    v: Vec<(Expression, Expression)>,
) -> Seq<(ExpressionModel, ExpressionModel)>
    decreases v,
{
    Seq::new(
        v.len() as nat,
        |i: int|
            if 0 <= i < v.len() {
                (v[i].0.model(), v[i].1.model())
            } else {
                arbitrary()
            },
    )
}

/// The models of the statements of `v`, in order.
pub open spec fn statement_models(v: Vec<Statement>) -> Seq<StatementModel>
    decreases v,
{
    Seq::new(
        v.len() as nat,
        |i: int|
            if 0 <= i < v.len() {
                v[i].model()
            } else {
                arbitrary()
            },
    )
}

/// The models of the variables of `v`, in order.
pub open spec fn variable_models(v: Vec<Variable>) -> Seq<VariableModel> {
    Seq::new(v.len() as nat, |i: int| v[i]@)
}

impl Expression {
    pub open spec fn model(&self) -> ExpressionModel
        decreases self,
    {
        match self {
            Expression::Literal(l) => ExpressionModel::Literal {
                value: l.value@,
                literal_type: l.literal_type@,
            },
            Expression::Identifier(i) => ExpressionModel::Identifier { name: i.name@ },
            Expression::BinaryOp(b) => ExpressionModel::BinaryOp {
                left: Box::new(b.left.model()),
                operator: b.operator@,
                right: Box::new(b.right.model()),
            },
            Expression::UnaryOp(u) => ExpressionModel::UnaryOp {
                operator: u.operator@,
                operand: Box::new(u.operand.model()),
            },
            Expression::Array(a) => ExpressionModel::Array {
                elements: expression_models(a.elements),
            },
            Expression::Dictionary(d) => ExpressionModel::Dictionary { pairs: pair_models(d.pairs) },
            Expression::Index(i) => ExpressionModel::Index {
                container: Box::new(i.container.model()),
                index: Box::new(i.index.model()),
            },
            Expression::Range(r) => ExpressionModel::Range {
                start: Box::new(r.start.model()),
                end: Box::new(r.end.model()),
            },
        }
    }
}

impl View for Expression {
    type V = ExpressionModel;

    open spec fn view(&self) -> ExpressionModel {
        self.model()
    }
}

/// The model of an optional expression.
pub open spec fn optional_expression(e: Option<Expression>) -> Option<ExpressionModel> {
    match e {
        Some(e) => Some(e@),
        None => None,
    }
}

impl Statement {
    pub open spec fn model(&self) -> StatementModel
        decreases self,
    {
        match self {
            Statement::Function(f) => StatementModel::Function {
                name: f.name@,
                parameters: variable_models(f.parameters),
                return_type: optional_text(f.return_type),
                body: statement_models(f.body.statements),
            },
            Statement::IfStatement(s) => StatementModel::IfStatement {
                condition: s.condition@,
                then_block: statement_models(s.then_block.statements),
                else_block: match s.else_block {
                    Some(b) => Some(statement_models(b.statements)),
                    None => None,
                },
            },
            Statement::WhileLoop(w) => StatementModel::WhileLoop {
                condition: w.condition@,
                body: statement_models(w.body.statements),
            },
            Statement::ForLoop(f) => StatementModel::ForLoop {
                variable: f.variable@,
                iterable: optional_expression(f.iterable),
                body: statement_models(f.body.statements),
            },
            Statement::ReturnStatement(r) => StatementModel::ReturnStatement {
                value: optional_expression(r.value),
            },
            Statement::Assignment(a) => StatementModel::Assignment {
                variable: a.variable@,
                value: a.value@,
            },
            Statement::ConstantAssignment(a) => StatementModel::ConstantAssignment {
                variable: a.variable@,
                value: a.value@,
            },
            Statement::IndexAssignment(a) => StatementModel::IndexAssignment {
                container: a.container.model(),
                index: a.index.model(),
                value: a.value.model(),
            },
            Statement::Expression(e) => StatementModel::Expression(e@),
        }
    }
}

impl View for Statement {
    type V = StatementModel;

    open spec fn view(&self) -> StatementModel {
        self.model()
    }
}

impl View for Function {
    type V = FunctionModel;

    open spec fn view(&self) -> FunctionModel {
        FunctionModel {
            name: self.name@,
            parameters: variable_models(self.parameters),
            return_type: optional_text(self.return_type),
            body: statement_models(self.body.statements),
        }
    }
}

impl View for Block {
    type V = Seq<StatementModel>;

    open spec fn view(&self) -> Seq<StatementModel> {
        statement_models(self.statements)
    }
}

impl View for Program {
    type V = Seq<StatementModel>;

    open spec fn view(&self) -> Seq<StatementModel> {
        statement_models(self.statements)
    }
}

impl View for Variable {
    type V = VariableModel;

    open spec fn view(&self) -> VariableModel {
        VariableModel {
            name: self.name@,
            type_annotation: match self.type_annotation {
                Some(t) => Some(t.name@),
                None => None,
            },
        }
    }
}

impl Program {
    pub fn new(statements: Vec<Statement>) -> (p: Self)
        ensures
            p.statements == statements,
    {
        Self { statements }
    }
}

impl Function {
    pub fn new(
        name: String,
        parameters: Vec<Variable>,
        return_type: Option<String>,
        body: Block,
    ) -> (f: Self)
        ensures
            f.name == name,
            f.parameters == parameters,
            f.return_type == return_type,
            f.body == body,
    {
        Self { name, parameters, return_type, body }
    }
}

impl Variable {
    pub fn new(name: String, type_annotation: Option<TypeAnnotation>) -> (v: Self)
        ensures
            v.name == name,
            v.type_annotation == type_annotation,
    {
        Self { name, type_annotation }
    }
}

impl TypeAnnotation {
    pub fn new(name: String) -> (t: Self)
        ensures
            t.name == name,
    {
        Self { name }
    }
}

impl BinaryOp {
    pub fn new(left: Expression, operator: String, right: Expression) -> (b: Self)
        ensures
            *b.left == left,
            b.operator == operator,
            *b.right == right,
    {
        Self { left: Box::new(left), operator, right: Box::new(right) }
    }
}

impl UnaryOp {
    pub fn new(operator: String, operand: Expression) -> (u: Self)
        ensures
            u.operator == operator,
            *u.operand == operand,
    {
        Self { operator, operand: Box::new(operand) }
    }
}

impl Array {
    pub fn new(elements: Vec<Expression>) -> (a: Self)
        ensures
            a.elements == elements,
    {
        Self { elements }
    }
}

impl Dictionary {
    pub fn new(pairs: Vec<(Expression, Expression)>) -> (d: Self)
        ensures
            d.pairs == pairs,
    {
        Self { pairs }
    }
}

impl IndexExpression {
    pub fn new(container: Expression, index: Expression) -> (i: Self)
        ensures
            *i.container == container,
            *i.index == index,
    {
        Self { container: Box::new(container), index: Box::new(index) }
    }
}

impl RangeExpression {
    pub fn new(start: Expression, end: Expression) -> (r: Self)
        ensures
            *r.start == start,
            *r.end == end,
    {
        Self { start: Box::new(start), end: Box::new(end) }
    }
}

impl Literal {
    pub fn new(value: LiteralValue, literal_type: String) -> (l: Self)
        ensures
            l.value == value,
            l.literal_type == literal_type,
    {
        Self { value, literal_type }
    }
}

impl Identifier {
    pub fn new(name: String) -> (i: Self)
        ensures
            i.name == name,
    {
        Self { name }
    }
}

impl Block {
    pub fn new(statements: Vec<Statement>) -> (b: Self)
        ensures
            b.statements == statements,
    {
        Self { statements }
    }
}

impl IfStatement {
    pub fn new(condition: Expression, then_block: Block, else_block: Option<Block>) -> (s: Self)
        ensures
            s.condition == condition,
            s.then_block == then_block,
            s.else_block == else_block,
    {
        Self { condition, then_block, else_block }
    }
}

impl WhileLoop {
    pub fn new(condition: Expression, body: Block) -> (w: Self)
        ensures
            w.condition == condition,
            w.body == body,
    {
        Self { condition, body }
    }
}

impl ForLoop {
    pub fn new(variable: String, iterable: Option<Expression>, body: Block) -> (f: Self)
        ensures
            f.variable == variable,
            f.iterable == iterable,
            f.body == body,
    {
        Self { variable, iterable, body }
    }
}

impl ReturnStatement {
    pub fn new(value: Option<Expression>) -> (r: Self)
        ensures
            r.value == value,
    {
        Self { value }
    }
}

impl Assignment {
    pub fn new(variable: String, value: Expression) -> (a: Self)
        ensures
            a.variable == variable,
            a.value == value,
    {
        Self { variable, value }
    }
}

impl ConstantAssignment {
    pub fn new(variable: String, value: Expression) -> (a: Self)
        ensures
            a.variable == variable,
            a.value == value,
    {
        Self { variable, value }
    }
}

impl IndexAssignment {
    pub fn new(container: Expression, index: Expression, value: Expression) -> (a: Self)
        ensures
            *a.container == container,
            *a.index == index,
            *a.value == value,
    {
        Self { container: Box::new(container), index: Box::new(index), value: Box::new(value) }
    }
}

} // verus!
