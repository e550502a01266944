//! The parser: from tokens to a syntax tree, by recursive descent over the
//! statements and precedence climbing over the expressions.
//!
//! Every parsing method returns exactly what the grammar says for the tokens
//! from the current position on, and leaves the position after what it parsed.

use vstd::prelude::*;
use vstd::string::*;
use crate::ast::{
    expression_models, pair_models, statement_models, variable_models, Array, Assignment, BinaryOp,
    Block, ConstantAssignment, Dictionary, Expression, ExpressionModel, ForLoop, Function, Identifier,
    IfStatement, IndexAssignment, IndexExpression, Literal, LiteralValue, Program, RangeExpression,
    ReturnStatement, Statement, StatementModel, TypeAnnotation, UnaryOp, Variable, VariableModel,
    WhileLoop,
};
use crate::error::ParseError;
use crate::grammar::{
    binding_power, binds, expression_name, is_number_text, leading_quotes, null_literal, right_power,
    trailing_quotes, trim_quotes, Input, ParseFailure, ParseFailureView, Parsed,
};
use crate::lexer::find_number_end;
use crate::security::{recursion_error, SecurityContext};
use crate::text::{chars_of, push_str, string_of, string_of_range};
use crate::token::{lemma_text_of_fixed_kind, Token, TokenInfo, TokenKind};

verus! {

/// The Cortex parser that converts tokens into a syntax tree.
pub struct Parser {
    tokens: Vec<TokenInfo>,
    position: usize,
    security: Option<SecurityContext>,
}

/// `text` without the double quotes at its start and at its end.
fn trimmed(text: &str) -> (r: String)
    ensures
        r@ == trim_quotes(text@),
{
    let chars = chars_of(text);
    let n = chars.len();
    let mut from: usize = 0;
    while from < n && chars[from] == '"'
        invariant
            from <= n,
            n == chars.len(),
            leading_quotes(chars@, 0) == from + leading_quotes(chars@, from as int),
        decreases n - from,
    {
        from += 1;
    }
    let mut to: usize = n;
    while to > 0 && chars[to - 1] == '"'
        invariant
            to <= n,
            n == chars.len(),
            trailing_quotes(chars@, n as int) == (n - to) + trailing_quotes(chars@, to as int),
        decreases to,
    {
        to -= 1;
    }
    if from < to {
        string_of_range(&chars, from, to)
    } else {
        String::new()
    }
}

/// Whether `text` is a number as the lexer reads one.
fn number_text(text: &str) -> (b: bool)
    ensures
        b == is_number_text(text@),
{
    let chars = chars_of(text);
    let n = chars.len();
    n > 0 && chars[0] >= '0' && chars[0] <= '9' && find_number_end(&chars, 0) == n
}

/// The name of the kind of an expression, as used in messages.
fn name_of_expression(e: &Expression) -> (name: String)
    ensures
        name@ == expression_name(e@),
{
    match e {
        Expression::Literal(_) => String::from_str("Literal"),
        Expression::Identifier(_) => String::from_str("Identifier"),
        Expression::BinaryOp(_) => String::from_str("BinaryOp"),
        Expression::UnaryOp(_) => String::from_str("UnaryOp"),
        Expression::Array(_) => String::from_str("Array"),
        Expression::Dictionary(_) => String::from_str("Dictionary"),
        Expression::Index(_) => String::from_str("Index"),
        Expression::Range(_) => String::from_str("Range"),
    }
}

/// The literal `null`.
fn null_expression() -> (e: Expression)
    ensures
        e@ == null_literal(),
{
    Expression::Literal(Literal::new(LiteralValue::Null, String::from_str("null")))
}

impl Parser {
    /// What the parser reads: its tokens and the limits in force.
    pub closed spec fn input(&self) -> Input {
        Input {
            tokens: self.tokens@,
            limits: match self.security {
                Some(context) => Some(context.config),
                None => None,
            },
            depth_limit: match self.security {
                Some(context) => context.recursion_tracker.limit(),
                None => 0,
            },
        }
    }

    /// The index of the next token to read.
    pub closed spec fn position(&self) -> nat {
        self.position as nat
    }

    /// The number of parentheses that are open.
    pub closed spec fn depth(&self) -> usize {
        match self.security {
            Some(context) => context.recursion_tracker.depth(),
            None => 0,
        }
    }

    #[verifier::type_invariant]
    spec fn well_formed(&self) -> bool {
        self.position <= self.tokens.len()
    }

    /// Whether the result `r` of a parsing method is what the grammar gives as
    /// `out`, where `before` is the parser when the method was called and
    /// `self` the parser when it returned: the same tree and the position
    /// after it, or the same failure.
    pub open spec fn agrees<T: View>(&self, before: &Parser, r: Result<T, ParseFailure>, out: Parsed<T::V>) -> bool {
        &&& self.input() == before.input()
        &&& match out {
            Parsed::Done { value, next } => {
                &&& r matches Ok(v)
                &&& v@ == value
                &&& self.position() == next
                &&& self.depth() == before.depth()
            },
            Parsed::Failed(e) => r matches Err(f) && f@ == e,
        }
    }

    /// Whether the parser has moved forward from where `before` stood, if `ok`.
    pub open spec fn moved(&self, before: &Parser, ok: bool) -> bool {
        ok ==> before.position() < self.position() <= self.input().tokens.len()
    }

    /// Creates a new parser with the given token stream.
    pub fn new(tokens: Vec<TokenInfo>) -> (parser: Self)
        ensures
            parser.input() == (Input { tokens: tokens@, limits: None, depth_limit: 0 }),
            parser.position() == 0,
            parser.depth() == 0,
    {
        Self { tokens, position: 0, security: None }
    }

    /// Creates a parser that enforces the limits of `security`: the size of
    /// array and dictionary literals, the number of parameters of a function,
    /// and the nesting of parentheses.
    pub fn with_security(tokens: Vec<TokenInfo>, security: SecurityContext) -> (parser: Self)
        ensures
            parser.input() == (Input {
                tokens: tokens@,
                limits: Some(security.config),
                depth_limit: security.recursion_tracker.limit(),
            }),
            parser.position() == 0,
            parser.depth() == security.recursion_tracker.depth(),
    {
        Self { tokens, position: 0, security: Some(security) }
    }

    /// Returns the binding power of a binary operator as the pair of its left
    /// and right strength, and nothing for any other token.
    pub fn binding_power(op: &Token) -> (powers: Option<(u8, u8)>)
        ensures
            powers == binding_power(op@.kind),
    {
        match op {
            Token::Or => Some((1, 2)),
            Token::And => Some((3, 4)),
            Token::Equals | Token::NotEquals => Some((5, 6)),
            Token::LessThan | Token::LessEqual | Token::GreaterThan | Token::GreaterEqual => Some(
                (7, 8),
            ),
            Token::Range => Some((9, 10)),
            Token::Plus | Token::Minus => Some((11, 12)),
            Token::Multiply | Token::Divide | Token::Modulo => Some((13, 14)),
            Token::Power => Some((16, 15)),
            _ => None,
        }
    }

    /// Returns the operator string for a token that is a binary operator.
    pub fn token_to_operator(token: &Token) -> (operator: Option<String>)
        ensures
            match operator {
                Some(text) => binding_power(token@.kind) is Some && text@ == token@.kind.spelling(),
                None => binding_power(token@.kind) is None,
            },
    {
        match token {
            Token::Or | Token::And | Token::Equals | Token::NotEquals | Token::LessThan
            | Token::LessEqual | Token::GreaterThan | Token::GreaterEqual | Token::Range
            | Token::Plus | Token::Minus | Token::Multiply | Token::Divide | Token::Modulo
            | Token::Power => Some(token.as_string()),
            _ => None,
        }
    }

    /// The token at the current position, if any.
    pub fn current_token(&self) -> (token: Option<&TokenInfo>)
        ensures
            match token {
                Some(info) => self.position() < self.input().tokens.len() && *info
                    == self.input().tokens[self.position() as int],
                None => self.position() >= self.input().tokens.len(),
            },
    {
        if self.position < self.tokens.len() {
            Some(&self.tokens[self.position])
        } else {
            None
        }
    }

    /// The token `offset` places after the current one, if any.
    pub fn peek_token(&self, offset: usize) -> (token: Option<&TokenInfo>)
        ensures
            match token {
                Some(info) => self.position() + offset < self.input().tokens.len() && *info
                    == self.input().tokens[self.position() + offset],
                None => self.position() + offset >= self.input().tokens.len(),
            },
    {
        if offset < self.tokens.len() && self.position < self.tokens.len() - offset {
            Some(&self.tokens[self.position + offset])
        } else {
            None
        }
    }

    /// The kind of the token `offset` places after the current one, if any.
    fn kind_ahead(&self, offset: usize) -> (kind: Option<TokenKind>)
        ensures
            kind == self.input().kind(self.position() + offset as nat),
    {
        if offset < self.tokens.len() && self.position < self.tokens.len() - offset {
            Some(self.tokens[self.position + offset].token.kind())
        } else {
            None
        }
    }

    /// Whether the current token is of kind `kind`.
    fn has(&self, kind: TokenKind) -> (b: bool)
        ensures
            b == self.input().has(self.position(), kind),
    {
        match self.kind_ahead(0) {
            Some(k) => k == kind,
            None => false,
        }
    }

    /// Whether the token after the current one is of kind `kind`.
    fn has_next(&self, kind: TokenKind) -> (b: bool)
        ensures
            b == self.input().has(self.position() + 1nat, kind),
    {
        match self.kind_ahead(1) {
            Some(k) => k == kind,
            None => false,
        }
    }

    /// Whether nothing is left to parse.
    pub fn is_at_end(&self) -> (b: bool)
        ensures
            b == self.input().at_end(self.position()),
    {
        match self.kind_ahead(0) {
            Some(k) => k == TokenKind::Error,
            None => true,
        }
    }

    /// Moves to the next token, unless nothing is left to parse.
    pub fn advance(&mut self)
        ensures
            final(self).input() == old(self).input(),
            final(self).depth() == old(self).depth(),
            final(self).position() == if old(self).input().at_end(old(self).position()) {
                old(self).position()
            } else {
                old(self).position() + 1
            },
    {
        proof {
            use_type_invariant(&*self);
        }
        if !self.is_at_end() {
            self.position += 1;
        }
    }

    /// The failure for finding the current token where `expected` should stand.
    fn unexpected(&self, expected: &str) -> (f: ParseFailure)
        ensures
            f@ == self.input().unexpected(self.position(), expected@),
    {
        match self.current_token() {
            Some(info) => ParseFailure::Syntax(
                ParseError::UnexpectedToken {
                    expected: String::from_str(expected),
                    actual: info.token.debug_string(),
                    line: info.line,
                    column: info.column,
                },
            ),
            None => ParseFailure::Syntax(ParseError::UnexpectedEof),
        }
    }

    /// The failure for a list that goes on with neither a comma nor its
    /// closing token.
    fn unseparated(&self) -> (f: ParseFailure)
        ensures
            f@ == self.input().unseparated(self.position()),
    {
        match self.current_token() {
            Some(_) => self.unexpected("comma or closing bracket"),
            None => ParseFailure::Syntax(
                ParseError::UnexpectedToken {
                    expected: String::from_str("comma or closing bracket"),
                    actual: String::from_str("Error"),
                    line: 0,
                    column: 0,
                },
            ),
        }
    }

    /// Takes the current token if it equals `expected`, and fails if not.
    pub fn expect(&mut self, expected: Token) -> (r: Result<TokenInfo, ParseFailure>)
        ensures
            final(self).input() == old(self).input(),
            final(self).depth() == old(self).depth(),
            match old(self).input().expect(old(self).position(), expected@) {
                Parsed::Done { value, next } => {
                    &&& r matches Ok(info)
                    &&& info@ == old(self).input().tokens[old(self).position() as int]@
                    &&& final(self).position() == next
                },
                Parsed::Failed(e) => {
                    &&& r matches Err(f)
                    &&& f@ == e
                    &&& final(self).position() == old(self).position()
                },
            },
    {
        proof {
            use_type_invariant(&*self);
        }
        if self.position < self.tokens.len() && self.tokens[self.position].token == expected {
            let info = self.tokens[self.position].duplicate();
            self.position += 1;
            Ok(info)
        } else {
            let wanted = expected.debug_string();
            Err(self.unexpected(wanted.as_str()))
        }
    }

    /// Takes the current token if it equals `token`, and says whether it did.
    pub fn match_token(&mut self, token: Token) -> (b: bool)
        ensures
            final(self).input() == old(self).input(),
            final(self).depth() == old(self).depth(),
            b == (old(self).input().expect(old(self).position(), token@) is Done),
            final(self).position() == if b {
                old(self).position() + 1
            } else {
                old(self).position()
            },
    {
        proof {
            use_type_invariant(&*self);
        }
        if self.position < self.tokens.len() && self.tokens[self.position].token == token {
            self.position += 1;
            true
        } else {
            false
        }
    }

    /// Takes the current token if it is of kind `kind`, and says whether it did.
    fn take(&mut self, kind: TokenKind) -> (b: bool)
        ensures
            final(self).input() == old(self).input(),
            final(self).depth() == old(self).depth(),
            b == old(self).input().has(old(self).position(), kind),
            final(self).position() == if b {
                old(self).position() + 1
            } else {
                old(self).position()
            },
    {
        proof {
            use_type_invariant(&*self);
        }
        if self.has(kind) {
            self.position += 1;
            true
        } else {
            false
        }
    }

    /// Takes the current token if it is of kind `kind`, and fails if it is not.
    fn need(&mut self, kind: TokenKind) -> (r: Result<(), ParseFailure>)
        ensures
            final(self).input() == old(self).input(),
            final(self).depth() == old(self).depth(),
            if old(self).input().has(old(self).position(), kind) {
                r is Ok && final(self).position() == old(self).position() + 1
            } else {
                &&& r matches Err(f)
                &&& f@ == old(self).input().missing(old(self).position(), kind)
                &&& final(self).position() == old(self).position()
            },
    {
        if self.take(kind) {
            Ok(())
        } else {
            Err(self.unexpected_kind(kind))
        }
    }

    /// The failure for a token of kind `kind` that is missing.
    fn unexpected_kind(&self, kind: TokenKind) -> (f: ParseFailure)
        ensures
            f@ == self.input().missing(self.position(), kind),
    {
        let name = Token::name_of(kind);
        self.unexpected(name)
    }

    /// Takes the current token, which carries text, and returns that text.
    fn take_text(&mut self) -> (text: String)
        requires
            old(self).position() < old(self).input().tokens.len(),
        ensures
            final(self).input() == old(self).input(),
            final(self).depth() == old(self).depth(),
            final(self).position() == old(self).position() + 1,
            text@ == old(self).input().tokens[old(self).position() as int].token.spec_text(),
    {
        assert(self.position < self.tokens.len());
        let text = match &self.tokens[self.position].token {
            Token::Number(t) => t.clone(),
            Token::String(t) => t.clone(),
            Token::Identifier(t) => t.clone(),
            _ => String::new(),
        };
        self.position += 1;
        text
    }

    /// The spelling of a kind that carries no text of its own.
    fn spelling_of(kind: TokenKind) -> (s: String)
        ensures
            s@ == kind.spelling(),
    {
        Token::from_parts(kind, String::new()).as_string()
    }

    /// The operator at the current position, if it may continue an expression
    /// whose operators must bind at least as tightly as `min_bp`.
    fn operator_here(&self, min_bp: u8) -> (found: Option<(TokenKind, u8)>)
        ensures
            match found {
                Some((kind, power)) => {
                    &&& self.input().kind(self.position()) == Some(kind)
                    &&& binds(kind, min_bp)
                    &&& power == right_power(kind)
                },
                None => match self.input().kind(self.position()) {
                    Some(kind) => !binds(kind, min_bp),
                    None => true,
                },
            },
    {
        match self.current_token() {
            Some(info) => match Self::binding_power(&info.token) {
                Some(powers) => if powers.0 >= min_bp {
                    Some((info.token.kind(), powers.1))
                } else {
                    None
                },
                None => None,
            },
            None => None,
        }
    }

    /// The failure of a collection literal of `size` items that opens at
    /// `open`, if that is more than allowed.
    fn check_collection(&self, size: usize, open: usize) -> (r: Result<(), ParseFailure>)
        requires
            open < self.input().tokens.len(),
        ensures
            match self.input().oversized(size as nat, open as nat) {
                Some(e) => r matches Err(f) && f@ == e,
                None => r is Ok,
            },
    {
        match &self.security {
            Some(context) => {
                let at = &self.tokens[open];
                match context.config.validate_collection_size(size, at.line, at.column) {
                    Ok(_) => Ok(()),
                    Err(e) => Err(ParseFailure::Limit(e)),
                }
            },
            None => Ok(()),
        }
    }

    /// Parses an expression by precedence climbing.
    pub fn parse_expression(&mut self) -> (r: Result<Expression, ParseFailure>)
        ensures
            final(self).agrees(
                old(self),
                r,
                old(self).input().expression(old(self).position(), old(self).depth()),
            ),
            final(self).moved(old(self), r is Ok),
        decreases old(self).input().remaining(old(self).position()), 4nat,
    {
        self.parse_expression_bp(0)
    }

    /// Parses a prefix expression and the binary operators after it whose left
    /// binding power is at least `min_bp`.
    pub fn parse_expression_bp(&mut self, min_bp: u8) -> (r: Result<Expression, ParseFailure>)
        ensures
            final(self).agrees(
                old(self),
                r,
                old(self).input().binary(old(self).position(), old(self).depth(), min_bp),
            ),
            final(self).moved(old(self), r is Ok),
        decreases old(self).input().remaining(old(self).position()), 3nat,
    {
        let mut left = self.parse_prefix()?;
        let mut operator = self.operator_here(min_bp);
        while operator.is_some()
            invariant
                self.input() == old(self).input(),
                self.depth() == old(self).depth(),
                old(self).position() < self.position() <= self.input().tokens.len(),
                old(self).input().binary(old(self).position(), old(self).depth(), min_bp)
                    == self.input().climb(left@, self.position(), self.depth(), min_bp),
                match operator {
                    Some((kind, power)) => {
                        &&& self.input().kind(self.position()) == Some(kind)
                        &&& binds(kind, min_bp)
                        &&& power == right_power(kind)
                    },
                    None => match self.input().kind(self.position()) {
                        Some(kind) => !binds(kind, min_bp),
                        None => true,
                    },
                },
            decreases self.input().remaining(self.position()),
        {
            let (kind, power) = operator.unwrap();
            self.advance();
            let right = self.parse_expression_bp(power)?;
            left = match kind {
                TokenKind::Range => Expression::Range(RangeExpression::new(left, right)),
                _ => Expression::BinaryOp(BinaryOp::new(left, Self::spelling_of(kind), right)),
            };
            operator = self.operator_here(min_bp);
        }
        Ok(left)
    }

    /// Parses prefix operators in front of an atom with its argument lists.
    pub fn parse_prefix(&mut self) -> (r: Result<Expression, ParseFailure>)
        ensures
            final(self).agrees(
                old(self),
                r,
                old(self).input().prefix(old(self).position(), old(self).depth()),
            ),
            final(self).moved(old(self), r is Ok),
        decreases old(self).input().remaining(old(self).position()), 2nat,
    {
        match self.kind_ahead(0) {
            Some(TokenKind::Not) | Some(TokenKind::Minus) | Some(TokenKind::Plus) => {
                let kind = self.kind_ahead(0).unwrap();
                self.advance();
                let operand = self.parse_prefix()?;
                Ok(Expression::UnaryOp(UnaryOp::new(Self::spelling_of(kind), operand)))
            },
            _ => {
                let atom = self.parse_atom()?;
                self.parse_postfix_ops(atom)
            },
        }
    }

    /// Parses a literal, an identifier, an array, a dictionary or an
    /// expression in parentheses.
    pub fn parse_atom(&mut self) -> (r: Result<Expression, ParseFailure>)
        ensures
            final(self).agrees(
                old(self),
                r,
                old(self).input().atom(old(self).position(), old(self).depth()),
            ),
            final(self).moved(old(self), r is Ok),
        decreases old(self).input().remaining(old(self).position()), 1nat,
    {
        proof {
            use_type_invariant(&*self);
        }
        match self.kind_ahead(0) {
            None => Err(ParseFailure::Syntax(ParseError::UnexpectedEof)),
            Some(TokenKind::Number) => {
                let info = &self.tokens[self.position];
                let line = info.line;
                let column = info.column;
                let text = self.take_text();
                if number_text(text.as_str()) {
                    Ok(
                        Expression::Literal(
                            Literal::new(LiteralValue::Number(text), String::from_str("number")),
                        ),
                    )
                } else {
                    let mut message: Vec<char> = Vec::new();
                    push_str("Invalid number: ", &mut message);
                    push_str(text.as_str(), &mut message);
                    assert(message@ =~= "Invalid number: "@ + text@);
                    Err(
                        ParseFailure::Syntax(
                            ParseError::InvalidSyntax { line, column, message: string_of(&message) },
                        ),
                    )
                }
            },
            Some(TokenKind::String) => {
                let text = self.take_text();
                Ok(
                    Expression::Literal(
                        Literal::new(
                            LiteralValue::String(trimmed(text.as_str())),
                            String::from_str("string"),
                        ),
                    ),
                )
            },
            Some(TokenKind::True) => {
                self.advance();
                Ok(
                    Expression::Literal(
                        Literal::new(LiteralValue::Boolean(true), String::from_str("boolean")),
                    ),
                )
            },
            Some(TokenKind::False) => {
                self.advance();
                Ok(
                    Expression::Literal(
                        Literal::new(LiteralValue::Boolean(false), String::from_str("boolean")),
                    ),
                )
            },
            Some(TokenKind::Null) => {
                self.advance();
                Ok(null_expression())
            },
            Some(TokenKind::Identifier) => {
                let name = self.take_text();
                Ok(Expression::Identifier(Identifier::new(name)))
            },
            Some(TokenKind::LeftBracket) => self.parse_array(),
            Some(TokenKind::LeftBrace) => self.parse_dictionary(),
            Some(TokenKind::LeftParen) => {
                self.enter_nested()?;
                self.advance();
                let inner = self.parse_expression()?;
                self.need(TokenKind::RightParen)?;
                self.leave_nested();
                Ok(inner)
            },
            Some(_) => Err(self.unexpected("expression")),
        }
    }

    /// Parses expressions separated by commas up to a closing bracket. `open`
    /// is the position of the bracket of an array literal, whose size is
    /// limited; an argument list has none.
    fn parse_items(&mut self, open: Option<usize>) -> (r: Result<Vec<Expression>, ParseFailure>)
        requires
            open matches Some(at) ==> at < old(self).input().tokens.len(),
        ensures
            final(self).input() == old(self).input(),
            match old(self).input().items(
                old(self).position(),
                old(self).depth(),
                Seq::empty(),
                match open {
                    Some(at) => Some(at as nat),
                    None => None,
                },
            ) {
                Parsed::Done { value, next } => {
                    &&& r matches Ok(v)
                    &&& expression_models(v) == value
                    &&& final(self).position() == next
                    &&& final(self).depth() == old(self).depth()
                },
                Parsed::Failed(e) => r matches Err(f) && f@ == e,
            },
            final(self).moved(old(self), r is Ok),
        decreases old(self).input().remaining(old(self).position()), 7nat,
    {
        let ghost opening: Option<nat> = match open {
            Some(at) => Some(at as nat),
            None => None,
        };
        let mut elements: Vec<Expression> = Vec::new();
        assert(expression_models(elements) =~= Seq::<ExpressionModel>::empty());
        loop
            invariant
                self.input() == old(self).input(),
                self.depth() == old(self).depth(),
                old(self).position() <= self.position(),
                open matches Some(at) ==> at < self.input().tokens.len(),
                opening == match open {
                    Some(at) => Some(at as nat),
                    None => None,
                },
                old(self).input().items(old(self).position(), old(self).depth(), Seq::empty(), opening)
                    == self.input().items(
                    self.position(),
                    self.depth(),
                    expression_models(elements),
                    opening,
                ),
            decreases self.input().remaining(self.position()),
        {
            let ghost before = expression_models(elements);
            let element = self.parse_expression()?;
            elements.push(element);
            assert(expression_models(elements) =~= before.push(element@));
            match open {
                Some(at) => {
                    self.check_collection(elements.len(), at)?;
                },
                None => {},
            }
            if self.take(TokenKind::RightBracket) {
                return Ok(elements);
            }
            if !self.take(TokenKind::Comma) {
                return Err(self.unseparated());
            }
        }
    }

    /// Parses an array literal.
    fn parse_array(&mut self) -> (r: Result<Expression, ParseFailure>)
        requires
            old(self).input().has(old(self).position(), TokenKind::LeftBracket),
        ensures
            final(self).agrees(
                old(self),
                r,
                old(self).input().atom(old(self).position(), old(self).depth()),
            ),
            final(self).moved(old(self), r is Ok),
        decreases old(self).input().remaining(old(self).position()), 0nat,
    {
        proof {
            use_type_invariant(&*self);
        }
        let open = self.position;
        self.advance();
        if self.take(TokenKind::RightBracket) {
            let elements: Vec<Expression> = Vec::new();
            assert(expression_models(elements) =~= Seq::<ExpressionModel>::empty());
            Ok(Expression::Array(Array::new(elements)))
        } else {
            let elements = self.parse_items(Some(open))?;
            Ok(Expression::Array(Array::new(elements)))
        }
    }

    /// Parses the bracketed argument lists that follow `left`.
    pub fn parse_postfix_ops(&mut self, left: Expression) -> (r: Result<Expression, ParseFailure>)
        ensures
            final(self).input() == old(self).input(),
            match old(self).input().postfix(left@, old(self).position(), old(self).depth()) {
                Parsed::Done { value, next } => {
                    &&& r matches Ok(v)
                    &&& v@ == value
                    &&& final(self).position() == next
                    &&& final(self).depth() == old(self).depth()
                    &&& old(self).position() <= next <= old(self).input().tokens.len()
                },
                Parsed::Failed(e) => r matches Err(f) && f@ == e,
            },
        decreases old(self).input().remaining(old(self).position()), 8nat,
    {
        proof {
            use_type_invariant(&*self);
        }
        let ghost first = left@;
        let mut current = left;
        while self.has(TokenKind::LeftBracket)
            invariant
                self.input() == old(self).input(),
                self.depth() == old(self).depth(),
                old(self).position() <= self.position() <= self.input().tokens.len(),
                first == left@,
                old(self).input().postfix(first, old(self).position(), old(self).depth())
                    == self.input().postfix(current@, self.position(), self.depth()),
            decreases self.input().remaining(self.position()),
        {
            let ghost before = current@;
            self.advance();
            if self.take(TokenKind::RightBracket) {
                current = Expression::Index(IndexExpression::new(current, null_expression()));
                assert(current@ == ExpressionModel::Index {
                    container: Box::new(before),
                    index: Box::new(null_literal()),
                });
            } else {
                let mut arguments = self.parse_items(None)?;
                let ghost found = expression_models(arguments);
                let index = if arguments.len() == 1 {
                    let only = arguments.pop().unwrap();
                    assert(only@ == found[0]);
                    only
                } else {
                    Expression::Array(Array::new(arguments))
                };
                current = Expression::Index(IndexExpression::new(current, index));
                assert(current@ == ExpressionModel::Index {
                    container: Box::new(before),
                    index: Box::new(index@),
                });
            }
        }
        Ok(current)
    }

    /// Parses a dictionary literal.
    fn parse_dictionary(&mut self) -> (r: Result<Expression, ParseFailure>)
        requires
            old(self).input().has(old(self).position(), TokenKind::LeftBrace),
        ensures
            final(self).agrees(
                old(self),
                r,
                old(self).input().atom(old(self).position(), old(self).depth()),
            ),
            final(self).moved(old(self), r is Ok),
        decreases old(self).input().remaining(old(self).position()), 0nat,
    {
        proof {
            use_type_invariant(&*self);
        }
        let open = self.position;
        self.need(TokenKind::LeftBrace)?;
        let mut pairs: Vec<(Expression, Expression)> = Vec::new();
        assert(pair_models(pairs) =~= Seq::<(ExpressionModel, ExpressionModel)>::empty());
        if self.take(TokenKind::RightBrace) {
            return Ok(Expression::Dictionary(Dictionary::new(pairs)));
        }
        loop
            invariant
                self.input() == old(self).input(),
                self.depth() == old(self).depth(),
                old(self).position() < self.position(),
                open == old(self).position(),
                open < self.input().tokens.len(),
                old(self).input().atom(old(self).position(), old(self).depth()) == (
                match self.input().pairs(
                    self.position(),
                    self.depth(),
                    pair_models(pairs),
                    open as nat,
                ) {
                    Parsed::Done { value, next } => Parsed::Done {
                        value: ExpressionModel::Dictionary { pairs: value },
                        next,
                    },
                    Parsed::Failed(e) => Parsed::Failed(e),
                }),
            decreases self.input().remaining(self.position()),
        {
            let ghost before = pair_models(pairs);
            let key = self.parse_expression()?;
            self.need(TokenKind::Colon)?;
            let value = self.parse_expression()?;
            let ghost pair = (key@, value@);
            pairs.push((key, value));
            assert(pair_models(pairs) =~= before.push(pair));
            self.check_collection(pairs.len(), open)?;
            if !self.take(TokenKind::Comma) {
                self.need(TokenKind::RightBrace)?;
                return Ok(Expression::Dictionary(Dictionary::new(pairs)));
            }
        }
    }

    /// The failure of a parameter list of `count` names that opens at `open`,
    /// if that is more than allowed.
    fn check_parameters(&self, count: usize, open: usize) -> (r: Result<(), ParseFailure>)
        requires
            open < self.input().tokens.len(),
        ensures
            match self.input().overloaded(count as nat, open as nat) {
                Some(e) => r matches Err(f) && f@ == e,
                None => r is Ok,
            },
    {
        match &self.security {
            Some(context) => {
                let at = &self.tokens[open];
                match context.config.validate_function_parameters(count, at.line, at.column) {
                    Ok(_) => Ok(()),
                    Err(e) => Err(ParseFailure::Limit(e)),
                }
            },
            None => Ok(()),
        }
    }

    /// Skips newlines and comments.
    fn skip_blank(&mut self)
        ensures
            final(self).input() == old(self).input(),
            final(self).depth() == old(self).depth(),
            final(self).position() == old(self).position() + old(self).input().blank_run(
                old(self).position(),
            ),
    {
        while self.has(TokenKind::Newline) || self.has(TokenKind::Comment) || self.has(
            TokenKind::MultiLineComment,
        )
            invariant
                self.input() == old(self).input(),
                self.depth() == old(self).depth(),
                old(self).position() + old(self).input().blank_run(old(self).position())
                    == self.position() + self.input().blank_run(self.position()),
            decreases self.input().remaining(self.position()),
        {
            self.advance();
        }
    }

    /// Parses an optional type annotation: a colon and a name.
    fn parse_annotation(&mut self, expected: &str) -> (r: Result<Option<String>, ParseFailure>)
        ensures
            final(self).input() == old(self).input(),
            match old(self).input().annotation(old(self).position(), expected@) {
                Parsed::Done { value, next } => {
                    &&& r matches Ok(found)
                    &&& crate::error::optional_text(found) == value
                    &&& final(self).position() == next
                    &&& final(self).depth() == old(self).depth()
                    &&& old(self).position() <= next <= old(self).input().tokens.len()
                },
                Parsed::Failed(e) => r matches Err(f) && f@ == e,
            },
    {
        proof {
            use_type_invariant(&*self);
        }
        if self.take(TokenKind::Colon) {
            if self.has(TokenKind::Identifier) {
                Ok(Some(self.take_text()))
            } else {
                Err(self.unexpected(expected))
            }
        } else {
            Ok(None)
        }
    }

    /// Parses `let name := value` or `let name :: value`.
    pub fn parse_assignment(&mut self) -> (r: Result<Statement, ParseFailure>)
        ensures
            final(self).agrees(
                old(self),
                r,
                old(self).input().let_statement(old(self).position(), old(self).depth()),
            ),
            final(self).moved(old(self), r is Ok),
        decreases old(self).input().remaining(old(self).position()), 4nat,
    {
        self.need(TokenKind::Let)?;
        if !self.has(TokenKind::Identifier) {
            return Err(self.unexpected("identifier"));
        }
        let name = self.take_text();
        let _annotation = self.parse_annotation("type name")?;
        if self.take(TokenKind::AssignConst) {
            let value = self.parse_expression()?;
            Ok(Statement::ConstantAssignment(ConstantAssignment::new(name, value)))
        } else if self.take(TokenKind::Assign) {
            let value = self.parse_expression()?;
            Ok(Statement::Assignment(Assignment::new(name, value)))
        } else {
            Err(self.unexpected("assignment operator"))
        }
    }

    /// Parses parameter names with their optional type annotations, separated
    /// by commas. `open` is the position of the bracket that opens the list.
    fn parse_parameters(&mut self, open: usize) -> (r: Result<Vec<Variable>, ParseFailure>)
        requires
            open < old(self).input().tokens.len(),
        ensures
            final(self).input() == old(self).input(),
            match old(self).input().parameters(old(self).position(), Seq::empty(), open as nat) {
                Parsed::Done { value, next } => {
                    &&& r matches Ok(v)
                    &&& variable_models(v) == value
                    &&& final(self).position() == next
                    &&& final(self).depth() == old(self).depth()
                    &&& old(self).position() < next <= old(self).input().tokens.len()
                },
                Parsed::Failed(e) => r matches Err(f) && f@ == e,
            },
    {
        proof {
            use_type_invariant(&*self);
        }
        let mut parameters: Vec<Variable> = Vec::new();
        assert(variable_models(parameters) =~= Seq::<VariableModel>::empty());
        loop
            invariant
                self.input() == old(self).input(),
                self.depth() == old(self).depth(),
                open < self.input().tokens.len(),
                old(self).position() <= self.position() <= self.input().tokens.len(),
                old(self).input().parameters(old(self).position(), Seq::empty(), open as nat)
                    == self.input().parameters(
                    self.position(),
                    variable_models(parameters),
                    open as nat,
                ),
            decreases self.input().remaining(self.position()),
        {
            if !self.has(TokenKind::Identifier) {
                return Err(self.unexpected("parameter name"));
            }
            let ghost before = variable_models(parameters);
            let name = self.take_text();
            let annotation = match self.parse_annotation("type name")? {
                Some(text) => Some(TypeAnnotation::new(text)),
                None => None,
            };
            let parameter = Variable::new(name, annotation);
            parameters.push(parameter);
            assert(variable_models(parameters) =~= before.push(parameter@));
            self.check_parameters(parameters.len(), open)?;
            if !self.take(TokenKind::Comma) {
                return Ok(parameters);
            }
        }
    }

    /// Parses a function declaration.
    pub fn parse_function(&mut self) -> (r: Result<Statement, ParseFailure>)
        ensures
            final(self).agrees(
                old(self),
                r,
                old(self).input().function_statement(old(self).position(), old(self).depth()),
            ),
            final(self).moved(old(self), r is Ok),
        decreases old(self).input().remaining(old(self).position()), 4nat,
    {
        proof {
            use_type_invariant(&*self);
        }
        self.need(TokenKind::Func)?;
        if !self.has(TokenKind::Identifier) {
            return Err(self.unexpected("function name"));
        }
        let name = self.take_text();
        let open = self.position;
        self.need(TokenKind::LeftBracket)?;
        let parameters = if self.take(TokenKind::RightBracket) {
            let none: Vec<Variable> = Vec::new();
            assert(variable_models(none) =~= Seq::<VariableModel>::empty());
            none
        } else {
            let found = self.parse_parameters(open)?;
            self.need(TokenKind::RightBracket)?;
            found
        };
        let return_type = self.parse_annotation("return type")?;
        let body = self.parse_block()?;
        Ok(Statement::Function(Function::new(name, parameters, return_type, body)))
    }

    /// Parses a block: statements between `|` and `^`.
    pub fn parse_block(&mut self) -> (r: Result<Block, ParseFailure>)
        ensures
            final(self).agrees(
                old(self),
                r,
                old(self).input().block(old(self).position(), old(self).depth()),
            ),
            final(self).moved(old(self), r is Ok),
        decreases old(self).input().remaining(old(self).position()), 9nat,
    {
        proof {
            use_type_invariant(&*self);
            if self.position < self.tokens.len() {
                lemma_text_of_fixed_kind(self.tokens[self.position as int].token);
            }
        }
        self.expect(Token::Pipe)?;
        let mut statements: Vec<Statement> = Vec::new();
        assert(statement_models(statements) =~= Seq::<StatementModel>::empty());
        loop
            invariant
                self.input() == old(self).input(),
                self.depth() == old(self).depth(),
                old(self).position() < self.position() <= self.input().tokens.len(),
                old(self).input().block(old(self).position(), old(self).depth())
                    == self.input().block_items(
                    self.position(),
                    self.depth(),
                    statement_models(statements),
                ),
            decreases self.input().remaining(self.position()),
        {
            if self.take(TokenKind::Caret) {
                return Ok(Block::new(statements));
            }
            let ghost before = statement_models(statements);
            match self.parse_statement()? {
                Some(statement) => {
                    statements.push(statement);
                    assert(statement_models(statements) =~= before.push(statement@));
                },
                None => {
                    let _closed = self.take(TokenKind::Caret);
                    return Ok(Block::new(statements));
                },
            }
        }
    }

    /// Parses an `if` statement with its optional `else`.
    pub fn parse_if_statement(&mut self) -> (r: Result<Statement, ParseFailure>)
        ensures
            final(self).agrees(
                old(self),
                r,
                old(self).input().if_statement(old(self).position(), old(self).depth()),
            ),
            final(self).moved(old(self), r is Ok),
        decreases old(self).input().remaining(old(self).position()), 4nat,
    {
        self.need(TokenKind::If)?;
        self.need(TokenKind::LeftBracket)?;
        let condition = self.parse_expression()?;
        self.need(TokenKind::RightBracket)?;
        let then_block = self.parse_block()?;
        let else_block = if self.take(TokenKind::Else) {
            if self.has(TokenKind::If) {
                let nested = self.parse_if_statement()?;
                let mut only: Vec<Statement> = Vec::new();
                only.push(nested);
                assert(statement_models(only) =~= seq![nested@]);
                Some(Block::new(only))
            } else {
                Some(self.parse_block()?)
            }
        } else {
            None
        };
        Ok(Statement::IfStatement(IfStatement::new(condition, then_block, else_block)))
    }

    /// Parses a `while` loop.
    pub fn parse_while_loop(&mut self) -> (r: Result<Statement, ParseFailure>)
        ensures
            final(self).agrees(
                old(self),
                r,
                old(self).input().while_statement(old(self).position(), old(self).depth()),
            ),
            final(self).moved(old(self), r is Ok),
        decreases old(self).input().remaining(old(self).position()), 4nat,
    {
        self.need(TokenKind::While)?;
        self.need(TokenKind::LeftBracket)?;
        let condition = self.parse_expression()?;
        self.need(TokenKind::RightBracket)?;
        let body = self.parse_block()?;
        Ok(Statement::WhileLoop(WhileLoop::new(condition, body)))
    }

    /// Parses a `for` loop, with or without an iterable.
    pub fn parse_for_loop(&mut self) -> (r: Result<Statement, ParseFailure>)
        ensures
            final(self).agrees(
                old(self),
                r,
                old(self).input().for_statement(old(self).position(), old(self).depth()),
            ),
            final(self).moved(old(self), r is Ok),
        decreases old(self).input().remaining(old(self).position()), 4nat,
    {
        self.need(TokenKind::For)?;
        if !self.has(TokenKind::Identifier) {
            return Err(self.unexpected("variable name"));
        }
        let variable = self.take_text();
        let iterable = if self.take(TokenKind::In) {
            Some(self.parse_expression()?)
        } else {
            if self.take(TokenKind::LeftBracket) {
                self.need(TokenKind::RightBracket)?;
            }
            None
        };
        let body = self.parse_block()?;
        Ok(Statement::ForLoop(ForLoop::new(variable, iterable, body)))
    }

    /// Parses a `return` statement.
    pub fn parse_return_statement(&mut self) -> (r: Result<Statement, ParseFailure>)
        ensures
            final(self).agrees(
                old(self),
                r,
                old(self).input().return_statement(old(self).position(), old(self).depth()),
            ),
            final(self).moved(old(self), r is Ok),
        decreases old(self).input().remaining(old(self).position()), 4nat,
    {
        self.need(TokenKind::Return)?;
        let value = if self.take(TokenKind::LeftBracket) {
            if self.take(TokenKind::RightBracket) {
                None
            } else {
                let value = self.parse_expression()?;
                self.need(TokenKind::RightBracket)?;
                Some(value)
            }
        } else if self.take(TokenKind::Semicolon) {
            None
        } else {
            Some(self.parse_expression()?)
        };
        Ok(Statement::ReturnStatement(ReturnStatement::new(value)))
    }

    /// Parses a statement that starts with an identifier: an assignment, an
    /// assignment to an index, or an expression.
    fn parse_identifier_statement(&mut self) -> (r: Result<Statement, ParseFailure>)
        ensures
            final(self).agrees(
                old(self),
                r,
                old(self).input().identifier_statement(old(self).position(), old(self).depth()),
            ),
            final(self).moved(old(self), r is Ok),
        decreases old(self).input().remaining(old(self).position()), 4nat,
    {
        if self.has(TokenKind::Identifier) && self.has_next(TokenKind::Assign) {
            let variable = self.take_text();
            self.advance();
            let value = self.parse_expression()?;
            return Ok(Statement::Assignment(Assignment::new(variable, value)));
        }
        let target = self.parse_expression()?;
        if !self.take(TokenKind::Assign) {
            return Ok(Statement::Expression(target));
        }
        let value = self.parse_expression()?;
        match target {
            Expression::Index(indexed) => {
                let IndexExpression { container, index } = indexed;
                Ok(Statement::IndexAssignment(IndexAssignment::new(*container, *index, value)))
            },
            Expression::Identifier(identifier) => Ok(
                Statement::Assignment(Assignment::new(identifier.name, value)),
            ),
            other => Err(
                ParseFailure::Syntax(
                    ParseError::UnexpectedToken {
                        expected: String::from_str("array or dictionary index"),
                        actual: name_of_expression(&other),
                        line: 0,
                        column: 0,
                    },
                ),
            ),
        }
    }

    /// Parses the next statement, after the newlines and comments in front of
    /// it. Returns no statement where the tokens end and in front of a caret.
    pub fn parse_statement(&mut self) -> (r: Result<Option<Statement>, ParseFailure>)
        ensures
            final(self).input() == old(self).input(),
            ({
                let input = old(self).input();
                let start = old(self).position() + input.blank_run(old(self).position());
                if input.at_end(start) || input.has(start, TokenKind::Caret) {
                    &&& r matches Ok(None)
                    &&& final(self).position() == start
                    &&& final(self).depth() == old(self).depth()
                    &&& start <= input.tokens.len()
                } else {
                    match input.statement(start, old(self).depth()) {
                        Parsed::Done { value, next } => {
                            &&& r matches Ok(Some(statement))
                            &&& statement@ == value
                            &&& final(self).position() == next
                            &&& final(self).depth() == old(self).depth()
                            &&& start < next <= input.tokens.len()
                        },
                        Parsed::Failed(e) => r matches Err(f) && f@ == e,
                    }
                }
            }),
        decreases old(self).input().remaining(old(self).position()), 5nat,
    {
        self.skip_blank();
        proof {
            use_type_invariant(&*self);
        }
        if self.is_at_end() {
            return Ok(None);
        }
        let statement = match self.kind_ahead(0) {
            Some(TokenKind::Caret) => {
                return Ok(None);
            },
            Some(TokenKind::Let) => self.parse_assignment()?,
            Some(TokenKind::Func) => self.parse_function()?,
            Some(TokenKind::If) => self.parse_if_statement()?,
            Some(TokenKind::While) => self.parse_while_loop()?,
            Some(TokenKind::For) => self.parse_for_loop()?,
            Some(TokenKind::Return) => self.parse_return_statement()?,
            Some(TokenKind::Identifier) => self.parse_identifier_statement()?,
            _ => Statement::Expression(self.parse_expression()?),
        };
        Ok(Some(statement))
    }

    /// Parses the token stream into a program.
    ///
    /// Returns the statements of the program in order, or the first failure:
    /// the tokens do not form a program, or they exceed a limit.
    pub fn parse(&mut self) -> (r: Result<Program, ParseFailure>)
        ensures
            final(self).agrees(
                old(self),
                r,
                old(self).input().program_items(
                    old(self).position(),
                    old(self).depth(),
                    Seq::empty(),
                ),
            ),
    {
        proof {
            use_type_invariant(&*self);
        }
        let mut statements: Vec<Statement> = Vec::new();
        assert(statement_models(statements) =~= Seq::<StatementModel>::empty());
        loop
            invariant
                self.input() == old(self).input(),
                self.depth() == old(self).depth(),
                self.position() <= self.input().tokens.len(),
                old(self).input().program_items(
                    old(self).position(),
                    old(self).depth(),
                    Seq::empty(),
                ) == self.input().program_items(
                    self.position(),
                    self.depth(),
                    statement_models(statements),
                ),
            decreases self.input().remaining(self.position()),
        {
            let ghost before = statement_models(statements);
            match self.parse_statement()? {
                Some(statement) => {
                    statements.push(statement);
                    assert(statement_models(statements) =~= before.push(statement@));
                },
                None => {
                    if self.is_at_end() {
                        return Ok(Program::new(statements));
                    } else {
                        return Err(self.unexpected("statement"));
                    }
                },
            }
        }
    }

    /// Opens one more level of nesting, unless the limit refuses it.
    fn enter_nested(&mut self) -> (r: Result<(), ParseFailure>)
        ensures
            final(self).input() == old(self).input(),
            final(self).position() == old(self).position(),
            if old(self).input().refuses_nesting(old(self).depth()) {
                r matches Err(f) && f@ == ParseFailureView::Limit(
                    recursion_error(
                        if old(self).depth() < usize::MAX {
                            (old(self).depth() + 1) as usize
                        } else {
                            old(self).depth()
                        },
                        old(self).input().depth_limit,
                    ),
                )
            } else {
                r is Ok && final(self).depth() == old(self).input().nested(old(self).depth())
            },
    {
        proof {
            use_type_invariant(&*self);
        }
        match self.security {
            Some(context) => {
                let mut tracker = context.recursion_tracker;
                let entered = tracker.enter();
                self.security = Some(SecurityContext { config: context.config, recursion_tracker: tracker });
                match entered {
                    Ok(_) => Ok(()),
                    Err(e) => Err(ParseFailure::Limit(e)),
                }
            },
            None => Ok(()),
        }
    }

    /// Closes one level of nesting.
    fn leave_nested(&mut self)
        ensures
            final(self).input() == old(self).input(),
            final(self).position() == old(self).position(),
            final(self).depth() == if old(self).input().limits is Some && old(self).depth() > 0 {
                (old(self).depth() - 1) as usize
            } else {
                old(self).depth()
            },
    {
        proof {
            use_type_invariant(&*self);
        }
        match self.security {
            Some(context) => {
                let mut tracker = context.recursion_tracker;
                tracker.exit();
                self.security = Some(SecurityContext { config: context.config, recursion_tracker: tracker });
            },
            None => {},
        }
    }
}

} // verus!
