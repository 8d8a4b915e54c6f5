//! The syntax tree that the narration walks.
//!
//! The tree is closed: every kind of node has a variant for what the
//! narration does not recognise, so that a richer grammar degrades to the
//! fallback of its kind.

use vstd::prelude::*;

verus! {

/// A literal value.
#[derive(Debug)]
pub enum Literal {
    /// A number, held as its decimal digits.
    Number(String),
    /// A string, held as its value.
    Text(String),
    /// A boolean.
    Boolean(bool),
    /// A literal of any other kind, held as it is written.
    Verbatim(String),
}

/// One segment of a path.
#[derive(Debug)]
pub struct PathSegment {
    pub identifier: String,
    /// Whether arguments follow the identifier, between angle brackets or
    /// parentheses.
    pub has_arguments: bool,
}

/// A path: `a`, `a::b`, `::a::b`, `a::<T>::b`.
#[derive(Debug)]
pub struct Path {
    /// Whether the path begins with `::`.
    pub leading_colon: bool,
    pub segments: Vec<PathSegment>,
    /// The whole path in its raw form.
    pub raw: String,
}

/// What names a field of a struct pattern.
#[derive(Debug)]
pub enum Member {
    /// The name of a field.
    Named(String),
    /// The index of a field of a tuple struct.
    Indexed(u32),
}

/// An expression.
#[derive(Debug)]
pub enum Expression {
    /// A reference to a path.
    PathReference(Path),
    /// `left = right`.
    Assignment { left: Box<Expression>, right: Box<Expression> },
    /// `receiver.method(args)`.
    MethodCall { receiver: Box<Expression>, method: String, args: Vec<Expression> },
    /// `callee(args)`.
    FunctionCall { callee: Box<Expression>, args: Vec<Expression> },
    /// `left operator right`, the operator held as its source symbol.
    BinaryOp { left: Box<Expression>, operator: String, right: Box<Expression> },
    /// A literal.
    Literal(Literal),
    /// `match scrutinee { arms }`.
    Match { scrutinee: Box<Expression>, arms: Vec<Arm> },
    /// A block in expression position.
    BlockExpression(Block),
    /// `name!(tokens)`, the tokens held as the raw text of the token stream.
    MacroInvocation { name: String, tokens: String },
    /// `for pattern in iterable body`.
    ForLoop { pattern: Box<Pattern>, iterable: Box<Expression>, body: Block },
    /// Any other expression, held in its raw form.
    Unrecognized(String),
}

/// One `pattern => body` case of a match.
#[derive(Debug)]
pub struct Arm {
    pub pattern: Pattern,
    pub body: Expression,
}

/// A pattern.
#[derive(Debug)]
pub enum Pattern {
    /// `_`.
    Wildcard,
    /// A binding by name.
    Identifier(String),
    /// `(a, b, ..)`.
    Tuple(Vec<Pattern>),
    /// `TypeName { fields }`.
    StructPattern { name: String, fields: Vec<FieldPattern> },
    /// A path in pattern position.
    PathPattern(Path),
    /// `start..end`; a bound that is left open is `None`.
    Range { start: Option<Box<Expression>>, end: Option<Box<Expression>> },
    /// `&pattern`.
    Reference(Box<Pattern>),
    /// `a | b | ..`.
    Or(Vec<Pattern>),
    /// A literal in pattern position.
    LiteralPattern(Literal),
    /// Any other pattern.
    Unrecognized,
}

/// One field of a struct pattern.
#[derive(Debug)]
pub struct FieldPattern {
    pub member: Member,
    pub pattern: Pattern,
    /// Whether the sub-pattern is bound with a colon.
    pub explicit: bool,
}

/// A sequence of statements, in source order.
#[derive(Debug)]
pub struct Block {
    pub statements: Vec<Statement>,
}

/// A `let` binding.
#[derive(Debug)]
pub struct Local {
    pub pattern: Pattern,
    pub initializer: Option<Expression>,
}

/// A statement.
#[derive(Debug)]
pub enum Statement {
    /// A `let` binding.
    LocalBinding(Local),
    /// An expression in statement position.
    ExpressionStatement(Expression),
    /// A declaration nested in a block.
    NestedItem(Item),
    /// Any other statement.
    Other,
}

/// A declaration.
#[derive(Debug)]
pub enum Item {
    /// A module.
    Module { name: String },
    /// A function with its body.
    Function { name: String, body: Block },
    /// Any other declaration.
    Other,
}

} // verus!
