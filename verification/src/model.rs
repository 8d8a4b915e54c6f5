//! The mathematical model of the syntax tree.
//!
//! Each type of [`crate::syntax`] has a model here, in which text is a
//! `Seq<char>` and a list of children a `Seq`. The view of a tree is its
//! model, and every contract of the crate speaks of models: two trees with
//! the same model are narrated alike.

use vstd::prelude::*;
use crate::syntax::{
    Arm, Block, Expression, FieldPattern, Item, Literal, Local, Member, Path, PathSegment,
    Pattern, Statement,
};

verus! {

/// The model of a [`Literal`].
pub enum LiteralModel {
    Number(Seq<char>),
    Text(Seq<char>),
    Boolean(bool),
    Verbatim(Seq<char>),
}

/// The model of a [`PathSegment`].
pub struct PathSegmentModel {
    pub identifier: Seq<char>,
    pub has_arguments: bool,
}

/// The model of a [`Path`].
pub struct PathModel {
    pub leading_colon: bool,
    pub segments: Seq<PathSegmentModel>,
    pub raw: Seq<char>,
}

/// The model of a [`Member`].
pub enum MemberModel {
    Named(Seq<char>),
    Indexed(nat),
}

/// The model of an [`Expression`].
pub enum ExpressionModel {
    PathReference(PathModel),
    Assignment { left: Box<ExpressionModel>, right: Box<ExpressionModel> },
    MethodCall { receiver: Box<ExpressionModel>, method: Seq<char>, args: Seq<ExpressionModel> },
    FunctionCall { callee: Box<ExpressionModel>, args: Seq<ExpressionModel> },
    BinaryOp { left: Box<ExpressionModel>, operator: Seq<char>, right: Box<ExpressionModel> },
    Literal(LiteralModel),
    Match { scrutinee: Box<ExpressionModel>, arms: Seq<ArmModel> },
    BlockExpression(BlockModel),
    MacroInvocation { name: Seq<char>, tokens: Seq<char> },
    ForLoop { pattern: Box<PatternModel>, iterable: Box<ExpressionModel>, body: BlockModel },
    Unrecognized(Seq<char>),
}

/// The model of an [`Arm`].
pub struct ArmModel {
    pub pattern: PatternModel,
    pub body: ExpressionModel,
}

/// The model of a [`Pattern`].
pub enum PatternModel {
    Wildcard,
    Identifier(Seq<char>),
    Tuple(Seq<PatternModel>),
    StructPattern { name: Seq<char>, fields: Seq<FieldPatternModel> },
    PathPattern(PathModel),
    Range { start: Option<Box<ExpressionModel>>, end: Option<Box<ExpressionModel>> },
    Reference(Box<PatternModel>),
    Or(Seq<PatternModel>),
    LiteralPattern(LiteralModel),
    Unrecognized,
}

/// The model of a [`FieldPattern`].
pub struct FieldPatternModel {
    pub member: MemberModel,
    pub pattern: PatternModel,
    pub explicit: bool,
}

/// The model of a [`Block`].
pub struct BlockModel {
    pub statements: Seq<StatementModel>,
}

/// The model of a [`Local`].
pub struct LocalModel {
    pub pattern: PatternModel,
    pub initializer: Option<ExpressionModel>,
}

/// The model of a [`Statement`].
pub enum StatementModel {
    LocalBinding(LocalModel),
    ExpressionStatement(ExpressionModel),
    NestedItem(ItemModel),
    Other,
}

/// The model of an [`Item`].
pub enum ItemModel {
    Module { name: Seq<char> },
    Function { name: Seq<char>, body: BlockModel },
    Other,
}

impl View for Literal {
    type V = LiteralModel;

    open spec fn view(&self) -> LiteralModel {
        match self {
            Literal::Number(digits) => LiteralModel::Number(digits@),
            Literal::Text(value) => LiteralModel::Text(value@),
            Literal::Boolean(value) => LiteralModel::Boolean(*value),
            Literal::Verbatim(text) => LiteralModel::Verbatim(text@),
        }
    }
}

impl View for PathSegment {
    type V = PathSegmentModel;

    open spec fn view(&self) -> PathSegmentModel {
        PathSegmentModel { identifier: self.identifier@, has_arguments: self.has_arguments }
    }
}

impl View for Path {
    type V = PathModel;

    open spec fn view(&self) -> PathModel {
        PathModel {
            leading_colon: self.leading_colon,
            segments: Seq::new(self.segments.len() as nat, |i: int| self.segments[i]@),
            raw: self.raw@,
        }
    }
}

impl View for Member {
    type V = MemberModel;

    open spec fn view(&self) -> MemberModel {
        match self {
            Member::Named(name) => MemberModel::Named(name@),
            Member::Indexed(index) => MemberModel::Indexed(*index as nat),
        }
    }
}

impl Expression {
    /// The model of this node and of all below it.
    pub open spec fn model(&self) -> ExpressionModel
        decreases self,
    {
        match self {
            Expression::PathReference(path) => ExpressionModel::PathReference(path@),
            Expression::Assignment { left, right } => ExpressionModel::Assignment {
                left: Box::new(left.model()),
                right: Box::new(right.model()),
            },
            Expression::MethodCall { receiver, method, args } => ExpressionModel::MethodCall {
                receiver: Box::new(receiver.model()),
                method: method@,
                args: expression_models(args@),
            },
            Expression::FunctionCall { callee, args } => ExpressionModel::FunctionCall {
                callee: Box::new(callee.model()),
                args: expression_models(args@),
            },
            Expression::BinaryOp { left, operator, right } => ExpressionModel::BinaryOp {
                left: Box::new(left.model()),
                operator: operator@,
                right: Box::new(right.model()),
            },
            Expression::Literal(literal) => ExpressionModel::Literal(literal@),
            Expression::Match { scrutinee, arms } => ExpressionModel::Match {
                scrutinee: Box::new(scrutinee.model()),
                arms: arm_models(arms@),
            },
            Expression::BlockExpression(block) => ExpressionModel::BlockExpression(block.model()),
            Expression::MacroInvocation { name, tokens } => ExpressionModel::MacroInvocation {
                name: name@,
                tokens: tokens@,
            },
            Expression::ForLoop { pattern, iterable, body } => ExpressionModel::ForLoop {
                pattern: Box::new(pattern.model()),
                iterable: Box::new(iterable.model()),
                body: body.model(),
            },
            Expression::Unrecognized(raw) => ExpressionModel::Unrecognized(raw@),
        }
    }
}

/// The models of a list of expressions, one for one.
pub open spec fn expression_models(expressions: Seq<Expression>) -> Seq<ExpressionModel>
    decreases expressions,
{
    Seq::new(
        expressions.len(),
        |i: int| if 0 <= i < expressions.len() { expressions[i].model() } else { arbitrary() },
    )
}

impl Arm {
    /// The model of this node and of all below it.
    pub open spec fn model(&self) -> ArmModel
        decreases self,
    {
        ArmModel { pattern: self.pattern.model(), body: self.body.model() }
    }
}

/// The models of a list of arms, one for one.
pub open spec fn arm_models(arms: Seq<Arm>) -> Seq<ArmModel>
    decreases arms,
{
    Seq::new(arms.len(), |i: int| if 0 <= i < arms.len() { arms[i].model() } else { arbitrary() })
}

impl Pattern {
    /// The model of this node and of all below it.
    pub open spec fn model(&self) -> PatternModel
        decreases self,
    {
        match self {
            Pattern::Wildcard => PatternModel::Wildcard,
            Pattern::Identifier(name) => PatternModel::Identifier(name@),
            Pattern::Tuple(elements) => PatternModel::Tuple(pattern_models(elements@)),
            Pattern::StructPattern { name, fields } => PatternModel::StructPattern {
                name: name@,
                fields: field_models(fields@),
            },
            Pattern::PathPattern(path) => PatternModel::PathPattern(path@),
            Pattern::Range { start, end } => PatternModel::Range {
                start: match start {
                    Some(bound) => Some(Box::new(bound.model())),
                    None => None,
                },
                end: match end {
                    Some(bound) => Some(Box::new(bound.model())),
                    None => None,
                },
            },
            Pattern::Reference(inner) => PatternModel::Reference(Box::new(inner.model())),
            Pattern::Or(alternatives) => PatternModel::Or(pattern_models(alternatives@)),
            Pattern::LiteralPattern(literal) => PatternModel::LiteralPattern(literal@),
            Pattern::Unrecognized => PatternModel::Unrecognized,
        }
    }
}

/// The models of a list of patterns, one for one.
pub open spec fn pattern_models(patterns: Seq<Pattern>) -> Seq<PatternModel>
    decreases patterns,
{
    Seq::new(
        patterns.len(),
        |i: int| if 0 <= i < patterns.len() { patterns[i].model() } else { arbitrary() },
    )
}

impl FieldPattern {
    /// The model of this node and of all below it.
    pub open spec fn model(&self) -> FieldPatternModel
        decreases self,
    {
        FieldPatternModel {
            member: self.member@,
            pattern: self.pattern.model(),
            explicit: self.explicit,
        }
    }
}

/// The models of a list of fields, one for one.
pub open spec fn field_models(fields: Seq<FieldPattern>) -> Seq<FieldPatternModel>
    decreases fields,
{
    Seq::new(
        fields.len(),
        |i: int| if 0 <= i < fields.len() { fields[i].model() } else { arbitrary() },
    )
}

impl Block {
    /// The model of this node and of all below it.
    pub open spec fn model(&self) -> BlockModel
        decreases self,
    {
        BlockModel { statements: statement_models(self.statements@) }
    }
}

impl Local {
    /// The model of this node and of all below it.
    pub open spec fn model(&self) -> LocalModel
        decreases self,
    {
        LocalModel {
            pattern: self.pattern.model(),
            initializer: match self.initializer {
                Some(value) => Some(value.model()),
                None => None,
            },
        }
    }
}

impl Statement {
    /// The model of this node and of all below it.
    pub open spec fn model(&self) -> StatementModel
        decreases self,
    {
        match self {
            Statement::LocalBinding(local) => StatementModel::LocalBinding(local.model()),
            Statement::ExpressionStatement(expression) => StatementModel::ExpressionStatement(
                expression.model(),
            ),
            Statement::NestedItem(item) => StatementModel::NestedItem(item.model()),
            Statement::Other => StatementModel::Other,
        }
    }
}

/// The models of a list of statements, one for one.
pub open spec fn statement_models(statements: Seq<Statement>) -> Seq<StatementModel>
    decreases statements,
{
    Seq::new(
        statements.len(),
        |i: int| if 0 <= i < statements.len() { statements[i].model() } else { arbitrary() },
    )
}

impl Item {
    /// The model of this node and of all below it.
    pub open spec fn model(&self) -> ItemModel
        decreases self,
    {
        match self {
            Item::Module { name } => ItemModel::Module { name: name@ },
            Item::Function { name, body } => ItemModel::Function {
                name: name@,
                body: body.model(),
            },
            Item::Other => ItemModel::Other,
        }
    }
}

/// The models of a list of items, one for one.
pub open spec fn item_models(items: Seq<Item>) -> Seq<ItemModel> {
    Seq::new(items.len(), |i: int| items[i].model())
}

impl View for Expression {
    type V = ExpressionModel;

    open spec fn view(&self) -> ExpressionModel {
        self.model()
    }
}

impl View for Arm {
    type V = ArmModel;

    open spec fn view(&self) -> ArmModel {
        self.model()
    }
}

impl View for Pattern {
    type V = PatternModel;

    open spec fn view(&self) -> PatternModel {
        self.model()
    }
}

impl View for FieldPattern {
    type V = FieldPatternModel;

    open spec fn view(&self) -> FieldPatternModel {
        self.model()
    }
}

impl View for Block {
    type V = BlockModel;

    open spec fn view(&self) -> BlockModel {
        self.model()
    }
}

impl View for Local {
    type V = LocalModel;

    open spec fn view(&self) -> LocalModel {
        self.model()
    }
}

impl View for Statement {
    type V = StatementModel;

    open spec fn view(&self) -> StatementModel {
        self.model()
    }
}

impl View for Item {
    type V = ItemModel;

    open spec fn view(&self) -> ItemModel {
        self.model()
    }
}

} // verus!
