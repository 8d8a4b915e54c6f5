//! Which trees can be narrated.
//!
//! Two patterns have no description: a range that lacks one of its bounds,
//! and a path that is not a single bare identifier. A tree is supported when
//! the narration meets neither. Of a `let` binding the narration reads only
//! whether its pattern is an identifier, and it does not enter a module, so
//! what stands there is not examined here either.

use vstd::prelude::*;
use crate::model::{
    arm_models, expression_models, field_models, pattern_models, statement_models, ArmModel,
    BlockModel, ExpressionModel, FieldPatternModel, ItemModel, PatternModel, StatementModel,
};
use crate::path::single_identifier;
use crate::syntax::{Arm, Block, Expression, FieldPattern, Item, Pattern, Statement};

verus! {

/// Whether describing the expression meets no pattern without a
/// description.
pub open spec fn expression_supported(expression: ExpressionModel) -> bool
    decreases expression,
{
    match expression {
        ExpressionModel::Assignment { left, right } => expression_supported(*left)
            && expression_supported(*right),
        ExpressionModel::MethodCall { receiver, method, args } => expression_supported(*receiver)
            && expressions_supported(args),
        ExpressionModel::FunctionCall { callee, args } => expression_supported(*callee)
            && expressions_supported(args),
        ExpressionModel::BinaryOp { left, operator, right } => expression_supported(*left)
            && expression_supported(*right),
        ExpressionModel::Match { scrutinee, arms } => expression_supported(*scrutinee)
            && arms_supported(arms),
        ExpressionModel::BlockExpression(block) => block_supported(block),
        ExpressionModel::ForLoop { pattern, iterable, body } => pattern_supported(*pattern)
            && expression_supported(*iterable) && block_supported(body),
        _ => true,
    }
}

/// Whether every expression of the list is supported.
pub open spec fn expressions_supported(expressions: Seq<ExpressionModel>) -> bool
    decreases expressions,
{
    forall|i: int|
        0 <= i < expressions.len() ==> expression_supported(#[trigger] expressions[i])
}

/// Whether the body and the pattern of every arm are supported.
pub open spec fn arms_supported(arms: Seq<ArmModel>) -> bool
    decreases arms,
{
    forall|i: int|
        0 <= i < arms.len() ==> expression_supported((#[trigger] arms[i]).body)
            && pattern_supported(arms[i].pattern)
}

/// The two patterns without a description: a range that lacks a bound, and
/// a path that is not a single bare identifier.
pub open spec fn fragile(pattern: PatternModel) -> bool {
    match pattern {
        PatternModel::Range { start, end } => start is None || end is None,
        PatternModel::PathPattern(path) => single_identifier(path) is None,
        _ => false,
    }
}

/// Whether describing the pattern meets no pattern without a description:
/// it is not one itself, and its parts are supported.
pub open spec fn pattern_supported(pattern: PatternModel) -> bool
    decreases pattern,
{
    !fragile(pattern) && match pattern {
        PatternModel::Tuple(elements) => patterns_supported(elements),
        PatternModel::StructPattern { name, fields } => fields_supported(fields),
        PatternModel::Range { start: Some(start), end: Some(end) } => expression_supported(*start)
            && expression_supported(*end),
        PatternModel::Reference(inner) => pattern_supported(*inner),
        PatternModel::Or(alternatives) => patterns_supported(alternatives),
        _ => true,
    }
}

/// Whether every pattern of the list is supported.
pub open spec fn patterns_supported(patterns: Seq<PatternModel>) -> bool
    decreases patterns,
{
    forall|i: int| 0 <= i < patterns.len() ==> pattern_supported(#[trigger] patterns[i])
}

/// Whether the sub-pattern of every field is supported.
pub open spec fn fields_supported(fields: Seq<FieldPatternModel>) -> bool
    decreases fields,
{
    forall|i: int| 0 <= i < fields.len() ==> pattern_supported((#[trigger] fields[i]).pattern)
}

/// Whether every statement of the block is supported.
pub open spec fn block_supported(block: BlockModel) -> bool
    decreases block,
{
    forall|i: int|
        0 <= i < block.statements.len() ==> statement_supported(#[trigger] block.statements[i])
}

/// Whether the statement is supported. A `let` binding always is.
pub open spec fn statement_supported(statement: StatementModel) -> bool
    decreases statement,
{
    match statement {
        StatementModel::ExpressionStatement(expression) => expression_supported(expression),
        StatementModel::NestedItem(item) => item_supported(item),
        _ => true,
    }
}

/// Whether the item is supported. A module always is.
pub open spec fn item_supported(item: ItemModel) -> bool
    decreases item,
{
    match item {
        ItemModel::Function { name, body } => block_supported(body),
        _ => true,
    }
}

/// Whether every item of the list is supported.
pub open spec fn items_supported(items: Seq<ItemModel>) -> bool {
    forall|i: int| 0 <= i < items.len() ==> item_supported(#[trigger] items[i])
}

impl Expression {
    /// Tests whether the expression can be described.
    pub fn is_supported(&self) -> (supported: bool)
        ensures
            supported == expression_supported(self@),
        decreases self,
    {
        match self {
            Expression::Assignment { left, right } => left.is_supported() && right.is_supported(),
            Expression::MethodCall { receiver, method, args } => receiver.is_supported()
                && all_expressions_supported(args),
            Expression::FunctionCall { callee, args } => callee.is_supported()
                && all_expressions_supported(args),
            Expression::BinaryOp { left, operator, right } => left.is_supported()
                && right.is_supported(),
            Expression::Match { scrutinee, arms } => scrutinee.is_supported()
                && all_arms_supported(arms),
            Expression::BlockExpression(block) => block.is_supported(),
            Expression::ForLoop { pattern, iterable, body } => pattern.is_supported()
                && iterable.is_supported() && body.is_supported(),
            _ => true,
        }
    }
}

fn all_expressions_supported(expressions: &Vec<Expression>) -> (supported: bool)
    ensures
        supported == expressions_supported(expression_models(expressions@)),
    decreases expressions,
{
    let ghost models = expression_models(expressions@);
    let mut i: usize = 0;
    while i < expressions.len()
        invariant
            i <= expressions.len(),
            models == expression_models(expressions@),
            forall|k: int| 0 <= k < i ==> expression_supported(#[trigger] models[k]),
        decreases expressions.len() - i,
    {
        if !expressions[i].is_supported() {
            assert(!expression_supported(models[i as int]));
            return false;
        }
        i += 1;
    }
    true
}

fn all_arms_supported(arms: &Vec<Arm>) -> (supported: bool)
    ensures
        supported == arms_supported(arm_models(arms@)),
    decreases arms,
{
    let ghost models = arm_models(arms@);
    let mut i: usize = 0;
    while i < arms.len()
        invariant
            i <= arms.len(),
            models == arm_models(arms@),
            forall|k: int|
                0 <= k < i ==> expression_supported((#[trigger] models[k]).body)
                    && pattern_supported(models[k].pattern),
        decreases arms.len() - i,
    {
        if !arms[i].body.is_supported() || !arms[i].pattern.is_supported() {
            assert(!(expression_supported(models[i as int].body) && pattern_supported(
                models[i as int].pattern,
            )));
            return false;
        }
        i += 1;
    }
    true
}

impl Pattern {
    /// Tests whether the pattern can be described.
    pub fn is_supported(&self) -> (supported: bool)
        ensures
            supported == pattern_supported(self@),
        decreases self,
    {
        match self {
            Pattern::Tuple(elements) => all_patterns_supported(elements),
            Pattern::StructPattern { name, fields } => all_fields_supported(fields),
            Pattern::PathPattern(path) => path.get_identifier().is_some(),
            Pattern::Range { start, end } => match (start, end) {
                (Some(start), Some(end)) => start.is_supported() && end.is_supported(),
                _ => false,
            },
            Pattern::Reference(inner) => inner.is_supported(),
            Pattern::Or(alternatives) => all_patterns_supported(alternatives),
            _ => true,
        }
    }
}

fn all_patterns_supported(patterns: &Vec<Pattern>) -> (supported: bool)
    ensures
        supported == patterns_supported(pattern_models(patterns@)),
    decreases patterns,
{
    let ghost models = pattern_models(patterns@);
    let mut i: usize = 0;
    while i < patterns.len()
        invariant
            i <= patterns.len(),
            models == pattern_models(patterns@),
            forall|k: int| 0 <= k < i ==> pattern_supported(#[trigger] models[k]),
        decreases patterns.len() - i,
    {
        if !patterns[i].is_supported() {
            assert(!pattern_supported(models[i as int]));
            return false;
        }
        i += 1;
    }
    true
}

fn all_fields_supported(fields: &Vec<FieldPattern>) -> (supported: bool)
    ensures
        supported == fields_supported(field_models(fields@)),
    decreases fields,
{
    let ghost models = field_models(fields@);
    let mut i: usize = 0;
    while i < fields.len()
        invariant
            i <= fields.len(),
            models == field_models(fields@),
            forall|k: int| 0 <= k < i ==> pattern_supported((#[trigger] models[k]).pattern),
        decreases fields.len() - i,
    {
        if !fields[i].pattern.is_supported() {
            assert(!pattern_supported(models[i as int].pattern));
            return false;
        }
        i += 1;
    }
    true
}

impl Block {
    /// Tests whether the block can be narrated.
    pub fn is_supported(&self) -> (supported: bool)
        ensures
            supported == block_supported(self@),
        decreases self,
    {
        let ghost models = statement_models(self.statements@);
        let mut i: usize = 0;
        while i < self.statements.len()
            invariant
                i <= self.statements.len(),
                models == statement_models(self.statements@),
                forall|k: int| 0 <= k < i ==> statement_supported(#[trigger] models[k]),
            decreases self.statements.len() - i,
        {
            if !self.statements[i].is_supported() {
                assert(!statement_supported(self@.statements[i as int]));
                return false;
            }
            i += 1;
        }
        true
    }
}

impl Statement {
    /// Tests whether the statement can be narrated.
    pub fn is_supported(&self) -> (supported: bool)
        ensures
            supported == statement_supported(self@),
        decreases self,
    {
        match self {
            Statement::ExpressionStatement(expression) => expression.is_supported(),
            Statement::NestedItem(item) => item.is_supported(),
            _ => true,
        }
    }
}

impl Item {
    /// Tests whether the item can be narrated.
    pub fn is_supported(&self) -> (supported: bool)
        ensures
            supported == item_supported(self@),
        decreases self,
    {
        match self {
            Item::Function { name, body } => body.is_supported(),
            _ => true,
        }
    }
}

} // verus!
