//! Laws of the narration.

use vstd::prelude::*;
use crate::model::{
    ArmModel, BlockModel, ExpressionModel, ItemModel, PatternModel, StatementModel,
};
use crate::narration::{
    argument_sentences, arm_emitted, block_emitted, case_sentences, emitted_by_each_arm,
    emitted_by_each_expression, emitted_by_each_field, emitted_by_each_item,
    emitted_by_each_pattern, emitted_by_each_statement, expression_emitted, expression_text,
    item_emitted, narration, pattern_emitted, pattern_text, statement_emitted,
};
use crate::support::expression_supported;
use crate::syntax::Expression;

verus! {

/// Describing is a function of the tree and of nothing else: two
/// expressions with the same model have the same text and emit the same
/// lines.
pub proof fn description_follows_the_model(first: Expression, second: Expression)
    requires
        first@ == second@,
    ensures
        expression_text(first@) == expression_text(second@),
        expression_emitted(first@) == expression_emitted(second@),
{
}

/// What stands before the arguments in the description of a call.
pub open spec fn call_header(call: ExpressionModel) -> Seq<char> {
    match call {
        ExpressionModel::MethodCall { receiver, method, args } => "Calling method "@ + method
            + " on object: "@ + expression_text(*receiver),
        ExpressionModel::FunctionCall { callee, args } => "Function call: "@ + expression_text(
            *callee,
        ),
        _ => Seq::empty(),
    }
}

/// The arguments of a call.
pub open spec fn call_arguments(call: ExpressionModel) -> Seq<ExpressionModel> {
    match call {
        ExpressionModel::MethodCall { receiver, method, args } => args,
        ExpressionModel::FunctionCall { callee, args } => args,
        _ => Seq::empty(),
    }
}

/// What is described before the arguments of a call: the receiver of a
/// method call, the callee of a function call.
pub open spec fn call_target(call: ExpressionModel) -> ExpressionModel {
    match call {
        ExpressionModel::MethodCall { receiver, method, args } => *receiver,
        ExpressionModel::FunctionCall { callee, args } => *callee,
        _ => call,
    }
}

/// The description of a call with N arguments is its header followed by
/// exactly N sentences, in the order of the arguments: the i-th is a new
/// line, `With argument: ` and the description of the i-th argument. The
/// lines that the call emits are those of its target, then those of each
/// argument in the same order.
pub proof fn call_describes_each_argument_in_order(call: ExpressionModel)
    requires
        call is MethodCall || call is FunctionCall,
    ensures
        argument_sentences(call_arguments(call)).len() == call_arguments(call).len(),
        forall|i: int|
            0 <= i < call_arguments(call).len() ==> #[trigger] argument_sentences(
                call_arguments(call),
            )[i] == "\nWith argument: "@ + expression_text(call_arguments(call)[i]),
        expression_text(call) == call_header(call) + argument_sentences(
            call_arguments(call),
        ).flatten(),
        emitted_by_each_expression(call_arguments(call)).len() == call_arguments(call).len(),
        forall|i: int|
            0 <= i < call_arguments(call).len() ==> #[trigger] emitted_by_each_expression(
                call_arguments(call),
            )[i] == expression_emitted(call_arguments(call)[i]),
        expression_emitted(call) == expression_emitted(call_target(call))
            + emitted_by_each_expression(call_arguments(call)).flatten(),
{
}

/// The description of a match with N arms is its header followed by exactly
/// N sentences, in the order of the arms: the i-th is a new line, `Case `,
/// the description of the i-th pattern, ` => ` and the description of the
/// i-th body. The lines that the match emits are those of the scrutinee,
/// then those of each arm in the same order.
pub proof fn match_describes_each_arm_in_order(
    scrutinee: ExpressionModel,
    arms: Seq<ArmModel>,
)
    ensures
        case_sentences(arms).len() == arms.len(),
        forall|i: int|
            0 <= i < arms.len() ==> #[trigger] case_sentences(arms)[i] == "\nCase "@
                + pattern_text(arms[i].pattern) + " => "@ + expression_text(arms[i].body),
        expression_text(ExpressionModel::Match { scrutinee: Box::new(scrutinee), arms })
            == "Match expression for: "@ + expression_text(scrutinee) + case_sentences(
            arms,
        ).flatten(),
        emitted_by_each_arm(arms).len() == arms.len(),
        forall|i: int|
            0 <= i < arms.len() ==> #[trigger] emitted_by_each_arm(arms)[i] == expression_emitted(
                arms[i].body,
            ) + pattern_emitted(arms[i].pattern),
        expression_emitted(ExpressionModel::Match { scrutinee: Box::new(scrutinee), arms })
            == expression_emitted(scrutinee) + emitted_by_each_arm(arms).flatten(),
{
}

/// An expression that is not recognised is always supported, emits nothing
/// and is described by the fallback sentence, which holds its raw form.
pub proof fn unrecognized_expression_falls_back(raw: Seq<char>)
    ensures
        expression_supported(ExpressionModel::Unrecognized(raw)),
        expression_text(ExpressionModel::Unrecognized(raw)) == "Other expression: "@ + raw,
        expression_emitted(ExpressionModel::Unrecognized(raw)) == Seq::<Seq<char>>::empty(),
{
}

/// Whether no block and no loop stands anywhere inside the expression.
pub open spec fn expression_without_blocks(expression: ExpressionModel) -> bool
    decreases expression,
{
    match expression {
        ExpressionModel::Assignment { left, right } => expression_without_blocks(*left)
            && expression_without_blocks(*right),
        ExpressionModel::MethodCall { receiver, method, args } => expression_without_blocks(
            *receiver,
        ) && forall|i: int| 0 <= i < args.len() ==> expression_without_blocks(#[trigger] args[i]),
        ExpressionModel::FunctionCall { callee, args } => expression_without_blocks(*callee)
            && forall|i: int| 0 <= i < args.len() ==> expression_without_blocks(#[trigger] args[i]),
        ExpressionModel::BinaryOp { left, operator, right } => expression_without_blocks(*left)
            && expression_without_blocks(*right),
        ExpressionModel::Match { scrutinee, arms } => expression_without_blocks(*scrutinee)
            && forall|i: int|
            0 <= i < arms.len() ==> expression_without_blocks((#[trigger] arms[i]).body)
                && pattern_without_blocks(arms[i].pattern),
        ExpressionModel::BlockExpression(_) => false,
        ExpressionModel::ForLoop { .. } => false,
        _ => true,
    }
}

/// Whether no block and no loop stands anywhere inside the pattern.
pub open spec fn pattern_without_blocks(pattern: PatternModel) -> bool
    decreases pattern,
{
    match pattern {
        PatternModel::Tuple(elements) => forall|i: int|
            0 <= i < elements.len() ==> pattern_without_blocks(#[trigger] elements[i]),
        PatternModel::StructPattern { name, fields } => forall|i: int|
            0 <= i < fields.len() ==> pattern_without_blocks((#[trigger] fields[i]).pattern),
        PatternModel::Range { start: Some(start), end: Some(end) } => expression_without_blocks(
            *start,
        ) && expression_without_blocks(*end),
        PatternModel::Reference(inner) => pattern_without_blocks(*inner),
        PatternModel::Or(alternatives) => forall|i: int|
            0 <= i < alternatives.len() ==> pattern_without_blocks(#[trigger] alternatives[i]),
        _ => true,
    }
}

/// Nothing comes of flattening where every part is empty.
proof fn flatten_of_empty_parts<A>(parts: Seq<Seq<A>>)
    requires
        forall|i: int| 0 <= i < parts.len() ==> (#[trigger] parts[i]).len() == 0,
    ensures
        parts.flatten() == Seq::<A>::empty(),
    decreases parts.len(),
{
    if parts.len() > 0 {
        flatten_of_empty_parts(parts.drop_first());
        assert(parts.first().len() == 0);
        assert(parts.flatten() =~= Seq::<A>::empty());
    }
}

/// Describing is free of effects but for blocks and loops: an expression
/// with no block and no loop inside it emits no line.
pub proof fn expression_without_blocks_emits_nothing(expression: ExpressionModel)
    requires
        expression_without_blocks(expression),
    ensures
        expression_emitted(expression) == Seq::<Seq<char>>::empty(),
    decreases expression,
{
    match expression {
        ExpressionModel::Assignment { left, right } => {
            expression_without_blocks_emits_nothing(*left);
            expression_without_blocks_emits_nothing(*right);
        },
        ExpressionModel::MethodCall { receiver, method, args } => {
            expression_without_blocks_emits_nothing(*receiver);
            expressions_without_blocks_emit_nothing(args);
        },
        ExpressionModel::FunctionCall { callee, args } => {
            expression_without_blocks_emits_nothing(*callee);
            expressions_without_blocks_emit_nothing(args);
        },
        ExpressionModel::BinaryOp { left, operator, right } => {
            expression_without_blocks_emits_nothing(*left);
            expression_without_blocks_emits_nothing(*right);
        },
        ExpressionModel::Match { scrutinee, arms } => {
            expression_without_blocks_emits_nothing(*scrutinee);
            let each = emitted_by_each_arm(arms);
            assert forall|i: int| 0 <= i < each.len() implies (#[trigger] each[i]).len() == 0 by {
                expression_without_blocks_emits_nothing(arms[i].body);
                pattern_without_blocks_emits_nothing(arms[i].pattern);
                assert(each[i] == arm_emitted(arms[i]));
            }
            flatten_of_empty_parts(each);
        },
        _ => {},
    }
}

/// The same of a list of expressions.
proof fn expressions_without_blocks_emit_nothing(expressions: Seq<ExpressionModel>)
    requires
        forall|i: int|
            0 <= i < expressions.len() ==> expression_without_blocks(#[trigger] expressions[i]),
    ensures
        emitted_by_each_expression(expressions).flatten() == Seq::<Seq<char>>::empty(),
    decreases expressions,
{
    let each = emitted_by_each_expression(expressions);
    assert forall|i: int| 0 <= i < each.len() implies (#[trigger] each[i]).len() == 0 by {
        expression_without_blocks_emits_nothing(expressions[i]);
    }
    flatten_of_empty_parts(each);
}

/// A pattern with no block and no loop inside it emits no line.
pub proof fn pattern_without_blocks_emits_nothing(pattern: PatternModel)
    requires
        pattern_without_blocks(pattern),
    ensures
        pattern_emitted(pattern) == Seq::<Seq<char>>::empty(),
    decreases pattern,
{
    match pattern {
        PatternModel::Tuple(elements) => {
            patterns_without_blocks_emit_nothing(elements);
        },
        PatternModel::StructPattern { name, fields } => {
            let each = emitted_by_each_field(fields);
            assert forall|i: int| 0 <= i < each.len() implies (#[trigger] each[i]).len() == 0 by {
                pattern_without_blocks_emits_nothing(fields[i].pattern);
            }
            flatten_of_empty_parts(each);
        },
        PatternModel::Range { start: Some(start), end: Some(end) } => {
            expression_without_blocks_emits_nothing(*start);
            expression_without_blocks_emits_nothing(*end);
        },
        PatternModel::Reference(inner) => {
            pattern_without_blocks_emits_nothing(*inner);
        },
        PatternModel::Or(alternatives) => {
            patterns_without_blocks_emit_nothing(alternatives);
        },
        _ => {},
    }
}

/// The same of a list of patterns.
proof fn patterns_without_blocks_emit_nothing(patterns: Seq<PatternModel>)
    requires
        forall|i: int| 0 <= i < patterns.len() ==> pattern_without_blocks(#[trigger] patterns[i]),
    ensures
        emitted_by_each_pattern(patterns).flatten() == Seq::<Seq<char>>::empty(),
    decreases patterns,
{
    let each = emitted_by_each_pattern(patterns);
    assert forall|i: int| 0 <= i < each.len() implies (#[trigger] each[i]).len() == 0 by {
        pattern_without_blocks_emits_nothing(patterns[i]);
    }
    flatten_of_empty_parts(each);
}

/// A block is narrated in source order: the lines of a block with one more
/// statement at its end are the lines of the block without it, followed by
/// the lines of that statement.
pub proof fn block_narrated_in_source_order(
    statements: Seq<StatementModel>,
    last: StatementModel,
)
    ensures
        block_emitted(BlockModel { statements: statements.push(last) }) == block_emitted(
            BlockModel { statements },
        ) + statement_emitted(last),
{
    let longer = emitted_by_each_statement(statements.push(last));
    let shorter = emitted_by_each_statement(statements);
    assert(longer =~= shorter.push(statement_emitted(last)));
    shorter.lemma_flatten_push(statement_emitted(last));
}

/// Items are narrated in order: the narration of a list with one more item
/// at its end is the narration of the list without it, followed by the
/// lines of that item.
pub proof fn items_narrated_in_order(items: Seq<ItemModel>, last: ItemModel)
    ensures
        narration(items.push(last)) == narration(items) + item_emitted(last),
{
    let longer = emitted_by_each_item(items.push(last));
    let shorter = emitted_by_each_item(items);
    assert(longer =~= shorter.push(item_emitted(last)));
    shorter.lemma_flatten_push(item_emitted(last));
}

} // verus!
