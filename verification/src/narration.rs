//! What the narration of a tree is.
//!
//! Describing an expression or a pattern gives a text. It may also put lines
//! out on the way: a block or the body of a loop that stands inside it is
//! narrated before the text of what surrounds it is complete. So each of the
//! two has a text (`*_text`) and the lines it emits (`*_emitted`). Statements,
//! blocks and items have lines only.

use vstd::prelude::*;
use crate::model::{
    ArmModel, BlockModel, ExpressionModel, FieldPatternModel, ItemModel, LiteralModel,
    LocalModel, MemberModel, PatternModel, StatementModel,
};
use crate::path::single_identifier;
use crate::text::{debug_form, debug_forms, decimal, joined, list_text, whitespace_words};

verus! {

/// A literal in its debug form: a number as its digits, a string quoted and
/// escaped, a boolean as `true` or `false`, anything else as written.
pub open spec fn literal_text(literal: LiteralModel) -> Seq<char> {
    match literal {
        LiteralModel::Number(digits) => digits,
        LiteralModel::Text(value) => debug_form(value),
        LiteralModel::Boolean(value) => if value {
            "true"@
        } else {
            "false"@
        },
        LiteralModel::Verbatim(text) => text,
    }
}

/// What names a field, as text: its name, or its index in decimal.
pub open spec fn member_text(member: MemberModel) -> Seq<char> {
    match member {
        MemberModel::Named(name) => name,
        MemberModel::Indexed(index) => decimal(index),
    }
}

/// The sentence for a macro call whose tokens, split and quoted, are given.
pub open spec fn macro_sentence(name: Seq<char>, quoted_tokens: Seq<Seq<char>>) -> Seq<char> {
    "Macro call to "@ + name + " with tokens: "@ + list_text(quoted_tokens)
}

/// The text that describes an expression.
pub open spec fn expression_text(expression: ExpressionModel) -> Seq<char>
    decreases expression,
{
    match expression {
        ExpressionModel::PathReference(path) => match single_identifier(path) {
            Some(name) => name,
            None => "Found a path: "@ + path.raw,
        },
        ExpressionModel::Assignment { left, right } => "Assigning to variable: "@
            + expression_text(*left) + "\nThe value being assigned: "@ + expression_text(*right),
        ExpressionModel::MethodCall { receiver, method, args } => "Calling method "@ + method
            + " on object: "@ + expression_text(*receiver) + argument_sentences(args).flatten(),
        ExpressionModel::FunctionCall { callee, args } => "Function call: "@ + expression_text(
            *callee,
        ) + argument_sentences(args).flatten(),
        ExpressionModel::BinaryOp { left, operator, right } => "Binary operation: "@
            + expression_text(*left) + " "@ + operator + " "@ + expression_text(*right),
        ExpressionModel::Literal(literal) => "Literal: "@ + literal_text(literal),
        ExpressionModel::Match { scrutinee, arms } => "Match expression for: "@ + expression_text(
            *scrutinee,
        ) + case_sentences(arms).flatten(),
        ExpressionModel::BlockExpression(_) => Seq::empty(),
        ExpressionModel::MacroInvocation { name, tokens } => macro_sentence(
            name,
            debug_forms(whitespace_words(tokens)),
        ),
        ExpressionModel::ForLoop { pattern, iterable, body } => "For loop with pattern "@
            + pattern_text(*pattern) + " in expression "@ + expression_text(*iterable)
            + " with body"@,
        ExpressionModel::Unrecognized(raw) => "Other expression: "@ + raw,
    }
}

/// One sentence for each argument of a call, in call order. Each starts on
/// a new line.
pub open spec fn argument_sentences(args: Seq<ExpressionModel>) -> Seq<Seq<char>>
    decreases args,
{
    Seq::new(
        args.len(),
        |i: int|
            if 0 <= i < args.len() {
                "\nWith argument: "@ + expression_text(args[i])
            } else {
                Seq::empty()
            },
    )
}

/// One sentence for each arm of a match, in source order. Each starts on a
/// new line.
pub open spec fn case_sentences(arms: Seq<ArmModel>) -> Seq<Seq<char>>
    decreases arms,
{
    Seq::new(
        arms.len(),
        |i: int|
            if 0 <= i < arms.len() {
                "\nCase "@ + pattern_text(arms[i].pattern) + " => "@ + expression_text(
                    arms[i].body,
                )
            } else {
                Seq::empty()
            },
    )
}

/// The text that describes a pattern. It is left open for a range without
/// one of its bounds and for a path that is not a single bare identifier.
pub open spec fn pattern_text(pattern: PatternModel) -> Seq<char>
    decreases pattern,
{
    match pattern {
        PatternModel::Wildcard => "_"@,
        PatternModel::Identifier(name) => name,
        PatternModel::Tuple(elements) => "("@ + joined(pattern_texts(elements), ", "@) + ")"@,
        PatternModel::StructPattern { name, fields } => name + " { "@ + joined(
            field_texts(fields),
            ", "@,
        ) + " }"@,
        PatternModel::PathPattern(path) => match single_identifier(path) {
            Some(name) => name,
            None => arbitrary(),
        },
        PatternModel::Range { start: Some(start), end: Some(end) } => expression_text(*start)
            + ".."@ + expression_text(*end),
        PatternModel::Range { .. } => arbitrary(),
        PatternModel::Reference(inner) => "&"@ + pattern_text(*inner),
        PatternModel::Or(alternatives) => joined(pattern_texts(alternatives), " | "@),
        PatternModel::LiteralPattern(literal) => literal_text(literal),
        PatternModel::Unrecognized => Seq::empty(),
    }
}

/// The text of each pattern of a list, in order.
pub open spec fn pattern_texts(patterns: Seq<PatternModel>) -> Seq<Seq<char>>
    decreases patterns,
{
    Seq::new(
        patterns.len(),
        |i: int|
            if 0 <= i < patterns.len() {
                pattern_text(patterns[i])
            } else {
                Seq::empty()
            },
    )
}

/// The text of one field of a struct pattern: `name: pattern` where the
/// sub-pattern is bound with a colon, `name @ pattern` where it is not.
pub open spec fn field_text(field: FieldPatternModel) -> Seq<char>
    decreases field,
{
    member_text(field.member) + (if field.explicit {
        ": "@
    } else {
        " @ "@
    }) + pattern_text(field.pattern)
}

/// The text of each field of a struct pattern, in order.
pub open spec fn field_texts(fields: Seq<FieldPatternModel>) -> Seq<Seq<char>>
    decreases fields,
{
    Seq::new(
        fields.len(),
        |i: int|
            if 0 <= i < fields.len() {
                field_text(fields[i])
            } else {
                Seq::empty()
            },
    )
}

/// The lines put out while an expression is described, before its text is
/// returned: those of the blocks and loop bodies inside it, in the order in
/// which the parts are described.
pub open spec fn expression_emitted(expression: ExpressionModel) -> Seq<Seq<char>>
    decreases expression,
{
    match expression {
        ExpressionModel::PathReference(_) => Seq::empty(),
        ExpressionModel::Assignment { left, right } => expression_emitted(*left)
            + expression_emitted(*right),
        ExpressionModel::MethodCall { receiver, method, args } => expression_emitted(*receiver)
            + emitted_by_each_expression(args).flatten(),
        ExpressionModel::FunctionCall { callee, args } => expression_emitted(*callee)
            + emitted_by_each_expression(args).flatten(),
        ExpressionModel::BinaryOp { left, operator, right } => expression_emitted(*left)
            + expression_emitted(*right),
        ExpressionModel::Literal(_) => Seq::empty(),
        ExpressionModel::Match { scrutinee, arms } => expression_emitted(*scrutinee)
            + emitted_by_each_arm(arms).flatten(),
        ExpressionModel::BlockExpression(block) => block_emitted(block),
        ExpressionModel::MacroInvocation { .. } => Seq::empty(),
        ExpressionModel::ForLoop { pattern, iterable, body } => pattern_emitted(*pattern)
            + expression_emitted(*iterable) + block_emitted(body),
        ExpressionModel::Unrecognized(_) => Seq::empty(),
    }
}

/// For each expression of a list, the lines put out while it is described.
pub open spec fn emitted_by_each_expression(expressions: Seq<ExpressionModel>) -> Seq<
    Seq<Seq<char>>,
>
    decreases expressions,
{
    Seq::new(
        expressions.len(),
        |i: int|
            if 0 <= i < expressions.len() {
                expression_emitted(expressions[i])
            } else {
                Seq::empty()
            },
    )
}

/// The lines put out while one arm is described: the body is described
/// first, then the pattern.
pub open spec fn arm_emitted(arm: ArmModel) -> Seq<Seq<char>>
    decreases arm,
{
    expression_emitted(arm.body) + pattern_emitted(arm.pattern)
}

/// For each arm of a match, the lines put out while it is described.
pub open spec fn emitted_by_each_arm(arms: Seq<ArmModel>) -> Seq<Seq<Seq<char>>>
    decreases arms,
{
    Seq::new(
        arms.len(),
        |i: int|
            if 0 <= i < arms.len() {
                arm_emitted(arms[i])
            } else {
                Seq::empty()
            },
    )
}

/// The lines put out while a pattern is described: those of the bounds of
/// the ranges inside it.
pub open spec fn pattern_emitted(pattern: PatternModel) -> Seq<Seq<char>>
    decreases pattern,
{
    match pattern {
        PatternModel::Tuple(elements) => emitted_by_each_pattern(elements).flatten(),
        PatternModel::StructPattern { name, fields } => emitted_by_each_field(fields).flatten(),
        PatternModel::Range { start: Some(start), end: Some(end) } => expression_emitted(*start)
            + expression_emitted(*end),
        PatternModel::Reference(inner) => pattern_emitted(*inner),
        PatternModel::Or(alternatives) => emitted_by_each_pattern(alternatives).flatten(),
        _ => Seq::empty(),
    }
}

/// For each pattern of a list, the lines put out while it is described.
pub open spec fn emitted_by_each_pattern(patterns: Seq<PatternModel>) -> Seq<Seq<Seq<char>>>
    decreases patterns,
{
    Seq::new(
        patterns.len(),
        |i: int|
            if 0 <= i < patterns.len() {
                pattern_emitted(patterns[i])
            } else {
                Seq::empty()
            },
    )
}

/// For each field of a struct pattern, the lines put out while it is
/// described.
pub open spec fn emitted_by_each_field(fields: Seq<FieldPatternModel>) -> Seq<Seq<Seq<char>>>
    decreases fields,
{
    Seq::new(
        fields.len(),
        |i: int|
            if 0 <= i < fields.len() {
                pattern_emitted(fields[i].pattern)
            } else {
                Seq::empty()
            },
    )
}

/// The sentence for a `let` binding: there is one where the pattern is a
/// single identifier, and none for any other pattern.
pub open spec fn local_sentence(local: LocalModel) -> Option<Seq<char>> {
    match local.pattern {
        PatternModel::Identifier(name) => Some("Declared a local variable: "@ + name),
        _ => None,
    }
}

/// The lines of a statement: the sentence of a binding, if it has one; what
/// an expression emits and then its text; the lines of a nested item;
/// nothing for any other statement.
pub open spec fn statement_emitted(statement: StatementModel) -> Seq<Seq<char>>
    decreases statement,
{
    match statement {
        StatementModel::LocalBinding(local) => match local_sentence(local) {
            Some(sentence) => seq![sentence],
            None => Seq::empty(),
        },
        StatementModel::ExpressionStatement(expression) => expression_emitted(expression).push(
            expression_text(expression),
        ),
        StatementModel::NestedItem(item) => item_emitted(item),
        StatementModel::Other => Seq::empty(),
    }
}

/// For each statement of a list, its lines.
pub open spec fn emitted_by_each_statement(statements: Seq<StatementModel>) -> Seq<
    Seq<Seq<char>>,
>
    decreases statements,
{
    Seq::new(
        statements.len(),
        |i: int|
            if 0 <= i < statements.len() {
                statement_emitted(statements[i])
            } else {
                Seq::empty()
            },
    )
}

/// The lines of a block: those of its statements, in source order.
pub open spec fn block_emitted(block: BlockModel) -> Seq<Seq<char>>
    decreases block,
{
    emitted_by_each_statement(block.statements).flatten()
}

/// The lines of an item: one for a module, whose contents are not entered;
/// one for a function, followed by the lines of its body; none for any
/// other item.
pub open spec fn item_emitted(item: ItemModel) -> Seq<Seq<char>>
    decreases item,
{
    match item {
        ItemModel::Module { name } => seq!["Adding "@ + name + " as a module"@],
        ItemModel::Function { name, body } => seq!["Entering "@ + name + " function"@]
            + block_emitted(body),
        ItemModel::Other => Seq::empty(),
    }
}

/// For each item of a list, its lines.
pub open spec fn emitted_by_each_item(items: Seq<ItemModel>) -> Seq<Seq<Seq<char>>> {
    Seq::new(items.len(), |i: int| item_emitted(items[i]))
}

/// The narration of a list of items: the lines of each, in order.
pub open spec fn narration(items: Seq<ItemModel>) -> Seq<Seq<char>> {
    emitted_by_each_item(items).flatten()
}

} // verus!
