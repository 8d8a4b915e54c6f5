//! The expression describer.

use vstd::prelude::*;
use vstd::string::*;
use crate::model::{arm_models, expression_models};
use crate::narration::{
    argument_sentences, arm_emitted, case_sentences, emitted_by_each_arm,
    emitted_by_each_expression, expression_emitted, expression_text, macro_sentence,
};
use crate::pattern::{parse_pattern, render_literal};
use crate::support::{arms_supported, expression_supported, expressions_supported};
use crate::syntax::{Arm, Expression};
use crate::text::{bracketed_list, quote_all, split_whitespace};
use crate::walker::parse_block;

verus! {

/// Builds the sentence for a macro call from the macro's name and its
/// tokens, already split and quoted.
pub fn describe_macro_call(name: &str, quoted_tokens: &Vec<String>) -> (text: String)
    ensures
        text@ == macro_sentence(name@, quoted_tokens.deep_view()),
{
    let list = bracketed_list(quoted_tokens);
    let mut text = String::from_str("Macro call to ");
    text.append(name);
    text.append(" with tokens: ");
    text.append(list.as_str());
    text
}

/// Describes an expression. The lines of the blocks and loop bodies that
/// stand inside it go to `out` before the text is returned, in the order in
/// which the parts are described.
pub fn parse_expression(expression: &Expression, out: &mut Vec<String>) -> (text: String)
    requires
        expression_supported(expression@),
    ensures
        text@ == expression_text(expression@),
        final(out).deep_view() == old(out).deep_view() + expression_emitted(expression@),
    decreases expression,
{
    match expression {
        Expression::PathReference(path) => match path.get_identifier() {
            Some(name) => name.clone(),
            None => {
                let mut text = String::from_str("Found a path: ");
                text.append(path.raw.as_str());
                text
            },
        },
        Expression::Assignment { left, right } => {
            let target = parse_expression(left, out);
            let value = parse_expression(right, out);
            let mut text = String::from_str("Assigning to variable: ");
            text.append(target.as_str());
            text.append("\nThe value being assigned: ");
            text.append(value.as_str());
            text
        },
        Expression::MethodCall { receiver, method, args } => {
            let object = parse_expression(receiver, out);
            let arguments = describe_arguments(args, out);
            let mut text = String::from_str("Calling method ");
            text.append(method.as_str());
            text.append(" on object: ");
            text.append(object.as_str());
            text.append(arguments.as_str());
            text
        },
        Expression::FunctionCall { callee, args } => {
            let function = parse_expression(callee, out);
            let arguments = describe_arguments(args, out);
            let mut text = String::from_str("Function call: ");
            text.append(function.as_str());
            text.append(arguments.as_str());
            text
        },
        Expression::BinaryOp { left, operator, right } => {
            let lhs = parse_expression(left, out);
            let rhs = parse_expression(right, out);
            let mut text = String::from_str("Binary operation: ");
            text.append(lhs.as_str());
            text.append(" ");
            text.append(operator.as_str());
            text.append(" ");
            text.append(rhs.as_str());
            text
        },
        Expression::Literal(literal) => {
            let rendered = render_literal(literal);
            let mut text = String::from_str("Literal: ");
            text.append(rendered.as_str());
            text
        },
        Expression::Match { scrutinee, arms } => {
            let subject = parse_expression(scrutinee, out);
            let cases = describe_arms(arms, out);
            let mut text = String::from_str("Match expression for: ");
            text.append(subject.as_str());
            text.append(cases.as_str());
            text
        },
        Expression::BlockExpression(block) => {
            parse_block(block, out);
            String::new()
        },
        Expression::MacroInvocation { name, tokens } => {
            let words = split_whitespace(tokens.as_str());
            let quoted = quote_all(&words);
            describe_macro_call(name.as_str(), &quoted)
        },
        Expression::ForLoop { pattern, iterable, body } => {
            let binding = parse_pattern(pattern, out);
            let source = parse_expression(iterable, out);
            parse_block(body, out);
            let mut text = String::from_str("For loop with pattern ");
            text.append(binding.as_str());
            text.append(" in expression ");
            text.append(source.as_str());
            text.append(" with body");
            text
        },
        Expression::Unrecognized(raw) => {
            let mut text = String::from_str("Other expression: ");
            text.append(raw.as_str());
            text
        },
    }
}

/// Describes the arguments of a call: one sentence for each, in call order.
fn describe_arguments(args: &Vec<Expression>, out: &mut Vec<String>) -> (text: String)
    requires
        expressions_supported(expression_models(args@)),
    ensures
        text@ == argument_sentences(expression_models(args@)).flatten(),
        final(out).deep_view() == old(out).deep_view() + emitted_by_each_expression(
            expression_models(args@),
        ).flatten(),
    decreases args,
{
    let ghost models = expression_models(args@);
    let ghost sentences = argument_sentences(models);
    let ghost emitted = emitted_by_each_expression(models);
    let mut text = String::new();
    let mut i: usize = 0;
    assert(sentences.take(0) =~= Seq::empty());
    assert(emitted.take(0) =~= Seq::empty());
    while i < args.len()
        invariant
            i <= args.len(),
            models == expression_models(args@),
            sentences == argument_sentences(models),
            emitted == emitted_by_each_expression(models),
            expressions_supported(models),
            text@ == sentences.take(i as int).flatten(),
            out.deep_view() == old(out).deep_view() + emitted.take(i as int).flatten(),
        decreases args.len() - i,
    {
        assert(expression_supported(models[i as int]));
        let described = parse_expression(&args[i], out);
        text.append("\nWith argument: ");
        text.append(described.as_str());
        proof {
            assert(sentences.take(i + 1) =~= sentences.take(i as int).push(sentences[i as int]));
            sentences.take(i as int).lemma_flatten_push(sentences[i as int]);
            assert(emitted.take(i + 1) =~= emitted.take(i as int).push(emitted[i as int]));
            emitted.take(i as int).lemma_flatten_push(emitted[i as int]);
        }
        i += 1;
    }
    assert(sentences.take(args.len() as int) =~= sentences);
    assert(emitted.take(args.len() as int) =~= emitted);
    text
}

/// Describes the arms of a match: one sentence for each, in source order.
/// Of each arm the body is described before the pattern.
fn describe_arms(arms: &Vec<Arm>, out: &mut Vec<String>) -> (text: String)
    requires
        arms_supported(arm_models(arms@)),
    ensures
        text@ == case_sentences(arm_models(arms@)).flatten(),
        final(out).deep_view() == old(out).deep_view() + emitted_by_each_arm(
            arm_models(arms@),
        ).flatten(),
    decreases arms,
{
    let ghost models = arm_models(arms@);
    let ghost sentences = case_sentences(models);
    let ghost emitted = emitted_by_each_arm(models);
    let mut text = String::new();
    let mut i: usize = 0;
    assert(sentences.take(0) =~= Seq::empty());
    assert(emitted.take(0) =~= Seq::empty());
    while i < arms.len()
        invariant
            i <= arms.len(),
            models == arm_models(arms@),
            sentences == case_sentences(models),
            emitted == emitted_by_each_arm(models),
            arms_supported(models),
            text@ == sentences.take(i as int).flatten(),
            out.deep_view() == old(out).deep_view() + emitted.take(i as int).flatten(),
        decreases arms.len() - i,
    {
        assert(expression_supported(models[i as int].body));
        let arm = &arms[i];
        let body = parse_expression(&arm.body, out);
        let pattern = parse_pattern(&arm.pattern, out);
        text.append("\nCase ");
        text.append(pattern.as_str());
        text.append(" => ");
        text.append(body.as_str());
        proof {
            assert(emitted[i as int] == arm_emitted(models[i as int]));
            assert(sentences.take(i + 1) =~= sentences.take(i as int).push(sentences[i as int]));
            sentences.take(i as int).lemma_flatten_push(sentences[i as int]);
            assert(emitted.take(i + 1) =~= emitted.take(i as int).push(emitted[i as int]));
            emitted.take(i as int).lemma_flatten_push(emitted[i as int]);
        }
        i += 1;
    }
    assert(sentences.take(arms.len() as int) =~= sentences);
    assert(emitted.take(arms.len() as int) =~= emitted);
    text
}

} // verus!
