//! The pattern describer.

use vstd::pervasive::unreached;
use vstd::prelude::*;
use vstd::string::*;
use crate::expression::parse_expression;
use crate::model::{field_models, pattern_models};
use crate::narration::{
    emitted_by_each_field, emitted_by_each_pattern, field_text, field_texts, literal_text,
    member_text, pattern_emitted, pattern_text, pattern_texts,
};
use crate::support::{fields_supported, pattern_supported, patterns_supported};
use crate::syntax::{FieldPattern, Literal, Member, Pattern};
use crate::text::{decimal_text, join, push_line, quote};

verus! {

/// Renders a literal in its debug form.
pub fn render_literal(literal: &Literal) -> (text: String)
    ensures
        text@ == literal_text(literal@),
{
    match literal {
        Literal::Number(digits) => digits.clone(),
        Literal::Text(value) => quote(value.as_str()),
        Literal::Boolean(value) => if *value {
            String::from_str("true")
        } else {
            String::from_str("false")
        },
        Literal::Verbatim(text) => text.clone(),
    }
}

/// Renders what names a field: its name, or its index in decimal.
pub fn render_member(member: &Member) -> (text: String)
    ensures
        text@ == member_text(member@),
{
    match member {
        Member::Named(name) => name.clone(),
        Member::Indexed(index) => decimal_text(*index),
    }
}

/// Describes a pattern. The lines of the blocks that stand in the bounds of
/// its ranges go to `out`, in the order in which the parts are described.
pub fn parse_pattern(pattern: &Pattern, out: &mut Vec<String>) -> (text: String)
    requires
        pattern_supported(pattern@),
    ensures
        text@ == pattern_text(pattern@),
        final(out).deep_view() == old(out).deep_view() + pattern_emitted(pattern@),
    decreases pattern,
{
    match pattern {
        Pattern::Wildcard => String::from_str("_"),
        Pattern::Identifier(name) => name.clone(),
        Pattern::Tuple(elements) => {
            let parts = describe_patterns(elements, out);
            let inner = join(&parts, ", ");
            let mut text = String::from_str("(");
            text.append(inner.as_str());
            text.append(")");
            text
        },
        Pattern::StructPattern { name, fields } => {
            let parts = describe_fields(fields, out);
            let inner = join(&parts, ", ");
            let mut text = name.clone();
            text.append(" { ");
            text.append(inner.as_str());
            text.append(" }");
            text
        },
        Pattern::PathPattern(path) => match path.get_identifier() {
            Some(name) => name.clone(),
            None => unreached(),
        },
        Pattern::Range { start, end } => match (start, end) {
            (Some(start), Some(end)) => {
                let mut text = parse_expression(start, out);
                let upper = parse_expression(end, out);
                text.append("..");
                text.append(upper.as_str());
                text
            },
            _ => unreached(),
        },
        Pattern::Reference(inner) => {
            let described = parse_pattern(inner, out);
            let mut text = String::from_str("&");
            text.append(described.as_str());
            text
        },
        Pattern::Or(alternatives) => {
            let parts = describe_patterns(alternatives, out);
            join(&parts, " | ")
        },
        Pattern::LiteralPattern(literal) => render_literal(literal),
        Pattern::Unrecognized => String::new(),
    }
}

/// Describes each pattern of a list, in order.
fn describe_patterns(patterns: &Vec<Pattern>, out: &mut Vec<String>) -> (texts: Vec<String>)
    requires
        patterns_supported(pattern_models(patterns@)),
    ensures
        texts.deep_view() == pattern_texts(pattern_models(patterns@)),
        final(out).deep_view() == old(out).deep_view() + emitted_by_each_pattern(
            pattern_models(patterns@),
        ).flatten(),
    decreases patterns,
{
    let ghost models = pattern_models(patterns@);
    let ghost emitted = emitted_by_each_pattern(models);
    let mut texts: Vec<String> = Vec::new();
    let mut i: usize = 0;
    assert(emitted.take(0) =~= Seq::empty());
    while i < patterns.len()
        invariant
            i <= patterns.len(),
            models == pattern_models(patterns@),
            emitted == emitted_by_each_pattern(models),
            patterns_supported(models),
            texts.deep_view() == pattern_texts(models).take(i as int),
            out.deep_view() == old(out).deep_view() + emitted.take(i as int).flatten(),
        decreases patterns.len() - i,
    {
        assert(pattern_supported(models[i as int]));
        let text = parse_pattern(&patterns[i], out);
        push_line(&mut texts, text);
        proof {
            assert(emitted.take(i + 1) =~= emitted.take(i as int).push(emitted[i as int]));
            emitted.take(i as int).lemma_flatten_push(emitted[i as int]);
        }
        i += 1;
    }
    assert(emitted.take(patterns.len() as int) =~= emitted);
    texts
}

/// Describes each field of a struct pattern, in order.
fn describe_fields(fields: &Vec<FieldPattern>, out: &mut Vec<String>) -> (texts: Vec<String>)
    requires
        fields_supported(field_models(fields@)),
    ensures
        texts.deep_view() == field_texts(field_models(fields@)),
        final(out).deep_view() == old(out).deep_view() + emitted_by_each_field(
            field_models(fields@),
        ).flatten(),
    decreases fields,
{
    let ghost models = field_models(fields@);
    let ghost emitted = emitted_by_each_field(models);
    let mut texts: Vec<String> = Vec::new();
    let mut i: usize = 0;
    assert(emitted.take(0) =~= Seq::empty());
    while i < fields.len()
        invariant
            i <= fields.len(),
            models == field_models(fields@),
            emitted == emitted_by_each_field(models),
            fields_supported(models),
            texts.deep_view() == field_texts(models).take(i as int),
            out.deep_view() == old(out).deep_view() + emitted.take(i as int).flatten(),
        decreases fields.len() - i,
    {
        assert(pattern_supported(models[i as int].pattern));
        let field = &fields[i];
        let described = parse_pattern(&field.pattern, out);
        let mut text = render_member(&field.member);
        if field.explicit {
            text.append(": ");
        } else {
            text.append(" @ ");
        }
        text.append(described.as_str());
        assert(text@ == field_text(models[i as int]));
        push_line(&mut texts, text);
        proof {
            assert(emitted.take(i + 1) =~= emitted.take(i as int).push(emitted[i as int]));
            emitted.take(i as int).lemma_flatten_push(emitted[i as int]);
        }
        i += 1;
    }
    assert(emitted.take(fields.len() as int) =~= emitted);
    texts
}

} // verus!
