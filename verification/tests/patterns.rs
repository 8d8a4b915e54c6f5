use ast_narrator::pattern::{parse_pattern, render_literal, render_member};
use ast_narrator::syntax::{
    Block, Expression, FieldPattern, Literal, Member, Path, PathSegment, Pattern, Statement,
};

fn name(text: &str) -> Pattern {
    Pattern::Identifier(text.to_string())
}

fn pattern_text_of(pattern: &Pattern) -> String {
    assert!(pattern.is_supported());
    let mut out = Vec::new();
    let text = parse_pattern(pattern, &mut out);
    assert!(out.is_empty());
    text
}

fn field(member: &str, pattern: Pattern, explicit: bool) -> FieldPattern {
    FieldPattern { member: Member::Named(member.to_string()), pattern, explicit }
}

fn single(name: &str) -> Path {
    Path {
        leading_colon: false,
        segments: vec![PathSegment { identifier: name.to_string(), has_arguments: false }],
        raw: format!("raw {}", name),
    }
}

#[test]
fn wildcard_is_an_underscore() {
    assert_eq!(pattern_text_of(&Pattern::Wildcard), "_");
}

#[test]
fn identifier_is_its_name() {
    assert_eq!(pattern_text_of(&name("value")), "value");
}

#[test]
fn tuple_joins_its_elements() {
    assert_eq!(pattern_text_of(&Pattern::Tuple(vec![])), "()");
    assert_eq!(pattern_text_of(&Pattern::Tuple(vec![name("a")])), "(a)");
    assert_eq!(
        pattern_text_of(&Pattern::Tuple(vec![name("a"), Pattern::Wildcard, name("c")])),
        "(a, _, c)"
    );
}

#[test]
fn nested_tuples() {
    let inner = Pattern::Tuple(vec![name("b"), name("c")]);
    assert_eq!(pattern_text_of(&Pattern::Tuple(vec![name("a"), inner])), "(a, (b, c))");
}

#[test]
fn struct_pattern_shows_how_each_field_is_bound() {
    let pattern = Pattern::StructPattern {
        name: "Point".to_string(),
        fields: vec![field("x", name("px"), true), field("y", name("y"), false)],
    };
    assert_eq!(pattern_text_of(&pattern), "Point { x: px, y @ y }");
}

#[test]
fn struct_pattern_with_indexed_fields() {
    let pattern = Pattern::StructPattern {
        name: "Pair".to_string(),
        fields: vec![
            FieldPattern { member: Member::Indexed(0), pattern: name("a"), explicit: true },
            FieldPattern { member: Member::Indexed(12), pattern: Pattern::Wildcard, explicit: true },
        ],
    };
    assert_eq!(pattern_text_of(&pattern), "Pair { 0: a, 12: _ }");
}

#[test]
fn struct_pattern_without_fields() {
    let pattern = Pattern::StructPattern { name: "Unit".to_string(), fields: vec![] };
    assert_eq!(pattern_text_of(&pattern), "Unit {  }");
}

#[test]
fn path_pattern_of_one_identifier() {
    let pattern = Pattern::PathPattern(single("None"));
    assert_eq!(pattern_text_of(&pattern), "None");
}

#[test]
fn range_shows_both_bounds() {
    let pattern = Pattern::Range {
        start: Some(Box::new(Expression::Literal(Literal::Number("1".to_string())))),
        end: Some(Box::new(Expression::Literal(Literal::Number("5".to_string())))),
    };
    assert_eq!(pattern_text_of(&pattern), "Literal: 1..Literal: 5");
}

#[test]
fn range_bounds_may_emit_lines() {
    let block = Expression::BlockExpression(Block {
        statements: vec![Statement::ExpressionStatement(Expression::Literal(Literal::Number(
            "7".to_string(),
        )))],
    });
    let pattern = Pattern::Range {
        start: Some(Box::new(block)),
        end: Some(Box::new(Expression::PathReference(single("MAX")))),
    };
    assert!(pattern.is_supported());
    let mut out = Vec::new();
    let text = parse_pattern(&pattern, &mut out);
    assert_eq!(out, vec!["Literal: 7"]);
    assert_eq!(text, "..MAX");
}

#[test]
fn reference_is_prefixed() {
    assert_eq!(pattern_text_of(&Pattern::Reference(Box::new(name("r")))), "&r");
    let twice = Pattern::Reference(Box::new(Pattern::Reference(Box::new(Pattern::Wildcard))));
    assert_eq!(pattern_text_of(&twice), "&&_");
}

#[test]
fn alternatives_are_joined_by_a_bar() {
    assert_eq!(pattern_text_of(&Pattern::Or(vec![])), "");
    assert_eq!(pattern_text_of(&Pattern::Or(vec![name("a")])), "a");
    assert_eq!(
        pattern_text_of(&Pattern::Or(vec![name("a"), name("b"), Pattern::Wildcard])),
        "a | b | _"
    );
}

#[test]
fn literal_pattern_in_debug_form() {
    assert_eq!(pattern_text_of(&Pattern::LiteralPattern(Literal::Number("3".to_string()))), "3");
    assert_eq!(
        pattern_text_of(&Pattern::LiteralPattern(Literal::Text("on".to_string()))),
        "\"on\""
    );
    assert_eq!(pattern_text_of(&Pattern::LiteralPattern(Literal::Boolean(true))), "true");
}

#[test]
fn unrecognized_pattern_is_empty() {
    assert_eq!(pattern_text_of(&Pattern::Unrecognized), "");
    assert_eq!(
        pattern_text_of(&Pattern::Tuple(vec![Pattern::Unrecognized, name("x")])),
        "(, x)"
    );
}

#[test]
fn rendered_literals() {
    assert_eq!(render_literal(&Literal::Number("10".to_string())), "10");
    assert_eq!(render_literal(&Literal::Text(String::new())), "\"\"");
    assert_eq!(render_literal(&Literal::Text("tab\there".to_string())), "\"tab\\there\"");
    assert_eq!(render_literal(&Literal::Text("back\\slash".to_string())), "\"back\\\\slash\"");
    assert_eq!(render_literal(&Literal::Boolean(false)), "false");
    assert_eq!(render_literal(&Literal::Verbatim("'c'".to_string())), "'c'");
}

#[test]
fn rendered_members() {
    assert_eq!(render_member(&Member::Named("width".to_string())), "width");
    assert_eq!(render_member(&Member::Indexed(0)), "0");
    assert_eq!(render_member(&Member::Indexed(7)), "7");
    assert_eq!(render_member(&Member::Indexed(10)), "10");
    assert_eq!(render_member(&Member::Indexed(4051)), "4051");
    assert_eq!(render_member(&Member::Indexed(u32::MAX)), "4294967295");
}

#[test]
fn range_without_a_bound_is_not_supported() {
    let one = || Some(Box::new(Expression::Literal(Literal::Number("1".to_string()))));
    assert!(!Pattern::Range { start: None, end: one() }.is_supported());
    assert!(!Pattern::Range { start: one(), end: None }.is_supported());
    assert!(!Pattern::Range { start: None, end: None }.is_supported());
    assert!(Pattern::Range { start: one(), end: one() }.is_supported());
}

#[test]
fn path_pattern_of_several_segments_is_not_supported() {
    let mut path = single("Option");
    path.segments.push(PathSegment { identifier: "None".to_string(), has_arguments: false });
    assert!(!Pattern::PathPattern(path).is_supported());
    let mut rooted = single("None");
    rooted.leading_colon = true;
    assert!(!Pattern::PathPattern(rooted).is_supported());
}

#[test]
fn unsupported_pattern_is_found_at_any_depth() {
    let open = Pattern::Range { start: None, end: None };
    let nested = Pattern::Tuple(vec![
        name("a"),
        Pattern::Reference(Box::new(Pattern::Or(vec![Pattern::Wildcard, open]))),
    ]);
    assert!(!nested.is_supported());
    let in_field = Pattern::StructPattern {
        name: "S".to_string(),
        fields: vec![field("f", Pattern::Range { start: None, end: None }, true)],
    };
    assert!(!in_field.is_supported());
}
