use ast_narrator::expression::{describe_macro_call, parse_expression};
use ast_narrator::syntax::{
    Arm, Block, Expression, Literal, Local, Path, PathSegment, Pattern, Statement,
};

fn segment(name: &str) -> PathSegment {
    PathSegment { identifier: name.to_string(), has_arguments: false }
}

fn ident(name: &str) -> Expression {
    Expression::PathReference(Path {
        leading_colon: false,
        segments: vec![segment(name)],
        raw: format!("raw {}", name),
    })
}

fn number(digits: &str) -> Expression {
    Expression::Literal(Literal::Number(digits.to_string()))
}

fn describe(expression: &Expression) -> (Vec<String>, String) {
    assert!(expression.is_supported());
    let mut out = Vec::new();
    let text = parse_expression(expression, &mut out);
    (out, text)
}

fn text_of(expression: &Expression) -> String {
    let (emitted, text) = describe(expression);
    assert!(emitted.is_empty());
    text
}

#[test]
fn bare_identifier_is_rendered_alone() {
    assert_eq!(text_of(&ident("total")), "total");
}

#[test]
fn longer_path_is_rendered_raw() {
    let path = Expression::PathReference(Path {
        leading_colon: false,
        segments: vec![segment("std"), segment("mem"), segment("swap")],
        raw: "std::mem::swap".to_string(),
    });
    assert_eq!(text_of(&path), "Found a path: std::mem::swap");
}

#[test]
fn path_with_a_leading_colon_is_rendered_raw() {
    let path = Expression::PathReference(Path {
        leading_colon: true,
        segments: vec![segment("x")],
        raw: "::x".to_string(),
    });
    assert_eq!(text_of(&path), "Found a path: ::x");
}

#[test]
fn path_with_arguments_is_rendered_raw() {
    let path = Expression::PathReference(Path {
        leading_colon: false,
        segments: vec![PathSegment { identifier: "Vec".to_string(), has_arguments: true }],
        raw: "Vec::<u8>".to_string(),
    });
    assert_eq!(text_of(&path), "Found a path: Vec::<u8>");
}

#[test]
fn path_without_segments_is_rendered_raw() {
    let path = Expression::PathReference(Path {
        leading_colon: false,
        segments: vec![],
        raw: "nothing".to_string(),
    });
    assert_eq!(text_of(&path), "Found a path: nothing");
}

#[test]
fn assignment_takes_two_lines() {
    let assignment = Expression::Assignment {
        left: Box::new(ident("x")),
        right: Box::new(number("5")),
    };
    assert_eq!(
        text_of(&assignment),
        "Assigning to variable: x\nThe value being assigned: Literal: 5"
    );
}

#[test]
fn method_call_without_arguments() {
    let call = Expression::MethodCall {
        receiver: Box::new(ident("list")),
        method: "len".to_string(),
        args: vec![],
    };
    assert_eq!(text_of(&call), "Calling method len on object: list");
}

#[test]
fn function_call_with_a_nested_call() {
    let inner = Expression::FunctionCall { callee: Box::new(ident("g")), args: vec![number("1")] };
    let outer = Expression::FunctionCall {
        callee: Box::new(ident("f")),
        args: vec![inner, ident("y")],
    };
    assert_eq!(
        text_of(&outer),
        "Function call: f\nWith argument: Function call: g\nWith argument: Literal: 1\nWith argument: y"
    );
}

#[test]
fn binary_operation_shows_the_symbol() {
    let sum = Expression::BinaryOp {
        left: Box::new(ident("a")),
        operator: "+".to_string(),
        right: Box::new(number("1")),
    };
    assert_eq!(text_of(&sum), "Binary operation: a + Literal: 1");
    let equal = Expression::BinaryOp {
        left: Box::new(ident("a")),
        operator: "==".to_string(),
        right: Box::new(ident("b")),
    };
    assert_eq!(text_of(&equal), "Binary operation: a == b");
}

#[test]
fn literals_in_debug_form() {
    assert_eq!(text_of(&number("42")), "Literal: 42");
    assert_eq!(
        text_of(&Expression::Literal(Literal::Text("hi".to_string()))),
        "Literal: \"hi\""
    );
    assert_eq!(
        text_of(&Expression::Literal(Literal::Text("a \"b\"\n".to_string()))),
        "Literal: \"a \\\"b\\\"\\n\""
    );
    assert_eq!(text_of(&Expression::Literal(Literal::Boolean(true))), "Literal: true");
    assert_eq!(text_of(&Expression::Literal(Literal::Boolean(false))), "Literal: false");
    assert_eq!(
        text_of(&Expression::Literal(Literal::Verbatim("b'x'".to_string()))),
        "Literal: b'x'"
    );
}

#[test]
fn match_lists_the_arms_in_order() {
    let matched = Expression::Match {
        scrutinee: Box::new(ident("x")),
        arms: vec![
            Arm { pattern: Pattern::LiteralPattern(Literal::Number("0".to_string())), body: ident("zero") },
            Arm { pattern: Pattern::Identifier("n".to_string()), body: ident("n") },
            Arm { pattern: Pattern::Wildcard, body: number("1") },
        ],
    };
    assert_eq!(
        text_of(&matched),
        "Match expression for: x\nCase 0 => zero\nCase n => n\nCase _ => Literal: 1"
    );
}

#[test]
fn match_without_arms_is_its_header() {
    let matched = Expression::Match { scrutinee: Box::new(ident("x")), arms: vec![] };
    assert_eq!(text_of(&matched), "Match expression for: x");
}

#[test]
fn block_expression_emits_its_statements_and_has_no_text() {
    let block = Expression::BlockExpression(Block {
        statements: vec![
            Statement::LocalBinding(Local {
                pattern: Pattern::Identifier("a".to_string()),
                initializer: None,
            }),
            Statement::ExpressionStatement(ident("a")),
        ],
    });
    let (emitted, text) = describe(&block);
    assert_eq!(emitted, vec!["Declared a local variable: a", "a"]);
    assert_eq!(text, "");
}

#[test]
fn macro_tokens_are_split_and_listed() {
    let call = Expression::MacroInvocation {
        name: "println".to_string(),
        tokens: "\"hi {}\" , x".to_string(),
    };
    assert_eq!(
        text_of(&call),
        "Macro call to println with tokens: [\"\\\"hi\", \"{}\\\"\", \",\", \"x\"]"
    );
}

#[test]
fn macro_without_tokens_has_an_empty_list() {
    let call = Expression::MacroInvocation { name: "todo".to_string(), tokens: String::new() };
    assert_eq!(text_of(&call), "Macro call to todo with tokens: []");
    let blank = Expression::MacroInvocation { name: "todo".to_string(), tokens: " \t\n".to_string() };
    assert_eq!(text_of(&blank), "Macro call to todo with tokens: []");
}

#[test]
fn macro_tokens_split_on_any_whitespace() {
    let call = Expression::MacroInvocation {
        name: "vec".to_string(),
        tokens: "  1 ,\t2\n,  3 ".to_string(),
    };
    assert_eq!(
        text_of(&call),
        "Macro call to vec with tokens: [\"1\", \",\", \"2\", \",\", \"3\"]"
    );
}

#[test]
fn macro_sentence_from_quoted_tokens() {
    let quoted = vec!["\"a\"".to_string(), "\"b\"".to_string()];
    assert_eq!(describe_macro_call("m", &quoted), "Macro call to m with tokens: [\"a\", \"b\"]");
    assert_eq!(describe_macro_call("m", &vec![]), "Macro call to m with tokens: []");
}

#[test]
fn for_loop_emits_its_body_before_its_text() {
    let looped = Expression::ForLoop {
        pattern: Box::new(Pattern::Identifier("i".to_string())),
        iterable: Box::new(ident("items")),
        body: Block {
            statements: vec![Statement::ExpressionStatement(Expression::FunctionCall {
                callee: Box::new(ident("f")),
                args: vec![ident("i")],
            })],
        },
    };
    let (emitted, text) = describe(&looped);
    assert_eq!(emitted, vec!["Function call: f\nWith argument: i"]);
    assert_eq!(text, "For loop with pattern i in expression items with body");
}

#[test]
fn unrecognized_expression_shows_its_raw_form() {
    let other = Expression::Unrecognized("Expr::Closure { .. }".to_string());
    assert_eq!(text_of(&other), "Other expression: Expr::Closure { .. }");
}

#[test]
fn emitted_lines_follow_the_order_of_description() {
    let block_of = |name: &str| {
        Expression::BlockExpression(Block {
            statements: vec![Statement::ExpressionStatement(ident(name))],
        })
    };
    let call = Expression::MethodCall {
        receiver: Box::new(block_of("r")),
        method: "m".to_string(),
        args: vec![block_of("a"), ident("b"), block_of("c")],
    };
    let (emitted, text) = describe(&call);
    assert_eq!(emitted, vec!["r", "a", "c"]);
    assert_eq!(
        text,
        "Calling method m on object: \nWith argument: \nWith argument: b\nWith argument: "
    );
}

#[test]
fn arm_body_is_described_before_its_pattern() {
    let block_of = |name: &str| {
        Expression::BlockExpression(Block {
            statements: vec![Statement::ExpressionStatement(ident(name))],
        })
    };
    let matched = Expression::Match {
        scrutinee: Box::new(block_of("s")),
        arms: vec![Arm {
            pattern: Pattern::Range {
                start: Some(Box::new(block_of("low"))),
                end: Some(Box::new(block_of("high"))),
            },
            body: block_of("body"),
        }],
    };
    let (emitted, text) = describe(&matched);
    assert_eq!(emitted, vec!["s", "body", "low", "high"]);
    assert_eq!(text, "Match expression for: \nCase .. => ");
}

#[test]
fn lines_are_appended_to_what_was_collected() {
    let mut out = vec!["before".to_string()];
    let block = Expression::BlockExpression(Block {
        statements: vec![Statement::ExpressionStatement(number("1"))],
    });
    let text = parse_expression(&block, &mut out);
    assert_eq!(text, "");
    assert_eq!(out, vec!["before", "Literal: 1"]);
}
