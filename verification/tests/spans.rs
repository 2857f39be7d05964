use mf2_ast::ast::Attribute;
use mf2_ast::ast::ComplexMessage;
use mf2_ast::ast::ComplexMessageBody;
use mf2_ast::ast::Declaration;
use mf2_ast::ast::Escape;
use mf2_ast::ast::Expression;
use mf2_ast::ast::FnOrMarkupOption;
use mf2_ast::ast::Function;
use mf2_ast::ast::Identifier;
use mf2_ast::ast::Key;
use mf2_ast::ast::Literal;
use mf2_ast::ast::LiteralExpression;
use mf2_ast::ast::LiteralOrVariable;
use mf2_ast::ast::LocalDeclaration;
use mf2_ast::ast::Matcher;
use mf2_ast::ast::Message;
use mf2_ast::ast::Pattern;
use mf2_ast::ast::PatternPart;
use mf2_ast::ast::PrivateUseAnnotation;
use mf2_ast::ast::QuotedPattern;
use mf2_ast::ast::ReservedStatement;
use mf2_ast::ast::Star;
use mf2_ast::ast::Text;
use mf2_ast::ast::Variable;
use mf2_ast::ast::VariableExpression;
use mf2_ast::ast::Variant;
use mf2_ast::util::Location;
use mf2_ast::util::Span;

fn span(start: u32, end: u32) -> Span {
    Span::new(Location::new(start), Location::new(end))
}

fn text(start: u32, content: &str) -> Text<'_> {
    Text {
        start: Location::new(start),
        content,
    }
}

#[test]
fn text_span_is_start_plus_content_length() {
    let t = text(4, "hello");
    assert_eq!(t.span(), span(4, 9));
}

#[test]
fn text_span_counts_characters_not_bytes() {
    let t = text(0, "héllo");
    assert_eq!(t.span(), span(0, 5));
}

#[test]
fn escape_span_is_two_characters() {
    let e = Escape {
        start: Location::new(7),
        escaped_char: 'n',
    };
    assert_eq!(e.span(), span(7, 9));
}

#[test]
fn empty_pattern_span_is_dummy_to_dummy() {
    let p: Pattern<'_> = Pattern { parts: vec![] };
    let sp = p.span();
    assert_eq!(sp.start, Location::dummy());
    assert_eq!(sp.end, Location::dummy());
    assert_eq!(sp.start, sp.end);
    assert!(sp.start.is_dummy());
}

#[test]
fn pattern_span_covers_first_to_last_part() {
    let p = Pattern {
        parts: vec![
            PatternPart::Text(text(2, "ab")),
            PatternPart::Escape(Escape {
                start: Location::new(4),
                escaped_char: '{',
            }),
            PatternPart::Text(text(6, "xyz")),
        ],
    };
    assert_eq!(p.span(), span(2, 9));
}

#[test]
fn identifier_span_with_namespace_counts_separator() {
    let id = Identifier {
        start: Location::new(4),
        namespace: Some("ns"),
        name: "x",
    };
    assert_eq!(id.span(), span(4, 8));
}

#[test]
fn identifier_span_without_namespace() {
    let id = Identifier {
        start: Location::new(4),
        namespace: None,
        name: "bold",
    };
    assert_eq!(id.span(), span(4, 8));
}

#[test]
fn star_span_is_one_character() {
    let s = Star {
        start: Location::new(11),
    };
    assert_eq!(s.span(), span(11, 12));
}

#[test]
fn empty_matcher_span_is_keyword_fallback() {
    let m: Matcher<'_> = Matcher {
        start: Location::new(10),
        selectors: vec![],
        variants: vec![],
    };
    assert_eq!(m.span(), span(10, 16));
}

#[test]
fn empty_private_use_annotation_span_is_sigil_alone() {
    let a: PrivateUseAnnotation<'_> = PrivateUseAnnotation {
        start: Location::new(5),
        sigil: '^',
        body: vec![],
    };
    assert_eq!(a.span(), span(5, 6));
}

#[test]
fn function_span_falls_back_to_identifier_end() {
    let f = Function {
        start: Location::new(3),
        id: Identifier {
            start: Location::new(4),
            namespace: None,
            name: "number",
        },
        options: vec![],
    };
    assert_eq!(f.span(), span(3, 10));
}

#[test]
fn function_span_reaches_last_option() {
    let f = Function {
        start: Location::new(3),
        id: Identifier {
            start: Location::new(4),
            namespace: None,
            name: "number",
        },
        options: vec![FnOrMarkupOption {
            key: Identifier {
                start: Location::new(11),
                namespace: None,
                name: "style",
            },
            value: LiteralOrVariable::Literal(Literal::Text(text(17, "decimal"))),
        }],
    };
    assert_eq!(f.span(), span(3, 24));
}

#[test]
fn option_span_runs_key_to_value() {
    let option = FnOrMarkupOption {
        key: Identifier {
            start: Location::new(11),
            namespace: None,
            name: "style",
        },
        value: LiteralOrVariable::Variable(Variable {
            span: span(17, 22),
            name: "kind",
        }),
    };
    assert_eq!(option.span(), span(11, 22));
}

#[test]
fn stored_spans_are_returned_as_recorded() {
    let e = LiteralExpression {
        span: span(1, 9),
        literal: Literal::Text(text(2, "hi")),
        annotation: None,
        attributes: vec![Attribute {
            span: span(5, 8),
            key: Identifier {
                start: Location::new(6),
                namespace: None,
                name: "a",
            },
            value: None,
        }],
    };
    assert_eq!(e.span(), span(1, 9));
    assert_eq!(e.attributes[0].span(), span(5, 8));
}

#[test]
fn reserved_statement_span_falls_back_to_keyword() {
    let s: ReservedStatement<'_> = ReservedStatement {
        start: Location::new(0),
        name: "keep",
        body: vec![],
        expressions: vec![],
    };
    assert_eq!(s.span(), span(0, 5));
}

#[test]
fn variant_span_runs_first_key_to_pattern_end() {
    let v = Variant {
        keys: vec![
            Key::Literal(Literal::Text(text(20, "one"))),
            Key::Star(Star {
                start: Location::new(24),
            }),
        ],
        pattern: QuotedPattern {
            span: span(26, 33),
            pattern: Pattern {
                parts: vec![PatternPart::Text(text(28, "body"))],
            },
        },
    };
    assert_eq!(v.span(), span(20, 33));
}

#[test]
fn complex_message_span_covers_declarations_and_body() {
    let m = ComplexMessage {
        declarations: vec![Declaration::LocalDeclaration(LocalDeclaration {
            start: Location::new(0),
            variable: Variable {
                span: span(7, 11),
                name: "x",
            },
            expression: Expression::VariableExpression(VariableExpression {
                span: span(14, 18),
                variable: Variable {
                    span: span(15, 17),
                    name: "y",
                },
                annotation: None,
                attributes: vec![],
            }),
        })],
        body: ComplexMessageBody::QuotedPattern(QuotedPattern {
            span: span(19, 27),
            pattern: Pattern {
                parts: vec![PatternPart::Text(text(21, "done"))],
            },
        }),
    };
    assert_eq!(m.span(), span(0, 27));
    let msg = Message::Complex(m);
    assert_eq!(msg.span(), span(0, 27));
}

#[test]
fn message_simple_span_is_pattern_span() {
    let msg = Message::Simple(Pattern {
        parts: vec![PatternPart::Text(text(0, "hi"))],
    });
    assert_eq!(msg.span(), span(0, 2));
}

#[test]
fn location_min_max_and_advance() {
    let a = Location::new(3);
    let b = Location::new(8);
    assert_eq!(a.min(b), a);
    assert_eq!(a.max(b), b);
    assert_eq!(b.min(a).inner(), 3);
    assert_eq!(a.advance_char('x').inner(), 4);
    assert_eq!(a.advance_str("abcde").inner(), 8);
    assert_eq!(a.advance_str("é").inner(), 4);
    assert_eq!(Location::dummy().inner(), u32::MAX);
}
