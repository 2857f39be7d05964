use mf2_ast::ast::Annotation;
use mf2_ast::ast::AnnotationExpression;
use mf2_ast::ast::Attribute;
use mf2_ast::ast::ComplexMessage;
use mf2_ast::ast::ComplexMessageBody;
use mf2_ast::ast::Declaration;
use mf2_ast::ast::Escape;
use mf2_ast::ast::ExponentSign;
use mf2_ast::ast::Expression;
use mf2_ast::ast::FnOrMarkupOption;
use mf2_ast::ast::Function;
use mf2_ast::ast::Identifier;
use mf2_ast::ast::InputDeclaration;
use mf2_ast::ast::Key;
use mf2_ast::ast::Literal;
use mf2_ast::ast::LiteralExpression;
use mf2_ast::ast::LiteralOrVariable;
use mf2_ast::ast::LocalDeclaration;
use mf2_ast::ast::Markup;
use mf2_ast::ast::MarkupKind;
use mf2_ast::ast::Matcher;
use mf2_ast::ast::Message;
use mf2_ast::ast::Number;
use mf2_ast::ast::Pattern;
use mf2_ast::ast::PatternPart;
use mf2_ast::ast::PrivateUseAnnotation;
use mf2_ast::ast::Quoted;
use mf2_ast::ast::QuotedPart;
use mf2_ast::ast::QuotedPattern;
use mf2_ast::ast::ReservedAnnotation;
use mf2_ast::ast::ReservedBodyPart;
use mf2_ast::ast::ReservedStatement;
use mf2_ast::ast::Star;
use mf2_ast::ast::Text;
use mf2_ast::ast::Variable;
use mf2_ast::ast::VariableExpression;
use mf2_ast::ast::Variant;
use mf2_ast::util::LengthShort;
use mf2_ast::util::Location;
use mf2_ast::util::Span;
use mf2_ast::visit::preorder_kinds;
use mf2_ast::visit::NodeKind;
use mf2_ast::visit::Visit;
use mf2_ast::visit::Visitable;

fn span(start: u32, end: u32) -> Span {
    Span::new(Location::new(start), Location::new(end))
}

fn text(start: u32, content: &str) -> Text<'_> {
    Text {
        start: Location::new(start),
        content,
    }
}

fn identifier(start: u32, name: &str) -> Identifier<'_> {
    Identifier {
        start: Location::new(start),
        namespace: None,
        name,
    }
}

/// Records the callback fired for every node it reaches and recurses into
/// every subtree, the full pre-order traversal.
struct Recorder {
    kinds: Vec<NodeKind>,
}

impl Visit for Recorder {
    fn visit_pattern(&mut self, node: &Pattern<'_>) {
        self.kinds.push(NodeKind::Pattern);
        node.apply_visitor_to_children(self);
    }

    fn visit_text(&mut self, node: &Text<'_>) {
        self.kinds.push(NodeKind::Text);
        node.apply_visitor_to_children(self);
    }

    fn visit_escape(&mut self, node: &Escape) {
        self.kinds.push(NodeKind::Escape);
        node.apply_visitor_to_children(self);
    }

    fn visit_literal_expression(&mut self, node: &LiteralExpression<'_>) {
        self.kinds.push(NodeKind::LiteralExpression);
        node.apply_visitor_to_children(self);
    }

    fn visit_variable_expression(&mut self, node: &VariableExpression<'_>) {
        self.kinds.push(NodeKind::VariableExpression);
        node.apply_visitor_to_children(self);
    }

    fn visit_variable(&mut self, node: &Variable<'_>) {
        self.kinds.push(NodeKind::Variable);
        node.apply_visitor_to_children(self);
    }

    fn visit_annotation_expression(&mut self, node: &AnnotationExpression<'_>) {
        self.kinds.push(NodeKind::AnnotationExpression);
        node.apply_visitor_to_children(self);
    }

    fn visit_identifier(&mut self, node: &Identifier<'_>) {
        self.kinds.push(NodeKind::Identifier);
        node.apply_visitor_to_children(self);
    }

    fn visit_function(&mut self, node: &Function<'_>) {
        self.kinds.push(NodeKind::Function);
        node.apply_visitor_to_children(self);
    }

    fn visit_fn_or_markup_option(&mut self, node: &FnOrMarkupOption<'_>) {
        self.kinds.push(NodeKind::FnOrMarkupOption);
        node.apply_visitor_to_children(self);
    }

    fn visit_attribute(&mut self, node: &Attribute<'_>) {
        self.kinds.push(NodeKind::Attribute);
        node.apply_visitor_to_children(self);
    }

    fn visit_private_use_annotation(&mut self, node: &PrivateUseAnnotation<'_>) {
        self.kinds.push(NodeKind::PrivateUseAnnotation);
        node.apply_visitor_to_children(self);
    }

    fn visit_reserved_annotation(&mut self, node: &ReservedAnnotation<'_>) {
        self.kinds.push(NodeKind::ReservedAnnotation);
        node.apply_visitor_to_children(self);
    }

    fn visit_quoted(&mut self, node: &Quoted<'_>) {
        self.kinds.push(NodeKind::Quoted);
        node.apply_visitor_to_children(self);
    }

    fn visit_number(&mut self, node: &Number<'_>) {
        self.kinds.push(NodeKind::Number);
        node.apply_visitor_to_children(self);
    }

    fn visit_markup(&mut self, node: &Markup<'_>) {
        self.kinds.push(NodeKind::Markup);
        node.apply_visitor_to_children(self);
    }

    fn visit_complex_message(&mut self, node: &ComplexMessage<'_>) {
        self.kinds.push(NodeKind::ComplexMessage);
        node.apply_visitor_to_children(self);
    }

    fn visit_input_declaration(&mut self, node: &InputDeclaration<'_>) {
        self.kinds.push(NodeKind::InputDeclaration);
        node.apply_visitor_to_children(self);
    }

    fn visit_local_declaration(&mut self, node: &LocalDeclaration<'_>) {
        self.kinds.push(NodeKind::LocalDeclaration);
        node.apply_visitor_to_children(self);
    }

    fn visit_reserved_statement(&mut self, node: &ReservedStatement<'_>) {
        self.kinds.push(NodeKind::ReservedStatement);
        node.apply_visitor_to_children(self);
    }

    fn visit_quoted_pattern(&mut self, node: &QuotedPattern<'_>) {
        self.kinds.push(NodeKind::QuotedPattern);
        node.apply_visitor_to_children(self);
    }

    fn visit_matcher(&mut self, node: &Matcher<'_>) {
        self.kinds.push(NodeKind::Matcher);
        node.apply_visitor_to_children(self);
    }

    fn visit_variant(&mut self, node: &Variant<'_>) {
        self.kinds.push(NodeKind::Variant);
        node.apply_visitor_to_children(self);
    }

    fn visit_star(&mut self, node: &Star) {
        self.kinds.push(NodeKind::Star);
        node.apply_visitor_to_children(self);
    }
}

/// A message exercising every concrete node type once or more.
fn sample_message() -> Message<'static> {
    Message::Complex(ComplexMessage {
        declarations: vec![
            Declaration::InputDeclaration(InputDeclaration {
                start: Location::new(0),
                expression: VariableExpression {
                    span: span(7, 40),
                    variable: Variable {
                        span: span(8, 12),
                        name: "count",
                    },
                    annotation: Some(Annotation::Function(Function {
                        start: Location::new(13),
                        id: identifier(14, "number"),
                        options: vec![FnOrMarkupOption {
                            key: identifier(21, "digits"),
                            value: LiteralOrVariable::Literal(Literal::Number(Number {
                                start: Location::new(28),
                                raw: "2",
                                is_negative: false,
                                integral_len: LengthShort::new(1),
                                fractional_len: None,
                                exponent_len: None,
                            })),
                        }],
                    })),
                    attributes: vec![Attribute {
                        span: span(30, 39),
                        key: identifier(31, "loc"),
                        value: Some(LiteralOrVariable::Variable(Variable {
                            span: span(35, 39),
                            name: "pos",
                        })),
                    }],
                },
            }),
            Declaration::LocalDeclaration(LocalDeclaration {
                start: Location::new(41),
                variable: Variable {
                    span: span(48, 50),
                    name: "n",
                },
                expression: Expression::LiteralExpression(LiteralExpression {
                    span: span(53, 58),
                    literal: Literal::Text(text(54, "ten")),
                    annotation: None,
                    attributes: vec![],
                }),
            }),
            Declaration::ReservedStatement(ReservedStatement {
                start: Location::new(59),
                name: "keep",
                body: vec![ReservedBodyPart::Quoted(Quoted {
                    span: span(65, 72),
                    parts: vec![
                        QuotedPart::Text(text(66, "raw")),
                        QuotedPart::Escape(Escape {
                            start: Location::new(69),
                            escaped_char: '|',
                        }),
                    ],
                })],
                expressions: vec![Expression::AnnotationExpression(AnnotationExpression {
                    span: span(73, 80),
                    annotation: Annotation::PrivateUseAnnotation(PrivateUseAnnotation {
                        start: Location::new(74),
                        sigil: '^',
                        body: vec![ReservedBodyPart::Text(text(75, "priv"))],
                    }),
                    attributes: vec![],
                })],
            }),
        ],
        body: ComplexMessageBody::Matcher(Matcher {
            start: Location::new(81),
            selectors: vec![Expression::VariableExpression(VariableExpression {
                span: span(88, 94),
                variable: Variable {
                    span: span(89, 93),
                    name: "count",
                },
                annotation: None,
                attributes: vec![],
            })],
            variants: vec![Variant {
                keys: vec![
                    Key::Literal(Literal::Text(text(95, "one"))),
                    Key::Star(Star {
                        start: Location::new(99),
                    }),
                ],
                pattern: QuotedPattern {
                    span: span(101, 140),
                    pattern: Pattern {
                        parts: vec![
                            PatternPart::Text(text(103, "hi ")),
                            PatternPart::Escape(Escape {
                                start: Location::new(106),
                                escaped_char: '{',
                            }),
                            PatternPart::Markup(Markup {
                                span: span(108, 115),
                                kind: MarkupKind::Standalone,
                                id: identifier(110, "br"),
                                options: vec![],
                                attributes: vec![],
                            }),
                            PatternPart::Expression(Expression::LiteralExpression(
                                LiteralExpression {
                                    span: span(116, 138),
                                    literal: Literal::Quoted(Quoted {
                                        span: span(117, 119),
                                        parts: vec![],
                                    }),
                                    annotation: Some(Annotation::ReservedAnnotation(
                                        ReservedAnnotation {
                                            start: Location::new(120),
                                            sigil: '!',
                                            body: vec![ReservedBodyPart::Escape(Escape {
                                                start: Location::new(121),
                                                escaped_char: '}',
                                            })],
                                        },
                                    )),
                                    attributes: vec![],
                                },
                            )),
                        ],
                    },
                },
            }],
        }),
    })
}

fn expected_order() -> Vec<NodeKind> {
    vec![
        NodeKind::ComplexMessage,
        NodeKind::InputDeclaration,
        NodeKind::VariableExpression,
        NodeKind::Variable,
        NodeKind::Function,
        NodeKind::Identifier,
        NodeKind::FnOrMarkupOption,
        NodeKind::Identifier,
        NodeKind::Number,
        NodeKind::Attribute,
        NodeKind::Identifier,
        NodeKind::Variable,
        NodeKind::LocalDeclaration,
        NodeKind::Variable,
        NodeKind::LiteralExpression,
        NodeKind::Text,
        NodeKind::ReservedStatement,
        NodeKind::Quoted,
        NodeKind::Text,
        NodeKind::Escape,
        NodeKind::AnnotationExpression,
        NodeKind::PrivateUseAnnotation,
        NodeKind::Text,
        NodeKind::Matcher,
        NodeKind::VariableExpression,
        NodeKind::Variable,
        NodeKind::Variant,
        NodeKind::Text,
        NodeKind::Star,
        NodeKind::QuotedPattern,
        NodeKind::Pattern,
        NodeKind::Text,
        NodeKind::Escape,
        NodeKind::Markup,
        NodeKind::Identifier,
        NodeKind::LiteralExpression,
        NodeKind::Quoted,
        NodeKind::ReservedAnnotation,
        NodeKind::Escape,
    ]
}

#[test]
fn recursive_visitor_reaches_every_node_in_preorder() {
    let message = sample_message();
    let mut recorder = Recorder { kinds: Vec::new() };
    message.apply_visitor(&mut recorder);
    assert_eq!(recorder.kinds, expected_order());
}

#[test]
fn preorder_kinds_matches_the_visitor_protocol() {
    let message = sample_message();
    let mut recorder = Recorder { kinds: Vec::new() };
    message.apply_visitor(&mut recorder);
    assert_eq!(preorder_kinds(&message), recorder.kinds);
}

#[test]
fn wrapper_enums_dispatch_to_the_variant_callback() {
    let t = text(0, "plain");
    let part = PatternPart::Text(text(0, "plain"));
    let mut direct = Recorder { kinds: Vec::new() };
    t.apply_visitor(&mut direct);
    let mut wrapped = Recorder { kinds: Vec::new() };
    part.apply_visitor(&mut wrapped);
    assert_eq!(direct.kinds, vec![NodeKind::Text]);
    assert_eq!(wrapped.kinds, vec![NodeKind::Text]);
    assert_eq!(direct.kinds, wrapped.kinds);
}

/// Counts text runs only; every other callback keeps its default no-op
/// body, and recursion is driven from the two callbacks it does override.
struct TextCounter {
    seen: usize,
}

impl Visit for TextCounter {
    fn visit_pattern(&mut self, node: &Pattern<'_>) {
        node.apply_visitor_to_children(self);
    }

    fn visit_text(&mut self, _node: &Text<'_>) {
        self.seen += 1;
    }
}

#[test]
fn default_callbacks_are_no_ops() {
    let pattern = Pattern {
        parts: vec![
            PatternPart::Text(text(0, "a")),
            PatternPart::Escape(Escape {
                start: Location::new(1),
                escaped_char: 'n',
            }),
            PatternPart::Text(text(3, "b")),
        ],
    };
    let mut counter = TextCounter { seen: 0 };
    pattern.apply_visitor(&mut counter);
    assert_eq!(counter.seen, 2);
}

/// Recurses everywhere except into quoted patterns, showing that a callback
/// controls whether its subtree is walked.
struct SkipQuotedPatterns {
    kinds: Vec<NodeKind>,
}

impl Visit for SkipQuotedPatterns {
    fn visit_matcher(&mut self, node: &Matcher<'_>) {
        self.kinds.push(NodeKind::Matcher);
        node.apply_visitor_to_children(self);
    }

    fn visit_variant(&mut self, node: &Variant<'_>) {
        self.kinds.push(NodeKind::Variant);
        node.apply_visitor_to_children(self);
    }

    fn visit_star(&mut self, node: &Star) {
        self.kinds.push(NodeKind::Star);
        node.apply_visitor_to_children(self);
    }

    fn visit_text(&mut self, node: &Text<'_>) {
        self.kinds.push(NodeKind::Text);
        node.apply_visitor_to_children(self);
    }

    fn visit_quoted_pattern(&mut self, _node: &QuotedPattern<'_>) {
        self.kinds.push(NodeKind::QuotedPattern);
    }
}

#[test]
fn visitor_controls_recursion_and_can_skip_subtrees() {
    let matcher = Matcher {
        start: Location::new(0),
        selectors: vec![],
        variants: vec![Variant {
            keys: vec![Key::Star(Star {
                start: Location::new(7),
            })],
            pattern: QuotedPattern {
                span: span(9, 16),
                pattern: Pattern {
                    parts: vec![PatternPart::Text(text(11, "inner"))],
                },
            },
        }],
    };
    let mut skipping = SkipQuotedPatterns { kinds: Vec::new() };
    matcher.apply_visitor(&mut skipping);
    assert_eq!(
        skipping.kinds,
        vec![
            NodeKind::Matcher,
            NodeKind::Variant,
            NodeKind::Star,
            NodeKind::QuotedPattern,
        ]
    );
}
