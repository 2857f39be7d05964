//! Proof functions stating the structural laws of the tree: every
//! well-formed node's span runs forward, a composite node's span is pinned
//! to its children's spans (with the documented fallbacks for degenerate
//! constructs), the wrapper enums are transparent, and a number literal is
//! reconstructed exactly from its decomposed parts.

use crate::ast::Annotation;
use crate::ast::AnnotationExpression;
use crate::ast::Attribute;
use crate::ast::ComplexMessage;
use crate::ast::ComplexMessageBody;
use crate::ast::Declaration;
use crate::ast::Escape;
use crate::ast::Expression;
use crate::ast::FnOrMarkupOption;
use crate::ast::Function;
use crate::ast::Identifier;
use crate::ast::InputDeclaration;
use crate::ast::Key;
use crate::ast::Literal;
use crate::ast::LiteralExpression;
use crate::ast::LiteralOrVariable;
use crate::ast::LocalDeclaration;
use crate::ast::Markup;
use crate::ast::Matcher;
use crate::ast::Message;
use crate::ast::Number;
use crate::ast::Pattern;
use crate::ast::PatternPart;
use crate::ast::PrivateUseAnnotation;
use crate::ast::Quoted;
use crate::ast::QuotedPart;
use crate::ast::QuotedPattern;
use crate::ast::ReservedAnnotation;
use crate::ast::ReservedBodyPart;
use crate::ast::ReservedStatement;
use crate::ast::Star;
use crate::ast::Text;
use crate::ast::Variable;
use crate::ast::VariableExpression;
use crate::ast::Variant;
use vstd::prelude::*;

verus! {

// ---------------------------------------------------------------------------
// Span containment: every well-formed node's span satisfies start <= end.
// Each `span` method already carries this as a postcondition; the lemmas
// below state the same law over the span specifications alone, so that
// spec-level reasoning about a parent can rely on its children.
// ---------------------------------------------------------------------------

/// A text run's span runs forward.
pub proof fn lemma_text_span_ordered<'a>(node: Text<'a>)
    requires
        node.wf(),
    ensures
        node.spec_start() <= node.spec_end(),
{
}

/// An escape's span runs forward.
pub proof fn lemma_escape_span_ordered(node: Escape)
    requires
        node.wf(),
    ensures
        node.spec_start() <= node.spec_end(),
{
}

/// A variable reference's span runs forward.
pub proof fn lemma_variable_span_ordered<'a>(node: Variable<'a>)
    requires
        node.wf(),
    ensures
        node.spec_start() <= node.spec_end(),
{
}

/// An identifier's span runs forward.
pub proof fn lemma_identifier_span_ordered<'a>(node: Identifier<'a>)
    requires
        node.wf(),
    ensures
        node.spec_start() <= node.spec_end(),
{
}

/// A wildcard key's span runs forward.
pub proof fn lemma_star_span_ordered(node: Star)
    requires
        node.wf(),
    ensures
        node.spec_start() <= node.spec_end(),
{
}

/// A number literal's span runs forward.
pub proof fn lemma_number_span_ordered<'a>(node: Number<'a>)
    requires
        node.wf(),
    ensures
        node.spec_start() <= node.spec_end(),
{
}

/// A quoted literal's span runs forward.
pub proof fn lemma_quoted_span_ordered<'a>(node: Quoted<'a>)
    requires
        node.wf(),
    ensures
        node.spec_start() <= node.spec_end(),
{
}

/// A literal's span runs forward.
pub proof fn lemma_literal_span_ordered<'a>(node: Literal<'a>)
    requires
        node.wf(),
    ensures
        node.spec_start() <= node.spec_end(),
{
}

/// A matcher key's span runs forward.
pub proof fn lemma_key_span_ordered<'a>(node: Key<'a>)
    requires
        node.wf(),
    ensures
        node.spec_start() <= node.spec_end(),
{
}

/// An option or attribute value's span runs forward.
pub proof fn lemma_literal_or_variable_span_ordered<'a>(node: LiteralOrVariable<'a>)
    requires
        node.wf(),
    ensures
        node.spec_start() <= node.spec_end(),
{
}

/// An expression's span runs forward.
pub proof fn lemma_expression_span_ordered<'a>(node: Expression<'a>)
    requires
        node.wf(),
    ensures
        node.spec_start() <= node.spec_end(),
{
}

/// A reserved body part's span runs forward.
pub proof fn lemma_reserved_body_part_span_ordered<'a>(node: ReservedBodyPart<'a>)
    requires
        node.wf(),
    ensures
        node.spec_start() <= node.spec_end(),
{
}

/// An option's span runs forward.
pub proof fn lemma_fn_or_markup_option_span_ordered<'a>(node: FnOrMarkupOption<'a>)
    requires
        node.wf(),
    ensures
        node.spec_start() <= node.spec_end(),
{
}

/// A function annotation's span runs forward.
pub proof fn lemma_function_span_ordered<'a>(node: Function<'a>)
    requires
        node.wf(),
    ensures
        node.spec_start() <= node.spec_end(),
{
    if node.options@.len() > 0 {
        let last = node.options@.len() - 1;
        assert(node.id.spec_end() <= node.options@[last].spec_start());
        lemma_fn_or_markup_option_span_ordered(node.options@[last]);
    }
}

/// A private-use annotation's span runs forward.
pub proof fn lemma_private_use_annotation_span_ordered<'a>(node: PrivateUseAnnotation<'a>)
    requires
        node.wf(),
    ensures
        node.spec_start() <= node.spec_end(),
{
    if node.body@.len() > 0 {
        let last = node.body@.len() - 1;
        assert(node.start@ + 1 <= node.body@[last].spec_start());
        lemma_reserved_body_part_span_ordered(node.body@[last]);
    }
}

/// A reserved annotation's span runs forward.
pub proof fn lemma_reserved_annotation_span_ordered<'a>(node: ReservedAnnotation<'a>)
    requires
        node.wf(),
    ensures
        node.spec_start() <= node.spec_end(),
{
    if node.body@.len() > 0 {
        let last = node.body@.len() - 1;
        assert(node.start@ + 1 <= node.body@[last].spec_start());
        lemma_reserved_body_part_span_ordered(node.body@[last]);
    }
}

/// An annotation's span runs forward.
pub proof fn lemma_annotation_span_ordered<'a>(node: Annotation<'a>)
    requires
        node.wf(),
    ensures
        node.spec_start() <= node.spec_end(),
{
    match node {
        Annotation::Function(item) => lemma_function_span_ordered(item),
        Annotation::PrivateUseAnnotation(item) => lemma_private_use_annotation_span_ordered(item),
        Annotation::ReservedAnnotation(item) => lemma_reserved_annotation_span_ordered(item),
    }
}

/// A literal expression's span runs forward.
pub proof fn lemma_literal_expression_span_ordered<'a>(node: LiteralExpression<'a>)
    requires
        node.wf(),
    ensures
        node.spec_start() <= node.spec_end(),
{
}

/// A variable expression's span runs forward.
pub proof fn lemma_variable_expression_span_ordered<'a>(node: VariableExpression<'a>)
    requires
        node.wf(),
    ensures
        node.spec_start() <= node.spec_end(),
{
}

/// An annotation expression's span runs forward.
pub proof fn lemma_annotation_expression_span_ordered<'a>(node: AnnotationExpression<'a>)
    requires
        node.wf(),
    ensures
        node.spec_start() <= node.spec_end(),
{
}

/// An attribute's span runs forward.
pub proof fn lemma_attribute_span_ordered<'a>(node: Attribute<'a>)
    requires
        node.wf(),
    ensures
        node.spec_start() <= node.spec_end(),
{
}

/// A markup construct's span runs forward.
pub proof fn lemma_markup_span_ordered<'a>(node: Markup<'a>)
    requires
        node.wf(),
    ensures
        node.spec_start() <= node.spec_end(),
{
}

/// A pattern part's span runs forward.
pub proof fn lemma_pattern_part_span_ordered<'a>(node: PatternPart<'a>)
    requires
        node.wf(),
    ensures
        node.spec_start() <= node.spec_end(),
{
    match node {
        PatternPart::Expression(item) => lemma_expression_span_ordered(item),
        _ => (),
    }
}

/// A pattern's span runs forward; a pattern with no parts reports the
/// degenerate sentinel-to-sentinel span, which is ordered too.
pub proof fn lemma_pattern_span_ordered<'a>(node: Pattern<'a>)
    requires
        node.wf(),
    ensures
        node.spec_start() <= node.spec_end(),
{
    if node.parts@.len() > 0 {
        let last = node.parts@.len() - 1;
        lemma_pattern_part_span_ordered(node.parts@[0]);
        lemma_pattern_part_span_ordered(node.parts@[last]);
        if last > 0 {
            assert(node.parts@[0].spec_end() <= node.parts@[last].spec_start());
        }
    }
}

/// A quoted pattern's span runs forward.
pub proof fn lemma_quoted_pattern_span_ordered<'a>(node: QuotedPattern<'a>)
    requires
        node.wf(),
    ensures
        node.spec_start() <= node.spec_end(),
{
}

/// A variant's span runs forward.
pub proof fn lemma_variant_span_ordered<'a>(node: Variant<'a>)
    requires
        node.wf(),
    ensures
        node.spec_start() <= node.spec_end(),
{
    if node.keys@.len() > 0 {
        lemma_key_span_ordered(node.keys@[0]);
        assert(node.keys@[0].spec_end() <= node.pattern.spec_start());
    }
}

/// A matcher's span runs forward; an empty matcher reports the keyword
/// fallback span, which is ordered too.
pub proof fn lemma_matcher_span_ordered<'a>(node: Matcher<'a>)
    requires
        node.wf(),
    ensures
        node.spec_start() <= node.spec_end(),
{
    if node.variants@.len() > 0 {
        let last = node.variants@.len() - 1;
        assert(node.spec_keyword_end() <= node.variants@[last].spec_start());
        lemma_variant_span_ordered(node.variants@[last]);
    } else if node.selectors@.len() > 0 {
        let last = node.selectors@.len() - 1;
        assert(node.spec_keyword_end() <= node.selectors@[last].spec_start());
        lemma_expression_span_ordered(node.selectors@[last]);
    }
}

/// An input declaration's span runs forward.
pub proof fn lemma_input_declaration_span_ordered<'a>(node: InputDeclaration<'a>)
    requires
        node.wf(),
    ensures
        node.spec_start() <= node.spec_end(),
{
    lemma_variable_expression_span_ordered(node.expression);
}

/// A local declaration's span runs forward.
pub proof fn lemma_local_declaration_span_ordered<'a>(node: LocalDeclaration<'a>)
    requires
        node.wf(),
    ensures
        node.spec_start() <= node.spec_end(),
{
    lemma_expression_span_ordered(node.expression);
}

/// A reserved statement's span runs forward, in each of its three fallback
/// cases.
pub proof fn lemma_reserved_statement_span_ordered<'a>(node: ReservedStatement<'a>)
    requires
        node.wf(),
    ensures
        node.spec_start() <= node.spec_end(),
{
    if node.expressions@.len() > 0 {
        let last = node.expressions@.len() - 1;
        assert(node.spec_keyword_end() <= node.expressions@[last].spec_start());
        lemma_expression_span_ordered(node.expressions@[last]);
    } else if node.body@.len() > 0 {
        let last = node.body@.len() - 1;
        assert(node.spec_keyword_end() <= node.body@[last].spec_start());
        lemma_reserved_body_part_span_ordered(node.body@[last]);
    }
}

/// A declaration's span runs forward.
pub proof fn lemma_declaration_span_ordered<'a>(node: Declaration<'a>)
    requires
        node.wf(),
    ensures
        node.spec_start() <= node.spec_end(),
{
    match node {
        Declaration::InputDeclaration(item) => lemma_input_declaration_span_ordered(item),
        Declaration::LocalDeclaration(item) => lemma_local_declaration_span_ordered(item),
        Declaration::ReservedStatement(item) => lemma_reserved_statement_span_ordered(item),
    }
}

/// A complex message body's span runs forward.
pub proof fn lemma_complex_message_body_span_ordered<'a>(node: ComplexMessageBody<'a>)
    requires
        node.wf(),
    ensures
        node.spec_start() <= node.spec_end(),
{
    match node {
        ComplexMessageBody::QuotedPattern(item) => lemma_quoted_pattern_span_ordered(item),
        ComplexMessageBody::Matcher(item) => lemma_matcher_span_ordered(item),
    }
}

/// A complex message's span runs forward.
pub proof fn lemma_complex_message_span_ordered<'a>(node: ComplexMessage<'a>)
    requires
        node.wf(),
    ensures
        node.spec_start() <= node.spec_end(),
{
    lemma_complex_message_body_span_ordered(node.body);
}

/// Span containment, stated at the root: every well-formed message reports
/// a span with start <= end, whichever form it takes.
pub proof fn lemma_message_span_ordered<'a>(node: Message<'a>)
    requires
        node.wf(),
    ensures
        node.spec_start() <= node.spec_end(),
{
    match node {
        Message::Simple(pattern) => lemma_pattern_span_ordered(pattern),
        Message::Complex(complex) => lemma_complex_message_span_ordered(complex),
    }
}


// ---------------------------------------------------------------------------
// Child containment: a composite node's span is pinned to its children's
// spans, with the documented fallback where a composite is degenerate.
// ---------------------------------------------------------------------------

/// A pattern with at least one part starts where its first part starts and
/// ends where its last part ends.
pub proof fn lemma_pattern_child_containment<'a>(node: Pattern<'a>)
    requires
        node.parts@.len() >= 1,
    ensures
        node.spec_start() == node.parts@.first().spec_start(),
        node.spec_end() == node.parts@.last().spec_end(),
{
}

/// A pattern with no parts reports the degenerate span whose start and end
/// are both the sentinel position.
pub proof fn lemma_pattern_empty_fallback<'a>(node: Pattern<'a>)
    requires
        node.parts@.len() == 0,
    ensures
        node.spec_start() == node.spec_end(),
        node.spec_start() == u32::MAX,
{
}

/// An option starts where its key starts and ends where its value ends.
pub proof fn lemma_fn_or_markup_option_child_containment<'a>(node: FnOrMarkupOption<'a>)
    ensures
        node.spec_start() == node.key.spec_start(),
        node.spec_end() == node.value.spec_end(),
{
}

/// A variant with at least one key starts where its first key starts; its
/// end is always the end of its pattern, the last child.
pub proof fn lemma_variant_child_containment<'a>(node: Variant<'a>)
    ensures
        node.keys@.len() >= 1 ==> node.spec_start() == node.keys@.first().spec_start(),
        node.keys@.len() == 0 ==> node.spec_start() == node.pattern.spec_start(),
        node.spec_end() == node.pattern.spec_end(),
{
}

/// A function annotation ends where its last child ends: the last option,
/// or the identifier when there are no options.
pub proof fn lemma_function_child_containment<'a>(node: Function<'a>)
    ensures
        node.options@.len() >= 1 ==> node.spec_end() == node.options@.last().spec_end(),
        node.options@.len() == 0 ==> node.spec_end() == node.id.spec_end(),
{
}

/// A private-use annotation ends where its last body part ends; with an
/// empty body it falls back to the span of the sigil alone.
pub proof fn lemma_private_use_annotation_fallback<'a>(node: PrivateUseAnnotation<'a>)
    ensures
        node.body@.len() >= 1 ==> node.spec_end() == node.body@.last().spec_end(),
        node.body@.len() == 0 ==> node.spec_end() == node.spec_start() + 1,
{
}

/// A reserved annotation ends where its last body part ends; with an empty
/// body it falls back to the span of the sigil alone.
pub proof fn lemma_reserved_annotation_fallback<'a>(node: ReservedAnnotation<'a>)
    ensures
        node.body@.len() >= 1 ==> node.spec_end() == node.body@.last().spec_end(),
        node.body@.len() == 0 ==> node.spec_end() == node.spec_start() + 1,
{
}

/// A matcher ends where its last variant ends, falling back to the last
/// selector, and, when it has neither, to the span of the `.match` keyword
/// alone: six characters past its start.
pub proof fn lemma_matcher_fallback<'a>(node: Matcher<'a>)
    ensures
        node.variants@.len() >= 1 ==> node.spec_end() == node.variants@.last().spec_end(),
        node.variants@.len() == 0 && node.selectors@.len() >= 1 ==> node.spec_end()
            == node.selectors@.last().spec_end(),
        node.variants@.len() == 0 && node.selectors@.len() == 0 ==> node.spec_end()
            == node.spec_start() + 6,
{
}

/// A reserved statement ends where its last expression ends, falling back
/// to the last body part, and, when it has neither, to the span of the dot
/// and the keyword's name alone.
pub proof fn lemma_reserved_statement_fallback<'a>(node: ReservedStatement<'a>)
    ensures
        node.expressions@.len() >= 1 ==> node.spec_end() == node.expressions@.last().spec_end(),
        node.expressions@.len() == 0 && node.body@.len() >= 1 ==> node.spec_end()
            == node.body@.last().spec_end(),
        node.expressions@.len() == 0 && node.body@.len() == 0 ==> node.spec_end()
            == node.spec_start() + 1 + node.name@.len(),
{
}

/// A complex message whose declarations all lie before its body starts
/// where its first declaration starts and ends where its body, the last
/// child, ends.
pub proof fn lemma_complex_message_child_containment<'a>(node: ComplexMessage<'a>)
    requires
        node.wf(),
        node.declarations@.len() >= 1,
        forall|i: int|
            0 <= i < node.declarations@.len() ==> (#[trigger] node.declarations@[i]).spec_end()
                <= node.body.spec_start(),
    ensures
        node.spec_start() == node.declarations@.first().spec_start(),
        node.spec_end() == node.body.spec_end(),
{
    let last = node.declarations@.len() - 1;
    lemma_declaration_span_ordered(node.declarations@[0]);
    lemma_declaration_span_ordered(node.declarations@[last]);
    lemma_complex_message_body_span_ordered(node.body);
    assert(node.declarations@[0].spec_end() <= node.body.spec_start());
    assert(node.declarations@[last].spec_end() <= node.body.spec_start());
}


// ---------------------------------------------------------------------------
// Wrapper transparency: a wrapper enum carries no state and no event of its
// own. Its span is the active variant's span, and a traversal reaches
// through it to the variant's own callback: its visit order is exactly the
// variant's visit order, with no entry for the wrapper itself.
// ---------------------------------------------------------------------------

/// The `Message` enum is transparent: span and visit order are those of
/// the active variant.
pub proof fn lemma_message_transparent<'a>(node: Message<'a>)
    ensures
        match node {
            Message::Simple(item) => node.preorder() == item.preorder() && node.spec_start()
                == item.spec_start() && node.spec_end() == item.spec_end(),
            Message::Complex(item) => node.preorder() == item.preorder() && node.spec_start()
                == item.spec_start() && node.spec_end() == item.spec_end(),
        },
{
}

/// The `PatternPart` enum is transparent: span and visit order are those of
/// the active variant.
pub proof fn lemma_pattern_part_transparent<'a>(node: PatternPart<'a>)
    ensures
        match node {
            PatternPart::Text(item) => node.preorder() == item.preorder() && node.spec_start()
                == item.spec_start() && node.spec_end() == item.spec_end(),
            PatternPart::Escape(item) => node.preorder() == item.preorder() && node.spec_start()
                == item.spec_start() && node.spec_end() == item.spec_end(),
            PatternPart::Expression(item) => node.preorder() == item.preorder() && node.spec_start()
                == item.spec_start() && node.spec_end() == item.spec_end(),
            PatternPart::Markup(item) => node.preorder() == item.preorder() && node.spec_start()
                == item.spec_start() && node.spec_end() == item.spec_end(),
        },
{
}

/// The `Expression` enum is transparent: span and visit order are those of
/// the active variant.
pub proof fn lemma_expression_transparent<'a>(node: Expression<'a>)
    ensures
        match node {
            Expression::LiteralExpression(item) => node.preorder() == item.preorder() && node.spec_start()
                == item.spec_start() && node.spec_end() == item.spec_end(),
            Expression::VariableExpression(item) => node.preorder() == item.preorder() && node.spec_start()
                == item.spec_start() && node.spec_end() == item.spec_end(),
            Expression::AnnotationExpression(item) => node.preorder() == item.preorder() && node.spec_start()
                == item.spec_start() && node.spec_end() == item.spec_end(),
        },
{
}

/// The `Annotation` enum is transparent: span and visit order are those of
/// the active variant.
pub proof fn lemma_annotation_transparent<'a>(node: Annotation<'a>)
    ensures
        match node {
            Annotation::Function(item) => node.preorder() == item.preorder() && node.spec_start()
                == item.spec_start() && node.spec_end() == item.spec_end(),
            Annotation::PrivateUseAnnotation(item) => node.preorder() == item.preorder() && node.spec_start()
                == item.spec_start() && node.spec_end() == item.spec_end(),
            Annotation::ReservedAnnotation(item) => node.preorder() == item.preorder() && node.spec_start()
                == item.spec_start() && node.spec_end() == item.spec_end(),
        },
{
}

/// The `LiteralOrVariable` enum is transparent: span and visit order are those of
/// the active variant.
pub proof fn lemma_literal_or_variable_transparent<'a>(node: LiteralOrVariable<'a>)
    ensures
        match node {
            LiteralOrVariable::Literal(item) => node.preorder() == item.preorder() && node.spec_start()
                == item.spec_start() && node.spec_end() == item.spec_end(),
            LiteralOrVariable::Variable(item) => node.preorder() == item.preorder() && node.spec_start()
                == item.spec_start() && node.spec_end() == item.spec_end(),
        },
{
}

/// The `ReservedBodyPart` enum is transparent: span and visit order are those of
/// the active variant.
pub proof fn lemma_reserved_body_part_transparent<'a>(node: ReservedBodyPart<'a>)
    ensures
        match node {
            ReservedBodyPart::Text(item) => node.preorder() == item.preorder() && node.spec_start()
                == item.spec_start() && node.spec_end() == item.spec_end(),
            ReservedBodyPart::Escape(item) => node.preorder() == item.preorder() && node.spec_start()
                == item.spec_start() && node.spec_end() == item.spec_end(),
            ReservedBodyPart::Quoted(item) => node.preorder() == item.preorder() && node.spec_start()
                == item.spec_start() && node.spec_end() == item.spec_end(),
        },
{
}

/// The `Literal` enum is transparent: span and visit order are those of
/// the active variant.
pub proof fn lemma_literal_transparent<'a>(node: Literal<'a>)
    ensures
        match node {
            Literal::Quoted(item) => node.preorder() == item.preorder() && node.spec_start()
                == item.spec_start() && node.spec_end() == item.spec_end(),
            Literal::Text(item) => node.preorder() == item.preorder() && node.spec_start()
                == item.spec_start() && node.spec_end() == item.spec_end(),
            Literal::Number(item) => node.preorder() == item.preorder() && node.spec_start()
                == item.spec_start() && node.spec_end() == item.spec_end(),
        },
{
}

/// The `QuotedPart` enum is transparent: span and visit order are those of
/// the active variant.
pub proof fn lemma_quoted_part_transparent<'a>(node: QuotedPart<'a>)
    ensures
        match node {
            QuotedPart::Text(item) => node.preorder() == item.preorder() && node.spec_start()
                == item.spec_start() && node.spec_end() == item.spec_end(),
            QuotedPart::Escape(item) => node.preorder() == item.preorder() && node.spec_start()
                == item.spec_start() && node.spec_end() == item.spec_end(),
        },
{
}

/// The `ComplexMessageBody` enum is transparent: span and visit order are those of
/// the active variant.
pub proof fn lemma_complex_message_body_transparent<'a>(node: ComplexMessageBody<'a>)
    ensures
        match node {
            ComplexMessageBody::QuotedPattern(item) => node.preorder() == item.preorder() && node.spec_start()
                == item.spec_start() && node.spec_end() == item.spec_end(),
            ComplexMessageBody::Matcher(item) => node.preorder() == item.preorder() && node.spec_start()
                == item.spec_start() && node.spec_end() == item.spec_end(),
        },
{
}

/// The `Declaration` enum is transparent: span and visit order are those of
/// the active variant.
pub proof fn lemma_declaration_transparent<'a>(node: Declaration<'a>)
    ensures
        match node {
            Declaration::InputDeclaration(item) => node.preorder() == item.preorder() && node.spec_start()
                == item.spec_start() && node.spec_end() == item.spec_end(),
            Declaration::LocalDeclaration(item) => node.preorder() == item.preorder() && node.spec_start()
                == item.spec_start() && node.spec_end() == item.spec_end(),
            Declaration::ReservedStatement(item) => node.preorder() == item.preorder() && node.spec_start()
                == item.spec_start() && node.spec_end() == item.spec_end(),
        },
{
}

/// The `Key` enum is transparent: span and visit order are those of
/// the active variant.
pub proof fn lemma_key_transparent<'a>(node: Key<'a>)
    ensures
        match node {
            Key::Literal(item) => node.preorder() == item.preorder() && node.spec_start()
                == item.spec_start() && node.spec_end() == item.spec_end(),
            Key::Star(item) => node.preorder() == item.preorder() && node.spec_start()
                == item.spec_start() && node.spec_end() == item.spec_end(),
        },
{
}


// ---------------------------------------------------------------------------
// Number round-trip: a well-formed number literal is recovered exactly from
// its decomposed parts.
// ---------------------------------------------------------------------------

/// Concatenating the sign text, the integral digits, the fraction text
/// (decimal point and digits) and the exponent text (marker, sign and
/// digits) reconstructs the raw literal exactly. Where a fraction is
/// present, its text is its one-character separator followed by the
/// fractional digits; where an exponent is present, its text is the marker
/// and optional sign followed by the exponent digits.
pub proof fn lemma_number_round_trip<'a>(node: Number<'a>)
    requires
        node.wf(),
    ensures
        node.raw@ == node.spec_sign_text() + node.spec_integral_part() + node.spec_fraction_text()
            + node.spec_exponent_text(),
        node.fractional_len is Some ==> node.spec_fraction_text() == node.raw@.subrange(
            node.spec_sign_width() + node.integral_len@,
            node.spec_sign_width() + node.integral_len@ + 1,
        ) + node.spec_fractional_part(),
        node.exponent_len is Some ==> node.spec_exponent_text() == node.raw@.subrange(
            node.spec_sign_width() + node.integral_len@ + node.spec_fractional_width(),
            node.spec_sign_width() + node.integral_len@ + node.spec_fractional_width() + 1
                + node.spec_exponent_sign_width(),
        ) + node.spec_exponent_part(),
{
    assert(node.raw@ =~= node.spec_sign_text() + node.spec_integral_part()
        + node.spec_fraction_text() + node.spec_exponent_text());
    if node.fractional_len is Some {
        assert(node.spec_fraction_text() =~= node.raw@.subrange(
            node.spec_sign_width() + node.integral_len@,
            node.spec_sign_width() + node.integral_len@ + 1,
        ) + node.spec_fractional_part());
    }
    if node.exponent_len is Some {
        assert(node.spec_exponent_text() =~= node.raw@.subrange(
            node.spec_sign_width() + node.integral_len@ + node.spec_fractional_width(),
            node.spec_sign_width() + node.integral_len@ + node.spec_fractional_width() + 1
                + node.spec_exponent_sign_width(),
        ) + node.spec_exponent_part());
    }
}

} // verus!
