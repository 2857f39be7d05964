//! The double-dispatch visitor protocol: every node can hand itself to the
//! callback of a visitor that matches its own concrete type, and can hand
//! each of its structural children to the visitor in source order.
//!
//! Recursion is the walker's own choice: a callback that wants a subtree
//! calls `apply_visitor_to_children` on the node it was handed; one that
//! wants to skip it simply returns. The wrapper enums are transparent in the
//! dispatch chain: they forward both operations to the active variant and
//! never raise an event of their own.
//!
//! The order in which a full recursive traversal reaches the nodes is
//! specified by `preorder`: one entry per node, parent first, children in
//! source order. The verified walker [`preorder_kinds`] realizes exactly
//! that order.

use crate::ast::Annotation;
use crate::ast::AnnotationExpression;
use crate::ast::Attribute;
use crate::ast::ComplexMessage;
use crate::ast::ComplexMessageBody;
use crate::ast::Declaration;
use crate::ast::Escape;
use crate::ast::Expression;
use crate::ast::FnOrMarkupOption;
use crate::ast::Function;
use crate::ast::Identifier;
use crate::ast::InputDeclaration;
use crate::ast::Key;
use crate::ast::Literal;
use crate::ast::LiteralExpression;
use crate::ast::LiteralOrVariable;
use crate::ast::LocalDeclaration;
use crate::ast::Markup;
use crate::ast::Matcher;
use crate::ast::Message;
use crate::ast::Number;
use crate::ast::Pattern;
use crate::ast::PatternPart;
use crate::ast::PrivateUseAnnotation;
use crate::ast::Quoted;
use crate::ast::QuotedPart;
use crate::ast::QuotedPattern;
use crate::ast::ReservedAnnotation;
use crate::ast::ReservedBodyPart;
use crate::ast::ReservedStatement;
use crate::ast::Star;
use crate::ast::Text;
use crate::ast::Variable;
use crate::ast::VariableExpression;
use crate::ast::Variant;
use vstd::prelude::*;

verus! {

/// One callback per concrete node type, each a no-op by default, so a
/// walker overrides only the node types it cares about. No callback exists
/// for the wrapper enums: they dispatch straight to the active variant.
pub trait Visit {
    fn visit_pattern(&mut self, node: &Pattern<'_>) {
        let _ = node;
    }

    fn visit_text(&mut self, node: &Text<'_>) {
        let _ = node;
    }

    fn visit_escape(&mut self, node: &Escape) {
        let _ = node;
    }

    fn visit_literal_expression(&mut self, node: &LiteralExpression<'_>) {
        let _ = node;
    }

    fn visit_variable_expression(&mut self, node: &VariableExpression<'_>) {
        let _ = node;
    }

    fn visit_variable(&mut self, node: &Variable<'_>) {
        let _ = node;
    }

    fn visit_annotation_expression(&mut self, node: &AnnotationExpression<'_>) {
        let _ = node;
    }

    fn visit_identifier(&mut self, node: &Identifier<'_>) {
        let _ = node;
    }

    fn visit_function(&mut self, node: &Function<'_>) {
        let _ = node;
    }

    fn visit_fn_or_markup_option(&mut self, node: &FnOrMarkupOption<'_>) {
        let _ = node;
    }

    fn visit_attribute(&mut self, node: &Attribute<'_>) {
        let _ = node;
    }

    fn visit_private_use_annotation(&mut self, node: &PrivateUseAnnotation<'_>) {
        let _ = node;
    }

    fn visit_reserved_annotation(&mut self, node: &ReservedAnnotation<'_>) {
        let _ = node;
    }

    fn visit_quoted(&mut self, node: &Quoted<'_>) {
        let _ = node;
    }

    fn visit_number(&mut self, node: &Number<'_>) {
        let _ = node;
    }

    fn visit_markup(&mut self, node: &Markup<'_>) {
        let _ = node;
    }

    fn visit_complex_message(&mut self, node: &ComplexMessage<'_>) {
        let _ = node;
    }

    fn visit_input_declaration(&mut self, node: &InputDeclaration<'_>) {
        let _ = node;
    }

    fn visit_local_declaration(&mut self, node: &LocalDeclaration<'_>) {
        let _ = node;
    }

    fn visit_reserved_statement(&mut self, node: &ReservedStatement<'_>) {
        let _ = node;
    }

    fn visit_quoted_pattern(&mut self, node: &QuotedPattern<'_>) {
        let _ = node;
    }

    fn visit_matcher(&mut self, node: &Matcher<'_>) {
        let _ = node;
    }

    fn visit_variant(&mut self, node: &Variant<'_>) {
        let _ = node;
    }

    fn visit_star(&mut self, node: &Star) {
        let _ = node;
    }
}

/// The "visit self" / "visit children" capability every node and wrapper
/// enum implements.
pub trait Visitable {
    /// Invokes the one callback of `visitor` that matches this node's
    /// concrete type. A wrapper enum forwards to the active variant's
    /// callback instead of raising an event of its own.
    fn apply_visitor<V: Visit>(&self, visitor: &mut V);

    /// Invokes `apply_visitor` on every structural child, in source order;
    /// does nothing for a leaf.
    fn apply_visitor_to_children<V: Visit>(&self, visitor: &mut V);
}

/// The concrete type of one node, as reported by a full traversal. Wrapper
/// enums are transparent and never appear.
#[derive(Debug, Clone, Copy, PartialEq, Eq, Structural)]
pub enum NodeKind {
    Pattern,
    Text,
    Escape,
    LiteralExpression,
    VariableExpression,
    Variable,
    AnnotationExpression,
    Identifier,
    Function,
    FnOrMarkupOption,
    Attribute,
    PrivateUseAnnotation,
    ReservedAnnotation,
    Quoted,
    Number,
    Markup,
    ComplexMessage,
    InputDeclaration,
    LocalDeclaration,
    ReservedStatement,
    QuotedPattern,
    Matcher,
    Variant,
    Star,
}

pub open spec fn preorder_pattern_parts<'a>(parts: Seq<PatternPart<'a>>) -> Seq<NodeKind>
    decreases parts.len(),
{
    if parts.len() == 0 {
        Seq::empty()
    } else {
        preorder_pattern_parts(parts.drop_last()) + parts.last().preorder()
    }
}

pub open spec fn preorder_attributes<'a>(attributes: Seq<Attribute<'a>>) -> Seq<NodeKind>
    decreases attributes.len(),
{
    if attributes.len() == 0 {
        Seq::empty()
    } else {
        preorder_attributes(attributes.drop_last()) + attributes.last().preorder()
    }
}

pub open spec fn preorder_options<'a>(options: Seq<FnOrMarkupOption<'a>>) -> Seq<NodeKind>
    decreases options.len(),
{
    if options.len() == 0 {
        Seq::empty()
    } else {
        preorder_options(options.drop_last()) + options.last().preorder()
    }
}

pub open spec fn preorder_reserved_body<'a>(body: Seq<ReservedBodyPart<'a>>) -> Seq<NodeKind>
    decreases body.len(),
{
    if body.len() == 0 {
        Seq::empty()
    } else {
        preorder_reserved_body(body.drop_last()) + body.last().preorder()
    }
}

pub open spec fn preorder_expressions<'a>(expressions: Seq<Expression<'a>>) -> Seq<NodeKind>
    decreases expressions.len(),
{
    if expressions.len() == 0 {
        Seq::empty()
    } else {
        preorder_expressions(expressions.drop_last()) + expressions.last().preorder()
    }
}

pub open spec fn preorder_declarations<'a>(declarations: Seq<Declaration<'a>>) -> Seq<NodeKind>
    decreases declarations.len(),
{
    if declarations.len() == 0 {
        Seq::empty()
    } else {
        preorder_declarations(declarations.drop_last()) + declarations.last().preorder()
    }
}

pub open spec fn preorder_quoted_parts<'a>(parts: Seq<QuotedPart<'a>>) -> Seq<NodeKind>
    decreases parts.len(),
{
    if parts.len() == 0 {
        Seq::empty()
    } else {
        preorder_quoted_parts(parts.drop_last()) + parts.last().preorder()
    }
}

pub open spec fn preorder_variants<'a>(variants: Seq<Variant<'a>>) -> Seq<NodeKind>
    decreases variants.len(),
{
    if variants.len() == 0 {
        Seq::empty()
    } else {
        preorder_variants(variants.drop_last()) + variants.last().preorder()
    }
}

pub open spec fn preorder_keys<'a>(keys: Seq<Key<'a>>) -> Seq<NodeKind>
    decreases keys.len(),
{
    if keys.len() == 0 {
        Seq::empty()
    } else {
        preorder_keys(keys.drop_last()) + keys.last().preorder()
    }
}

impl<'a> Message<'a> {
    /// The order a full recursive traversal reaches the nodes of this
    /// message: every node exactly once, parent before children, children
    /// in source order, wrapper enums transparent.
    pub open spec fn preorder(self) -> Seq<NodeKind> {
        match self {
            Message::Simple(pattern) => pattern.preorder(),
            Message::Complex(complex) => complex.preorder(),
        }
    }
}

impl<'a> Pattern<'a> {
    pub open spec fn preorder(self) -> Seq<NodeKind> {
        seq![NodeKind::Pattern] + preorder_pattern_parts(self.parts@)
    }
}

impl<'a> PatternPart<'a> {
    pub open spec fn preorder(self) -> Seq<NodeKind> {
        match self {
            PatternPart::Text(item) => item.preorder(),
            PatternPart::Escape(item) => item.preorder(),
            PatternPart::Expression(item) => item.preorder(),
            PatternPart::Markup(item) => item.preorder(),
        }
    }
}

impl<'a> Text<'a> {
    pub open spec fn preorder(self) -> Seq<NodeKind> {
        seq![NodeKind::Text]
    }
}

impl Escape {
    pub open spec fn preorder(self) -> Seq<NodeKind> {
        seq![NodeKind::Escape]
    }
}

impl<'a> Expression<'a> {
    pub open spec fn preorder(self) -> Seq<NodeKind> {
        match self {
            Expression::LiteralExpression(item) => item.preorder(),
            Expression::VariableExpression(item) => item.preorder(),
            Expression::AnnotationExpression(item) => item.preorder(),
        }
    }
}

impl<'a> LiteralExpression<'a> {
    pub open spec fn preorder(self) -> Seq<NodeKind> {
        seq![NodeKind::LiteralExpression] + self.literal.preorder() + (match self.annotation {
            Some(annotation) => annotation.preorder(),
            None => Seq::empty(),
        }) + preorder_attributes(self.attributes@)
    }
}

impl<'a> VariableExpression<'a> {
    pub open spec fn preorder(self) -> Seq<NodeKind> {
        seq![NodeKind::VariableExpression] + self.variable.preorder() + (match self.annotation {
            Some(annotation) => annotation.preorder(),
            None => Seq::empty(),
        }) + preorder_attributes(self.attributes@)
    }
}

impl<'a> Variable<'a> {
    pub open spec fn preorder(self) -> Seq<NodeKind> {
        seq![NodeKind::Variable]
    }
}

impl<'a> AnnotationExpression<'a> {
    pub open spec fn preorder(self) -> Seq<NodeKind> {
        seq![NodeKind::AnnotationExpression] + self.annotation.preorder() + preorder_attributes(
            self.attributes@,
        )
    }
}

impl<'a> Annotation<'a> {
    pub open spec fn preorder(self) -> Seq<NodeKind> {
        match self {
            Annotation::Function(item) => item.preorder(),
            Annotation::PrivateUseAnnotation(item) => item.preorder(),
            Annotation::ReservedAnnotation(item) => item.preorder(),
        }
    }
}

impl<'a> Identifier<'a> {
    pub open spec fn preorder(self) -> Seq<NodeKind> {
        seq![NodeKind::Identifier]
    }
}

impl<'a> Function<'a> {
    pub open spec fn preorder(self) -> Seq<NodeKind> {
        seq![NodeKind::Function] + self.id.preorder() + preorder_options(self.options@)
    }
}

impl<'a> FnOrMarkupOption<'a> {
    pub open spec fn preorder(self) -> Seq<NodeKind> {
        seq![NodeKind::FnOrMarkupOption] + self.key.preorder() + self.value.preorder()
    }
}

impl<'a> Attribute<'a> {
    pub open spec fn preorder(self) -> Seq<NodeKind> {
        seq![NodeKind::Attribute] + self.key.preorder() + (match self.value {
            Some(value) => value.preorder(),
            None => Seq::empty(),
        })
    }
}

impl<'a> LiteralOrVariable<'a> {
    pub open spec fn preorder(self) -> Seq<NodeKind> {
        match self {
            LiteralOrVariable::Literal(item) => item.preorder(),
            LiteralOrVariable::Variable(item) => item.preorder(),
        }
    }
}

impl<'a> PrivateUseAnnotation<'a> {
    pub open spec fn preorder(self) -> Seq<NodeKind> {
        seq![NodeKind::PrivateUseAnnotation] + preorder_reserved_body(self.body@)
    }
}

impl<'a> ReservedAnnotation<'a> {
    pub open spec fn preorder(self) -> Seq<NodeKind> {
        seq![NodeKind::ReservedAnnotation] + preorder_reserved_body(self.body@)
    }
}

impl<'a> ReservedBodyPart<'a> {
    pub open spec fn preorder(self) -> Seq<NodeKind> {
        match self {
            ReservedBodyPart::Text(item) => item.preorder(),
            ReservedBodyPart::Escape(item) => item.preorder(),
            ReservedBodyPart::Quoted(item) => item.preorder(),
        }
    }
}

impl<'a> Literal<'a> {
    pub open spec fn preorder(self) -> Seq<NodeKind> {
        match self {
            Literal::Quoted(item) => item.preorder(),
            Literal::Text(item) => item.preorder(),
            Literal::Number(item) => item.preorder(),
        }
    }
}

impl<'a> Quoted<'a> {
    pub open spec fn preorder(self) -> Seq<NodeKind> {
        seq![NodeKind::Quoted] + preorder_quoted_parts(self.parts@)
    }
}

impl<'a> QuotedPart<'a> {
    pub open spec fn preorder(self) -> Seq<NodeKind> {
        match self {
            QuotedPart::Text(item) => item.preorder(),
            QuotedPart::Escape(item) => item.preorder(),
        }
    }
}

impl<'a> Number<'a> {
    pub open spec fn preorder(self) -> Seq<NodeKind> {
        seq![NodeKind::Number]
    }
}

impl<'a> Markup<'a> {
    pub open spec fn preorder(self) -> Seq<NodeKind> {
        seq![NodeKind::Markup] + self.id.preorder() + preorder_options(self.options@)
            + preorder_attributes(self.attributes@)
    }
}

impl<'a> ComplexMessage<'a> {
    pub open spec fn preorder(self) -> Seq<NodeKind> {
        seq![NodeKind::ComplexMessage] + preorder_declarations(self.declarations@)
            + self.body.preorder()
    }
}

impl<'a> Declaration<'a> {
    pub open spec fn preorder(self) -> Seq<NodeKind> {
        match self {
            Declaration::InputDeclaration(item) => item.preorder(),
            Declaration::LocalDeclaration(item) => item.preorder(),
            Declaration::ReservedStatement(item) => item.preorder(),
        }
    }
}

impl<'a> InputDeclaration<'a> {
    pub open spec fn preorder(self) -> Seq<NodeKind> {
        seq![NodeKind::InputDeclaration] + self.expression.preorder()
    }
}

impl<'a> LocalDeclaration<'a> {
    pub open spec fn preorder(self) -> Seq<NodeKind> {
        seq![NodeKind::LocalDeclaration] + self.variable.preorder() + self.expression.preorder()
    }
}

impl<'a> ReservedStatement<'a> {
    pub open spec fn preorder(self) -> Seq<NodeKind> {
        seq![NodeKind::ReservedStatement] + preorder_reserved_body(self.body@)
            + preorder_expressions(self.expressions@)
    }
}

impl<'a> ComplexMessageBody<'a> {
    pub open spec fn preorder(self) -> Seq<NodeKind> {
        match self {
            ComplexMessageBody::QuotedPattern(item) => item.preorder(),
            ComplexMessageBody::Matcher(item) => item.preorder(),
        }
    }
}

impl<'a> QuotedPattern<'a> {
    pub open spec fn preorder(self) -> Seq<NodeKind> {
        seq![NodeKind::QuotedPattern] + self.pattern.preorder()
    }
}

impl<'a> Matcher<'a> {
    pub open spec fn preorder(self) -> Seq<NodeKind> {
        seq![NodeKind::Matcher] + preorder_expressions(self.selectors@) + preorder_variants(
            self.variants@,
        )
    }
}

impl<'a> Variant<'a> {
    pub open spec fn preorder(self) -> Seq<NodeKind> {
        seq![NodeKind::Variant] + preorder_keys(self.keys@) + self.pattern.preorder()
    }
}

impl<'a> Key<'a> {
    pub open spec fn preorder(self) -> Seq<NodeKind> {
        match self {
            Key::Literal(item) => item.preorder(),
            Key::Star(item) => item.preorder(),
        }
    }
}

impl Star {
    pub open spec fn preorder(self) -> Seq<NodeKind> {
        seq![NodeKind::Star]
    }
}

/// Hands every item of `items` to the visitor in order, each through its
/// own `apply_visitor`.
fn apply_to_each<T: Visitable, V: Visit>(items: &Vec<T>, visitor: &mut V) {
    let n = items.len();
    let mut i: usize = 0;
    while i < n
        invariant
            i <= n,
            n == items@.len(),
        decreases n - i,
    {
        items[i].apply_visitor(visitor);
        i += 1;
    }
}

impl<'a> Visitable for Pattern<'a> {
    fn apply_visitor<V: Visit>(&self, visitor: &mut V) {
        visitor.visit_pattern(self);
    }

    fn apply_visitor_to_children<V: Visit>(&self, visitor: &mut V) {
        apply_to_each(&self.parts, visitor);
    }
}

impl<'a> Visitable for Text<'a> {
    fn apply_visitor<V: Visit>(&self, visitor: &mut V) {
        visitor.visit_text(self);
    }

    fn apply_visitor_to_children<V: Visit>(&self, visitor: &mut V) {
        let _ = visitor;
    }
}

impl Visitable for Escape {
    fn apply_visitor<V: Visit>(&self, visitor: &mut V) {
        visitor.visit_escape(self);
    }

    fn apply_visitor_to_children<V: Visit>(&self, visitor: &mut V) {
        let _ = visitor;
    }
}

impl<'a> Visitable for LiteralExpression<'a> {
    fn apply_visitor<V: Visit>(&self, visitor: &mut V) {
        visitor.visit_literal_expression(self);
    }

    fn apply_visitor_to_children<V: Visit>(&self, visitor: &mut V) {
        self.literal.apply_visitor(visitor);
        if let Some(annotation) = &self.annotation {
            annotation.apply_visitor(visitor);
        }
        apply_to_each(&self.attributes, visitor);
    }
}

impl<'a> Visitable for VariableExpression<'a> {
    fn apply_visitor<V: Visit>(&self, visitor: &mut V) {
        visitor.visit_variable_expression(self);
    }

    fn apply_visitor_to_children<V: Visit>(&self, visitor: &mut V) {
        self.variable.apply_visitor(visitor);
        if let Some(annotation) = &self.annotation {
            annotation.apply_visitor(visitor);
        }
        apply_to_each(&self.attributes, visitor);
    }
}

impl<'a> Visitable for Variable<'a> {
    fn apply_visitor<V: Visit>(&self, visitor: &mut V) {
        visitor.visit_variable(self);
    }

    fn apply_visitor_to_children<V: Visit>(&self, visitor: &mut V) {
        let _ = visitor;
    }
}

impl<'a> Visitable for AnnotationExpression<'a> {
    fn apply_visitor<V: Visit>(&self, visitor: &mut V) {
        visitor.visit_annotation_expression(self);
    }

    fn apply_visitor_to_children<V: Visit>(&self, visitor: &mut V) {
        self.annotation.apply_visitor(visitor);
        apply_to_each(&self.attributes, visitor);
    }
}

impl<'a> Visitable for Identifier<'a> {
    fn apply_visitor<V: Visit>(&self, visitor: &mut V) {
        visitor.visit_identifier(self);
    }

    fn apply_visitor_to_children<V: Visit>(&self, visitor: &mut V) {
        let _ = visitor;
    }
}

impl<'a> Visitable for Function<'a> {
    fn apply_visitor<V: Visit>(&self, visitor: &mut V) {
        visitor.visit_function(self);
    }

    fn apply_visitor_to_children<V: Visit>(&self, visitor: &mut V) {
        self.id.apply_visitor(visitor);
        apply_to_each(&self.options, visitor);
    }
}

impl<'a> Visitable for FnOrMarkupOption<'a> {
    fn apply_visitor<V: Visit>(&self, visitor: &mut V) {
        visitor.visit_fn_or_markup_option(self);
    }

    fn apply_visitor_to_children<V: Visit>(&self, visitor: &mut V) {
        self.key.apply_visitor(visitor);
        self.value.apply_visitor(visitor);
    }
}

impl<'a> Visitable for Attribute<'a> {
    fn apply_visitor<V: Visit>(&self, visitor: &mut V) {
        visitor.visit_attribute(self);
    }

    fn apply_visitor_to_children<V: Visit>(&self, visitor: &mut V) {
        self.key.apply_visitor(visitor);
        if let Some(value) = &self.value {
            value.apply_visitor(visitor);
        }
    }
}

impl<'a> Visitable for PrivateUseAnnotation<'a> {
    fn apply_visitor<V: Visit>(&self, visitor: &mut V) {
        visitor.visit_private_use_annotation(self);
    }

    fn apply_visitor_to_children<V: Visit>(&self, visitor: &mut V) {
        apply_to_each(&self.body, visitor);
    }
}

impl<'a> Visitable for ReservedAnnotation<'a> {
    fn apply_visitor<V: Visit>(&self, visitor: &mut V) {
        visitor.visit_reserved_annotation(self);
    }

    fn apply_visitor_to_children<V: Visit>(&self, visitor: &mut V) {
        apply_to_each(&self.body, visitor);
    }
}

impl<'a> Visitable for Quoted<'a> {
    fn apply_visitor<V: Visit>(&self, visitor: &mut V) {
        visitor.visit_quoted(self);
    }

    fn apply_visitor_to_children<V: Visit>(&self, visitor: &mut V) {
        apply_to_each(&self.parts, visitor);
    }
}

impl<'a> Visitable for Number<'a> {
    fn apply_visitor<V: Visit>(&self, visitor: &mut V) {
        visitor.visit_number(self);
    }

    fn apply_visitor_to_children<V: Visit>(&self, visitor: &mut V) {
        let _ = visitor;
    }
}

impl<'a> Visitable for Markup<'a> {
    fn apply_visitor<V: Visit>(&self, visitor: &mut V) {
        visitor.visit_markup(self);
    }

    fn apply_visitor_to_children<V: Visit>(&self, visitor: &mut V) {
        self.id.apply_visitor(visitor);
        apply_to_each(&self.options, visitor);
        apply_to_each(&self.attributes, visitor);
    }
}

impl<'a> Visitable for ComplexMessage<'a> {
    fn apply_visitor<V: Visit>(&self, visitor: &mut V) {
        visitor.visit_complex_message(self);
    }

    fn apply_visitor_to_children<V: Visit>(&self, visitor: &mut V) {
        apply_to_each(&self.declarations, visitor);
        self.body.apply_visitor(visitor);
    }
}

impl<'a> Visitable for InputDeclaration<'a> {
    fn apply_visitor<V: Visit>(&self, visitor: &mut V) {
        visitor.visit_input_declaration(self);
    }

    fn apply_visitor_to_children<V: Visit>(&self, visitor: &mut V) {
        self.expression.apply_visitor(visitor);
    }
}

impl<'a> Visitable for LocalDeclaration<'a> {
    fn apply_visitor<V: Visit>(&self, visitor: &mut V) {
        visitor.visit_local_declaration(self);
    }

    fn apply_visitor_to_children<V: Visit>(&self, visitor: &mut V) {
        self.variable.apply_visitor(visitor);
        self.expression.apply_visitor(visitor);
    }
}

impl<'a> Visitable for ReservedStatement<'a> {
    fn apply_visitor<V: Visit>(&self, visitor: &mut V) {
        visitor.visit_reserved_statement(self);
    }

    fn apply_visitor_to_children<V: Visit>(&self, visitor: &mut V) {
        apply_to_each(&self.body, visitor);
        apply_to_each(&self.expressions, visitor);
    }
}

impl<'a> Visitable for QuotedPattern<'a> {
    fn apply_visitor<V: Visit>(&self, visitor: &mut V) {
        visitor.visit_quoted_pattern(self);
    }

    fn apply_visitor_to_children<V: Visit>(&self, visitor: &mut V) {
        self.pattern.apply_visitor(visitor);
    }
}

impl<'a> Visitable for Matcher<'a> {
    fn apply_visitor<V: Visit>(&self, visitor: &mut V) {
        visitor.visit_matcher(self);
    }

    fn apply_visitor_to_children<V: Visit>(&self, visitor: &mut V) {
        apply_to_each(&self.selectors, visitor);
        apply_to_each(&self.variants, visitor);
    }
}

impl<'a> Visitable for Variant<'a> {
    fn apply_visitor<V: Visit>(&self, visitor: &mut V) {
        visitor.visit_variant(self);
    }

    fn apply_visitor_to_children<V: Visit>(&self, visitor: &mut V) {
        apply_to_each(&self.keys, visitor);
        self.pattern.apply_visitor(visitor);
    }
}

impl Visitable for Star {
    fn apply_visitor<V: Visit>(&self, visitor: &mut V) {
        visitor.visit_star(self);
    }

    fn apply_visitor_to_children<V: Visit>(&self, visitor: &mut V) {
        let _ = visitor;
    }
}

impl<'a> Visitable for Message<'a> {
    fn apply_visitor<V: Visit>(&self, visitor: &mut V) {
        match self {
            Message::Simple(item) => item.apply_visitor(visitor),
            Message::Complex(item) => item.apply_visitor(visitor),
        }
    }

    fn apply_visitor_to_children<V: Visit>(&self, visitor: &mut V) {
        match self {
            Message::Simple(item) => item.apply_visitor_to_children(visitor),
            Message::Complex(item) => item.apply_visitor_to_children(visitor),
        }
    }
}

impl<'a> Visitable for PatternPart<'a> {
    fn apply_visitor<V: Visit>(&self, visitor: &mut V) {
        match self {
            PatternPart::Text(item) => item.apply_visitor(visitor),
            PatternPart::Escape(item) => item.apply_visitor(visitor),
            PatternPart::Expression(item) => item.apply_visitor(visitor),
            PatternPart::Markup(item) => item.apply_visitor(visitor),
        }
    }

    fn apply_visitor_to_children<V: Visit>(&self, visitor: &mut V) {
        match self {
            PatternPart::Text(item) => item.apply_visitor_to_children(visitor),
            PatternPart::Escape(item) => item.apply_visitor_to_children(visitor),
            PatternPart::Expression(item) => item.apply_visitor_to_children(visitor),
            PatternPart::Markup(item) => item.apply_visitor_to_children(visitor),
        }
    }
}

impl<'a> Visitable for Expression<'a> {
    fn apply_visitor<V: Visit>(&self, visitor: &mut V) {
        match self {
            Expression::LiteralExpression(item) => item.apply_visitor(visitor),
            Expression::VariableExpression(item) => item.apply_visitor(visitor),
            Expression::AnnotationExpression(item) => item.apply_visitor(visitor),
        }
    }

    fn apply_visitor_to_children<V: Visit>(&self, visitor: &mut V) {
        match self {
            Expression::LiteralExpression(item) => item.apply_visitor_to_children(visitor),
            Expression::VariableExpression(item) => item.apply_visitor_to_children(visitor),
            Expression::AnnotationExpression(item) => item.apply_visitor_to_children(visitor),
        }
    }
}

impl<'a> Visitable for Annotation<'a> {
    fn apply_visitor<V: Visit>(&self, visitor: &mut V) {
        match self {
            Annotation::Function(item) => item.apply_visitor(visitor),
            Annotation::PrivateUseAnnotation(item) => item.apply_visitor(visitor),
            Annotation::ReservedAnnotation(item) => item.apply_visitor(visitor),
        }
    }

    fn apply_visitor_to_children<V: Visit>(&self, visitor: &mut V) {
        match self {
            Annotation::Function(item) => item.apply_visitor_to_children(visitor),
            Annotation::PrivateUseAnnotation(item) => item.apply_visitor_to_children(visitor),
            Annotation::ReservedAnnotation(item) => item.apply_visitor_to_children(visitor),
        }
    }
}

impl<'a> Visitable for LiteralOrVariable<'a> {
    fn apply_visitor<V: Visit>(&self, visitor: &mut V) {
        match self {
            LiteralOrVariable::Literal(item) => item.apply_visitor(visitor),
            LiteralOrVariable::Variable(item) => item.apply_visitor(visitor),
        }
    }

    fn apply_visitor_to_children<V: Visit>(&self, visitor: &mut V) {
        match self {
            LiteralOrVariable::Literal(item) => item.apply_visitor_to_children(visitor),
            LiteralOrVariable::Variable(item) => item.apply_visitor_to_children(visitor),
        }
    }
}

impl<'a> Visitable for ReservedBodyPart<'a> {
    fn apply_visitor<V: Visit>(&self, visitor: &mut V) {
        match self {
            ReservedBodyPart::Text(item) => item.apply_visitor(visitor),
            ReservedBodyPart::Escape(item) => item.apply_visitor(visitor),
            ReservedBodyPart::Quoted(item) => item.apply_visitor(visitor),
        }
    }

    fn apply_visitor_to_children<V: Visit>(&self, visitor: &mut V) {
        match self {
            ReservedBodyPart::Text(item) => item.apply_visitor_to_children(visitor),
            ReservedBodyPart::Escape(item) => item.apply_visitor_to_children(visitor),
            ReservedBodyPart::Quoted(item) => item.apply_visitor_to_children(visitor),
        }
    }
}

impl<'a> Visitable for Literal<'a> {
    fn apply_visitor<V: Visit>(&self, visitor: &mut V) {
        match self {
            Literal::Quoted(item) => item.apply_visitor(visitor),
            Literal::Text(item) => item.apply_visitor(visitor),
            Literal::Number(item) => item.apply_visitor(visitor),
        }
    }

    fn apply_visitor_to_children<V: Visit>(&self, visitor: &mut V) {
        match self {
            Literal::Quoted(item) => item.apply_visitor_to_children(visitor),
            Literal::Text(item) => item.apply_visitor_to_children(visitor),
            Literal::Number(item) => item.apply_visitor_to_children(visitor),
        }
    }
}

impl<'a> Visitable for QuotedPart<'a> {
    fn apply_visitor<V: Visit>(&self, visitor: &mut V) {
        match self {
            QuotedPart::Text(item) => item.apply_visitor(visitor),
            QuotedPart::Escape(item) => item.apply_visitor(visitor),
        }
    }

    fn apply_visitor_to_children<V: Visit>(&self, visitor: &mut V) {
        match self {
            QuotedPart::Text(item) => item.apply_visitor_to_children(visitor),
            QuotedPart::Escape(item) => item.apply_visitor_to_children(visitor),
        }
    }
}

impl<'a> Visitable for ComplexMessageBody<'a> {
    fn apply_visitor<V: Visit>(&self, visitor: &mut V) {
        match self {
            ComplexMessageBody::QuotedPattern(item) => item.apply_visitor(visitor),
            ComplexMessageBody::Matcher(item) => item.apply_visitor(visitor),
        }
    }

    fn apply_visitor_to_children<V: Visit>(&self, visitor: &mut V) {
        match self {
            ComplexMessageBody::QuotedPattern(item) => item.apply_visitor_to_children(visitor),
            ComplexMessageBody::Matcher(item) => item.apply_visitor_to_children(visitor),
        }
    }
}

impl<'a> Visitable for Declaration<'a> {
    fn apply_visitor<V: Visit>(&self, visitor: &mut V) {
        match self {
            Declaration::InputDeclaration(item) => item.apply_visitor(visitor),
            Declaration::LocalDeclaration(item) => item.apply_visitor(visitor),
            Declaration::ReservedStatement(item) => item.apply_visitor(visitor),
        }
    }

    fn apply_visitor_to_children<V: Visit>(&self, visitor: &mut V) {
        match self {
            Declaration::InputDeclaration(item) => item.apply_visitor_to_children(visitor),
            Declaration::LocalDeclaration(item) => item.apply_visitor_to_children(visitor),
            Declaration::ReservedStatement(item) => item.apply_visitor_to_children(visitor),
        }
    }
}

impl<'a> Visitable for Key<'a> {
    fn apply_visitor<V: Visit>(&self, visitor: &mut V) {
        match self {
            Key::Literal(item) => item.apply_visitor(visitor),
            Key::Star(item) => item.apply_visitor(visitor),
        }
    }

    fn apply_visitor_to_children<V: Visit>(&self, visitor: &mut V) {
        match self {
            Key::Literal(item) => item.apply_visitor_to_children(visitor),
            Key::Star(item) => item.apply_visitor_to_children(visitor),
        }
    }
}

fn collect_pattern_parts(items: &Vec<PatternPart<'_>>, out: &mut Vec<NodeKind>)
    ensures
        final(out)@ == old(out)@ + preorder_pattern_parts(items@),
{
    proof {
        assert(out@ =~= old(out)@ + preorder_pattern_parts(items@.take(0)));
    }
    let n = items.len();
    let mut i: usize = 0;
    while i < n
        invariant
            i <= n,
            n == items@.len(),
            out@ == old(out)@ + preorder_pattern_parts(items@.take(i as int)),
        decreases n - i,
    {
        collect_pattern_part(&items[i], out);
        proof {
            let taken = items@.take(i as int + 1);
            assert(taken.drop_last() =~= items@.take(i as int));
            assert(taken.last() == items@[i as int]);
            assert(out@ =~= old(out)@ + preorder_pattern_parts(taken));
        }
        i += 1;
    }
    proof {
        assert(items@.take(n as int) =~= items@);
    }
}

fn collect_attributes(items: &Vec<Attribute<'_>>, out: &mut Vec<NodeKind>)
    ensures
        final(out)@ == old(out)@ + preorder_attributes(items@),
{
    proof {
        assert(out@ =~= old(out)@ + preorder_attributes(items@.take(0)));
    }
    let n = items.len();
    let mut i: usize = 0;
    while i < n
        invariant
            i <= n,
            n == items@.len(),
            out@ == old(out)@ + preorder_attributes(items@.take(i as int)),
        decreases n - i,
    {
        collect_attribute(&items[i], out);
        proof {
            let taken = items@.take(i as int + 1);
            assert(taken.drop_last() =~= items@.take(i as int));
            assert(taken.last() == items@[i as int]);
            assert(out@ =~= old(out)@ + preorder_attributes(taken));
        }
        i += 1;
    }
    proof {
        assert(items@.take(n as int) =~= items@);
    }
}

fn collect_options(items: &Vec<FnOrMarkupOption<'_>>, out: &mut Vec<NodeKind>)
    ensures
        final(out)@ == old(out)@ + preorder_options(items@),
{
    proof {
        assert(out@ =~= old(out)@ + preorder_options(items@.take(0)));
    }
    let n = items.len();
    let mut i: usize = 0;
    while i < n
        invariant
            i <= n,
            n == items@.len(),
            out@ == old(out)@ + preorder_options(items@.take(i as int)),
        decreases n - i,
    {
        collect_fn_or_markup_option(&items[i], out);
        proof {
            let taken = items@.take(i as int + 1);
            assert(taken.drop_last() =~= items@.take(i as int));
            assert(taken.last() == items@[i as int]);
            assert(out@ =~= old(out)@ + preorder_options(taken));
        }
        i += 1;
    }
    proof {
        assert(items@.take(n as int) =~= items@);
    }
}

fn collect_reserved_body(items: &Vec<ReservedBodyPart<'_>>, out: &mut Vec<NodeKind>)
    ensures
        final(out)@ == old(out)@ + preorder_reserved_body(items@),
{
    proof {
        assert(out@ =~= old(out)@ + preorder_reserved_body(items@.take(0)));
    }
    let n = items.len();
    let mut i: usize = 0;
    while i < n
        invariant
            i <= n,
            n == items@.len(),
            out@ == old(out)@ + preorder_reserved_body(items@.take(i as int)),
        decreases n - i,
    {
        collect_reserved_body_part(&items[i], out);
        proof {
            let taken = items@.take(i as int + 1);
            assert(taken.drop_last() =~= items@.take(i as int));
            assert(taken.last() == items@[i as int]);
            assert(out@ =~= old(out)@ + preorder_reserved_body(taken));
        }
        i += 1;
    }
    proof {
        assert(items@.take(n as int) =~= items@);
    }
}

fn collect_expressions(items: &Vec<Expression<'_>>, out: &mut Vec<NodeKind>)
    ensures
        final(out)@ == old(out)@ + preorder_expressions(items@),
{
    proof {
        assert(out@ =~= old(out)@ + preorder_expressions(items@.take(0)));
    }
    let n = items.len();
    let mut i: usize = 0;
    while i < n
        invariant
            i <= n,
            n == items@.len(),
            out@ == old(out)@ + preorder_expressions(items@.take(i as int)),
        decreases n - i,
    {
        collect_expression(&items[i], out);
        proof {
            let taken = items@.take(i as int + 1);
            assert(taken.drop_last() =~= items@.take(i as int));
            assert(taken.last() == items@[i as int]);
            assert(out@ =~= old(out)@ + preorder_expressions(taken));
        }
        i += 1;
    }
    proof {
        assert(items@.take(n as int) =~= items@);
    }
}

fn collect_declarations(items: &Vec<Declaration<'_>>, out: &mut Vec<NodeKind>)
    ensures
        final(out)@ == old(out)@ + preorder_declarations(items@),
{
    proof {
        assert(out@ =~= old(out)@ + preorder_declarations(items@.take(0)));
    }
    let n = items.len();
    let mut i: usize = 0;
    while i < n
        invariant
            i <= n,
            n == items@.len(),
            out@ == old(out)@ + preorder_declarations(items@.take(i as int)),
        decreases n - i,
    {
        collect_declaration(&items[i], out);
        proof {
            let taken = items@.take(i as int + 1);
            assert(taken.drop_last() =~= items@.take(i as int));
            assert(taken.last() == items@[i as int]);
            assert(out@ =~= old(out)@ + preorder_declarations(taken));
        }
        i += 1;
    }
    proof {
        assert(items@.take(n as int) =~= items@);
    }
}

fn collect_quoted_parts(items: &Vec<QuotedPart<'_>>, out: &mut Vec<NodeKind>)
    ensures
        final(out)@ == old(out)@ + preorder_quoted_parts(items@),
{
    proof {
        assert(out@ =~= old(out)@ + preorder_quoted_parts(items@.take(0)));
    }
    let n = items.len();
    let mut i: usize = 0;
    while i < n
        invariant
            i <= n,
            n == items@.len(),
            out@ == old(out)@ + preorder_quoted_parts(items@.take(i as int)),
        decreases n - i,
    {
        collect_quoted_part(&items[i], out);
        proof {
            let taken = items@.take(i as int + 1);
            assert(taken.drop_last() =~= items@.take(i as int));
            assert(taken.last() == items@[i as int]);
            assert(out@ =~= old(out)@ + preorder_quoted_parts(taken));
        }
        i += 1;
    }
    proof {
        assert(items@.take(n as int) =~= items@);
    }
}

fn collect_variants(items: &Vec<Variant<'_>>, out: &mut Vec<NodeKind>)
    ensures
        final(out)@ == old(out)@ + preorder_variants(items@),
{
    proof {
        assert(out@ =~= old(out)@ + preorder_variants(items@.take(0)));
    }
    let n = items.len();
    let mut i: usize = 0;
    while i < n
        invariant
            i <= n,
            n == items@.len(),
            out@ == old(out)@ + preorder_variants(items@.take(i as int)),
        decreases n - i,
    {
        collect_variant(&items[i], out);
        proof {
            let taken = items@.take(i as int + 1);
            assert(taken.drop_last() =~= items@.take(i as int));
            assert(taken.last() == items@[i as int]);
            assert(out@ =~= old(out)@ + preorder_variants(taken));
        }
        i += 1;
    }
    proof {
        assert(items@.take(n as int) =~= items@);
    }
}

fn collect_keys(items: &Vec<Key<'_>>, out: &mut Vec<NodeKind>)
    ensures
        final(out)@ == old(out)@ + preorder_keys(items@),
{
    proof {
        assert(out@ =~= old(out)@ + preorder_keys(items@.take(0)));
    }
    let n = items.len();
    let mut i: usize = 0;
    while i < n
        invariant
            i <= n,
            n == items@.len(),
            out@ == old(out)@ + preorder_keys(items@.take(i as int)),
        decreases n - i,
    {
        collect_key(&items[i], out);
        proof {
            let taken = items@.take(i as int + 1);
            assert(taken.drop_last() =~= items@.take(i as int));
            assert(taken.last() == items@[i as int]);
            assert(out@ =~= old(out)@ + preorder_keys(taken));
        }
        i += 1;
    }
    proof {
        assert(items@.take(n as int) =~= items@);
    }
}

fn collect_pattern(node: &Pattern<'_>, out: &mut Vec<NodeKind>)
    ensures
        final(out)@ == old(out)@ + node.preorder(),
{
    out.push(NodeKind::Pattern);
    collect_pattern_parts(&node.parts, out);
    proof {
        assert(out@ =~= old(out)@ + node.preorder());
    }
}

fn collect_text(node: &Text<'_>, out: &mut Vec<NodeKind>)
    ensures
        final(out)@ == old(out)@ + node.preorder(),
{
    out.push(NodeKind::Text);
    proof {
        assert(out@ =~= old(out)@ + node.preorder());
    }
}

fn collect_escape(node: &Escape, out: &mut Vec<NodeKind>)
    ensures
        final(out)@ == old(out)@ + node.preorder(),
{
    out.push(NodeKind::Escape);
    proof {
        assert(out@ =~= old(out)@ + node.preorder());
    }
}

fn collect_literal_expression(node: &LiteralExpression<'_>, out: &mut Vec<NodeKind>)
    ensures
        final(out)@ == old(out)@ + node.preorder(),
{
    out.push(NodeKind::LiteralExpression);
    collect_literal(&node.literal, out);
    match &node.annotation {
        Some(annotation) => collect_annotation(annotation, out),
        None => (),
    }
    collect_attributes(&node.attributes, out);
    proof {
        assert(out@ =~= old(out)@ + node.preorder());
    }
}

fn collect_variable_expression(node: &VariableExpression<'_>, out: &mut Vec<NodeKind>)
    ensures
        final(out)@ == old(out)@ + node.preorder(),
{
    out.push(NodeKind::VariableExpression);
    collect_variable(&node.variable, out);
    match &node.annotation {
        Some(annotation) => collect_annotation(annotation, out),
        None => (),
    }
    collect_attributes(&node.attributes, out);
    proof {
        assert(out@ =~= old(out)@ + node.preorder());
    }
}

fn collect_variable(node: &Variable<'_>, out: &mut Vec<NodeKind>)
    ensures
        final(out)@ == old(out)@ + node.preorder(),
{
    out.push(NodeKind::Variable);
    proof {
        assert(out@ =~= old(out)@ + node.preorder());
    }
}

fn collect_annotation_expression(node: &AnnotationExpression<'_>, out: &mut Vec<NodeKind>)
    ensures
        final(out)@ == old(out)@ + node.preorder(),
{
    out.push(NodeKind::AnnotationExpression);
    collect_annotation(&node.annotation, out);
    collect_attributes(&node.attributes, out);
    proof {
        assert(out@ =~= old(out)@ + node.preorder());
    }
}

fn collect_identifier(node: &Identifier<'_>, out: &mut Vec<NodeKind>)
    ensures
        final(out)@ == old(out)@ + node.preorder(),
{
    out.push(NodeKind::Identifier);
    proof {
        assert(out@ =~= old(out)@ + node.preorder());
    }
}

fn collect_function(node: &Function<'_>, out: &mut Vec<NodeKind>)
    ensures
        final(out)@ == old(out)@ + node.preorder(),
{
    out.push(NodeKind::Function);
    collect_identifier(&node.id, out);
    collect_options(&node.options, out);
    proof {
        assert(out@ =~= old(out)@ + node.preorder());
    }
}

fn collect_fn_or_markup_option(node: &FnOrMarkupOption<'_>, out: &mut Vec<NodeKind>)
    ensures
        final(out)@ == old(out)@ + node.preorder(),
{
    out.push(NodeKind::FnOrMarkupOption);
    collect_identifier(&node.key, out);
    collect_literal_or_variable(&node.value, out);
    proof {
        assert(out@ =~= old(out)@ + node.preorder());
    }
}

fn collect_attribute(node: &Attribute<'_>, out: &mut Vec<NodeKind>)
    ensures
        final(out)@ == old(out)@ + node.preorder(),
{
    out.push(NodeKind::Attribute);
    collect_identifier(&node.key, out);
    match &node.value {
        Some(value) => collect_literal_or_variable(value, out),
        None => (),
    }
    proof {
        assert(out@ =~= old(out)@ + node.preorder());
    }
}

fn collect_private_use_annotation(node: &PrivateUseAnnotation<'_>, out: &mut Vec<NodeKind>)
    ensures
        final(out)@ == old(out)@ + node.preorder(),
{
    out.push(NodeKind::PrivateUseAnnotation);
    collect_reserved_body(&node.body, out);
    proof {
        assert(out@ =~= old(out)@ + node.preorder());
    }
}

fn collect_reserved_annotation(node: &ReservedAnnotation<'_>, out: &mut Vec<NodeKind>)
    ensures
        final(out)@ == old(out)@ + node.preorder(),
{
    out.push(NodeKind::ReservedAnnotation);
    collect_reserved_body(&node.body, out);
    proof {
        assert(out@ =~= old(out)@ + node.preorder());
    }
}

fn collect_quoted(node: &Quoted<'_>, out: &mut Vec<NodeKind>)
    ensures
        final(out)@ == old(out)@ + node.preorder(),
{
    out.push(NodeKind::Quoted);
    collect_quoted_parts(&node.parts, out);
    proof {
        assert(out@ =~= old(out)@ + node.preorder());
    }
}

fn collect_number(node: &Number<'_>, out: &mut Vec<NodeKind>)
    ensures
        final(out)@ == old(out)@ + node.preorder(),
{
    out.push(NodeKind::Number);
    proof {
        assert(out@ =~= old(out)@ + node.preorder());
    }
}

fn collect_markup(node: &Markup<'_>, out: &mut Vec<NodeKind>)
    ensures
        final(out)@ == old(out)@ + node.preorder(),
{
    out.push(NodeKind::Markup);
    collect_identifier(&node.id, out);
    collect_options(&node.options, out);
    collect_attributes(&node.attributes, out);
    proof {
        assert(out@ =~= old(out)@ + node.preorder());
    }
}

fn collect_complex_message(node: &ComplexMessage<'_>, out: &mut Vec<NodeKind>)
    ensures
        final(out)@ == old(out)@ + node.preorder(),
{
    out.push(NodeKind::ComplexMessage);
    collect_declarations(&node.declarations, out);
    collect_complex_message_body(&node.body, out);
    proof {
        assert(out@ =~= old(out)@ + node.preorder());
    }
}

fn collect_input_declaration(node: &InputDeclaration<'_>, out: &mut Vec<NodeKind>)
    ensures
        final(out)@ == old(out)@ + node.preorder(),
{
    out.push(NodeKind::InputDeclaration);
    collect_variable_expression(&node.expression, out);
    proof {
        assert(out@ =~= old(out)@ + node.preorder());
    }
}

fn collect_local_declaration(node: &LocalDeclaration<'_>, out: &mut Vec<NodeKind>)
    ensures
        final(out)@ == old(out)@ + node.preorder(),
{
    out.push(NodeKind::LocalDeclaration);
    collect_variable(&node.variable, out);
    collect_expression(&node.expression, out);
    proof {
        assert(out@ =~= old(out)@ + node.preorder());
    }
}

fn collect_reserved_statement(node: &ReservedStatement<'_>, out: &mut Vec<NodeKind>)
    ensures
        final(out)@ == old(out)@ + node.preorder(),
{
    out.push(NodeKind::ReservedStatement);
    collect_reserved_body(&node.body, out);
    collect_expressions(&node.expressions, out);
    proof {
        assert(out@ =~= old(out)@ + node.preorder());
    }
}

fn collect_quoted_pattern(node: &QuotedPattern<'_>, out: &mut Vec<NodeKind>)
    ensures
        final(out)@ == old(out)@ + node.preorder(),
{
    out.push(NodeKind::QuotedPattern);
    collect_pattern(&node.pattern, out);
    proof {
        assert(out@ =~= old(out)@ + node.preorder());
    }
}

fn collect_matcher(node: &Matcher<'_>, out: &mut Vec<NodeKind>)
    ensures
        final(out)@ == old(out)@ + node.preorder(),
{
    out.push(NodeKind::Matcher);
    collect_expressions(&node.selectors, out);
    collect_variants(&node.variants, out);
    proof {
        assert(out@ =~= old(out)@ + node.preorder());
    }
}

fn collect_variant(node: &Variant<'_>, out: &mut Vec<NodeKind>)
    ensures
        final(out)@ == old(out)@ + node.preorder(),
{
    out.push(NodeKind::Variant);
    collect_keys(&node.keys, out);
    collect_quoted_pattern(&node.pattern, out);
    proof {
        assert(out@ =~= old(out)@ + node.preorder());
    }
}

fn collect_star(node: &Star, out: &mut Vec<NodeKind>)
    ensures
        final(out)@ == old(out)@ + node.preorder(),
{
    out.push(NodeKind::Star);
    proof {
        assert(out@ =~= old(out)@ + node.preorder());
    }
}

fn collect_message(node: &Message<'_>, out: &mut Vec<NodeKind>)
    ensures
        final(out)@ == old(out)@ + node.preorder(),
{
    match node {
        Message::Simple(item) => collect_pattern(item, out),
        Message::Complex(item) => collect_complex_message(item, out),
    }
}

fn collect_pattern_part(node: &PatternPart<'_>, out: &mut Vec<NodeKind>)
    ensures
        final(out)@ == old(out)@ + node.preorder(),
{
    match node {
        PatternPart::Text(item) => collect_text(item, out),
        PatternPart::Escape(item) => collect_escape(item, out),
        PatternPart::Expression(item) => collect_expression(item, out),
        PatternPart::Markup(item) => collect_markup(item, out),
    }
}

fn collect_expression(node: &Expression<'_>, out: &mut Vec<NodeKind>)
    ensures
        final(out)@ == old(out)@ + node.preorder(),
{
    match node {
        Expression::LiteralExpression(item) => collect_literal_expression(item, out),
        Expression::VariableExpression(item) => collect_variable_expression(item, out),
        Expression::AnnotationExpression(item) => collect_annotation_expression(item, out),
    }
}

fn collect_annotation(node: &Annotation<'_>, out: &mut Vec<NodeKind>)
    ensures
        final(out)@ == old(out)@ + node.preorder(),
{
    match node {
        Annotation::Function(item) => collect_function(item, out),
        Annotation::PrivateUseAnnotation(item) => collect_private_use_annotation(item, out),
        Annotation::ReservedAnnotation(item) => collect_reserved_annotation(item, out),
    }
}

fn collect_literal_or_variable(node: &LiteralOrVariable<'_>, out: &mut Vec<NodeKind>)
    ensures
        final(out)@ == old(out)@ + node.preorder(),
{
    match node {
        LiteralOrVariable::Literal(item) => collect_literal(item, out),
        LiteralOrVariable::Variable(item) => collect_variable(item, out),
    }
}

fn collect_reserved_body_part(node: &ReservedBodyPart<'_>, out: &mut Vec<NodeKind>)
    ensures
        final(out)@ == old(out)@ + node.preorder(),
{
    match node {
        ReservedBodyPart::Text(item) => collect_text(item, out),
        ReservedBodyPart::Escape(item) => collect_escape(item, out),
        ReservedBodyPart::Quoted(item) => collect_quoted(item, out),
    }
}

fn collect_literal(node: &Literal<'_>, out: &mut Vec<NodeKind>)
    ensures
        final(out)@ == old(out)@ + node.preorder(),
{
    match node {
        Literal::Quoted(item) => collect_quoted(item, out),
        Literal::Text(item) => collect_text(item, out),
        Literal::Number(item) => collect_number(item, out),
    }
}

fn collect_quoted_part(node: &QuotedPart<'_>, out: &mut Vec<NodeKind>)
    ensures
        final(out)@ == old(out)@ + node.preorder(),
{
    match node {
        QuotedPart::Text(item) => collect_text(item, out),
        QuotedPart::Escape(item) => collect_escape(item, out),
    }
}

fn collect_complex_message_body(node: &ComplexMessageBody<'_>, out: &mut Vec<NodeKind>)
    ensures
        final(out)@ == old(out)@ + node.preorder(),
{
    match node {
        ComplexMessageBody::QuotedPattern(item) => collect_quoted_pattern(item, out),
        ComplexMessageBody::Matcher(item) => collect_matcher(item, out),
    }
}

fn collect_declaration(node: &Declaration<'_>, out: &mut Vec<NodeKind>)
    ensures
        final(out)@ == old(out)@ + node.preorder(),
{
    match node {
        Declaration::InputDeclaration(item) => collect_input_declaration(item, out),
        Declaration::LocalDeclaration(item) => collect_local_declaration(item, out),
        Declaration::ReservedStatement(item) => collect_reserved_statement(item, out),
    }
}

fn collect_key(node: &Key<'_>, out: &mut Vec<NodeKind>)
    ensures
        final(out)@ == old(out)@ + node.preorder(),
{
    match node {
        Key::Literal(item) => collect_literal(item, out),
        Key::Star(item) => collect_star(item, out),
    }
}

/// The full recursive traversal of a message, realized by the library
/// itself: one entry per node, parent before children, children in source
/// order, each node exactly once, wrapper enums transparent. The result is
/// exactly the `preorder` specification of the message.
pub fn preorder_kinds(message: &Message<'_>) -> (r: Vec<NodeKind>)
    ensures
        r@ == message.preorder(),
{
    let mut out: Vec<NodeKind> = Vec::new();
    collect_message(message, &mut out);
    proof {
        assert(out@ =~= message.preorder());
    }
    out
}

} // verus!
