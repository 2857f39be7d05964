//! The node catalog: every construct of the message grammar as an immutable
//! value object that borrows its text from one source buffer, together with
//! the span each node occupies.
//!
//! Spans are either stored (handed over by the parser at construction) or
//! derived from a start position and the node's parts. Each node carries a
//! well-formedness predicate `wf` stating the invariants the parser
//! establishes: spans run forward, parts lie behind their introducing
//! keyword or sigil in source order, and all offsets fit the source buffer.
//! Under `wf`, every `span` call returns the exact range the node occupies,
//! and that range always satisfies `start <= end`.

use crate::util::LengthShort;
use crate::util::Location;
use crate::util::Span;
use vstd::prelude::*;

verus! {

/// A whole message: either a bare pattern or a complex message with
/// declarations and a quoted body or matcher.
#[derive(Debug, Clone)]
pub enum Message<'a> {
    Simple(Pattern<'a>),
    Complex(ComplexMessage<'a>),
}

impl<'a> Message<'a> {
    pub open spec fn wf(self) -> bool {
        match self {
            Message::Simple(pattern) => pattern.wf(),
            Message::Complex(complex) => complex.wf(),
        }
    }

    pub open spec fn spec_start(self) -> int {
        match self {
            Message::Simple(pattern) => pattern.spec_start(),
            Message::Complex(complex) => complex.spec_start(),
        }
    }

    pub open spec fn spec_end(self) -> int {
        match self {
            Message::Simple(pattern) => pattern.spec_end(),
            Message::Complex(complex) => complex.spec_end(),
        }
    }

    /// The span of the active variant.
    pub fn span(&self) -> (r: Span)
        requires
            self.wf(),
        ensures
            r.start@ == self.spec_start(),
            r.end@ == self.spec_end(),
            r.start@ <= r.end@,
    {
        match self {
            Message::Simple(pattern) => pattern.span(),
            Message::Complex(complex) => complex.span(),
        }
    }
}

/// An ordered run of literal text, escapes, expressions and markup forming
/// one renderable message body.
#[derive(Debug, Clone)]
pub struct Pattern<'a> {
    pub parts: Vec<PatternPart<'a>>,
}

impl<'a> Pattern<'a> {
    /// Every part is well formed and the parts appear in source order,
    /// without overlap.
    pub open spec fn wf(self) -> bool {
        &&& forall|i: int| 0 <= i < self.parts@.len() ==> (#[trigger] self.parts@[i]).wf()
        &&& forall|i: int, j: int|
            #![trigger self.parts@[i], self.parts@[j]]
            0 <= i < j < self.parts@.len() ==> self.parts@[i].spec_end()
                <= self.parts@[j].spec_start()
    }

    /// With at least one part, where the first part starts; with none, the
    /// sentinel position.
    pub open spec fn spec_start(self) -> int {
        if self.parts@.len() == 0 {
            u32::MAX as int
        } else {
            self.parts@.first().spec_start()
        }
    }

    /// With at least one part, where the last part ends; with none, the
    /// sentinel position.
    pub open spec fn spec_end(self) -> int {
        if self.parts@.len() == 0 {
            u32::MAX as int
        } else {
            self.parts@.last().spec_end()
        }
    }

    /// The covering span of the parts, first start to last end. A pattern
    /// with no parts reports the degenerate span from the sentinel position
    /// to itself.
    pub fn span(&self) -> (r: Span)
        requires
            self.wf(),
        ensures
            r.start@ == self.spec_start(),
            r.end@ == self.spec_end(),
            r.start@ <= r.end@,
    {
        let n = self.parts.len();
        if n == 0 {
            Span::new(Location::dummy(), Location::dummy())
        } else {
            let first = self.parts[0].span();
            let last = self.parts[n - 1].span();
            Span::new(first.start, last.end)
        }
    }
}

/// One element of a pattern. The enum is a transparent wrapper: span and
/// visitation forward to the active variant.
#[derive(Debug, Clone)]
pub enum PatternPart<'a> {
    Text(Text<'a>),
    Escape(Escape),
    Expression(Expression<'a>),
    Markup(Markup<'a>),
}

impl<'a> PatternPart<'a> {
    pub open spec fn wf(self) -> bool {
        match self {
            PatternPart::Text(item) => item.wf(),
            PatternPart::Escape(item) => item.wf(),
            PatternPart::Expression(item) => item.wf(),
            PatternPart::Markup(item) => item.wf(),
        }
    }

    pub open spec fn spec_start(self) -> int {
        match self {
            PatternPart::Text(item) => item.spec_start(),
            PatternPart::Escape(item) => item.spec_start(),
            PatternPart::Expression(item) => item.spec_start(),
            PatternPart::Markup(item) => item.spec_start(),
        }
    }

    pub open spec fn spec_end(self) -> int {
        match self {
            PatternPart::Text(item) => item.spec_end(),
            PatternPart::Escape(item) => item.spec_end(),
            PatternPart::Expression(item) => item.spec_end(),
            PatternPart::Markup(item) => item.spec_end(),
        }
    }

    /// The span of the active variant.
    pub fn span(&self) -> (r: Span)
        requires
            self.wf(),
        ensures
            r.start@ == self.spec_start(),
            r.end@ == self.spec_end(),
            r.start@ <= r.end@,
    {
        match self {
            PatternPart::Text(item) => item.span(),
            PatternPart::Escape(item) => item.span(),
            PatternPart::Expression(item) => item.span(),
            PatternPart::Markup(item) => item.span(),
        }
    }
}

/// A run of literal text with no escapes inside.
#[derive(Debug, Clone)]
pub struct Text<'a> {
    pub start: Location,
    pub content: &'a str,
}

impl<'a> Text<'a> {
    /// The run fits inside the source buffer.
    pub open spec fn wf(self) -> bool {
        self.start@ + self.content@.len() <= u32::MAX
    }

    pub open spec fn spec_start(self) -> int {
        self.start@
    }

    pub open spec fn spec_end(self) -> int {
        self.start@ + self.content@.len()
    }

    /// The range the run occupies: its start plus the length of its content.
    pub fn span(&self) -> (r: Span)
        requires
            self.wf(),
        ensures
            r.start@ == self.spec_start(),
            r.end@ == self.spec_end(),
            r.start@ <= r.end@,
    {
        Span::new(self.start, self.start.advance_str(self.content))
    }
}

/// A literal `\` followed by one escaped character.
#[derive(Debug, Clone)]
pub struct Escape {
    pub start: Location,
    pub escaped_char: char,
}

impl Escape {
    /// Both characters fit inside the source buffer.
    pub open spec fn wf(self) -> bool {
        self.start@ + 2 <= u32::MAX
    }

    pub open spec fn spec_start(self) -> int {
        self.start@
    }

    pub open spec fn spec_end(self) -> int {
        self.start@ + 2
    }

    /// The range of the escape: one position for `\` and one for the
    /// escaped character.
    pub fn span(&self) -> (r: Span)
        requires
            self.wf(),
        ensures
            r.start@ == self.spec_start(),
            r.end@ == self.spec_end(),
            r.start@ <= r.end@,
    {
        Span::new(self.start, self.start.advance_char('\\').advance_char(self.escaped_char))
    }
}

/// A substitution point: a literal, a variable reference or a bare
/// annotation, each with a stored span. The enum is a transparent wrapper.
#[derive(Debug, Clone)]
pub enum Expression<'a> {
    LiteralExpression(LiteralExpression<'a>),
    VariableExpression(VariableExpression<'a>),
    AnnotationExpression(AnnotationExpression<'a>),
}

impl<'a> Expression<'a> {
    pub open spec fn wf(self) -> bool {
        match self {
            Expression::LiteralExpression(item) => item.wf(),
            Expression::VariableExpression(item) => item.wf(),
            Expression::AnnotationExpression(item) => item.wf(),
        }
    }

    pub open spec fn spec_start(self) -> int {
        match self {
            Expression::LiteralExpression(item) => item.spec_start(),
            Expression::VariableExpression(item) => item.spec_start(),
            Expression::AnnotationExpression(item) => item.spec_start(),
        }
    }

    pub open spec fn spec_end(self) -> int {
        match self {
            Expression::LiteralExpression(item) => item.spec_end(),
            Expression::VariableExpression(item) => item.spec_end(),
            Expression::AnnotationExpression(item) => item.spec_end(),
        }
    }

    /// The span of the active variant.
    pub fn span(&self) -> (r: Span)
        requires
            self.wf(),
        ensures
            r.start@ == self.spec_start(),
            r.end@ == self.spec_end(),
            r.start@ <= r.end@,
    {
        match self {
            Expression::LiteralExpression(item) => item.span(),
            Expression::VariableExpression(item) => item.span(),
            Expression::AnnotationExpression(item) => item.span(),
        }
    }
}

/// An expression whose operand is a literal, as in `{42 :number}`.
#[derive(Debug, Clone)]
pub struct LiteralExpression<'a> {
    pub span: Span,
    pub literal: Literal<'a>,
    pub annotation: Option<Annotation<'a>>,
    pub attributes: Vec<Attribute<'a>>,
}

impl<'a> LiteralExpression<'a> {
    pub open spec fn wf(self) -> bool {
        &&& self.span.ordered()
        &&& self.literal.wf()
        &&& match self.annotation {
            Some(annotation) => annotation.wf(),
            None => true,
        }
        &&& forall|i: int|
            0 <= i < self.attributes@.len() ==> (#[trigger] self.attributes@[i]).wf()
    }

    pub open spec fn spec_start(self) -> int {
        self.span.start@
    }

    pub open spec fn spec_end(self) -> int {
        self.span.end@
    }

    /// The stored span the parser recorded for the whole expression,
    /// delimiters included.
    pub fn span(&self) -> (r: Span)
        requires
            self.wf(),
        ensures
            r.start@ == self.spec_start(),
            r.end@ == self.spec_end(),
            r.start@ <= r.end@,
    {
        self.span
    }
}

/// An expression whose operand is a variable, as in `{$count :number}`.
#[derive(Debug, Clone)]
pub struct VariableExpression<'a> {
    pub span: Span,
    pub variable: Variable<'a>,
    pub annotation: Option<Annotation<'a>>,
    pub attributes: Vec<Attribute<'a>>,
}

impl<'a> VariableExpression<'a> {
    pub open spec fn wf(self) -> bool {
        &&& self.span.ordered()
        &&& self.variable.wf()
        &&& match self.annotation {
            Some(annotation) => annotation.wf(),
            None => true,
        }
        &&& forall|i: int|
            0 <= i < self.attributes@.len() ==> (#[trigger] self.attributes@[i]).wf()
    }

    pub open spec fn spec_start(self) -> int {
        self.span.start@
    }

    pub open spec fn spec_end(self) -> int {
        self.span.end@
    }

    /// The stored span the parser recorded for the whole expression,
    /// delimiters included.
    pub fn span(&self) -> (r: Span)
        requires
            self.wf(),
        ensures
            r.start@ == self.spec_start(),
            r.end@ == self.spec_end(),
            r.start@ <= r.end@,
    {
        self.span
    }
}

/// A variable reference, without its `$` sigil.
#[derive(Debug, Clone)]
pub struct Variable<'a> {
    pub span: Span,
    pub name: &'a str,
}

impl<'a> Variable<'a> {
    /// The stored span runs forward.
    pub open spec fn wf(self) -> bool {
        self.span.ordered()
    }

    pub open spec fn spec_start(self) -> int {
        self.span.start@
    }

    pub open spec fn spec_end(self) -> int {
        self.span.end@
    }

    /// The stored range the parser recorded for this reference.
    pub fn span(&self) -> (r: Span)
        requires
            self.wf(),
        ensures
            r.start@ == self.spec_start(),
            r.end@ == self.spec_end(),
            r.start@ <= r.end@,
    {
        self.span
    }
}

/// An expression with no operand, only an annotation, as in `{:now}`.
#[derive(Debug, Clone)]
pub struct AnnotationExpression<'a> {
    pub span: Span,
    pub annotation: Annotation<'a>,
    pub attributes: Vec<Attribute<'a>>,
}

impl<'a> AnnotationExpression<'a> {
    pub open spec fn wf(self) -> bool {
        &&& self.span.ordered()
        &&& self.annotation.wf()
        &&& forall|i: int|
            0 <= i < self.attributes@.len() ==> (#[trigger] self.attributes@[i]).wf()
    }

    pub open spec fn spec_start(self) -> int {
        self.span.start@
    }

    pub open spec fn spec_end(self) -> int {
        self.span.end@
    }

    /// The stored span the parser recorded for the whole expression,
    /// delimiters included.
    pub fn span(&self) -> (r: Span)
        requires
            self.wf(),
        ensures
            r.start@ == self.spec_start(),
            r.end@ == self.spec_end(),
            r.start@ <= r.end@,
    {
        self.span
    }
}

/// A formatting annotation: a function call, a private-use extension or
/// reserved syntax. The enum is a transparent wrapper.
#[derive(Debug, Clone)]
pub enum Annotation<'a> {
    Function(Function<'a>),
    PrivateUseAnnotation(PrivateUseAnnotation<'a>),
    ReservedAnnotation(ReservedAnnotation<'a>),
}

impl<'a> Annotation<'a> {
    pub open spec fn wf(self) -> bool {
        match self {
            Annotation::Function(item) => item.wf(),
            Annotation::PrivateUseAnnotation(item) => item.wf(),
            Annotation::ReservedAnnotation(item) => item.wf(),
        }
    }

    pub open spec fn spec_start(self) -> int {
        match self {
            Annotation::Function(item) => item.spec_start(),
            Annotation::PrivateUseAnnotation(item) => item.spec_start(),
            Annotation::ReservedAnnotation(item) => item.spec_start(),
        }
    }

    pub open spec fn spec_end(self) -> int {
        match self {
            Annotation::Function(item) => item.spec_end(),
            Annotation::PrivateUseAnnotation(item) => item.spec_end(),
            Annotation::ReservedAnnotation(item) => item.spec_end(),
        }
    }

    /// The span of the active variant.
    pub fn span(&self) -> (r: Span)
        requires
            self.wf(),
        ensures
            r.start@ == self.spec_start(),
            r.end@ == self.spec_end(),
            r.start@ <= r.end@,
    {
        match self {
            Annotation::Function(item) => item.span(),
            Annotation::PrivateUseAnnotation(item) => item.span(),
            Annotation::ReservedAnnotation(item) => item.span(),
        }
    }
}

/// A name with an optional namespace, written `namespace:name` or `name`.
#[derive(Debug, Clone)]
pub struct Identifier<'a> {
    pub start: Location,
    pub namespace: Option<&'a str>,
    pub name: &'a str,
}

impl<'a> Identifier<'a> {
    /// How many characters the identifier spells out, namespace separator
    /// included.
    pub open spec fn spec_len(self) -> int {
        (match self.namespace {
            Some(namespace) => namespace@.len() as int + 1,
            None => 0,
        }) + self.name@.len()
    }

    /// The identifier fits inside the source buffer.
    pub open spec fn wf(self) -> bool {
        self.start@ + self.spec_len() <= u32::MAX
    }

    pub open spec fn spec_start(self) -> int {
        self.start@
    }

    pub open spec fn spec_end(self) -> int {
        self.start@ + self.spec_len()
    }

    /// The range the identifier occupies: its start plus the namespace, the
    /// `:` separator where a namespace is present, and the name.
    pub fn span(&self) -> (r: Span)
        requires
            self.wf(),
        ensures
            r.start@ == self.spec_start(),
            r.end@ == self.spec_end(),
            r.start@ <= r.end@,
    {
        let mut end = self.start;
        if let Some(namespace) = self.namespace {
            end = end.advance_str(namespace);
            end = end.advance_char(':');
        }
        end = end.advance_str(self.name);
        Span::new(self.start, end)
    }
}

/// A function annotation: `:identifier` followed by options.
#[derive(Debug, Clone)]
pub struct Function<'a> {
    pub start: Location,
    pub id: Identifier<'a>,
    pub options: Vec<FnOrMarkupOption<'a>>,
}

impl<'a> Function<'a> {
    /// The identifier follows the start (the `:` sigil), every option is
    /// well formed and lies behind the identifier, and the options appear in
    /// source order.
    pub open spec fn wf(self) -> bool {
        &&& self.id.wf()
        &&& self.start@ <= self.id.spec_start()
        &&& forall|i: int| 0 <= i < self.options@.len() ==> (#[trigger] self.options@[i]).wf()
        &&& forall|i: int|
            0 <= i < self.options@.len() ==> self.id.spec_end() <= (
            #[trigger] self.options@[i]).spec_start()
        &&& forall|i: int, j: int|
            #![trigger self.options@[i], self.options@[j]]
            0 <= i < j < self.options@.len() ==> self.options@[i].spec_end()
                <= self.options@[j].spec_start()
    }

    pub open spec fn spec_start(self) -> int {
        self.start@
    }

    /// Where the last option ends; with no options, where the identifier
    /// ends.
    pub open spec fn spec_end(self) -> int {
        if self.options@.len() == 0 {
            self.id.spec_end()
        } else {
            self.options@.last().spec_end()
        }
    }

    /// From the start to the end of the last option, falling back to the end
    /// of the identifier when there are no options.
    pub fn span(&self) -> (r: Span)
        requires
            self.wf(),
        ensures
            r.start@ == self.spec_start(),
            r.end@ == self.spec_end(),
            r.start@ <= r.end@,
    {
        let n = self.options.len();
        let end = if n == 0 {
            self.id.span().end
        } else {
            self.options[n - 1].span().end
        };
        Span::new(self.start, end)
    }
}

/// One `key=value` option of a function or markup.
#[derive(Debug, Clone)]
pub struct FnOrMarkupOption<'a> {
    pub key: Identifier<'a>,
    pub value: LiteralOrVariable<'a>,
}

impl<'a> FnOrMarkupOption<'a> {
    /// Key and value are well formed and the value follows the key.
    pub open spec fn wf(self) -> bool {
        &&& self.key.wf()
        &&& self.value.wf()
        &&& self.key.spec_end() <= self.value.spec_start()
    }

    pub open spec fn spec_start(self) -> int {
        self.key.spec_start()
    }

    pub open spec fn spec_end(self) -> int {
        self.value.spec_end()
    }

    /// From the start of the key to the end of the value.
    pub fn span(&self) -> (r: Span)
        requires
            self.wf(),
        ensures
            r.start@ == self.spec_start(),
            r.end@ == self.spec_end(),
            r.start@ <= r.end@,
    {
        Span::new(self.key.span().start, self.value.span().end)
    }
}

/// An `@key` or `@key=value` attribute of an expression or markup.
#[derive(Debug, Clone)]
pub struct Attribute<'a> {
    pub span: Span,
    pub key: Identifier<'a>,
    pub value: Option<LiteralOrVariable<'a>>,
}

impl<'a> Attribute<'a> {
    pub open spec fn wf(self) -> bool {
        &&& self.span.ordered()
        &&& self.key.wf()
        &&& match self.value {
            Some(value) => value.wf(),
            None => true,
        }
    }

    pub open spec fn spec_start(self) -> int {
        self.span.start@
    }

    pub open spec fn spec_end(self) -> int {
        self.span.end@
    }

    /// The stored span the parser recorded, the `@` sigil included.
    pub fn span(&self) -> (r: Span)
        requires
            self.wf(),
        ensures
            r.start@ == self.spec_start(),
            r.end@ == self.spec_end(),
            r.start@ <= r.end@,
    {
        self.span
    }
}

/// The value of an option or attribute: a literal or a variable reference.
/// The enum is a transparent wrapper.
#[derive(Debug, Clone)]
pub enum LiteralOrVariable<'a> {
    Literal(Literal<'a>),
    Variable(Variable<'a>),
}

impl<'a> LiteralOrVariable<'a> {
    pub open spec fn wf(self) -> bool {
        match self {
            LiteralOrVariable::Literal(item) => item.wf(),
            LiteralOrVariable::Variable(item) => item.wf(),
        }
    }

    pub open spec fn spec_start(self) -> int {
        match self {
            LiteralOrVariable::Literal(item) => item.spec_start(),
            LiteralOrVariable::Variable(item) => item.spec_start(),
        }
    }

    pub open spec fn spec_end(self) -> int {
        match self {
            LiteralOrVariable::Literal(item) => item.spec_end(),
            LiteralOrVariable::Variable(item) => item.spec_end(),
        }
    }

    /// The span of the active variant.
    pub fn span(&self) -> (r: Span)
        requires
            self.wf(),
        ensures
            r.start@ == self.spec_start(),
            r.end@ == self.spec_end(),
            r.start@ <= r.end@,
    {
        match self {
            LiteralOrVariable::Literal(item) => item.span(),
            LiteralOrVariable::Variable(item) => item.span(),
        }
    }
}

/// A private-use annotation: a sigil in the private-use range followed by a
/// raw body, preserved for a later stage to interpret.
#[derive(Debug, Clone)]
pub struct PrivateUseAnnotation<'a> {
    pub start: Location,
    pub sigil: char,
    pub body: Vec<ReservedBodyPart<'a>>,
}

impl<'a> PrivateUseAnnotation<'a> {
    /// The sigil fits the buffer, every body part is well formed and lies
    /// behind the sigil, and the body parts appear in source order.
    pub open spec fn wf(self) -> bool {
        &&& self.start@ + 1 <= u32::MAX
        &&& forall|i: int| 0 <= i < self.body@.len() ==> (#[trigger] self.body@[i]).wf()
        &&& forall|i: int|
            0 <= i < self.body@.len() ==> self.start@ + 1 <= (
            #[trigger] self.body@[i]).spec_start()
        &&& forall|i: int, j: int|
            #![trigger self.body@[i], self.body@[j]]
            0 <= i < j < self.body@.len() ==> self.body@[i].spec_end()
                <= self.body@[j].spec_start()
    }

    pub open spec fn spec_start(self) -> int {
        self.start@
    }

    /// Where the last body part ends; with an empty body, just past the
    /// sigil.
    pub open spec fn spec_end(self) -> int {
        if self.body@.len() == 0 {
            self.start@ + 1
        } else {
            self.body@.last().spec_end()
        }
    }

    /// From the start to the end of the last body part, falling back to the
    /// sigil alone when the body is empty.
    pub fn span(&self) -> (r: Span)
        requires
            self.wf(),
        ensures
            r.start@ == self.spec_start(),
            r.end@ == self.spec_end(),
            r.start@ <= r.end@,
    {
        let n = self.body.len();
        let end = if n == 0 {
            self.start.advance_char(self.sigil)
        } else {
            self.body[n - 1].span().end
        };
        Span::new(self.start, end)
    }
}

/// A reserved annotation: syntax set aside by the grammar, preserved with
/// its sigil and raw body for a later stage to judge.
#[derive(Debug, Clone)]
pub struct ReservedAnnotation<'a> {
    pub start: Location,
    pub sigil: char,
    pub body: Vec<ReservedBodyPart<'a>>,
}

impl<'a> ReservedAnnotation<'a> {
    /// The sigil fits the buffer, every body part is well formed and lies
    /// behind the sigil, and the body parts appear in source order.
    pub open spec fn wf(self) -> bool {
        &&& self.start@ + 1 <= u32::MAX
        &&& forall|i: int| 0 <= i < self.body@.len() ==> (#[trigger] self.body@[i]).wf()
        &&& forall|i: int|
            0 <= i < self.body@.len() ==> self.start@ + 1 <= (
            #[trigger] self.body@[i]).spec_start()
        &&& forall|i: int, j: int|
            #![trigger self.body@[i], self.body@[j]]
            0 <= i < j < self.body@.len() ==> self.body@[i].spec_end()
                <= self.body@[j].spec_start()
    }

    pub open spec fn spec_start(self) -> int {
        self.start@
    }

    /// Where the last body part ends; with an empty body, just past the
    /// sigil.
    pub open spec fn spec_end(self) -> int {
        if self.body@.len() == 0 {
            self.start@ + 1
        } else {
            self.body@.last().spec_end()
        }
    }

    /// From the start to the end of the last body part, falling back to the
    /// sigil alone when the body is empty.
    pub fn span(&self) -> (r: Span)
        requires
            self.wf(),
        ensures
            r.start@ == self.spec_start(),
            r.end@ == self.spec_end(),
            r.start@ <= r.end@,
    {
        let n = self.body.len();
        let end = if n == 0 {
            self.start.advance_char(self.sigil)
        } else {
            self.body[n - 1].span().end
        };
        Span::new(self.start, end)
    }
}

/// One piece of a reserved body: raw text, an escape or a quoted literal.
/// The enum is a transparent wrapper.
#[derive(Debug, Clone)]
pub enum ReservedBodyPart<'a> {
    Text(Text<'a>),
    Escape(Escape),
    Quoted(Quoted<'a>),
}

impl<'a> ReservedBodyPart<'a> {
    pub open spec fn wf(self) -> bool {
        match self {
            ReservedBodyPart::Text(item) => item.wf(),
            ReservedBodyPart::Escape(item) => item.wf(),
            ReservedBodyPart::Quoted(item) => item.wf(),
        }
    }

    pub open spec fn spec_start(self) -> int {
        match self {
            ReservedBodyPart::Text(item) => item.spec_start(),
            ReservedBodyPart::Escape(item) => item.spec_start(),
            ReservedBodyPart::Quoted(item) => item.spec_start(),
        }
    }

    pub open spec fn spec_end(self) -> int {
        match self {
            ReservedBodyPart::Text(item) => item.spec_end(),
            ReservedBodyPart::Escape(item) => item.spec_end(),
            ReservedBodyPart::Quoted(item) => item.spec_end(),
        }
    }

    /// The span of the active variant.
    pub fn span(&self) -> (r: Span)
        requires
            self.wf(),
        ensures
            r.start@ == self.spec_start(),
            r.end@ == self.spec_end(),
            r.start@ <= r.end@,
    {
        match self {
            ReservedBodyPart::Text(item) => item.span(),
            ReservedBodyPart::Escape(item) => item.span(),
            ReservedBodyPart::Quoted(item) => item.span(),
        }
    }
}

/// A literal operand or key: quoted, unquoted text or a number. The enum is
/// a transparent wrapper.
#[derive(Debug, Clone)]
pub enum Literal<'a> {
    Quoted(Quoted<'a>),
    Text(Text<'a>),
    Number(Number<'a>),
}

impl<'a> Literal<'a> {
    pub open spec fn wf(self) -> bool {
        match self {
            Literal::Quoted(item) => item.wf(),
            Literal::Text(item) => item.wf(),
            Literal::Number(item) => item.wf(),
        }
    }

    pub open spec fn spec_start(self) -> int {
        match self {
            Literal::Quoted(item) => item.spec_start(),
            Literal::Text(item) => item.spec_start(),
            Literal::Number(item) => item.spec_start(),
        }
    }

    pub open spec fn spec_end(self) -> int {
        match self {
            Literal::Quoted(item) => item.spec_end(),
            Literal::Text(item) => item.spec_end(),
            Literal::Number(item) => item.spec_end(),
        }
    }

    /// The span of the active variant.
    pub fn span(&self) -> (r: Span)
        requires
            self.wf(),
        ensures
            r.start@ == self.spec_start(),
            r.end@ == self.spec_end(),
            r.start@ <= r.end@,
    {
        match self {
            Literal::Quoted(item) => item.span(),
            Literal::Text(item) => item.span(),
            Literal::Number(item) => item.span(),
        }
    }
}

/// A literal in `|...|` quotes, holding text runs and escapes.
#[derive(Debug, Clone)]
pub struct Quoted<'a> {
    pub span: Span,
    pub parts: Vec<QuotedPart<'a>>,
}

impl<'a> Quoted<'a> {
    pub open spec fn wf(self) -> bool {
        &&& self.span.ordered()
        &&& forall|i: int| 0 <= i < self.parts@.len() ==> (#[trigger] self.parts@[i]).wf()
    }

    pub open spec fn spec_start(self) -> int {
        self.span.start@
    }

    pub open spec fn spec_end(self) -> int {
        self.span.end@
    }

    /// The stored span the parser recorded, the quotes included.
    pub fn span(&self) -> (r: Span)
        requires
            self.wf(),
        ensures
            r.start@ == self.spec_start(),
            r.end@ == self.spec_end(),
            r.start@ <= r.end@,
    {
        self.span
    }
}

/// One piece of a quoted literal: a text run or an escape. The enum is a
/// transparent wrapper.
#[derive(Debug, Clone)]
pub enum QuotedPart<'a> {
    Text(Text<'a>),
    Escape(Escape),
}

impl<'a> QuotedPart<'a> {
    pub open spec fn wf(self) -> bool {
        match self {
            QuotedPart::Text(item) => item.wf(),
            QuotedPart::Escape(item) => item.wf(),
        }
    }

    pub open spec fn spec_start(self) -> int {
        match self {
            QuotedPart::Text(item) => item.spec_start(),
            QuotedPart::Escape(item) => item.spec_start(),
        }
    }

    pub open spec fn spec_end(self) -> int {
        match self {
            QuotedPart::Text(item) => item.spec_end(),
            QuotedPart::Escape(item) => item.spec_end(),
        }
    }

    /// The span of the active variant.
    pub fn span(&self) -> (r: Span)
        requires
            self.wf(),
        ensures
            r.start@ == self.spec_start(),
            r.end@ == self.spec_end(),
            r.start@ <= r.end@,
    {
        match self {
            QuotedPart::Text(item) => item.span(),
            QuotedPart::Escape(item) => item.span(),
        }
    }
}

/// The sign written in front of a number's exponent digits: explicit `+`,
/// explicit `-`, or no sign character at all.
#[derive(Debug, Clone, Copy, PartialEq, Eq, Structural)]
pub enum ExponentSign {
    Plus,
    Minus,
    Unsigned,
}

/// A number literal, stored as the raw slice it was written as plus compact
/// structural metadata. The numeric value is deliberately not stored; the
/// sub-parts are recovered on demand from the raw slice and the recorded
/// lengths, without re-parsing or allocating.
#[derive(Debug, Clone)]
pub struct Number<'a> {
    pub start: Location,
    pub raw: &'a str,
    pub is_negative: bool,
    pub integral_len: LengthShort,
    pub fractional_len: Option<LengthShort>,
    pub exponent_len: Option<(ExponentSign, LengthShort)>,
}

impl<'a> Number<'a> {
    /// One character for the leading `-` of a negative number.
    pub open spec fn spec_sign_width(self) -> int {
        if self.is_negative {
            1
        } else {
            0
        }
    }

    /// The decimal point and the fractional digits, when present.
    pub open spec fn spec_fractional_width(self) -> int {
        match self.fractional_len {
            Some(fractional_len) => 1 + fractional_len@,
            None => 0,
        }
    }

    /// One character for an explicit `+` or `-` in front of the exponent
    /// digits; an unsigned exponent consumes nothing.
    pub open spec fn spec_exponent_sign_width(self) -> int {
        match self.exponent_len {
            Some((sign, _)) => match sign {
                ExponentSign::Unsigned => 0,
                _ => 1,
            },
            None => 0,
        }
    }

    /// The exponent marker, its optional sign and its digits, when present.
    pub open spec fn spec_exponent_width(self) -> int {
        match self.exponent_len {
            Some((_, exponent_len)) => 1 + self.spec_exponent_sign_width() + exponent_len@,
            None => 0,
        }
    }

    /// The structural metadata matches the raw slice: the widths of sign,
    /// integral digits, fraction and exponent add up exactly to its length,
    /// and the literal fits inside the source buffer.
    pub open spec fn wf(self) -> bool {
        &&& self.raw@.len() == self.spec_sign_width() + self.integral_len@
            + self.spec_fractional_width() + self.spec_exponent_width()
        &&& self.start@ + self.raw@.len() <= u32::MAX
    }

    pub open spec fn spec_start(self) -> int {
        self.start@
    }

    pub open spec fn spec_end(self) -> int {
        self.start@ + self.raw@.len()
    }

    /// The range of the whole literal: its start plus the length of the raw
    /// slice.
    pub fn span(&self) -> (r: Span)
        requires
            self.wf(),
        ensures
            r.start@ == self.spec_start(),
            r.end@ == self.spec_end(),
            r.start@ <= r.end@,
    {
        Span::new(self.start, self.start.advance_str(self.raw))
    }

    /// Where the integral digits start: one character past the sign of a
    /// negative number.
    pub open spec fn spec_integral_start(self) -> int {
        self.start@ + self.spec_sign_width()
    }

    /// Where the integral digits end.
    pub open spec fn spec_integral_end(self) -> int {
        self.spec_integral_start() + self.integral_len@
    }

    /// Where the fractional digits start: one character past the decimal
    /// point. Meaningful only when a fraction is present.
    pub open spec fn spec_fractional_start(self) -> int {
        self.spec_integral_end() + 1
    }

    /// Where the exponent digits start: one character past the exponent
    /// marker, and one more past an explicit sign. Meaningful only when an
    /// exponent is present.
    pub open spec fn spec_exponent_start(self) -> int {
        self.spec_integral_end() + self.spec_fractional_width() + 1
            + self.spec_exponent_sign_width()
    }

    /// The integral digits as they stand in the raw slice.
    pub open spec fn spec_integral_part(self) -> Seq<char> {
        self.raw@.subrange(self.spec_sign_width(), self.spec_sign_width() + self.integral_len@)
    }

    /// The fractional digits as they stand in the raw slice. Meaningful
    /// only when a fraction is present.
    pub open spec fn spec_fractional_part(self) -> Seq<char> {
        self.raw@.subrange(
            self.spec_fractional_start() - self.start@,
            self.spec_fractional_start() - self.start@ + (match self.fractional_len {
                Some(fractional_len) => fractional_len@,
                None => 0,
            }),
        )
    }

    /// The exponent digits as they stand in the raw slice. Meaningful only
    /// when an exponent is present.
    pub open spec fn spec_exponent_part(self) -> Seq<char> {
        self.raw@.subrange(
            self.spec_exponent_start() - self.start@,
            self.spec_exponent_start() - self.start@ + (match self.exponent_len {
                Some((_, exponent_len)) => exponent_len@,
                None => 0,
            }),
        )
    }

    /// The sign as it stands in the raw slice: one character for a
    /// negative number, empty otherwise.
    pub open spec fn spec_sign_text(self) -> Seq<char> {
        self.raw@.subrange(0, self.spec_sign_width())
    }

    /// The decimal point and the fractional digits as they stand in the raw
    /// slice; empty when no fraction is present.
    pub open spec fn spec_fraction_text(self) -> Seq<char> {
        let lo = self.spec_sign_width() + self.integral_len@;
        self.raw@.subrange(lo, lo + self.spec_fractional_width())
    }

    /// The exponent marker, its optional sign and its digits as they stand
    /// in the raw slice; empty when no exponent is present.
    pub open spec fn spec_exponent_text(self) -> Seq<char> {
        let lo = self.spec_sign_width() + self.integral_len@ + self.spec_fractional_width();
        self.raw@.subrange(lo, lo + self.spec_exponent_width())
    }

    /// A borrowed sub-slice of the raw text at an absolute sub-span,
    /// rebased onto the raw slice.
    fn slice(&self, sp: Span) -> (r: &'a str)
        requires
            self.start@ <= sp.start@ <= sp.end@ <= self.start@ + self.raw@.len(),
        ensures
            r@ == self.raw@.subrange(sp.start@ - self.start@, sp.end@ - self.start@),
    {
        let lo = (sp.start.inner() - self.start.inner()) as usize;
        let hi = (sp.end.inner() - self.start.inner()) as usize;
        self.raw.substring_char(lo, hi)
    }

    /// Where the integral digits start, as a position.
    fn integral_start(&self) -> (r: Location)
        requires
            self.wf(),
        ensures
            r@ == self.spec_integral_start(),
    {
        if self.is_negative {
            self.start.advance_char('-')
        } else {
            self.start
        }
    }

    /// Where the integral digits end, as a position.
    fn integral_end(&self) -> (r: Location)
        requires
            self.wf(),
        ensures
            r@ == self.spec_integral_end(),
    {
        self.integral_start().advance_len(self.integral_len)
    }

    /// The absolute range of the integral digits: one character past the
    /// sign of a negative number, running for `integral_len` characters.
    pub fn integral_span(&self) -> (r: Span)
        requires
            self.wf(),
        ensures
            r.start@ == self.spec_integral_start(),
            r.end@ == self.spec_integral_end(),
            r.start@ <= r.end@,
    {
        Span::new(self.integral_start(), self.integral_end())
    }

    /// The integral digits, borrowed from the raw slice.
    pub fn integral_part(&self) -> (r: &'a str)
        requires
            self.wf(),
        ensures
            r@ == self.spec_integral_part(),
    {
        self.slice(self.integral_span())
    }

    /// The absolute range of the fractional digits, when a fraction is
    /// present: one character past the decimal point, running for
    /// `fractional_len` characters.
    pub fn fractional_span(&self) -> (r: Option<Span>)
        requires
            self.wf(),
        ensures
            r is Some <==> self.fractional_len is Some,
            r matches Some(sp) ==> sp.start@ == self.spec_fractional_start() && sp.end@
                == self.spec_fractional_start() + (match self.fractional_len {
                Some(fractional_len) => fractional_len@,
                None => 0,
            }) && sp.start@ <= sp.end@,
    {
        match self.fractional_len {
            Some(fractional_len) => {
                let s = self.integral_end().advance_char('.');
                let e = s.advance_len(fractional_len);
                Some(Span::new(s, e))
            },
            None => None,
        }
    }

    /// The fractional digits, borrowed from the raw slice, when a fraction
    /// is present.
    pub fn fractional_part(&self) -> (r: Option<&'a str>)
        requires
            self.wf(),
        ensures
            r is Some <==> self.fractional_len is Some,
            r matches Some(s) ==> s@ == self.spec_fractional_part(),
    {
        match self.fractional_span() {
            Some(sp) => Some(self.slice(sp)),
            None => None,
        }
    }

    /// The absolute range of the exponent digits, when an exponent is
    /// present: one character past the exponent marker, one more past an
    /// explicit sign, running for the recorded exponent length.
    pub fn exponent_span(&self) -> (r: Option<Span>)
        requires
            self.wf(),
        ensures
            r is Some <==> self.exponent_len is Some,
            r matches Some(sp) ==> sp.start@ == self.spec_exponent_start() && sp.end@
                == self.spec_exponent_start() + (match self.exponent_len {
                Some((_, exponent_len)) => exponent_len@,
                None => 0,
            }) && sp.start@ <= sp.end@,
    {
        match self.exponent_len {
            Some((sign, exponent_len)) => {
                let mut s = self.integral_end();
                if let Some(fractional_len) = self.fractional_len {
                    s = s.advance_char('.');
                    s = s.advance_len(fractional_len);
                }
                s = s.advance_char('e');
                if !matches!(sign, ExponentSign::Unsigned) {
                    s = s.advance_char('-');
                }
                let e = s.advance_len(exponent_len);
                Some(Span::new(s, e))
            },
            None => None,
        }
    }

    /// The recorded exponent sign and the exponent digits, borrowed from
    /// the raw slice, when an exponent is present.
    pub fn exponent_part(&self) -> (r: Option<(ExponentSign, &'a str)>)
        requires
            self.wf(),
        ensures
            r is Some <==> self.exponent_len is Some,
            r matches Some((sign, s)) ==> (match self.exponent_len {
                Some((recorded, _)) => sign == recorded,
                None => false,
            }) && s@ == self.spec_exponent_part(),
    {
        match (self.exponent_span(), self.exponent_len) {
            (Some(sp), Some((sign, _))) => Some((sign, self.slice(sp))),
            _ => None,
        }
    }
}

/// An open, standalone or close tag-like construct embedded in a pattern.
#[derive(Debug, Clone)]
pub struct Markup<'a> {
    pub span: Span,
    pub kind: MarkupKind,
    pub id: Identifier<'a>,
    pub options: Vec<FnOrMarkupOption<'a>>,
    pub attributes: Vec<Attribute<'a>>,
}

/// Which form a markup construct takes: `{#tag}`, `{#tag /}` or `{/tag}`.
#[derive(Debug, Clone, PartialEq, Eq, Structural)]
pub enum MarkupKind {
    Open,
    Standalone,
    Close,
}

impl<'a> Markup<'a> {
    pub open spec fn wf(self) -> bool {
        &&& self.span.ordered()
        &&& self.id.wf()
        &&& forall|i: int| 0 <= i < self.options@.len() ==> (#[trigger] self.options@[i]).wf()
        &&& forall|i: int|
            0 <= i < self.attributes@.len() ==> (#[trigger] self.attributes@[i]).wf()
    }

    pub open spec fn spec_start(self) -> int {
        self.span.start@
    }

    pub open spec fn spec_end(self) -> int {
        self.span.end@
    }

    /// The stored span the parser recorded, the braces included.
    pub fn span(&self) -> (r: Span)
        requires
            self.wf(),
        ensures
            r.start@ == self.spec_start(),
            r.end@ == self.spec_end(),
            r.start@ <= r.end@,
    {
        self.span
    }
}

/// A message made of declarations followed by one body: a quoted pattern or
/// a matcher.
#[derive(Debug, Clone)]
pub struct ComplexMessage<'a> {
    pub declarations: Vec<Declaration<'a>>,
    pub body: ComplexMessageBody<'a>,
}

impl<'a> ComplexMessage<'a> {
    pub open spec fn wf(self) -> bool {
        &&& forall|i: int|
            0 <= i < self.declarations@.len() ==> (#[trigger] self.declarations@[i]).wf()
        &&& self.body.wf()
    }

    /// The first declaration's start or the body's start, whichever comes
    /// first; with no declarations, the body's start.
    pub open spec fn spec_start(self) -> int {
        if self.declarations@.len() == 0 {
            self.body.spec_start()
        } else if self.declarations@.first().spec_start() <= self.body.spec_start() {
            self.declarations@.first().spec_start()
        } else {
            self.body.spec_start()
        }
    }

    /// The last declaration's end or the body's end, whichever comes last;
    /// with no declarations, the body's end.
    pub open spec fn spec_end(self) -> int {
        if self.declarations@.len() == 0 {
            self.body.spec_end()
        } else if self.declarations@.last().spec_end() >= self.body.spec_end() {
            self.declarations@.last().spec_end()
        } else {
            self.body.spec_end()
        }
    }

    /// The covering span of declarations and body.
    pub fn span(&self) -> (r: Span)
        requires
            self.wf(),
        ensures
            r.start@ == self.spec_start(),
            r.end@ == self.spec_end(),
            r.start@ <= r.end@,
    {
        let body_span = self.body.span();
        let n = self.declarations.len();
        if n == 0 {
            Span::new(body_span.start, body_span.end)
        } else {
            let start = self.declarations[0].span().start.min(body_span.start);
            let end = self.declarations[n - 1].span().end.max(body_span.end);
            Span::new(start, end)
        }
    }
}

/// A binding introduced before the body: an `.input` or `.local`
/// declaration, or a reserved statement. The enum is a transparent wrapper.
#[derive(Debug, Clone)]
pub enum Declaration<'a> {
    InputDeclaration(InputDeclaration<'a>),
    LocalDeclaration(LocalDeclaration<'a>),
    ReservedStatement(ReservedStatement<'a>),
}

impl<'a> Declaration<'a> {
    pub open spec fn wf(self) -> bool {
        match self {
            Declaration::InputDeclaration(item) => item.wf(),
            Declaration::LocalDeclaration(item) => item.wf(),
            Declaration::ReservedStatement(item) => item.wf(),
        }
    }

    pub open spec fn spec_start(self) -> int {
        match self {
            Declaration::InputDeclaration(item) => item.spec_start(),
            Declaration::LocalDeclaration(item) => item.spec_start(),
            Declaration::ReservedStatement(item) => item.spec_start(),
        }
    }

    pub open spec fn spec_end(self) -> int {
        match self {
            Declaration::InputDeclaration(item) => item.spec_end(),
            Declaration::LocalDeclaration(item) => item.spec_end(),
            Declaration::ReservedStatement(item) => item.spec_end(),
        }
    }

    /// The span of the active variant.
    pub fn span(&self) -> (r: Span)
        requires
            self.wf(),
        ensures
            r.start@ == self.spec_start(),
            r.end@ == self.spec_end(),
            r.start@ <= r.end@,
    {
        match self {
            Declaration::InputDeclaration(item) => item.span(),
            Declaration::LocalDeclaration(item) => item.span(),
            Declaration::ReservedStatement(item) => item.span(),
        }
    }
}

/// An `.input` declaration binding an external value.
#[derive(Debug, Clone)]
pub struct InputDeclaration<'a> {
    pub start: Location,
    pub expression: VariableExpression<'a>,
}

impl<'a> InputDeclaration<'a> {
    /// The expression is well formed and follows the `.input` keyword.
    pub open spec fn wf(self) -> bool {
        &&& self.expression.wf()
        &&& self.start@ <= self.expression.spec_start()
    }

    pub open spec fn spec_start(self) -> int {
        self.start@
    }

    pub open spec fn spec_end(self) -> int {
        self.expression.spec_end()
    }

    /// From the start of the keyword to the end of the expression.
    pub fn span(&self) -> (r: Span)
        requires
            self.wf(),
        ensures
            r.start@ == self.spec_start(),
            r.end@ == self.spec_end(),
            r.start@ <= r.end@,
    {
        Span::new(self.start, self.expression.span().end)
    }
}

/// A `.local` declaration binding a variable to an initializer expression.
#[derive(Debug, Clone)]
pub struct LocalDeclaration<'a> {
    pub start: Location,
    pub variable: Variable<'a>,
    pub expression: Expression<'a>,
}

impl<'a> LocalDeclaration<'a> {
    /// Variable and initializer are well formed and the initializer follows
    /// the `.local` keyword.
    pub open spec fn wf(self) -> bool {
        &&& self.variable.wf()
        &&& self.expression.wf()
        &&& self.start@ <= self.expression.spec_start()
    }

    pub open spec fn spec_start(self) -> int {
        self.start@
    }

    pub open spec fn spec_end(self) -> int {
        self.expression.spec_end()
    }

    /// From the start of the keyword to the end of the initializer.
    pub fn span(&self) -> (r: Span)
        requires
            self.wf(),
        ensures
            r.start@ == self.spec_start(),
            r.end@ == self.spec_end(),
            r.start@ <= r.end@,
    {
        Span::new(self.start, self.expression.span().end)
    }
}

/// A reserved statement: a `.name` keyword set aside by the grammar,
/// preserved with its raw body and trailing expressions.
#[derive(Debug, Clone)]
pub struct ReservedStatement<'a> {
    pub start: Location,
    pub name: &'a str,
    pub body: Vec<ReservedBodyPart<'a>>,
    pub expressions: Vec<Expression<'a>>,
}

impl<'a> ReservedStatement<'a> {
    /// Just past the `.` and the keyword's name.
    pub open spec fn spec_keyword_end(self) -> int {
        self.start@ + 1 + self.name@.len()
    }

    /// The keyword fits the buffer; body parts and expressions are well
    /// formed, lie behind the keyword and appear in source order.
    pub open spec fn wf(self) -> bool {
        &&& self.spec_keyword_end() <= u32::MAX
        &&& forall|i: int| 0 <= i < self.body@.len() ==> (#[trigger] self.body@[i]).wf()
        &&& forall|i: int|
            0 <= i < self.body@.len() ==> self.spec_keyword_end() <= (
            #[trigger] self.body@[i]).spec_start()
        &&& forall|i: int, j: int|
            #![trigger self.body@[i], self.body@[j]]
            0 <= i < j < self.body@.len() ==> self.body@[i].spec_end()
                <= self.body@[j].spec_start()
        &&& forall|i: int|
            0 <= i < self.expressions@.len() ==> (#[trigger] self.expressions@[i]).wf()
        &&& forall|i: int|
            0 <= i < self.expressions@.len() ==> self.spec_keyword_end() <= (
            #[trigger] self.expressions@[i]).spec_start()
        &&& forall|i: int, j: int|
            #![trigger self.expressions@[i], self.expressions@[j]]
            0 <= i < j < self.expressions@.len() ==> self.expressions@[i].spec_end()
                <= self.expressions@[j].spec_start()
    }

    pub open spec fn spec_start(self) -> int {
        self.start@
    }

    /// Where the last expression ends; with none, where the last body part
    /// ends; with neither, just past the keyword.
    pub open spec fn spec_end(self) -> int {
        if self.expressions@.len() > 0 {
            self.expressions@.last().spec_end()
        } else if self.body@.len() > 0 {
            self.body@.last().spec_end()
        } else {
            self.spec_keyword_end()
        }
    }

    /// From the start of the keyword to the end of the last expression,
    /// falling back to the end of the last body part, and to the keyword
    /// alone when both are empty.
    pub fn span(&self) -> (r: Span)
        requires
            self.wf(),
        ensures
            r.start@ == self.spec_start(),
            r.end@ == self.spec_end(),
            r.start@ <= r.end@,
    {
        let ne = self.expressions.len();
        let nb = self.body.len();
        let end = if ne > 0 {
            self.expressions[ne - 1].span().end
        } else if nb > 0 {
            self.body[nb - 1].span().end
        } else {
            self.start.advance_char('.').advance_str(self.name)
        };
        Span::new(self.start, end)
    }
}

/// The body of a complex message: a quoted pattern or a matcher. The enum
/// is a transparent wrapper.
#[derive(Debug, Clone)]
pub enum ComplexMessageBody<'a> {
    QuotedPattern(QuotedPattern<'a>),
    Matcher(Matcher<'a>),
}

impl<'a> ComplexMessageBody<'a> {
    pub open spec fn wf(self) -> bool {
        match self {
            ComplexMessageBody::QuotedPattern(item) => item.wf(),
            ComplexMessageBody::Matcher(item) => item.wf(),
        }
    }

    pub open spec fn spec_start(self) -> int {
        match self {
            ComplexMessageBody::QuotedPattern(item) => item.spec_start(),
            ComplexMessageBody::Matcher(item) => item.spec_start(),
        }
    }

    pub open spec fn spec_end(self) -> int {
        match self {
            ComplexMessageBody::QuotedPattern(item) => item.spec_end(),
            ComplexMessageBody::Matcher(item) => item.spec_end(),
        }
    }

    /// The span of the active variant.
    pub fn span(&self) -> (r: Span)
        requires
            self.wf(),
        ensures
            r.start@ == self.spec_start(),
            r.end@ == self.spec_end(),
            r.start@ <= r.end@,
    {
        match self {
            ComplexMessageBody::QuotedPattern(item) => item.span(),
            ComplexMessageBody::Matcher(item) => item.span(),
        }
    }
}

/// A pattern wrapped in `{{...}}`, with the stored span of the braces.
#[derive(Debug, Clone)]
pub struct QuotedPattern<'a> {
    pub span: Span,
    pub pattern: Pattern<'a>,
}

impl<'a> QuotedPattern<'a> {
    pub open spec fn wf(self) -> bool {
        &&& self.span.ordered()
        &&& self.pattern.wf()
    }

    pub open spec fn spec_start(self) -> int {
        self.span.start@
    }

    pub open spec fn spec_end(self) -> int {
        self.span.end@
    }

    /// The stored span the parser recorded, the double braces included.
    pub fn span(&self) -> (r: Span)
        requires
            self.wf(),
        ensures
            r.start@ == self.spec_start(),
            r.end@ == self.spec_end(),
            r.start@ <= r.end@,
    {
        self.span
    }
}

/// The `.match` construct: selector expressions followed by keyed variants.
#[derive(Debug, Clone)]
pub struct Matcher<'a> {
    pub start: Location,
    pub selectors: Vec<Expression<'a>>,
    pub variants: Vec<Variant<'a>>,
}

impl<'a> Matcher<'a> {
    /// Just past the `.match` keyword.
    pub open spec fn spec_keyword_end(self) -> int {
        self.start@ + 6
    }

    /// The keyword fits the buffer; selectors and variants are well formed,
    /// lie behind the keyword and appear in source order.
    pub open spec fn wf(self) -> bool {
        &&& self.spec_keyword_end() <= u32::MAX
        &&& forall|i: int| 0 <= i < self.selectors@.len() ==> (#[trigger] self.selectors@[i]).wf()
        &&& forall|i: int|
            0 <= i < self.selectors@.len() ==> self.spec_keyword_end() <= (
            #[trigger] self.selectors@[i]).spec_start()
        &&& forall|i: int, j: int|
            #![trigger self.selectors@[i], self.selectors@[j]]
            0 <= i < j < self.selectors@.len() ==> self.selectors@[i].spec_end()
                <= self.selectors@[j].spec_start()
        &&& forall|i: int| 0 <= i < self.variants@.len() ==> (#[trigger] self.variants@[i]).wf()
        &&& forall|i: int|
            0 <= i < self.variants@.len() ==> self.spec_keyword_end() <= (
            #[trigger] self.variants@[i]).spec_start()
        &&& forall|i: int, j: int|
            #![trigger self.variants@[i], self.variants@[j]]
            0 <= i < j < self.variants@.len() ==> self.variants@[i].spec_end()
                <= self.variants@[j].spec_start()
    }

    pub open spec fn spec_start(self) -> int {
        self.start@
    }

    /// Where the last variant ends; with none, where the last selector
    /// ends; with neither, just past the `.match` keyword.
    pub open spec fn spec_end(self) -> int {
        if self.variants@.len() > 0 {
            self.variants@.last().spec_end()
        } else if self.selectors@.len() > 0 {
            self.selectors@.last().spec_end()
        } else {
            self.spec_keyword_end()
        }
    }

    /// From the start of the keyword to the end of the last variant,
    /// falling back to the end of the last selector, and to the keyword
    /// alone when the matcher is empty.
    pub fn span(&self) -> (r: Span)
        requires
            self.wf(),
        ensures
            r.start@ == self.spec_start(),
            r.end@ == self.spec_end(),
            r.start@ <= r.end@,
    {
        let nv = self.variants.len();
        let ns = self.selectors.len();
        let end = if nv > 0 {
            self.variants[nv - 1].span().end
        } else if ns > 0 {
            self.selectors[ns - 1].span().end
        } else {
            proof {
                reveal_strlit(".match");
            }
            self.start.advance_str(".match")
        };
        Span::new(self.start, end)
    }
}

/// One alternative of a matcher: keys, then a quoted pattern.
#[derive(Debug, Clone)]
pub struct Variant<'a> {
    pub keys: Vec<Key<'a>>,
    pub pattern: QuotedPattern<'a>,
}

impl<'a> Variant<'a> {
    /// Keys and pattern are well formed; the keys appear in source order
    /// and all lie before the pattern.
    pub open spec fn wf(self) -> bool {
        &&& forall|i: int| 0 <= i < self.keys@.len() ==> (#[trigger] self.keys@[i]).wf()
        &&& forall|i: int|
            0 <= i < self.keys@.len() ==> (#[trigger] self.keys@[i]).spec_end()
                <= self.pattern.spec_start()
        &&& forall|i: int, j: int|
            #![trigger self.keys@[i], self.keys@[j]]
            0 <= i < j < self.keys@.len() ==> self.keys@[i].spec_end()
                <= self.keys@[j].spec_start()
        &&& self.pattern.wf()
    }

    /// Where the first key starts; with no keys, where the pattern starts.
    pub open spec fn spec_start(self) -> int {
        if self.keys@.len() == 0 {
            self.pattern.spec_start()
        } else {
            self.keys@.first().spec_start()
        }
    }

    pub open spec fn spec_end(self) -> int {
        self.pattern.spec_end()
    }

    /// From the first key to the end of the pattern, falling back to the
    /// pattern alone when there are no keys.
    pub fn span(&self) -> (r: Span)
        requires
            self.wf(),
        ensures
            r.start@ == self.spec_start(),
            r.end@ == self.spec_end(),
            r.start@ <= r.end@,
    {
        let pattern_span = self.pattern.span();
        let start = if self.keys.len() == 0 {
            pattern_span.start
        } else {
            self.keys[0].span().start
        };
        Span::new(start, pattern_span.end)
    }
}

/// One key of a variant: a literal or the `*` wildcard. The enum is a
/// transparent wrapper.
#[derive(Debug, Clone)]
pub enum Key<'a> {
    Literal(Literal<'a>),
    Star(Star),
}

impl<'a> Key<'a> {
    pub open spec fn wf(self) -> bool {
        match self {
            Key::Literal(item) => item.wf(),
            Key::Star(item) => item.wf(),
        }
    }

    pub open spec fn spec_start(self) -> int {
        match self {
            Key::Literal(item) => item.spec_start(),
            Key::Star(item) => item.spec_start(),
        }
    }

    pub open spec fn spec_end(self) -> int {
        match self {
            Key::Literal(item) => item.spec_end(),
            Key::Star(item) => item.spec_end(),
        }
    }

    /// The span of the active variant.
    pub fn span(&self) -> (r: Span)
        requires
            self.wf(),
        ensures
            r.start@ == self.spec_start(),
            r.end@ == self.spec_end(),
            r.start@ <= r.end@,
    {
        match self {
            Key::Literal(item) => item.span(),
            Key::Star(item) => item.span(),
        }
    }
}

/// The wildcard key of a matcher variant, written `*`.
#[derive(Debug, Clone)]
pub struct Star {
    pub start: Location,
}

impl Star {
    /// The `*` fits inside the source buffer.
    pub open spec fn wf(self) -> bool {
        self.start@ + 1 <= u32::MAX
    }

    pub open spec fn spec_start(self) -> int {
        self.start@
    }

    pub open spec fn spec_end(self) -> int {
        self.start@ + 1
    }

    /// The range of the single `*` character.
    pub fn span(&self) -> (r: Span)
        requires
            self.wf(),
        ensures
            r.start@ == self.spec_start(),
            r.end@ == self.spec_end(),
            r.start@ <= r.end@,
    {
        Span::new(self.start, self.start.advance_char('*'))
    }
}

} // verus!
