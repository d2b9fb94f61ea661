//! The annotation of one markup element: when an element receives one, what
//! the attribute holds, and where it goes.

use vstd::prelude::*;
use vstd::string::*;
use crate::ast::{
    BytePos, Expr, ExprView, Ident, IdentView, JSXAttr, JSXAttrName, JSXAttrNameView,
    JSXAttrOrSpread, JSXAttrOrSpreadView, JSXAttrValue, JSXAttrValueView, JSXAttrView,
    JSXElementName, JSXElementNameView, JSXOpeningElement, JSXOpeningElementView, KeyValueProp,
    KeyValuePropView, Lit, LitView, Span, expr_view, prop_view,
};
use crate::source_map::{resolve_position, Loc};
use crate::text::{decimal, u32_to_decimal};

verus! {

/// The attribute name that annotations carry unless another is configured.
pub const TRACE_SOURCE: &'static str = "data-hps-source";

/// How the value of an annotation is written.
#[derive(Clone, Copy, PartialEq, Eq, Debug, Structural)]
pub enum ValueShape {
    /// One text, `file:line:column:tag`.
    FlatString,
    /// A record with the fields `fileName`, `lineNumber`, `columnNumber`.
    Record,
}

/// The choices that are fixed for a build: the reserved attribute name, the
/// shape of the value, and whether the file's name is also bound once at
/// the top of the module.
#[derive(PartialEq, Eq, Debug)]
pub struct AnnotationStrategy {
    pub key: String,
    pub shape: ValueShape,
    pub share_file_binding: bool,
}

pub ghost struct AnnotationStrategyView {
    pub key: Seq<char>,
    pub shape: ValueShape,
    pub share_file_binding: bool,
}

impl View for AnnotationStrategy {
    type V = AnnotationStrategyView;

    open spec fn view(&self) -> AnnotationStrategyView {
        AnnotationStrategyView {
            key: self.key@,
            shape: self.shape,
            share_file_binding: self.share_file_binding,
        }
    }
}

/// The standard strategy: flat text under `data-hps-source`, without a
/// shared binding.
pub open spec fn standard_strategy() -> AnnotationStrategyView {
    AnnotationStrategyView {
        key: "data-hps-source"@,
        shape: ValueShape::FlatString,
        share_file_binding: false,
    }
}

impl AnnotationStrategy {
    /// Flat text under `data-hps-source`, without a shared binding.
    pub fn standard() -> (strategy: AnnotationStrategy)
        ensures
            strategy@ == standard_strategy(),
    {
        AnnotationStrategy {
            key: String::from_str(TRACE_SOURCE),
            shape: ValueShape::FlatString,
            share_file_binding: false,
        }
    }
}

/// What an annotation depends on besides the element itself.
pub ghost struct Context {
    /// The name under which the file is reported.
    pub file_name: Seq<char>,
    /// The entries of the file's position table.
    pub locs: Seq<Loc>,
    /// The reserved attribute name.
    pub key: Seq<char>,
    /// The shape of the value.
    pub shape: ValueShape,
}

/// Whether the attribute is a plain-named one called `key`.
pub open spec fn is_annotation(key: Seq<char>, attr: JSXAttrOrSpreadView) -> bool {
    match attr {
        JSXAttrOrSpreadView::JSXAttr(a) => match a.name {
            JSXAttrNameView::Ident(id) => id.sym == key,
            JSXAttrNameView::JSXNamespacedName { .. } => false,
        },
        JSXAttrOrSpreadView::SpreadElement(_) => false,
    }
}

/// Whether some attribute of the list is called `key`.
pub open spec fn has_annotation(key: Seq<char>, attrs: Seq<JSXAttrOrSpreadView>) -> bool {
    exists|i: int| 0 <= i < attrs.len() && is_annotation(key, #[trigger] attrs[i])
}

/// The name an element is shown under: the tag itself, or the last member
/// of a dotted or namespaced tag.
pub open spec fn display_name(name: JSXElementNameView) -> Seq<char> {
    match name {
        JSXElementNameView::Ident(id) => id.sym,
        JSXElementNameView::JSXMemberExpr { object, prop } => prop.sym,
        JSXElementNameView::JSXNamespacedName { ns, name } => name.sym,
    }
}

/// The text `file:line:column:tag`, with both numbers in decimal.
pub open spec fn flat_value(file_name: Seq<char>, line: u32, col: u32, tag: Seq<char>) -> Seq<
    char,
> {
    file_name + seq![':'] + decimal(line as nat) + seq![':'] + decimal(col as nat) + seq![':']
        + tag
}

/// The record `{fileName, lineNumber, columnNumber}`.
pub open spec fn record_value(file_name: Seq<char>, line: u32, col: u32) -> ExprView {
    ExprView::Object(
        seq![
            KeyValuePropView { key: "fileName"@, value: ExprView::Lit(LitView::Str(file_name)) },
            KeyValuePropView { key: "lineNumber"@, value: ExprView::Lit(LitView::Num(line)) },
            KeyValuePropView { key: "columnNumber"@, value: ExprView::Lit(LitView::Num(col)) },
        ],
    )
}

/// The value of the annotation of an element called `tag` at `line` and
/// `col`, in the configured shape.
pub open spec fn annotation_value(c: Context, line: u32, col: u32, tag: Seq<char>) -> ExprView {
    match c.shape {
        ValueShape::FlatString => ExprView::Lit(
            LitView::Str(flat_value(c.file_name, line, col, tag)),
        ),
        ValueShape::Record => record_value(c.file_name, line, col),
    }
}

/// The annotation attribute itself: the reserved name, bound to the value
/// in an expression container, with no place in the source.
pub open spec fn annotation_attr(c: Context, line: u32, col: u32, tag: Seq<char>) -> JSXAttrOrSpreadView {
    JSXAttrOrSpreadView::JSXAttr(
        JSXAttrView {
            span: Span { lo: BytePos(0), hi: BytePos(0) },
            name: JSXAttrNameView::Ident(
                IdentView { span: Span { lo: BytePos(0), hi: BytePos(0) }, sym: c.key },
            ),
            value: Some(JSXAttrValueView::JSXExprContainer(annotation_value(c, line, col, tag))),
        },
    )
}

/// The position at which the element is annotated, or nothing where it is
/// left alone: its span is synthesized, it already carries the reserved
/// attribute, or the table has no usable position for its start.
pub open spec fn annotated_at(c: Context, el: JSXOpeningElementView) -> Option<(u32, u32)> {
    if el.span.spec_is_dummy() || has_annotation(c.key, el.attrs) {
        None
    } else {
        resolve_position(c.locs, el.span.lo)
    }
}

/// The element after its own annotation step: where it is annotated, the
/// attribute list gains the annotation at its end; nothing else changes.
pub open spec fn annotate_own(c: Context, el: JSXOpeningElementView) -> JSXOpeningElementView {
    match annotated_at(c, el) {
        Some((line, col)) => JSXOpeningElementView {
            attrs: el.attrs.push(annotation_attr(c, line, col, display_name(el.name))),
            ..el
        },
        None => el,
    }
}

/// Whether one attribute is called `key`.
pub fn attr_is_annotation(key: &str, attr: &JSXAttrOrSpread) -> (b: bool)
    ensures
        b == is_annotation(key@, attr@),
{
    match attr {
        JSXAttrOrSpread::JSXAttr(a) => match &a.name {
            JSXAttrName::Ident(id) => str_eq(id.sym.as_str(), key),
            JSXAttrName::JSXNamespacedName { .. } => false,
        },
        JSXAttrOrSpread::SpreadElement(_) => false,
    }
}

/// Whether two texts are the same.
pub fn str_eq(a: &str, b: &str) -> (same: bool)
    ensures
        same == (a@ == b@),
{
    let n: usize = a.unicode_len();
    if b.unicode_len() != n {
        return false;
    }
    let mut i: usize = 0;
    while i < n
        invariant
            i <= n,
            n == a@.len(),
            n == b@.len(),
            forall|j: int| 0 <= j < i ==> a@[j] == b@[j],
        decreases n - i,
    {
        if a.get_char(i) != b.get_char(i) {
            return false;
        }
        i = i + 1;
    }
    assert(a@ =~= b@);
    true
}

/// Whether the element already carries an attribute called `key`.
pub fn element_has_annotation(key: &str, el: &JSXOpeningElement) -> (b: bool)
    ensures
        b == has_annotation(key@, el@.attrs),
{
    let n: usize = el.attrs.len();
    let mut i: usize = 0;
    while i < n
        invariant
            i <= n,
            n == el.attrs@.len(),
            el@.attrs.len() == n,
            forall|j: int| 0 <= j < i ==> !is_annotation(key@, #[trigger] el@.attrs[j]),
        decreases n - i,
    {
        if attr_is_annotation(key, &el.attrs[i]) {
            assert(is_annotation(key@, el@.attrs[i as int]));
            return true;
        }
        i = i + 1;
    }
    false
}

/// The name the element is shown under.
pub fn element_display_name(name: &JSXElementName) -> (tag: String)
    ensures
        tag@ == display_name(name@),
{
    match name {
        JSXElementName::Ident(id) => id.sym.clone(),
        JSXElementName::JSXMemberExpr { object, prop } => prop.sym.clone(),
        JSXElementName::JSXNamespacedName { ns, name } => name.sym.clone(),
    }
}

/// Writes `file:line:column:tag`.
pub fn format_flat_value(file_name: &str, line: u32, col: u32, tag: &str) -> (text: String)
    ensures
        text@ == flat_value(file_name@, line, col, tag@),
{
    proof {
        reveal_strlit(":");
    }
    let mut text = String::from_str(file_name);
    text.append(":");
    text.append(u32_to_decimal(line).as_str());
    text.append(":");
    text.append(u32_to_decimal(col).as_str());
    text.append(":");
    text.append(tag);
    assert(":"@ =~= seq![':']);
    text
}

/// Builds the record `{fileName, lineNumber, columnNumber}`.
pub fn build_record_value(file_name: &str, line: u32, col: u32) -> (record: Expr)
    ensures
        record@ == record_value(file_name@, line, col),
{
    let mut props: Vec<KeyValueProp> = Vec::new();
    props.push(
        KeyValueProp {
            key: String::from_str("fileName"),
            value: Expr::Lit(Lit::Str(String::from_str(file_name))),
        },
    );
    props.push(
        KeyValueProp { key: String::from_str("lineNumber"), value: Expr::Lit(Lit::Num(line)) },
    );
    props.push(
        KeyValueProp { key: String::from_str("columnNumber"), value: Expr::Lit(Lit::Num(col)) },
    );
    let record = Expr::Object(props);
    proof {
        reveal_with_fuel(expr_view, 3);
        reveal_with_fuel(prop_view, 3);
        assert(record@->Object_0 =~= record_value(file_name@, line, col)->Object_0);
    }
    record
}

/// Builds the annotation attribute for an element called `tag` at `line`
/// and `col` of `file_name`.
pub fn build_annotation(
    strategy: &AnnotationStrategy,
    file_name: &str,
    line: u32,
    col: u32,
    tag: &str,
) -> (attr: JSXAttrOrSpread)
    ensures
        forall|c: Context|
            c.file_name == file_name@ && c.key == strategy@.key && c.shape == strategy@.shape
                ==> attr@ == #[trigger] annotation_attr(c, line, col, tag@),
{
    let value = match strategy.shape {
        ValueShape::FlatString => Expr::Lit(Lit::Str(format_flat_value(file_name, line, col, tag))),
        ValueShape::Record => build_record_value(file_name, line, col),
    };
    JSXAttrOrSpread::JSXAttr(
        JSXAttr {
            span: Span::dummy(),
            name: JSXAttrName::Ident(Ident::new(strategy.key.clone(), Span::dummy())),
            value: Some(JSXAttrValue::JSXExprContainer(value)),
        },
    )
}

} // verus!
