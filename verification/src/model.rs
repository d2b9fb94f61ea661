//! What the transform does to a tree, stated on views: every markup element
//! is annotated by itself, wherever in the tree it stands, and nothing else
//! changes.

use vstd::prelude::*;
use crate::annotation::{annotated_at, annotation_attr, display_name, Context};
use crate::ast::{
    BytePos, ExprView, IdentView, JSXAttrOrSpreadView, JSXAttrValueView, JSXAttrView,
    JSXElementChildView, JSXElementView, JSXOpeningElementView, KeyValuePropView, LitView,
    ModuleItemView, ModuleView, ProgramView, ScriptView, Span, VarDeclKind, VarDeclView,
};

verus! {

/// An object entry with the elements inside its value annotated.
pub open spec fn annotated_prop(c: Context, p: KeyValuePropView) -> KeyValuePropView
    decreases p,
{
    KeyValuePropView { key: p.key, value: annotated_expr(c, p.value) }
}

/// An expression with the elements inside it annotated.
pub open spec fn annotated_expr(c: Context, e: ExprView) -> ExprView
    decreases e,
{
    match e {
        ExprView::Lit(_) => e,
        ExprView::Ident(_) => e,
        ExprView::Object(props) => ExprView::Object(
            Seq::new(
                props.len(),
                |i: int|
                    if 0 <= i < props.len() {
                        annotated_prop(c, props[i])
                    } else {
                        arbitrary()
                    },
            ),
        ),
        ExprView::JSXElement(el) => ExprView::JSXElement(Box::new(annotated_element(c, *el))),
        ExprView::Other(parts) => ExprView::Other(
            Seq::new(
                parts.len(),
                |i: int|
                    if 0 <= i < parts.len() {
                        annotated_expr(c, parts[i])
                    } else {
                        arbitrary()
                    },
            ),
        ),
    }
}

/// An attribute value with the elements inside it annotated.
pub open spec fn annotated_attr_value(c: Context, v: JSXAttrValueView) -> JSXAttrValueView
    decreases v,
{
    match v {
        JSXAttrValueView::Str(_) => v,
        JSXAttrValueView::JSXExprContainer(e) => JSXAttrValueView::JSXExprContainer(
            annotated_expr(c, e),
        ),
    }
}

/// A named attribute with the elements inside its value annotated.
pub open spec fn annotated_attr(c: Context, a: JSXAttrView) -> JSXAttrView
    decreases a,
{
    JSXAttrView {
        span: a.span,
        name: a.name,
        value: match a.value {
            Some(v) => Some(annotated_attr_value(c, v)),
            None => None,
        },
    }
}

/// An entry of an attribute list with the elements inside it annotated.
pub open spec fn annotated_attr_or_spread(c: Context, a: JSXAttrOrSpreadView) -> JSXAttrOrSpreadView
    decreases a,
{
    match a {
        JSXAttrOrSpreadView::JSXAttr(attr) => JSXAttrOrSpreadView::JSXAttr(annotated_attr(c, attr)),
        JSXAttrOrSpreadView::SpreadElement(e) => JSXAttrOrSpreadView::SpreadElement(
            annotated_expr(c, e),
        ),
    }
}

/// An opening tag after the transform. Its own attributes keep their order,
/// each with the elements inside it annotated; where the element itself is
/// annotated, the annotation follows them as the last attribute.
pub open spec fn annotated_opening(c: Context, el: JSXOpeningElementView) -> JSXOpeningElementView
    decreases el,
{
    let inner = Seq::new(
        el.attrs.len(),
        |i: int|
            if 0 <= i < el.attrs.len() {
                annotated_attr_or_spread(c, el.attrs[i])
            } else {
                arbitrary()
            },
    );
    JSXOpeningElementView {
        span: el.span,
        name: el.name,
        attrs: match annotated_at(c, el) {
            Some((line, col)) => inner.push(annotation_attr(c, line, col, display_name(el.name))),
            None => inner,
        },
        self_closing: el.self_closing,
    }
}

/// A child of an element with the elements inside it annotated.
pub open spec fn annotated_child(c: Context, ch: JSXElementChildView) -> JSXElementChildView
    decreases ch,
{
    match ch {
        JSXElementChildView::JSXText(_) => ch,
        JSXElementChildView::JSXExprContainer(e) => JSXElementChildView::JSXExprContainer(
            annotated_expr(c, e),
        ),
        JSXElementChildView::JSXElement(el) => JSXElementChildView::JSXElement(
            Box::new(annotated_element(c, *el)),
        ),
    }
}

/// An element after the transform: its opening tag and every child, whether
/// or not the element itself was annotated.
pub open spec fn annotated_element(c: Context, el: JSXElementView) -> JSXElementView
    decreases el,
{
    JSXElementView {
        span: el.span,
        opening: annotated_opening(c, el.opening),
        children: Seq::new(
            el.children.len(),
            |i: int|
                if 0 <= i < el.children.len() {
                    annotated_child(c, el.children[i])
                } else {
                    arbitrary()
                },
        ),
    }
}

/// Whether some element inside the object entry is annotated.
pub open spec fn annotates_in_prop(c: Context, p: KeyValuePropView) -> bool
    decreases p,
{
    annotates_in_expr(c, p.value)
}

/// Whether some element inside the expression is annotated.
pub open spec fn annotates_in_expr(c: Context, e: ExprView) -> bool
    decreases e,
{
    match e {
        ExprView::Lit(_) => false,
        ExprView::Ident(_) => false,
        ExprView::Object(props) => exists|i: int|
            0 <= i < props.len() && annotates_in_prop(c, #[trigger] props[i]),
        ExprView::JSXElement(el) => annotates_in_element(c, *el),
        ExprView::Other(parts) => exists|i: int|
            0 <= i < parts.len() && annotates_in_expr(c, #[trigger] parts[i]),
    }
}

/// Whether some element inside the attribute value is annotated.
pub open spec fn annotates_in_attr_value(c: Context, v: JSXAttrValueView) -> bool
    decreases v,
{
    match v {
        JSXAttrValueView::Str(_) => false,
        JSXAttrValueView::JSXExprContainer(e) => annotates_in_expr(c, e),
    }
}

/// Whether some element inside the attribute is annotated.
pub open spec fn annotates_in_attr(c: Context, a: JSXAttrView) -> bool
    decreases a,
{
    match a.value {
        Some(v) => annotates_in_attr_value(c, v),
        None => false,
    }
}

/// Whether some element inside the entry of an attribute list is annotated.
pub open spec fn annotates_in_attr_or_spread(c: Context, a: JSXAttrOrSpreadView) -> bool
    decreases a,
{
    match a {
        JSXAttrOrSpreadView::JSXAttr(attr) => annotates_in_attr(c, attr),
        JSXAttrOrSpreadView::SpreadElement(e) => annotates_in_expr(c, e),
    }
}

/// Whether the element of this opening tag, or one inside its attributes,
/// is annotated.
pub open spec fn annotates_in_opening(c: Context, el: JSXOpeningElementView) -> bool
    decreases el,
{
    annotated_at(c, el) is Some || exists|i: int|
        0 <= i < el.attrs.len() && annotates_in_attr_or_spread(c, #[trigger] el.attrs[i])
}

/// Whether some element inside the child is annotated.
pub open spec fn annotates_in_child(c: Context, ch: JSXElementChildView) -> bool
    decreases ch,
{
    match ch {
        JSXElementChildView::JSXText(_) => false,
        JSXElementChildView::JSXExprContainer(e) => annotates_in_expr(c, e),
        JSXElementChildView::JSXElement(el) => annotates_in_element(c, *el),
    }
}

/// Whether the element, or one inside it, is annotated.
pub open spec fn annotates_in_element(c: Context, el: JSXElementView) -> bool
    decreases el,
{
    annotates_in_opening(c, el.opening) || exists|i: int|
        0 <= i < el.children.len() && annotates_in_child(c, #[trigger] el.children[i])
}

/// The entries of an object, each annotated.
pub open spec fn annotated_props(c: Context, props: Seq<KeyValuePropView>) -> Seq<
    KeyValuePropView,
> {
    Seq::new(props.len(), |i: int| annotated_prop(c, props[i]))
}

/// Whether some element inside one of the entries is annotated.
pub open spec fn annotates_in_props(c: Context, props: Seq<KeyValuePropView>) -> bool {
    exists|i: int| 0 <= i < props.len() && annotates_in_prop(c, #[trigger] props[i])
}

/// The expressions of a list, each annotated.
pub open spec fn annotated_exprs(c: Context, parts: Seq<ExprView>) -> Seq<ExprView> {
    Seq::new(parts.len(), |i: int| annotated_expr(c, parts[i]))
}

/// Whether some element inside one of the expressions is annotated.
pub open spec fn annotates_in_exprs(c: Context, parts: Seq<ExprView>) -> bool {
    exists|i: int| 0 <= i < parts.len() && annotates_in_expr(c, #[trigger] parts[i])
}

/// The attributes of a list, each with the elements inside it annotated.
pub open spec fn annotated_attrs(c: Context, attrs: Seq<JSXAttrOrSpreadView>) -> Seq<
    JSXAttrOrSpreadView,
> {
    Seq::new(attrs.len(), |i: int| annotated_attr_or_spread(c, attrs[i]))
}

/// Whether some element inside one of the attributes is annotated.
pub open spec fn annotates_in_attrs(c: Context, attrs: Seq<JSXAttrOrSpreadView>) -> bool {
    exists|i: int| 0 <= i < attrs.len() && annotates_in_attr_or_spread(c, #[trigger] attrs[i])
}

/// The children of an element, each annotated.
pub open spec fn annotated_children(c: Context, children: Seq<JSXElementChildView>) -> Seq<
    JSXElementChildView,
> {
    Seq::new(children.len(), |i: int| annotated_child(c, children[i]))
}

/// Whether some element inside one of the children is annotated.
pub open spec fn annotates_in_children(c: Context, children: Seq<JSXElementChildView>) -> bool {
    exists|i: int| 0 <= i < children.len() && annotates_in_child(c, #[trigger] children[i])
}

/// A declaration with the elements inside its initializer annotated.
pub open spec fn annotated_var_decl(c: Context, d: VarDeclView) -> VarDeclView {
    VarDeclView {
        span: d.span,
        kind: d.kind,
        name: d.name,
        init: match d.init {
            Some(e) => Some(annotated_expr(c, e)),
            None => None,
        },
    }
}

/// A top-level statement with the elements inside it annotated.
pub open spec fn annotated_item(c: Context, item: ModuleItemView) -> ModuleItemView {
    match item {
        ModuleItemView::Var(d) => ModuleItemView::Var(annotated_var_decl(c, d)),
        ModuleItemView::Expr(e) => ModuleItemView::Expr(annotated_expr(c, e)),
    }
}

/// Whether some element inside the statement is annotated.
pub open spec fn annotates_in_item(c: Context, item: ModuleItemView) -> bool {
    match item {
        ModuleItemView::Var(d) => match d.init {
            Some(e) => annotates_in_expr(c, e),
            None => false,
        },
        ModuleItemView::Expr(e) => annotates_in_expr(c, e),
    }
}

/// The statements of a list, each annotated.
pub open spec fn annotated_items(c: Context, items: Seq<ModuleItemView>) -> Seq<ModuleItemView> {
    Seq::new(items.len(), |i: int| annotated_item(c, items[i]))
}

/// Whether some element inside one of the statements is annotated.
pub open spec fn annotates_in_items(c: Context, items: Seq<ModuleItemView>) -> bool {
    exists|i: int| 0 <= i < items.len() && annotates_in_item(c, #[trigger] items[i])
}

/// The symbol that the file's name is bound to: named by the file's name
/// itself, with no place in the source.
pub open spec fn file_binding_symbol(c: Context) -> IdentView {
    IdentView { span: Span { lo: BytePos(0), hi: BytePos(0) }, sym: c.file_name }
}

/// The statement `var <symbol> = "<file name>"`.
pub open spec fn file_binding_decl(c: Context, symbol: IdentView) -> ModuleItemView {
    ModuleItemView::Var(
        VarDeclView {
            span: Span { lo: BytePos(0), hi: BytePos(0) },
            kind: VarDeclKind::Var,
            name: symbol,
            init: Some(ExprView::Lit(LitView::Str(c.file_name))),
        },
    )
}

/// A module after the transform: every statement annotated, and before
/// them all the declaration of the file's symbol, where there is one.
pub open spec fn annotated_module(c: Context, m: ModuleView, symbol: Option<IdentView>) -> ModuleView {
    ModuleView {
        span: m.span,
        body: match symbol {
            Some(id) => seq![file_binding_decl(c, id)] + annotated_items(c, m.body),
            None => annotated_items(c, m.body),
        },
    }
}

/// A script after the transform: every statement annotated.
pub open spec fn annotated_script(c: Context, s: ScriptView) -> ScriptView {
    ScriptView { span: s.span, body: annotated_items(c, s.body) }
}

/// A program after the transform.
pub open spec fn annotated_program(c: Context, p: ProgramView, symbol: Option<IdentView>) -> ProgramView {
    match p {
        ProgramView::Module(m) => ProgramView::Module(annotated_module(c, m, symbol)),
        ProgramView::Script(s) => ProgramView::Script(annotated_script(c, s)),
    }
}

/// Whether some element of the program is annotated.
pub open spec fn annotates_in_program(c: Context, p: ProgramView) -> bool {
    match p {
        ProgramView::Module(m) => annotates_in_items(c, m.body),
        ProgramView::Script(s) => annotates_in_items(c, s.body),
    }
}

} // verus!
