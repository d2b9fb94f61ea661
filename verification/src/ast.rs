//! The syntax tree that the transform walks: a closed set of node kinds
//! (module, statement, expression, literal, markup element, attribute), each
//! with a mathematical view over `Seq` in which contracts are stated.

use vstd::prelude::*;

verus! {

/// Byte offsets at or above this value are reserved for synthesized spans.
pub const DUMMY_RESERVE: u32 = 4294901759u32;

/// A byte offset into the source text.
#[derive(Clone, Copy, PartialEq, Eq, Debug, Structural)]
pub struct BytePos(pub u32);

/// The source range of a node, as a pair of byte offsets.
#[derive(Clone, Copy, PartialEq, Eq, Debug, Structural)]
pub struct Span {
    pub lo: BytePos,
    pub hi: BytePos,
}

impl Span {
    /// Whether the span was synthesized rather than read from source text.
    pub open spec fn spec_is_dummy(self) -> bool {
        (self.lo.0 == 0 && self.hi.0 == 0) || self.lo.0 >= DUMMY_RESERVE
    }

    /// The span carried by nodes that have no place in the source text.
    pub fn dummy() -> (sp: Span)
        ensures
            sp == (Span { lo: BytePos(0), hi: BytePos(0) }),
            sp.spec_is_dummy(),
    {
        Span { lo: BytePos(0), hi: BytePos(0) }
    }

    #[verifier::when_used_as_spec(spec_is_dummy)]
    pub fn is_dummy(self) -> (d: bool)
        ensures
            d == self.spec_is_dummy(),
    {
        (self.lo.0 == 0 && self.hi.0 == 0) || self.lo.0 >= DUMMY_RESERVE
    }
}

/// An identifier with its place in the source.
#[derive(PartialEq, Eq, Debug)]
pub struct Ident {
    pub span: Span,
    pub sym: String,
}

pub ghost struct IdentView {
    pub span: Span,
    pub sym: Seq<char>,
}

impl View for Ident {
    type V = IdentView;

    open spec fn view(&self) -> IdentView {
        IdentView { span: self.span, sym: self.sym@ }
    }
}

impl Ident {
    pub fn new(sym: String, span: Span) -> (id: Ident)
        ensures
            id@ == (IdentView { span, sym: sym@ }),
    {
        Ident { span, sym }
    }

    /// A copy of the identifier.
    pub fn duplicate(&self) -> (id: Ident)
        ensures
            id@ == self@,
    {
        Ident { span: self.span, sym: self.sym.clone() }
    }
}

/// A literal value.
#[derive(PartialEq, Eq, Debug)]
pub enum Lit {
    Str(String),
    Num(u32),
}

pub ghost enum LitView {
    Str(Seq<char>),
    Num(u32),
}

impl View for Lit {
    type V = LitView;

    open spec fn view(&self) -> LitView {
        match self {
            Lit::Str(s) => LitView::Str(s@),
            Lit::Num(n) => LitView::Num(*n),
        }
    }
}

/// One `key: value` entry of an object expression.
#[derive(PartialEq, Eq, Debug)]
pub struct KeyValueProp {
    pub key: String,
    pub value: Expr,
}

/// An expression. `Other` stands for every kind the transform does not look
/// into by itself; it keeps the sub-expressions in source order.
#[derive(PartialEq, Eq, Debug)]
pub enum Expr {
    Lit(Lit),
    Ident(Ident),
    Object(Vec<KeyValueProp>),
    JSXElement(Box<JSXElement>),
    Other(Vec<Expr>),
}

/// The tag of a markup element.
#[derive(PartialEq, Eq, Debug)]
pub enum JSXElementName {
    /// `<div>`
    Ident(Ident),
    /// `<a.b.C>`: the object path from left to right, then the member.
    JSXMemberExpr { object: Vec<Ident>, prop: Ident },
    /// `<ns:name>`
    JSXNamespacedName { ns: Ident, name: Ident },
}

/// The name of an attribute.
#[derive(PartialEq, Eq, Debug)]
pub enum JSXAttrName {
    Ident(Ident),
    JSXNamespacedName { ns: Ident, name: Ident },
}

/// The value of an attribute.
#[derive(PartialEq, Eq, Debug)]
pub enum JSXAttrValue {
    /// `name="text"`
    Str(String),
    /// `name={expr}`
    JSXExprContainer(Expr),
}

/// A named attribute.
#[derive(PartialEq, Eq, Debug)]
pub struct JSXAttr {
    pub span: Span,
    pub name: JSXAttrName,
    pub value: Option<JSXAttrValue>,
}

/// One entry of an element's attribute list.
#[derive(PartialEq, Eq, Debug)]
pub enum JSXAttrOrSpread {
    JSXAttr(JSXAttr),
    /// `{...expr}`
    SpreadElement(Expr),
}

/// The opening tag of a markup element.
#[derive(PartialEq, Eq, Debug)]
pub struct JSXOpeningElement {
    pub span: Span,
    pub name: JSXElementName,
    pub attrs: Vec<JSXAttrOrSpread>,
    pub self_closing: bool,
}

/// What stands between an opening and a closing tag.
#[derive(PartialEq, Eq, Debug)]
pub enum JSXElementChild {
    JSXText(String),
    JSXExprContainer(Expr),
    JSXElement(Box<JSXElement>),
}

/// A markup element with its children.
#[derive(PartialEq, Eq, Debug)]
pub struct JSXElement {
    pub span: Span,
    pub opening: JSXOpeningElement,
    pub children: Vec<JSXElementChild>,
}

/// The keyword of a variable declaration.
#[derive(Clone, Copy, PartialEq, Eq, Debug, Structural)]
pub enum VarDeclKind {
    Var,
    Let,
    Const,
}

/// A declaration of one variable.
#[derive(PartialEq, Eq, Debug)]
pub struct VarDecl {
    pub span: Span,
    pub kind: VarDeclKind,
    pub name: Ident,
    pub init: Option<Expr>,
}

/// A top-level statement.
#[derive(PartialEq, Eq, Debug)]
pub enum ModuleItem {
    Var(VarDecl),
    Expr(Expr),
}

/// A module: the root of a file that imports or exports.
#[derive(PartialEq, Eq, Debug)]
pub struct Module {
    pub span: Span,
    pub body: Vec<ModuleItem>,
}

/// A script: the root of a file that does neither.
#[derive(PartialEq, Eq, Debug)]
pub struct Script {
    pub span: Span,
    pub body: Vec<ModuleItem>,
}

/// A parsed file.
#[derive(PartialEq, Eq, Debug)]
pub enum Program {
    Module(Module),
    Script(Script),
}

pub ghost struct KeyValuePropView {
    pub key: Seq<char>,
    pub value: ExprView,
}

pub ghost enum ExprView {
    Lit(LitView),
    Ident(IdentView),
    Object(Seq<KeyValuePropView>),
    JSXElement(Box<JSXElementView>),
    Other(Seq<ExprView>),
}

pub ghost enum JSXElementNameView {
    Ident(IdentView),
    JSXMemberExpr { object: Seq<IdentView>, prop: IdentView },
    JSXNamespacedName { ns: IdentView, name: IdentView },
}

pub ghost enum JSXAttrNameView {
    Ident(IdentView),
    JSXNamespacedName { ns: IdentView, name: IdentView },
}

pub ghost enum JSXAttrValueView {
    Str(Seq<char>),
    JSXExprContainer(ExprView),
}

pub ghost struct JSXAttrView {
    pub span: Span,
    pub name: JSXAttrNameView,
    pub value: Option<JSXAttrValueView>,
}

pub ghost enum JSXAttrOrSpreadView {
    JSXAttr(JSXAttrView),
    SpreadElement(ExprView),
}

pub ghost struct JSXOpeningElementView {
    pub span: Span,
    pub name: JSXElementNameView,
    pub attrs: Seq<JSXAttrOrSpreadView>,
    pub self_closing: bool,
}

pub ghost enum JSXElementChildView {
    JSXText(Seq<char>),
    JSXExprContainer(ExprView),
    JSXElement(Box<JSXElementView>),
}

pub ghost struct JSXElementView {
    pub span: Span,
    pub opening: JSXOpeningElementView,
    pub children: Seq<JSXElementChildView>,
}

pub ghost struct VarDeclView {
    pub span: Span,
    pub kind: VarDeclKind,
    pub name: IdentView,
    pub init: Option<ExprView>,
}

pub ghost enum ModuleItemView {
    Var(VarDeclView),
    Expr(ExprView),
}

pub ghost struct ModuleView {
    pub span: Span,
    pub body: Seq<ModuleItemView>,
}

pub ghost struct ScriptView {
    pub span: Span,
    pub body: Seq<ModuleItemView>,
}

pub ghost enum ProgramView {
    Module(ModuleView),
    Script(ScriptView),
}

/// The view of an object entry.
pub open spec fn prop_view(p: KeyValueProp) -> KeyValuePropView
    decreases p,
{
    KeyValuePropView { key: p.key@, value: expr_view(p.value) }
}

/// The view of an expression.
pub open spec fn expr_view(e: Expr) -> ExprView
    decreases e,
{
    match e {
        Expr::Lit(l) => ExprView::Lit(l@),
        Expr::Ident(id) => ExprView::Ident(id@),
        Expr::Object(props) => ExprView::Object(
            Seq::new(
                props@.len(),
                |i: int|
                    if 0 <= i < props@.len() {
                        prop_view(props@[i])
                    } else {
                        arbitrary()
                    },
            ),
        ),
        Expr::JSXElement(el) => ExprView::JSXElement(Box::new(element_view(*el))),
        Expr::Other(parts) => ExprView::Other(
            Seq::new(
                parts@.len(),
                |i: int|
                    if 0 <= i < parts@.len() {
                        expr_view(parts@[i])
                    } else {
                        arbitrary()
                    },
            ),
        ),
    }
}

/// The view of an attribute value.
pub open spec fn attr_value_view(v: JSXAttrValue) -> JSXAttrValueView
    decreases v,
{
    match v {
        JSXAttrValue::Str(s) => JSXAttrValueView::Str(s@),
        JSXAttrValue::JSXExprContainer(e) => JSXAttrValueView::JSXExprContainer(expr_view(e)),
    }
}

/// The view of a named attribute.
pub open spec fn attr_view(a: JSXAttr) -> JSXAttrView
    decreases a,
{
    JSXAttrView {
        span: a.span,
        name: a.name@,
        value: match a.value {
            Some(v) => Some(attr_value_view(v)),
            None => None,
        },
    }
}

/// The view of an entry of an attribute list.
pub open spec fn attr_or_spread_view(a: JSXAttrOrSpread) -> JSXAttrOrSpreadView
    decreases a,
{
    match a {
        JSXAttrOrSpread::JSXAttr(attr) => JSXAttrOrSpreadView::JSXAttr(attr_view(attr)),
        JSXAttrOrSpread::SpreadElement(e) => JSXAttrOrSpreadView::SpreadElement(expr_view(e)),
    }
}

/// The view of an opening tag.
pub open spec fn opening_view(el: JSXOpeningElement) -> JSXOpeningElementView
    decreases el,
{
    JSXOpeningElementView {
        span: el.span,
        name: el.name@,
        attrs: Seq::new(
            el.attrs@.len(),
            |i: int|
                if 0 <= i < el.attrs@.len() {
                    attr_or_spread_view(el.attrs@[i])
                } else {
                    arbitrary()
                },
        ),
        self_closing: el.self_closing,
    }
}

/// The view of a child of an element.
pub open spec fn child_view(ch: JSXElementChild) -> JSXElementChildView
    decreases ch,
{
    match ch {
        JSXElementChild::JSXText(t) => JSXElementChildView::JSXText(t@),
        JSXElementChild::JSXExprContainer(e) => JSXElementChildView::JSXExprContainer(
            expr_view(e),
        ),
        JSXElementChild::JSXElement(el) => JSXElementChildView::JSXElement(
            Box::new(element_view(*el)),
        ),
    }
}

/// The view of an element.
pub open spec fn element_view(el: JSXElement) -> JSXElementView
    decreases el,
{
    JSXElementView {
        span: el.span,
        opening: opening_view(el.opening),
        children: Seq::new(
            el.children@.len(),
            |i: int|
                if 0 <= i < el.children@.len() {
                    child_view(el.children@[i])
                } else {
                    arbitrary()
                },
        ),
    }
}

impl View for KeyValueProp {
    type V = KeyValuePropView;

    open spec fn view(&self) -> KeyValuePropView {
        prop_view(*self)
    }
}

impl View for Expr {
    type V = ExprView;

    open spec fn view(&self) -> ExprView {
        expr_view(*self)
    }
}

impl View for JSXElementName {
    type V = JSXElementNameView;

    open spec fn view(&self) -> JSXElementNameView {
        match self {
            JSXElementName::Ident(id) => JSXElementNameView::Ident(id@),
            JSXElementName::JSXMemberExpr { object, prop } => JSXElementNameView::JSXMemberExpr {
                object: Seq::new(object@.len(), |i: int| object@[i]@),
                prop: prop@,
            },
            JSXElementName::JSXNamespacedName { ns, name } => JSXElementNameView::JSXNamespacedName {
                ns: ns@,
                name: name@,
            },
        }
    }
}

impl View for JSXAttrName {
    type V = JSXAttrNameView;

    open spec fn view(&self) -> JSXAttrNameView {
        match self {
            JSXAttrName::Ident(id) => JSXAttrNameView::Ident(id@),
            JSXAttrName::JSXNamespacedName { ns, name } => JSXAttrNameView::JSXNamespacedName {
                ns: ns@,
                name: name@,
            },
        }
    }
}

impl View for JSXAttrValue {
    type V = JSXAttrValueView;

    open spec fn view(&self) -> JSXAttrValueView {
        attr_value_view(*self)
    }
}

impl View for JSXAttr {
    type V = JSXAttrView;

    open spec fn view(&self) -> JSXAttrView {
        attr_view(*self)
    }
}

impl View for JSXAttrOrSpread {
    type V = JSXAttrOrSpreadView;

    open spec fn view(&self) -> JSXAttrOrSpreadView {
        attr_or_spread_view(*self)
    }
}

impl View for JSXOpeningElement {
    type V = JSXOpeningElementView;

    open spec fn view(&self) -> JSXOpeningElementView {
        opening_view(*self)
    }
}

impl View for JSXElementChild {
    type V = JSXElementChildView;

    open spec fn view(&self) -> JSXElementChildView {
        child_view(*self)
    }
}

impl View for JSXElement {
    type V = JSXElementView;

    open spec fn view(&self) -> JSXElementView {
        element_view(*self)
    }
}

impl View for VarDecl {
    type V = VarDeclView;

    open spec fn view(&self) -> VarDeclView {
        VarDeclView {
            span: self.span,
            kind: self.kind,
            name: self.name@,
            init: match self.init {
                Some(e) => Some(e@),
                None => None,
            },
        }
    }
}

impl View for ModuleItem {
    type V = ModuleItemView;

    open spec fn view(&self) -> ModuleItemView {
        match self {
            ModuleItem::Var(d) => ModuleItemView::Var(d@),
            ModuleItem::Expr(e) => ModuleItemView::Expr(e@),
        }
    }
}

/// The views of the entries of an object, in order.
pub open spec fn props_view(props: Seq<KeyValueProp>) -> Seq<KeyValuePropView> {
    Seq::new(props.len(), |i: int| props[i]@)
}

/// The views of a list of expressions, in order.
pub open spec fn exprs_view(parts: Seq<Expr>) -> Seq<ExprView> {
    Seq::new(parts.len(), |i: int| parts[i]@)
}

/// The views of an attribute list, in order.
pub open spec fn attrs_view(attrs: Seq<JSXAttrOrSpread>) -> Seq<JSXAttrOrSpreadView> {
    Seq::new(attrs.len(), |i: int| attrs[i]@)
}

/// The views of the children of an element, in order.
pub open spec fn children_view(children: Seq<JSXElementChild>) -> Seq<JSXElementChildView> {
    Seq::new(children.len(), |i: int| children[i]@)
}

/// The views of a statement list, in order.
pub open spec fn items_view(items: Seq<ModuleItem>) -> Seq<ModuleItemView> {
    Seq::new(items.len(), |i: int| items[i]@)
}

impl View for Module {
    type V = ModuleView;

    open spec fn view(&self) -> ModuleView {
        ModuleView { span: self.span, body: items_view(self.body@) }
    }
}

impl View for Script {
    type V = ScriptView;

    open spec fn view(&self) -> ScriptView {
        ScriptView { span: self.span, body: items_view(self.body@) }
    }
}

impl View for Program {
    type V = ProgramView;

    open spec fn view(&self) -> ProgramView {
        match self {
            Program::Module(m) => ProgramView::Module(m@),
            Program::Script(s) => ProgramView::Script(s@),
        }
    }
}

} // verus!
