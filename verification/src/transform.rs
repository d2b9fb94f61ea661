//! The walk over a program: every markup element is visited once, parents
//! before the elements inside them, and annotated where it qualifies. The
//! module's shared binding is declared after the walk, when it is known
//! whether any element asked for it.

use vstd::prelude::*;
use vstd::string::*;
use crate::annotation::{
    annotate_own, annotated_at, annotation_attr, build_annotation, display_name,
    element_display_name, element_has_annotation, standard_strategy, AnnotationStrategy,
    AnnotationStrategyView, Context,
};
use crate::ast::{
    attrs_view, children_view, exprs_view, items_view, props_view, Expr, Ident, IdentView, JSXAttr,
    JSXAttrOrSpread, JSXAttrValue, JSXElement, JSXElementChild, JSXOpeningElement, KeyValueProp,
    Lit, Module, ModuleItem, Program, Script, Span, VarDecl, VarDeclKind,
};
use crate::model::{
    annotated_attr, annotated_attr_or_spread, annotated_attr_value, annotated_attrs,
    annotated_child, annotated_children, annotated_element, annotated_expr, annotated_exprs,
    annotated_item, annotated_items, annotated_module, annotated_opening, annotated_program,
    annotated_prop, annotated_props, annotated_script, annotates_in_attr,
    annotates_in_attr_or_spread, annotates_in_attr_value, annotates_in_attrs, annotates_in_child,
    annotates_in_children, annotates_in_element, annotates_in_expr, annotates_in_exprs,
    annotates_in_item, annotates_in_items, annotates_in_opening, annotates_in_program,
    annotates_in_prop, annotates_in_props, file_binding_symbol,
};
use crate::source_map::{SourceMap, SourceMapView};
use crate::utils::{canonical_file_name, get_file_info, resolve_file_name, text_view};

verus! {

/// The state of one walk over one file.
#[derive(PartialEq, Eq, Debug)]
pub struct InspectorPlugin {
    project_cwd: Option<String>,
    file_name_identifier: Option<Ident>,
    source_map: SourceMap,
    strategy: AnnotationStrategy,
}

pub ghost struct InspectorPluginView {
    /// The project root that file names are made relative to, if any.
    pub project_cwd: Option<Seq<char>>,
    /// The symbol that the file's name is bound to, once an element asked
    /// for it.
    pub file_name_identifier: Option<IdentView>,
    pub source_map: SourceMapView,
    pub strategy: AnnotationStrategyView,
}

impl InspectorPluginView {
    /// What the annotations of this walk depend on.
    pub open spec fn context(self) -> Context {
        Context {
            file_name: canonical_file_name(self.source_map.file_name, self.project_cwd),
            locs: self.source_map.locs,
            key: self.strategy.key,
            shape: self.strategy.shape,
        }
    }

    /// The state after a part of the walk. Only the symbol can change: it is
    /// created when the first element is annotated, if the strategy shares
    /// the file's name, and is kept from then on.
    pub open spec fn after(self, annotated: bool) -> InspectorPluginView {
        InspectorPluginView {
            file_name_identifier: match self.file_name_identifier {
                Some(id) => Some(id),
                None => if annotated && self.strategy.share_file_binding {
                    Some(file_binding_symbol(self.context()))
                } else {
                    None
                },
            },
            ..self
        }
    }
}

impl View for InspectorPlugin {
    type V = InspectorPluginView;

    closed spec fn view(&self) -> InspectorPluginView {
        InspectorPluginView {
            project_cwd: text_view(self.project_cwd),
            file_name_identifier: match self.file_name_identifier {
                Some(id) => Some(id@),
                None => None,
            },
            source_map: self.source_map@,
            strategy: self.strategy@,
        }
    }
}

/// A copy of an optional text.
fn clone_text(text: &Option<String>) -> (copy: Option<String>)
    ensures
        text_view(copy) == text_view(*text),
{
    match text {
        Some(s) => Some(s.clone()),
        None => None,
    }
}

impl InspectorPlugin {
    /// A walk with the standard strategy.
    pub fn new(project_cwd: Option<String>, source_map: SourceMap) -> (plugin: InspectorPlugin)
        ensures
            plugin@ == (InspectorPluginView {
                project_cwd: text_view(project_cwd),
                file_name_identifier: None,
                source_map: source_map@,
                strategy: standard_strategy(),
            }),
    {
        InspectorPlugin {
            project_cwd,
            file_name_identifier: None,
            source_map,
            strategy: AnnotationStrategy::standard(),
        }
    }

    /// A walk with a strategy of the caller's choice.
    pub fn with_strategy(
        project_cwd: Option<String>,
        source_map: SourceMap,
        strategy: AnnotationStrategy,
    ) -> (plugin: InspectorPlugin)
        ensures
            plugin@ == (InspectorPluginView {
                project_cwd: text_view(project_cwd),
                file_name_identifier: None,
                source_map: source_map@,
                strategy: strategy@,
            }),
    {
        InspectorPlugin { project_cwd, file_name_identifier: None, source_map, strategy }
    }

    /// The symbol that the file's name is bound to, if one was created.
    pub fn file_name_identifier(&self) -> (symbol: Option<&Ident>)
        ensures
            match symbol {
                Some(id) => self@.file_name_identifier == Some(id@),
                None => self@.file_name_identifier is None,
            },
    {
        self.file_name_identifier.as_ref()
    }

    /// The name under which the file of this walk is reported.
    pub fn file_name(&self) -> (name: String)
        ensures
            name@ == self@.context().file_name,
    {
        resolve_file_name(self.source_map.file_name(), clone_text(&self.project_cwd))
    }

    /// Decides whether the element is annotated, and if so where it stands.
    fn annotation_site(&self, el: &JSXOpeningElement) -> (site: Option<(u32, u32, String)>)
        ensures
            match site {
                Some((line, col, file_name)) => {
                    &&& annotated_at(self@.context(), el@) == Some((line, col))
                    &&& file_name@ == self@.context().file_name
                },
                None => annotated_at(self@.context(), el@) is None,
            },
    {
        if el.span.is_dummy() || element_has_annotation(self.strategy.key.as_str(), el) {
            None
        } else {
            get_file_info(clone_text(&self.project_cwd), &self.source_map, el.span.lo)
        }
    }

    /// Appends the annotation to the element's attributes, and creates the
    /// file's symbol where the strategy asks for one and none exists yet.
    fn attach(&mut self, el: &mut JSXOpeningElement, line: u32, col: u32, file_name: String)
        requires
            file_name@ == old(self)@.context().file_name,
        ensures
            final(self)@ == old(self)@.after(true),
            final(el).span == old(el).span,
            final(el).name == old(el).name,
            final(el).self_closing == old(el).self_closing,
            final(el).attrs@.len() == old(el).attrs@.len() + 1,
            forall|i: int|
                0 <= i < old(el).attrs@.len() ==> final(el).attrs@[i] == old(el).attrs@[i],
            final(el).attrs@[old(el).attrs@.len() as int]@ == annotation_attr(
                old(self)@.context(),
                line,
                col,
                display_name(old(el)@.name),
            ),
    {
        let tag = element_display_name(&el.name);
        let attr = build_annotation(&self.strategy, file_name.as_str(), line, col, tag.as_str());
        if self.strategy.share_file_binding && self.file_name_identifier.is_none() {
            self.file_name_identifier = Some(Ident::new(file_name, Span::dummy()));
        }
        el.attrs.push(attr);
    }

    /// The element's own annotation step, without a look inside it.
    pub fn annotate_opening_element(&mut self, el: &mut JSXOpeningElement)
        ensures
            final(el)@ == annotate_own(old(self)@.context(), old(el)@),
            final(self)@ == old(self)@.after(annotated_at(old(self)@.context(), old(el)@) is Some),
    {
        match self.annotation_site(el) {
            Some((line, col, file_name)) => {
                self.attach(el, line, col, file_name);
                assert(el@.attrs =~= annotate_own(old(self)@.context(), old(el)@).attrs);
            },
            None => {},
        }
    }

    /// Visits an opening tag: annotates the element where it qualifies, and
    /// in either case visits the elements inside its attributes.
    pub fn visit_mut_jsx_opening_element(&mut self, el: &mut JSXOpeningElement)
        ensures
            final(el)@ == annotated_opening(old(self)@.context(), old(el)@),
            final(self)@ == old(self)@.after(annotates_in_opening(old(self)@.context(), old(el)@)),
        decreases *old(el),
    {
        let ghost c = self@.context();
        let site = self.annotation_site(el);
        self.visit_mut_jsx_attrs(&mut el.attrs);
        let ghost inner = el.attrs@;
        assert(attrs_view(old(el).attrs@) =~= old(el)@.attrs);
        assert(inner.len() == old(el).attrs@.len()) by {
            assert(attrs_view(inner).len() == inner.len());
            assert(annotated_attrs(c, attrs_view(old(el).attrs@)).len() == old(el).attrs@.len());
        }
        assert forall|i: int| 0 <= i < inner.len() implies (#[trigger] inner[i])@
            == annotated_attr_or_spread(c, old(el)@.attrs[i]) by {
            assert(attrs_view(inner)[i] == inner[i]@);
            assert(attrs_view(old(el).attrs@)[i] == old(el).attrs@[i]@);
            assert(annotated_attrs(c, attrs_view(old(el).attrs@))[i] == annotated_attr_or_spread(
                c,
                attrs_view(old(el).attrs@)[i],
            ));
        }
        match site {
            Some((line, col, file_name)) => {
                self.attach(el, line, col, file_name);
            },
            None => {},
        }
        assert(el@.attrs =~= annotated_opening(c, old(el)@).attrs);
    }

    /// Visits every entry of an attribute list.
    pub fn visit_mut_jsx_attrs(&mut self, attrs: &mut Vec<JSXAttrOrSpread>)
        ensures
            attrs_view(final(attrs)@) == annotated_attrs(
                old(self)@.context(),
                attrs_view(old(attrs)@),
            ),
            final(self)@ == old(self)@.after(
                annotates_in_attrs(old(self)@.context(), attrs_view(old(attrs)@)),
            ),
        decreases *old(attrs),
    {
        let ghost c = self@.context();
        let ghost before = attrs_view(attrs@);
        let ghost mut touched = false;
        let n: usize = attrs.len();
        let mut i: usize = 0;
        while i < n
            invariant
                i <= n,
                attrs@.len() == n,
                old(attrs)@.len() == n,
                before == attrs_view(old(attrs)@),
                c == old(self)@.context(),
                self@ == old(self)@.after(touched),
                touched == exists|j: int|
                    0 <= j < i && annotates_in_attr_or_spread(c, #[trigger] before[j]),
                forall|j: int|
                    0 <= j < i ==> (#[trigger] attrs@[j])@ == annotated_attr_or_spread(
                        c,
                        before[j],
                    ),
                forall|j: int| i <= j < n ==> attrs@[j] == old(attrs)@[j],
            decreases n - i,
        {
            self.visit_mut_jsx_attr_or_spread(&mut attrs[i]);
            proof {
                touched = touched || annotates_in_attr_or_spread(c, before[i as int]);
            }
            i = i + 1;
        }
        assert(attrs_view(attrs@) =~= annotated_attrs(c, before));
    }

    /// Visits one entry of an attribute list.
    pub fn visit_mut_jsx_attr_or_spread(&mut self, attr: &mut JSXAttrOrSpread)
        ensures
            final(attr)@ == annotated_attr_or_spread(old(self)@.context(), old(attr)@),
            final(self)@ == old(self)@.after(
                annotates_in_attr_or_spread(old(self)@.context(), old(attr)@),
            ),
        decreases *old(attr),
    {
        match attr {
            JSXAttrOrSpread::JSXAttr(a) => {
                self.visit_mut_jsx_attr(a);
            },
            JSXAttrOrSpread::SpreadElement(e) => {
                self.visit_mut_expr(e);
            },
        }
    }

    /// Visits a named attribute.
    pub fn visit_mut_jsx_attr(&mut self, attr: &mut JSXAttr)
        ensures
            final(attr)@ == annotated_attr(old(self)@.context(), old(attr)@),
            final(self)@ == old(self)@.after(annotates_in_attr(old(self)@.context(), old(attr)@)),
        decreases *old(attr),
    {
        match &mut attr.value {
            Some(v) => {
                self.visit_mut_jsx_attr_value(v);
            },
            None => {},
        }
    }

    /// Visits the value of an attribute.
    pub fn visit_mut_jsx_attr_value(&mut self, value: &mut JSXAttrValue)
        ensures
            final(value)@ == annotated_attr_value(old(self)@.context(), old(value)@),
            final(self)@ == old(self)@.after(
                annotates_in_attr_value(old(self)@.context(), old(value)@),
            ),
        decreases *old(value),
    {
        match value {
            JSXAttrValue::Str(_) => {},
            JSXAttrValue::JSXExprContainer(e) => {
                self.visit_mut_expr(e);
            },
        }
    }

    /// Visits an expression.
    pub fn visit_mut_expr(&mut self, e: &mut Expr)
        ensures
            final(e)@ == annotated_expr(old(self)@.context(), old(e)@),
            final(self)@ == old(self)@.after(annotates_in_expr(old(self)@.context(), old(e)@)),
        decreases *old(e),
    {
        let ghost c = self@.context();
        match e {
            Expr::Lit(_) => {},
            Expr::Ident(_) => {},
            Expr::Object(props) => {
                self.visit_mut_props(props);
            },
            Expr::JSXElement(el) => {
                self.visit_mut_jsx_element(el);
            },
            Expr::Other(parts) => {
                self.visit_mut_exprs(parts);
            },
        }
        proof {
            let now = *e;
            let was = *old(e);
            if now is Object {
                    let props = now->Object_0;
                    let before = was->Object_0;
                    assert(props_view(before@) =~= old(e)@->Object_0);
                    assert(props@.len() == before@.len()) by {
                        assert(props_view(props@).len() == props@.len());
                        assert(annotated_props(c, props_view(before@)).len() == before@.len());
                    }
                    assert forall|i: int| 0 <= i < props@.len() implies (#[trigger] props@[i])@
                        == annotated_prop(c, before@[i]@) by {
                        assert(props_view(props@)[i] == props@[i]@);
                        assert(props_view(before@)[i] == before@[i]@);
                        assert(annotated_props(c, props_view(before@))[i] == annotated_prop(
                            c,
                            props_view(before@)[i],
                        ));
                    }
                    assert(e@->Object_0 =~= annotated_expr(c, old(e)@)->Object_0);
            } else if now is Other {
                    let parts = now->Other_0;
                    let before = was->Other_0;
                    assert(exprs_view(before@) =~= old(e)@->Other_0);
                    assert(parts@.len() == before@.len()) by {
                        assert(exprs_view(parts@).len() == parts@.len());
                        assert(annotated_exprs(c, exprs_view(before@)).len() == before@.len());
                    }
                    assert forall|i: int| 0 <= i < parts@.len() implies (#[trigger] parts@[i])@
                        == annotated_expr(c, before@[i]@) by {
                        assert(exprs_view(parts@)[i] == parts@[i]@);
                        assert(exprs_view(before@)[i] == before@[i]@);
                        assert(annotated_exprs(c, exprs_view(before@))[i] == annotated_expr(
                            c,
                            exprs_view(before@)[i],
                        ));
                    }
                    assert(e@->Other_0 =~= annotated_expr(c, old(e)@)->Other_0);
            }
        }
    }

    /// Visits every entry of an object.
    pub fn visit_mut_props(&mut self, props: &mut Vec<KeyValueProp>)
        ensures
            props_view(final(props)@) == annotated_props(
                old(self)@.context(),
                props_view(old(props)@),
            ),
            final(self)@ == old(self)@.after(
                annotates_in_props(old(self)@.context(), props_view(old(props)@)),
            ),
        decreases *old(props),
    {
        let ghost c = self@.context();
        let ghost before = props_view(props@);
        let ghost mut touched = false;
        let n: usize = props.len();
        let mut i: usize = 0;
        while i < n
            invariant
                i <= n,
                props@.len() == n,
                old(props)@.len() == n,
                before == props_view(old(props)@),
                c == old(self)@.context(),
                self@ == old(self)@.after(touched),
                touched == exists|j: int|
                    0 <= j < i && annotates_in_prop(c, #[trigger] before[j]),
                forall|j: int|
                    0 <= j < i ==> (#[trigger] props@[j])@ == annotated_prop(c, before[j]),
                forall|j: int| i <= j < n ==> props@[j] == old(props)@[j],
            decreases n - i,
        {
            self.visit_mut_prop(&mut props[i]);
            proof {
                touched = touched || annotates_in_prop(c, before[i as int]);
            }
            i = i + 1;
        }
        assert(props_view(props@) =~= annotated_props(c, before));
    }

    /// Visits one entry of an object.
    pub fn visit_mut_prop(&mut self, prop: &mut KeyValueProp)
        ensures
            final(prop)@ == annotated_prop(old(self)@.context(), old(prop)@),
            final(self)@ == old(self)@.after(annotates_in_prop(old(self)@.context(), old(prop)@)),
        decreases *old(prop),
    {
        self.visit_mut_expr(&mut prop.value);
    }

    /// Visits every expression of a list.
    pub fn visit_mut_exprs(&mut self, parts: &mut Vec<Expr>)
        ensures
            exprs_view(final(parts)@) == annotated_exprs(
                old(self)@.context(),
                exprs_view(old(parts)@),
            ),
            final(self)@ == old(self)@.after(
                annotates_in_exprs(old(self)@.context(), exprs_view(old(parts)@)),
            ),
        decreases *old(parts),
    {
        let ghost c = self@.context();
        let ghost before = exprs_view(parts@);
        let ghost mut touched = false;
        let n: usize = parts.len();
        let mut i: usize = 0;
        while i < n
            invariant
                i <= n,
                parts@.len() == n,
                old(parts)@.len() == n,
                before == exprs_view(old(parts)@),
                c == old(self)@.context(),
                self@ == old(self)@.after(touched),
                touched == exists|j: int|
                    0 <= j < i && annotates_in_expr(c, #[trigger] before[j]),
                forall|j: int|
                    0 <= j < i ==> (#[trigger] parts@[j])@ == annotated_expr(c, before[j]),
                forall|j: int| i <= j < n ==> parts@[j] == old(parts)@[j],
            decreases n - i,
        {
            self.visit_mut_expr(&mut parts[i]);
            proof {
                touched = touched || annotates_in_expr(c, before[i as int]);
            }
            i = i + 1;
        }
        assert(exprs_view(parts@) =~= annotated_exprs(c, before));
    }

    /// Visits an element: its opening tag, then every child.
    pub fn visit_mut_jsx_element(&mut self, el: &mut JSXElement)
        ensures
            final(el)@ == annotated_element(old(self)@.context(), old(el)@),
            final(self)@ == old(self)@.after(annotates_in_element(old(self)@.context(), old(el)@)),
        decreases *old(el),
    {
        let ghost c = self@.context();
        self.visit_mut_jsx_opening_element(&mut el.opening);
        self.visit_mut_jsx_children(&mut el.children);
        let ghost kids = el.children@;
        let ghost before = old(el).children@;
        assert(children_view(before) =~= old(el)@.children);
        assert(kids.len() == before.len()) by {
            assert(children_view(kids).len() == kids.len());
            assert(annotated_children(c, children_view(before)).len() == before.len());
        }
        assert forall|i: int| 0 <= i < kids.len() implies (#[trigger] kids[i])@ == annotated_child(
            c,
            before[i]@,
        ) by {
            assert(children_view(kids)[i] == kids[i]@);
            assert(children_view(before)[i] == before[i]@);
            assert(annotated_children(c, children_view(before))[i] == annotated_child(
                c,
                children_view(before)[i],
            ));
        }
        assert(el@.children =~= annotated_element(c, old(el)@).children);
    }

    /// Visits every child of an element.
    pub fn visit_mut_jsx_children(&mut self, children: &mut Vec<JSXElementChild>)
        ensures
            children_view(final(children)@) == annotated_children(
                old(self)@.context(),
                children_view(old(children)@),
            ),
            final(self)@ == old(self)@.after(
                annotates_in_children(old(self)@.context(), children_view(old(children)@)),
            ),
        decreases *old(children),
    {
        let ghost c = self@.context();
        let ghost before = children_view(children@);
        let ghost mut touched = false;
        let n: usize = children.len();
        let mut i: usize = 0;
        while i < n
            invariant
                i <= n,
                children@.len() == n,
                old(children)@.len() == n,
                before == children_view(old(children)@),
                c == old(self)@.context(),
                self@ == old(self)@.after(touched),
                touched == exists|j: int|
                    0 <= j < i && annotates_in_child(c, #[trigger] before[j]),
                forall|j: int|
                    0 <= j < i ==> (#[trigger] children@[j])@ == annotated_child(c, before[j]),
                forall|j: int| i <= j < n ==> children@[j] == old(children)@[j],
            decreases n - i,
        {
            self.visit_mut_jsx_element_child(&mut children[i]);
            proof {
                touched = touched || annotates_in_child(c, before[i as int]);
            }
            i = i + 1;
        }
        assert(children_view(children@) =~= annotated_children(c, before));
    }

    /// Visits one child of an element.
    pub fn visit_mut_jsx_element_child(&mut self, child: &mut JSXElementChild)
        ensures
            final(child)@ == annotated_child(old(self)@.context(), old(child)@),
            final(self)@ == old(self)@.after(annotates_in_child(old(self)@.context(), old(child)@)),
        decreases *old(child),
    {
        match child {
            JSXElementChild::JSXText(_) => {},
            JSXElementChild::JSXExprContainer(e) => {
                self.visit_mut_expr(e);
            },
            JSXElementChild::JSXElement(el) => {
                self.visit_mut_jsx_element(el);
            },
        }
    }

    /// Visits a top-level statement.
    pub fn visit_mut_module_item(&mut self, item: &mut ModuleItem)
        ensures
            final(item)@ == annotated_item(old(self)@.context(), old(item)@),
            final(self)@ == old(self)@.after(annotates_in_item(old(self)@.context(), old(item)@)),
    {
        match item {
            ModuleItem::Var(d) => {
                match &mut d.init {
                    Some(e) => {
                        self.visit_mut_expr(e);
                    },
                    None => {},
                }
            },
            ModuleItem::Expr(e) => {
                self.visit_mut_expr(e);
            },
        }
    }

    /// Visits every statement of a list.
    pub fn visit_mut_module_items(&mut self, items: &mut Vec<ModuleItem>)
        ensures
            items_view(final(items)@) == annotated_items(
                old(self)@.context(),
                items_view(old(items)@),
            ),
            final(self)@ == old(self)@.after(
                annotates_in_items(old(self)@.context(), items_view(old(items)@)),
            ),
    {
        let ghost c = self@.context();
        let ghost before = items_view(items@);
        let ghost mut touched = false;
        let n: usize = items.len();
        let mut i: usize = 0;
        while i < n
            invariant
                i <= n,
                items@.len() == n,
                old(items)@.len() == n,
                before == items_view(old(items)@),
                c == old(self)@.context(),
                self@ == old(self)@.after(touched),
                touched == exists|j: int|
                    0 <= j < i && annotates_in_item(c, #[trigger] before[j]),
                forall|j: int|
                    0 <= j < i ==> (#[trigger] items@[j])@ == annotated_item(c, before[j]),
                forall|j: int| i <= j < n ==> items@[j] == old(items)@[j],
            decreases n - i,
        {
            self.visit_mut_module_item(&mut items[i]);
            proof {
                touched = touched || annotates_in_item(c, before[i as int]);
            }
            i = i + 1;
        }
        assert(items_view(items@) =~= annotated_items(c, before));
    }

    /// Visits a module: every statement first, and then, if the file's
    /// symbol exists by now, its declaration goes in front of them all.
    pub fn visit_mut_module(&mut self, module: &mut Module)
        ensures
            final(self)@ == old(self)@.after(
                annotates_in_items(old(self)@.context(), old(module)@.body),
            ),
            final(module)@ == annotated_module(
                old(self)@.context(),
                old(module)@,
                final(self)@.file_name_identifier,
            ),
    {
        let ghost c = self@.context();
        self.visit_mut_module_items(&mut module.body);
        match &self.file_name_identifier {
            Some(symbol) => {
                let declaration = ModuleItem::Var(
                    VarDecl {
                        span: Span::dummy(),
                        kind: VarDeclKind::Var,
                        name: symbol.duplicate(),
                        init: Some(Expr::Lit(Lit::Str(self.file_name()))),
                    },
                );
                module.body.insert(0, declaration);
                assert(module@.body =~= annotated_module(
                    c,
                    old(module)@,
                    self@.file_name_identifier,
                ).body);
            },
            None => {},
        }
    }

    /// Visits a script: every statement.
    pub fn visit_mut_script(&mut self, script: &mut Script)
        ensures
            final(self)@ == old(self)@.after(
                annotates_in_items(old(self)@.context(), old(script)@.body),
            ),
            final(script)@ == annotated_script(old(self)@.context(), old(script)@),
    {
        self.visit_mut_module_items(&mut script.body);
    }

    /// Visits a program.
    pub fn visit_mut_program(&mut self, program: &mut Program)
        ensures
            final(self)@ == old(self)@.after(
                annotates_in_program(old(self)@.context(), old(program)@),
            ),
            final(program)@ == annotated_program(
                old(self)@.context(),
                old(program)@,
                final(self)@.file_name_identifier,
            ),
    {
        match program {
            Program::Module(m) => {
                self.visit_mut_module(m);
            },
            Program::Script(s) => {
                self.visit_mut_script(s);
            },
        }
    }
}

} // verus!
