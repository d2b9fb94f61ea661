//! What holds of the transform as a whole, proved from the definitions that
//! the contracts of the library are stated in.

use vstd::prelude::*;
use crate::annotation::{
    annotate_own, annotated_at, annotation_attr, display_name, has_annotation, is_annotation,
    AnnotationStrategyView, Context,
};
use crate::ast::{
    BytePos, ExprView, IdentView, JSXAttrOrSpreadView, JSXAttrValueView, JSXAttrView, JSXElementChildView,
    JSXElementView, JSXOpeningElementView, KeyValuePropView, ModuleItemView, ModuleView,
    ProgramView,
};
use crate::model::{
    annotated_attr, annotated_attr_or_spread, annotated_attr_value, annotated_child,
    annotated_element, annotated_expr, annotated_item, annotated_items, annotated_module,
    annotated_opening, annotated_program, annotated_prop, annotates_in_attr,
    annotates_in_attr_or_spread, annotates_in_attr_value, annotates_in_child,
    annotates_in_element, annotates_in_expr, annotates_in_item, annotates_in_items,
    annotates_in_opening, annotates_in_program, annotates_in_prop, file_binding_decl,
};
use crate::plugin::{file_context, shared_symbol, transformed};
use crate::source_map::{find_loc, resolve_position, Loc};
use crate::transform::InspectorPluginView;

verus! {

/// Whether exactly one attribute of the list is called `key`.
pub open spec fn carries_one_annotation(key: Seq<char>, attrs: Seq<JSXAttrOrSpreadView>) -> bool {
    exists|i: int|
        0 <= i < attrs.len() && is_annotation(key, #[trigger] attrs[i]) && forall|j: int|
            0 <= j < attrs.len() && is_annotation(key, #[trigger] attrs[j]) ==> j == i
}

/// Whether at most one attribute of the list is called `key`.
pub open spec fn carries_at_most_one_annotation(
    key: Seq<char>,
    attrs: Seq<JSXAttrOrSpreadView>,
) -> bool {
    forall|i: int, j: int|
        0 <= i < attrs.len() && 0 <= j < attrs.len() && is_annotation(key, #[trigger] attrs[i])
            && is_annotation(key, #[trigger] attrs[j]) ==> i == j
}

/// The table's answer for an offset is one of its entries about that
/// offset, and the first of them; it has none only where no entry is.
pub proof fn lemma_lookup_finds_first_entry(locs: Seq<Loc>, pos: BytePos)
    ensures
        match find_loc(locs, pos) {
            Some(loc) => exists|i: int|
                0 <= i < locs.len() && #[trigger] locs[i] == loc && loc.pos == pos && forall|j: int|
                    0 <= j < i ==> (#[trigger] locs[j]).pos != pos,
            None => forall|i: int| 0 <= i < locs.len() ==> (#[trigger] locs[i]).pos != pos,
        },
    decreases locs.len(),
{
    if locs.len() == 0 {
    } else if locs[0].pos == pos {
        assert(locs[0] == find_loc(locs, pos)->Some_0);
    } else {
        let rest = locs.drop_first();
        lemma_lookup_finds_first_entry(rest, pos);
        match find_loc(rest, pos) {
            Some(loc) => {
                let i = choose|i: int|
                    0 <= i < rest.len() && #[trigger] rest[i] == loc && loc.pos == pos
                        && forall|j: int| 0 <= j < i ==> (#[trigger] rest[j]).pos != pos;
                assert(locs[i + 1] == loc);
                assert forall|j: int| 0 <= j < i + 1 implies (#[trigger] locs[j]).pos != pos by {
                    if j > 0 {
                        assert(rest[j - 1] == locs[j]);
                    }
                }
            },
            None => {
                assert forall|i: int| 0 <= i < locs.len() implies (#[trigger] locs[i]).pos
                    != pos by {
                    if i > 0 {
                        assert(rest[i - 1] == locs[i]);
                    }
                }
            },
        }
    }
}

/// An element is annotated at the line that the table reports for its
/// start, and at the reported column plus one.
pub proof fn lemma_annotation_position_is_reported(c: Context, el: JSXOpeningElementView)
    requires
        annotated_at(c, el) is Some,
    ensures
        find_loc(c.locs, el.span.lo) is Some,
        annotated_at(c, el)->Some_0.0 == find_loc(c.locs, el.span.lo)->Some_0.line,
        annotated_at(c, el)->Some_0.1 == find_loc(c.locs, el.span.lo)->Some_0.col_display + 1,
{
}

/// An element that already carries the reserved attribute is left as it
/// is by its own annotation step.
pub proof fn lemma_annotated_element_is_left_alone(c: Context, el: JSXOpeningElementView)
    requires
        has_annotation(c.key, el.attrs),
    ensures
        annotate_own(c, el) == el,
        annotated_opening(c, el).attrs.len() == el.attrs.len(),
{
}

/// An element with a synthesized span is left as it is by its own
/// annotation step.
pub proof fn lemma_synthesized_element_is_left_alone(c: Context, el: JSXOpeningElementView)
    requires
        el.span.spec_is_dummy(),
    ensures
        annotate_own(c, el) == el,
        annotated_opening(c, el).attrs.len() == el.attrs.len(),
{
}

/// The walk changes no attribute's name.
pub proof fn lemma_walk_keeps_attribute_names(c: Context, a: JSXAttrOrSpreadView, key: Seq<char>)
    ensures
        is_annotation(key, annotated_attr_or_spread(c, a)) == is_annotation(key, a),
{
}

/// The walk neither gives the reserved attribute to an element's own
/// attributes nor takes it from them.
pub proof fn lemma_walk_keeps_annotations(c: Context, el: JSXOpeningElementView)
    ensures
        forall|i: int|
            0 <= i < el.attrs.len() ==> is_annotation(
                c.key,
                #[trigger] annotated_opening(c, el).attrs[i],
            ) == is_annotation(c.key, el.attrs[i]),
{
    assert forall|i: int| 0 <= i < el.attrs.len() implies is_annotation(
        c.key,
        #[trigger] annotated_opening(c, el).attrs[i],
    ) == is_annotation(c.key, el.attrs[i]) by {
        lemma_walk_keeps_attribute_names(c, el.attrs[i], c.key);
    }
}

/// An element with a real span and a usable position, carrying the
/// reserved attribute at most once, carries it exactly once after the walk.
/// Its earlier attributes stand before the annotation in their order.
pub proof fn lemma_single_annotation(c: Context, el: JSXOpeningElementView)
    requires
        !el.span.spec_is_dummy(),
        resolve_position(c.locs, el.span.lo) is Some,
        carries_at_most_one_annotation(c.key, el.attrs),
    ensures
        carries_one_annotation(c.key, annotate_own(c, el).attrs),
        carries_one_annotation(c.key, annotated_opening(c, el).attrs),
        el.attrs.is_prefix_of(annotate_own(c, el).attrs),
        !has_annotation(c.key, el.attrs) ==> annotate_own(c, el).attrs == el.attrs.push(
            annotation_attr(
                c,
                resolve_position(c.locs, el.span.lo)->Some_0.0,
                resolve_position(c.locs, el.span.lo)->Some_0.1,
                display_name(el.name),
            ),
        ),
        forall|i: int|
            0 <= i < el.attrs.len() ==> #[trigger] annotated_opening(c, el).attrs[i]
                == annotated_attr_or_spread(c, el.attrs[i]),
{
    let own = annotate_own(c, el).attrs;
    let all = annotated_opening(c, el).attrs;
    lemma_walk_keeps_annotations(c, el);
    if has_annotation(c.key, el.attrs) {
        let i = choose|i: int| 0 <= i < el.attrs.len() && is_annotation(c.key, #[trigger] el.attrs[i]);
        assert(is_annotation(c.key, own[i]));
        assert(is_annotation(c.key, all[i]));
        assert forall|j: int| 0 <= j < all.len() && is_annotation(c.key, #[trigger] all[j]) implies j
            == i by {
            assert(is_annotation(c.key, el.attrs[j]));
        }
    } else {
        let n = el.attrs.len() as int;
        assert(is_annotation(c.key, own[n]));
        assert(is_annotation(c.key, all[n]));
        assert forall|j: int| 0 <= j < own.len() && is_annotation(c.key, #[trigger] own[j]) implies j
            == n by {
            if j < n {
                assert(is_annotation(c.key, el.attrs[j]));
            }
        }
        assert forall|j: int| 0 <= j < all.len() && is_annotation(c.key, #[trigger] all[j]) implies j
            == n by {
            if j < n {
                assert(is_annotation(c.key, el.attrs[j]));
            }
        }
    }
}

/// The walk goes into every child of an element, whether or not the
/// element itself is annotated.
pub proof fn lemma_children_are_always_visited(c: Context, el: JSXElementView, i: int)
    requires
        0 <= i < el.children.len(),
    ensures
        annotated_element(c, el).children.len() == el.children.len(),
        annotated_element(c, el).children[i] == annotated_child(c, el.children[i]),
        el.children[i] is JSXElement ==> annotated_element(c, el).children[i]
            == JSXElementChildView::JSXElement(
            Box::new(annotated_element(c, *el.children[i]->JSXElement_0)),
        ),
{
}

/// The annotation itself holds no element: the walk passes over it.
pub proof fn lemma_annotation_is_settled(c: Context, line: u32, col: u32, tag: Seq<char>)
    ensures
        annotated_attr_or_spread(c, annotation_attr(c, line, col, tag)) == annotation_attr(
            c,
            line,
            col,
            tag,
        ),
        !annotates_in_attr_or_spread(c, annotation_attr(c, line, col, tag)),
{
    reveal_with_fuel(annotated_expr, 3);
    reveal_with_fuel(annotated_prop, 3);
    reveal_with_fuel(annotates_in_expr, 3);
    reveal_with_fuel(annotates_in_prop, 3);
    let a = annotation_attr(c, line, col, tag);
    let v = a->JSXAttr_0.value->Some_0->JSXExprContainer_0;
    if v is Object {
        let props = v->Object_0;
        assert(annotated_expr(c, v)->Object_0 =~= props);
        assert forall|i: int| 0 <= i < props.len() implies !annotates_in_prop(
            c,
            #[trigger] props[i],
        ) by {
            assert(props[i].value is Lit);
        }
    }
}

/// After one walk no element inside an object entry is annotated again,
/// and a second walk changes nothing.
pub proof fn lemma_prop_settles(c: Context, p: KeyValuePropView)
    ensures
        !annotates_in_prop(c, annotated_prop(c, p)),
        annotated_prop(c, annotated_prop(c, p)) == annotated_prop(c, p),
    decreases p,
{
    lemma_expr_settles(c, p.value);
}

/// After one walk no element inside an expression is annotated again, and
/// a second walk changes nothing.
pub proof fn lemma_expr_settles(c: Context, e: ExprView)
    ensures
        !annotates_in_expr(c, annotated_expr(c, e)),
        annotated_expr(c, annotated_expr(c, e)) == annotated_expr(c, e),
    decreases e,
{
    match e {
        ExprView::Lit(_) => {},
        ExprView::Ident(_) => {},
        ExprView::Object(props) => {
            let once = annotated_expr(c, e)->Object_0;
            assert forall|i: int| 0 <= i < props.len() implies !annotates_in_prop(
                c,
                #[trigger] once[i],
            ) && annotated_prop(c, once[i]) == once[i] by {
                lemma_prop_settles(c, props[i]);
            }
            assert(annotated_expr(c, annotated_expr(c, e))->Object_0 =~= once);
        },
        ExprView::JSXElement(el) => {
            lemma_element_settles(c, *el);
        },
        ExprView::Other(parts) => {
            let once = annotated_expr(c, e)->Other_0;
            assert forall|i: int| 0 <= i < parts.len() implies !annotates_in_expr(
                c,
                #[trigger] once[i],
            ) && annotated_expr(c, once[i]) == once[i] by {
                lemma_expr_settles(c, parts[i]);
            }
            assert(annotated_expr(c, annotated_expr(c, e))->Other_0 =~= once);
        },
    }
}

/// After one walk no element inside an attribute value is annotated again,
/// and a second walk changes nothing.
pub proof fn lemma_attr_value_settles(c: Context, v: JSXAttrValueView)
    ensures
        !annotates_in_attr_value(c, annotated_attr_value(c, v)),
        annotated_attr_value(c, annotated_attr_value(c, v)) == annotated_attr_value(c, v),
    decreases v,
{
    match v {
        JSXAttrValueView::Str(_) => {},
        JSXAttrValueView::JSXExprContainer(e) => {
            lemma_expr_settles(c, e);
        },
    }
}

/// After one walk no element inside an attribute is annotated again, and a
/// second walk changes nothing.
pub proof fn lemma_attr_settles(c: Context, a: JSXAttrView)
    ensures
        !annotates_in_attr(c, annotated_attr(c, a)),
        annotated_attr(c, annotated_attr(c, a)) == annotated_attr(c, a),
    decreases a,
{
    match a.value {
        Some(v) => {
            lemma_attr_value_settles(c, v);
        },
        None => {},
    }
}

/// After one walk no element inside an entry of an attribute list is
/// annotated again, and a second walk changes nothing.
pub proof fn lemma_attr_or_spread_settles(c: Context, a: JSXAttrOrSpreadView)
    ensures
        !annotates_in_attr_or_spread(c, annotated_attr_or_spread(c, a)),
        annotated_attr_or_spread(c, annotated_attr_or_spread(c, a)) == annotated_attr_or_spread(
            c,
            a,
        ),
    decreases a,
{
    match a {
        JSXAttrOrSpreadView::JSXAttr(attr) => {
            lemma_attr_settles(c, attr);
        },
        JSXAttrOrSpreadView::SpreadElement(e) => {
            lemma_expr_settles(c, e);
        },
    }
}

/// After one walk the element of an opening tag is not annotated again,
/// nor any inside its attributes, and a second walk changes nothing.
pub proof fn lemma_opening_settles(c: Context, el: JSXOpeningElementView)
    ensures
        annotated_at(c, annotated_opening(c, el)) is None,
        !annotates_in_opening(c, annotated_opening(c, el)),
        annotated_opening(c, annotated_opening(c, el)) == annotated_opening(c, el),
    decreases el,
{
    let once = annotated_opening(c, el);
    let n = el.attrs.len() as int;
    lemma_walk_keeps_annotations(c, el);
    if annotated_at(c, el) is Some {
        assert(is_annotation(c.key, once.attrs[n]));
    } else if has_annotation(c.key, el.attrs) {
        let i = choose|i: int| 0 <= i < el.attrs.len() && is_annotation(c.key, #[trigger] el.attrs[i]);
        assert(is_annotation(c.key, once.attrs[i]));
    }
    assert(annotated_at(c, once) is None);
    assert forall|i: int| 0 <= i < once.attrs.len() implies !annotates_in_attr_or_spread(
        c,
        #[trigger] once.attrs[i],
    ) && annotated_attr_or_spread(c, once.attrs[i]) == once.attrs[i] by {
        if i < n {
            lemma_attr_or_spread_settles(c, el.attrs[i]);
        } else {
            let at = annotated_at(c, el)->Some_0;
            lemma_annotation_is_settled(c, at.0, at.1, display_name(el.name));
        }
    }
    assert(annotated_opening(c, once).attrs =~= once.attrs);
}

/// After one walk no element inside a child is annotated again, and a
/// second walk changes nothing.
pub proof fn lemma_child_settles(c: Context, ch: JSXElementChildView)
    ensures
        !annotates_in_child(c, annotated_child(c, ch)),
        annotated_child(c, annotated_child(c, ch)) == annotated_child(c, ch),
    decreases ch,
{
    match ch {
        JSXElementChildView::JSXText(_) => {},
        JSXElementChildView::JSXExprContainer(e) => {
            lemma_expr_settles(c, e);
        },
        JSXElementChildView::JSXElement(el) => {
            lemma_element_settles(c, *el);
        },
    }
}

/// After one walk neither an element nor any inside it is annotated again,
/// and a second walk changes nothing.
pub proof fn lemma_element_settles(c: Context, el: JSXElementView)
    ensures
        !annotates_in_element(c, annotated_element(c, el)),
        annotated_element(c, annotated_element(c, el)) == annotated_element(c, el),
    decreases el,
{
    let once = annotated_element(c, el);
    lemma_opening_settles(c, el.opening);
    assert forall|i: int| 0 <= i < el.children.len() implies !annotates_in_child(
        c,
        #[trigger] once.children[i],
    ) && annotated_child(c, once.children[i]) == once.children[i] by {
        lemma_child_settles(c, el.children[i]);
    }
    assert(annotated_element(c, once).children =~= once.children);
}

/// After one walk no element inside a statement is annotated again, and a
/// second walk changes nothing.
pub proof fn lemma_item_settles(c: Context, item: ModuleItemView)
    ensures
        !annotates_in_item(c, annotated_item(c, item)),
        annotated_item(c, annotated_item(c, item)) == annotated_item(c, item),
{
    match item {
        ModuleItemView::Var(d) => {
            match d.init {
                Some(e) => {
                    lemma_expr_settles(c, e);
                },
                None => {},
            }
        },
        ModuleItemView::Expr(e) => {
            lemma_expr_settles(c, e);
        },
    }
}

/// After one walk no element of a statement list is annotated again, and a
/// second walk changes nothing.
pub proof fn lemma_items_settle(c: Context, items: Seq<ModuleItemView>)
    ensures
        !annotates_in_items(c, annotated_items(c, items)),
        annotated_items(c, annotated_items(c, items)) == annotated_items(c, items),
{
    let once = annotated_items(c, items);
    assert forall|i: int| 0 <= i < items.len() implies !annotates_in_item(c, #[trigger] once[i])
        && annotated_item(c, once[i]) == once[i] by {
        lemma_item_settles(c, items[i]);
    }
    assert(annotated_items(c, once) =~= once);
}

/// A module gains at most one statement in a walk: the declaration of the
/// file's symbol, in front of all others, and only where the symbol exists.
pub proof fn lemma_module_gains_at_most_one_declaration(
    c: Context,
    m: ModuleView,
    symbol: Option<IdentView>,
)
    ensures
        annotated_module(c, m, symbol).body.len() == m.body.len() + (if symbol is Some {
            1int
        } else {
            0int
        }),
        symbol is Some ==> annotated_module(c, m, symbol).body[0] == file_binding_decl(
            c,
            symbol->Some_0,
        ),
        forall|i: int|
            0 <= i < m.body.len() ==> #[trigger] annotated_items(c, m.body)[i] == annotated_module(
                c,
                m,
                symbol,
            ).body[i + (if symbol is Some {
                1int
            } else {
                0int
            })],
{
}

/// A walk has at most one symbol: parts of the walk change nothing but
/// the symbol, and once it exists it is kept.
pub proof fn lemma_symbol_is_created_once(p: InspectorPluginView, first: bool, second: bool)
    ensures
        p.after(first).context() == p.context(),
        p.after(first).after(second) == p.after(first || second),
        p.file_name_identifier is Some ==> p.after(first) == p,
        p.after(false) == p,
{
}

/// A program that was walked once comes back from a second, fresh walk as
/// it went in.
pub proof fn lemma_second_walk_changes_nothing(
    program: ProgramView,
    file_path: Option<Seq<char>>,
    project_cwd: Option<Seq<char>>,
    positions: Seq<Loc>,
    strategy: AnnotationStrategyView,
)
    ensures
        transformed(
            transformed(program, file_path, project_cwd, positions, strategy),
            file_path,
            project_cwd,
            positions,
            strategy,
        ) == transformed(program, file_path, project_cwd, positions, strategy),
{
    match file_path {
        Some(path) => {
            let c = file_context(path, project_cwd, positions, strategy);
            let symbol = shared_symbol(c, strategy.share_file_binding, program);
            let once = annotated_program(c, program, symbol);
            match program {
                ProgramView::Module(m) => {
                    lemma_items_settle(c, m.body);
                    let inner = annotated_items(c, m.body);
                    let body = once->Module_0.body;
                    match symbol {
                        Some(id) => {
                            assert forall|i: int| 0 <= i < body.len() implies !annotates_in_item(
                                c,
                                #[trigger] body[i],
                            ) && annotated_item(c, body[i]) == body[i] by {
                                if i > 0 {
                                    assert(body[i] == inner[i - 1]);
                                    assert(annotated_items(c, inner)[i - 1] == annotated_item(
                                        c,
                                        inner[i - 1],
                                    ));
                                    assert(!annotates_in_item(c, inner[i - 1]));
                                }
                            }
                            assert(annotated_items(c, body) =~= body);
                        },
                        None => {},
                    }
                    assert(!annotates_in_program(c, once));
                },
                ProgramView::Script(s) => {
                    lemma_items_settle(c, s.body);
                },
            }
        },
        None => {},
    }
}

/// Without a file path the program is returned as it was given.
pub proof fn lemma_no_path_no_change(
    program: ProgramView,
    project_cwd: Option<Seq<char>>,
    positions: Seq<Loc>,
    strategy: AnnotationStrategyView,
)
    ensures
        transformed(program, None, project_cwd, positions, strategy) == program,
{
}

} // verus!
