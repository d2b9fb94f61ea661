use inspector_transform::annotation::{
    attr_is_annotation, build_annotation, build_record_value, element_display_name,
    element_has_annotation, format_flat_value, str_eq, AnnotationStrategy, ValueShape,
    TRACE_SOURCE,
};
use inspector_transform::ast::{
    BytePos, Expr, Ident, JSXAttr, JSXAttrName, JSXAttrOrSpread, JSXAttrValue, JSXElement,
    JSXElementChild, JSXElementName, JSXOpeningElement, KeyValueProp, Lit, Module, ModuleItem,
    Program, Script, Span, VarDecl, VarDeclKind, DUMMY_RESERVE,
};
use inspector_transform::plugin::{
    inspector_swc_plugin, project_root, transform_program, PluginConfig, TransformMetadata,
};
use inspector_transform::source_map::{Loc, SourceMap};
use inspector_transform::transform::InspectorPlugin;

fn span(lo: u32, hi: u32) -> Span {
    Span { lo: BytePos(lo), hi: BytePos(hi) }
}

fn ident(sym: &str) -> Ident {
    Ident::new(sym.to_string(), span(1, 2))
}

fn opening(lo: u32, tag: &str, attrs: Vec<JSXAttrOrSpread>) -> JSXOpeningElement {
    JSXOpeningElement {
        span: span(lo, lo + 5),
        name: JSXElementName::Ident(ident(tag)),
        attrs,
        self_closing: false,
    }
}

fn element(lo: u32, tag: &str, children: Vec<JSXElementChild>) -> JSXElement {
    JSXElement { span: span(lo, lo + 20), opening: opening(lo, tag, Vec::new()), children }
}

fn text_attr(name: &str, value: &str) -> JSXAttrOrSpread {
    JSXAttrOrSpread::JSXAttr(JSXAttr {
        span: span(3, 4),
        name: JSXAttrName::Ident(ident(name)),
        value: Some(JSXAttrValue::Str(value.to_string())),
    })
}

fn flat_annotation(value: &str) -> JSXAttrOrSpread {
    JSXAttrOrSpread::JSXAttr(JSXAttr {
        span: Span::dummy(),
        name: JSXAttrName::Ident(Ident::new("data-hps-source".to_string(), Span::dummy())),
        value: Some(JSXAttrValue::JSXExprContainer(Expr::Lit(Lit::Str(value.to_string())))),
    })
}

fn record_annotation(key: &str, file: &str, line: u32, col: u32) -> JSXAttrOrSpread {
    JSXAttrOrSpread::JSXAttr(JSXAttr {
        span: Span::dummy(),
        name: JSXAttrName::Ident(Ident::new(key.to_string(), Span::dummy())),
        value: Some(JSXAttrValue::JSXExprContainer(Expr::Object(vec![
            KeyValueProp {
                key: "fileName".to_string(),
                value: Expr::Lit(Lit::Str(file.to_string())),
            },
            KeyValueProp { key: "lineNumber".to_string(), value: Expr::Lit(Lit::Num(line)) },
            KeyValueProp { key: "columnNumber".to_string(), value: Expr::Lit(Lit::Num(col)) },
        ]))),
    })
}

fn positions() -> Vec<Loc> {
    vec![
        Loc { pos: BytePos(100), line: 10, col_display: 2 },
        Loc { pos: BytePos(105), line: 10, col_display: 7 },
        Loc { pos: BytePos(200), line: 21, col_display: 0 },
        Loc { pos: BytePos(300), line: 30, col_display: u32::MAX },
    ]
}

fn source_map() -> SourceMap {
    SourceMap::new("src/App.jsx".to_string(), positions())
}

fn metadata(file_path: Option<&str>) -> TransformMetadata {
    TransformMetadata {
        plugin_config: None,
        file_path: file_path.map(|p| p.to_string()),
        positions: positions(),
    }
}

fn record_strategy() -> AnnotationStrategy {
    AnnotationStrategy {
        key: "data-inspector".to_string(),
        shape: ValueShape::Record,
        share_file_binding: false,
    }
}

fn sharing_strategy() -> AnnotationStrategy {
    AnnotationStrategy {
        key: "data-hps-source".to_string(),
        shape: ValueShape::FlatString,
        share_file_binding: true,
    }
}

fn div_with_text() -> JSXElement {
    element(100, "div", vec![JSXElementChild::JSXText("hi".to_string())])
}

fn div_with_span() -> JSXElement {
    element(100, "div", vec![JSXElementChild::JSXElement(Box::new(element(105, "span", Vec::new())))])
}

fn module_of(items: Vec<ModuleItem>) -> Module {
    Module { span: span(1, 500), body: items }
}

fn import_like() -> ModuleItem {
    ModuleItem::Var(VarDecl {
        span: span(1, 30),
        kind: VarDeclKind::Const,
        name: ident("React"),
        init: None,
    })
}

#[test]
fn element_gets_flat_annotation() {
    let mut plugin = InspectorPlugin::new(None, source_map());
    let mut el = div_with_text();
    plugin.visit_mut_jsx_element(&mut el);
    let mut expected = div_with_text();
    expected.opening.attrs.push(flat_annotation("src/App.jsx:10:3:div"));
    assert_eq!(el, expected);
}

#[test]
fn element_gets_record_annotation() {
    let mut plugin = InspectorPlugin::with_strategy(None, source_map(), record_strategy());
    let mut el = div_with_text();
    plugin.visit_mut_jsx_element(&mut el);
    let mut expected = div_with_text();
    expected.opening.attrs.push(record_annotation("data-inspector", "src/App.jsx", 10, 3));
    assert_eq!(el, expected);
}

#[test]
fn nested_elements_are_annotated_each_for_itself() {
    let mut plugin = InspectorPlugin::new(None, source_map());
    let mut el = div_with_span();
    plugin.visit_mut_jsx_element(&mut el);
    let mut inner = element(105, "span", Vec::new());
    inner.opening.attrs.push(flat_annotation("src/App.jsx:10:8:span"));
    let mut expected = element(100, "div", vec![JSXElementChild::JSXElement(Box::new(inner))]);
    expected.opening.attrs.push(flat_annotation("src/App.jsx:10:3:div"));
    assert_eq!(el, expected);
}

#[test]
fn annotation_follows_the_attributes_in_their_order() {
    let mut plugin = InspectorPlugin::new(None, source_map());
    let mut el = opening(200, "a", vec![text_attr("href", "/"), text_attr("class", "x")]);
    plugin.visit_mut_jsx_opening_element(&mut el);
    assert_eq!(
        el.attrs,
        vec![text_attr("href", "/"), text_attr("class", "x"), flat_annotation("src/App.jsx:21:1:a")]
    );
    assert_eq!(el.span, span(200, 205));
    assert_eq!(el.name, JSXElementName::Ident(ident("a")));
}

#[test]
fn annotated_element_is_left_alone() {
    let mut plugin = InspectorPlugin::new(None, source_map());
    let mut el = opening(100, "div", vec![text_attr("data-hps-source", "mine"), text_attr("id", "x")]);
    plugin.annotate_opening_element(&mut el);
    assert_eq!(
        el,
        opening(100, "div", vec![text_attr("data-hps-source", "mine"), text_attr("id", "x")])
    );
    plugin.visit_mut_jsx_opening_element(&mut el);
    assert_eq!(
        el,
        opening(100, "div", vec![text_attr("data-hps-source", "mine"), text_attr("id", "x")])
    );
}

#[test]
fn second_walk_changes_nothing() {
    let mut plugin = InspectorPlugin::new(None, source_map());
    let mut el = div_with_span();
    plugin.visit_mut_jsx_element(&mut el);
    let mut again = div_with_span();
    InspectorPlugin::new(None, source_map()).visit_mut_jsx_element(&mut again);
    plugin.visit_mut_jsx_element(&mut again);
    assert_eq!(again, el);
    InspectorPlugin::new(None, source_map()).visit_mut_jsx_element(&mut again);
    assert_eq!(again, el);
}

#[test]
fn element_with_synthesized_span_is_left_alone() {
    let mut plugin = InspectorPlugin::new(None, source_map());
    let mut el = JSXOpeningElement {
        span: Span::dummy(),
        name: JSXElementName::Ident(ident("div")),
        attrs: vec![text_attr("id", "x")],
        self_closing: true,
    };
    plugin.visit_mut_jsx_opening_element(&mut el);
    assert_eq!(el.attrs, vec![text_attr("id", "x")]);
    assert!(el.self_closing);
}

#[test]
fn children_of_an_element_that_is_left_alone_are_still_visited() {
    let mut plugin = InspectorPlugin::new(None, source_map());
    let mut el = JSXElement {
        span: Span::dummy(),
        opening: JSXOpeningElement {
            span: Span::dummy(),
            name: JSXElementName::Ident(ident("div")),
            attrs: Vec::new(),
            self_closing: false,
        },
        children: vec![
            JSXElementChild::JSXText("a".to_string()),
            JSXElementChild::JSXElement(Box::new(element(105, "span", Vec::new()))),
        ],
    };
    plugin.visit_mut_jsx_element(&mut el);
    assert!(el.opening.attrs.is_empty());
    let mut inner = element(105, "span", Vec::new());
    inner.opening.attrs.push(flat_annotation("src/App.jsx:10:8:span"));
    assert_eq!(
        el.children,
        vec![
            JSXElementChild::JSXText("a".to_string()),
            JSXElementChild::JSXElement(Box::new(inner)),
        ]
    );
}

#[test]
fn element_inside_an_attribute_of_an_annotated_element_is_visited() {
    let mut plugin = InspectorPlugin::new(None, source_map());
    let icon = |attrs: Vec<JSXAttrOrSpread>| JSXAttrOrSpread::JSXAttr(JSXAttr {
        span: span(3, 4),
        name: JSXAttrName::Ident(ident("icon")),
        value: Some(JSXAttrValue::JSXExprContainer(Expr::JSXElement(Box::new(JSXElement {
            span: span(105, 110),
            opening: opening(105, "b", attrs),
            children: Vec::new(),
        })))),
    });
    let mut el = opening(100, "div", vec![text_attr("data-hps-source", "mine"), icon(Vec::new())]);
    plugin.visit_mut_jsx_opening_element(&mut el);
    assert_eq!(
        el.attrs,
        vec![
            text_attr("data-hps-source", "mine"),
            icon(vec![flat_annotation("src/App.jsx:10:8:b")]),
        ]
    );
}

#[test]
fn span_is_synthesized_when_empty_at_zero_or_reserved() {
    assert!(Span::dummy().is_dummy());
    assert!(span(0, 0).is_dummy());
    assert!(!span(0, 1).is_dummy());
    assert!(!span(1, 0).is_dummy());
    assert!(span(DUMMY_RESERVE, DUMMY_RESERVE).is_dummy());
    assert!(span(u32::MAX, 0).is_dummy());
    assert!(!span(DUMMY_RESERVE - 1, u32::MAX).is_dummy());
    assert_eq!(DUMMY_RESERVE, u32::MAX - 65536);
}

#[test]
fn element_with_reserved_offset_is_left_alone() {
    let map = SourceMap::new(
        "a.jsx".to_string(),
        vec![Loc { pos: BytePos(DUMMY_RESERVE), line: 1, col_display: 0 }],
    );
    let mut plugin = InspectorPlugin::new(None, map);
    let mut el = JSXOpeningElement {
        span: span(DUMMY_RESERVE, DUMMY_RESERVE + 1),
        name: JSXElementName::Ident(ident("div")),
        attrs: Vec::new(),
        self_closing: false,
    };
    plugin.annotate_opening_element(&mut el);
    assert!(el.attrs.is_empty());
}

#[test]
fn element_without_a_usable_position_is_left_alone() {
    let mut plugin = InspectorPlugin::new(None, source_map());
    let mut unknown = opening(101, "div", Vec::new());
    plugin.annotate_opening_element(&mut unknown);
    assert!(unknown.attrs.is_empty());
    let mut too_wide = opening(300, "div", Vec::new());
    plugin.annotate_opening_element(&mut too_wide);
    assert!(too_wide.attrs.is_empty());
}

#[test]
fn member_and_namespaced_tags_show_their_last_name() {
    let member = JSXElementName::JSXMemberExpr {
        object: vec![ident("a"), ident("b")],
        prop: ident("C"),
    };
    let namespaced = JSXElementName::JSXNamespacedName { ns: ident("svg"), name: ident("path") };
    assert_eq!(element_display_name(&member), "C");
    assert_eq!(element_display_name(&namespaced), "path");
    assert_eq!(element_display_name(&JSXElementName::Ident(ident("div"))), "div");

    let mut plugin = InspectorPlugin::new(None, source_map());
    let mut el = JSXOpeningElement {
        span: span(100, 110),
        name: member,
        attrs: Vec::new(),
        self_closing: true,
    };
    plugin.visit_mut_jsx_opening_element(&mut el);
    assert_eq!(el.attrs, vec![flat_annotation("src/App.jsx:10:3:C")]);
}

#[test]
fn only_a_plain_name_equal_to_the_key_counts_as_annotation() {
    let namespaced = JSXAttrOrSpread::JSXAttr(JSXAttr {
        span: span(3, 4),
        name: JSXAttrName::JSXNamespacedName {
            ns: ident("data-hps-source"),
            name: ident("data-hps-source"),
        },
        value: None,
    });
    let spread = JSXAttrOrSpread::SpreadElement(Expr::Ident(ident("data-hps-source")));
    assert!(attr_is_annotation("data-hps-source", &text_attr("data-hps-source", "")));
    assert!(!attr_is_annotation("data-hps-source", &text_attr("data-hps-sourc", "")));
    assert!(!attr_is_annotation("data-hps-source", &text_attr("data-hps-source2", "")));
    assert!(!attr_is_annotation("data-hps-source", &namespaced));
    assert!(!attr_is_annotation("data-hps-source", &spread));
    assert!(!element_has_annotation("k", &opening(1, "a", Vec::new())));
    assert!(element_has_annotation("k", &opening(1, "a", vec![text_attr("j", ""), text_attr("k", "")])));
    assert!(!element_has_annotation("k", &opening(1, "a", vec![text_attr("j", ""), spread])));
}

#[test]
fn texts_are_compared_character_by_character() {
    assert!(str_eq("", ""));
    assert!(str_eq("abc", "abc"));
    assert!(!str_eq("abc", "abd"));
    assert!(!str_eq("abc", "ab"));
    assert!(!str_eq("é", "e"));
}

#[test]
fn flat_value_joins_its_parts_with_colons() {
    assert_eq!(format_flat_value("src/App.jsx", 10, 3, "div"), "src/App.jsx:10:3:div");
    assert_eq!(format_flat_value("", 0, 0, ""), ":0:0:");
    assert_eq!(
        format_flat_value("C:/a.jsx", u32::MAX, 1, "x"),
        "C:/a.jsx:4294967295:1:x"
    );
}

#[test]
fn record_value_has_three_fields() {
    assert_eq!(
        build_record_value("src/App.jsx", 10, 3),
        Expr::Object(vec![
            KeyValueProp {
                key: "fileName".to_string(),
                value: Expr::Lit(Lit::Str("src/App.jsx".to_string())),
            },
            KeyValueProp { key: "lineNumber".to_string(), value: Expr::Lit(Lit::Num(10)) },
            KeyValueProp { key: "columnNumber".to_string(), value: Expr::Lit(Lit::Num(3)) },
        ])
    );
}

#[test]
fn annotation_is_built_in_the_shape_of_the_strategy() {
    assert_eq!(
        build_annotation(&AnnotationStrategy::standard(), "a.jsx", 1, 2, "p"),
        flat_annotation("a.jsx:1:2:p")
    );
    assert_eq!(
        build_annotation(&record_strategy(), "a.jsx", 1, 2, "p"),
        record_annotation("data-inspector", "a.jsx", 1, 2)
    );
}

#[test]
fn standard_strategy_is_flat_text_under_the_reserved_name() {
    assert_eq!(TRACE_SOURCE, "data-hps-source");
    assert_eq!(
        AnnotationStrategy::standard(),
        AnnotationStrategy {
            key: "data-hps-source".to_string(),
            shape: ValueShape::FlatString,
            share_file_binding: false,
        }
    );
}

#[test]
fn file_name_is_relative_to_the_project_root() {
    let map = SourceMap::new("/a/b/c/App.jsx".to_string(), positions());
    let mut plugin = InspectorPlugin::new(Some("/a/b".to_string()), map);
    assert_eq!(plugin.file_name(), "c/App.jsx");
    let mut el = opening(100, "div", Vec::new());
    plugin.annotate_opening_element(&mut el);
    assert_eq!(el.attrs, vec![flat_annotation("c/App.jsx:10:3:div")]);
}

#[test]
fn walk_without_sharing_creates_no_symbol() {
    let mut plugin = InspectorPlugin::new(None, source_map());
    let mut module = module_of(vec![import_like(), ModuleItem::Expr(Expr::JSXElement(Box::new(div_with_text())))]);
    plugin.visit_mut_module(&mut module);
    assert_eq!(plugin.file_name_identifier(), None);
    let mut annotated = div_with_text();
    annotated.opening.attrs.push(flat_annotation("src/App.jsx:10:3:div"));
    assert_eq!(
        module,
        module_of(vec![import_like(), ModuleItem::Expr(Expr::JSXElement(Box::new(annotated)))])
    );
}

#[test]
fn shared_binding_is_declared_in_front_of_the_module() {
    let mut plugin = InspectorPlugin::with_strategy(None, source_map(), sharing_strategy());
    let mut module = module_of(vec![
        import_like(),
        ModuleItem::Var(VarDecl {
            span: span(40, 90),
            kind: VarDeclKind::Let,
            name: ident("view"),
            init: Some(Expr::Other(vec![
                Expr::Ident(ident("f")),
                Expr::JSXElement(Box::new(div_with_span())),
            ])),
        }),
    ]);
    plugin.visit_mut_module(&mut module);
    let symbol = Ident::new("src/App.jsx".to_string(), Span::dummy());
    assert_eq!(plugin.file_name_identifier(), Some(&symbol));
    assert_eq!(module.body.len(), 3);
    assert_eq!(
        module.body[0],
        ModuleItem::Var(VarDecl {
            span: Span::dummy(),
            kind: VarDeclKind::Var,
            name: Ident::new("src/App.jsx".to_string(), Span::dummy()),
            init: Some(Expr::Lit(Lit::Str("src/App.jsx".to_string()))),
        })
    );
    assert_eq!(module.body[1], import_like());
}

#[test]
fn shared_binding_is_not_declared_when_nothing_is_annotated() {
    let mut plugin = InspectorPlugin::with_strategy(None, source_map(), sharing_strategy());
    let mut module = module_of(vec![
        import_like(),
        ModuleItem::Expr(Expr::JSXElement(Box::new(element(101, "div", Vec::new())))),
    ]);
    plugin.visit_mut_module(&mut module);
    assert_eq!(plugin.file_name_identifier(), None);
    assert_eq!(
        module,
        module_of(vec![
            import_like(),
            ModuleItem::Expr(Expr::JSXElement(Box::new(element(101, "div", Vec::new())))),
        ])
    );
}

#[test]
fn script_gets_annotations_but_no_declaration() {
    let mut plugin = InspectorPlugin::with_strategy(None, source_map(), sharing_strategy());
    let mut script = Script {
        span: span(1, 500),
        body: vec![ModuleItem::Expr(Expr::JSXElement(Box::new(div_with_text())))],
    };
    plugin.visit_mut_script(&mut script);
    let mut annotated = div_with_text();
    annotated.opening.attrs.push(flat_annotation("src/App.jsx:10:3:div"));
    assert_eq!(script.body, vec![ModuleItem::Expr(Expr::JSXElement(Box::new(annotated)))]);
    assert!(plugin.file_name_identifier().is_some());
}

#[test]
fn elements_inside_objects_and_spreads_are_visited() {
    let mut plugin = InspectorPlugin::new(None, source_map());
    let nested = |attrs: Vec<JSXAttrOrSpread>| Expr::Object(vec![
        KeyValueProp { key: "n".to_string(), value: Expr::Lit(Lit::Num(1)) },
        KeyValueProp {
            key: "view".to_string(),
            value: Expr::JSXElement(Box::new(JSXElement {
                span: span(200, 210),
                opening: opening(200, "p", attrs),
                children: Vec::new(),
            })),
        },
    ]);
    let mut el = opening(101, "div", vec![JSXAttrOrSpread::SpreadElement(nested(Vec::new()))]);
    plugin.visit_mut_jsx_opening_element(&mut el);
    assert_eq!(
        el.attrs,
        vec![JSXAttrOrSpread::SpreadElement(nested(vec![flat_annotation("src/App.jsx:21:1:p")]))]
    );
}

#[test]
fn program_without_a_file_path_is_returned_unchanged() {
    let program = Program::Module(module_of(vec![
        import_like(),
        ModuleItem::Expr(Expr::JSXElement(Box::new(div_with_span()))),
    ]));
    let out = inspector_swc_plugin(program, metadata(None));
    assert_eq!(
        out,
        Program::Module(module_of(vec![
            import_like(),
            ModuleItem::Expr(Expr::JSXElement(Box::new(div_with_span()))),
        ]))
    );
}

#[test]
fn program_with_a_file_path_is_annotated() {
    let program = Program::Module(module_of(vec![
        import_like(),
        ModuleItem::Expr(Expr::JSXElement(Box::new(div_with_text()))),
    ]));
    let out = inspector_swc_plugin(program, metadata(Some("[project]/src/App.jsx")));
    let mut annotated = div_with_text();
    annotated.opening.attrs.push(flat_annotation("src/App.jsx:10:3:div"));
    assert_eq!(
        out,
        Program::Module(module_of(vec![
            import_like(),
            ModuleItem::Expr(Expr::JSXElement(Box::new(annotated))),
        ]))
    );
}

#[test]
fn program_is_annotated_relative_to_the_configured_root() {
    let program = Program::Script(Script {
        span: span(1, 500),
        body: vec![ModuleItem::Expr(Expr::JSXElement(Box::new(div_with_text())))],
    });
    let meta = TransformMetadata {
        plugin_config: Some(PluginConfig { project_cwd: Some("/a/b".to_string()) }),
        file_path: Some("/a/b/c/App.jsx".to_string()),
        positions: positions(),
    };
    let out = transform_program(program, meta, record_strategy());
    let mut annotated = div_with_text();
    annotated.opening.attrs.push(record_annotation("data-inspector", "c/App.jsx", 10, 3));
    assert_eq!(
        out,
        Program::Script(Script {
            span: span(1, 500),
            body: vec![ModuleItem::Expr(Expr::JSXElement(Box::new(annotated)))],
        })
    );
}

#[test]
fn missing_configuration_means_no_project_root() {
    assert_eq!(project_root(None), None);
    assert_eq!(project_root(Some(PluginConfig::default())), None);
    assert_eq!(
        project_root(Some(PluginConfig { project_cwd: Some("/a".to_string()) })),
        Some("/a".to_string())
    );
    assert_eq!(PluginConfig::default(), PluginConfig { project_cwd: None });
}

#[test]
fn identifier_copy_equals_its_source() {
    let id = ident("name");
    assert_eq!(id.duplicate(), id);
    assert_eq!(id.sym, "name");
    assert_eq!(id.span, span(1, 2));
}
