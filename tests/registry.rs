use generics_modifier::{
    Attribute, ConstParam, GenericParam, Generics, GenericsError, GenericsModifier, KnownParam,
    LifetimeParam, TypeConstParam, TypeParam,
};

fn lifetime(name: &str, decl: &str) -> GenericParam {
    GenericParam::Lifetime(LifetimeParam { name: name.to_string(), decl: decl.to_string() })
}

fn ty(name: &str, bounds: &str, default: Option<&str>) -> GenericParam {
    GenericParam::Type(TypeParam {
        attrs: Vec::new(),
        name: name.to_string(),
        bounds: bounds.to_string(),
        default: default.map(|d| d.to_string()),
    })
}

fn konst(name: &str, ty: &str, default: Option<&str>) -> GenericParam {
    GenericParam::Const(ConstParam {
        attrs: Vec::new(),
        name: name.to_string(),
        ty: ty.to_string(),
        default: default.map(|d| d.to_string()),
    })
}

fn build(params: Vec<GenericParam>) -> GenericsModifier {
    GenericsModifier::new(Generics { params, where_clause: None }).unwrap()
}

fn strs(v: &[String]) -> Vec<&str> {
    v.iter().map(|s| s.as_str()).collect()
}

fn header(m: &GenericsModifier) -> Vec<String> {
    m.split_for_impl().0.to_tokens()
}

fn reference(m: &GenericsModifier) -> Result<Vec<String>, GenericsError> {
    m.split_for_impl().1.to_tokens()
}

fn lifetime_names(m: &GenericsModifier) -> Vec<String> {
    let mut it = m.lifetime_table().iter();
    let mut out = Vec::new();
    while let Some((p, _)) = it.next() {
        out.push(p.name.clone());
    }
    out
}

fn type_names(m: &GenericsModifier) -> Vec<String> {
    let mut it = m.type_table().iter();
    let mut out = Vec::new();
    while let Some((p, _)) = it.next() {
        out.push(p.name().clone());
    }
    out
}

fn scenario() -> GenericsModifier {
    let mut m = build(vec![
        lifetime("a", "'a"),
        lifetime("b", "'b: 'a"),
        ty("T", "TraitT", Some("u32")),
        ty("U", "TraitU", None),
    ]);
    m.push_param(lifetime("c", "'c: 'a"), None).unwrap();
    m.push_param(ty("V", "TraitV", Some("TypeOfV")), Some(KnownParam::UseDefault)).unwrap();
    m.set_known(&"b".to_string(), KnownParam::Lifetime("'static".to_string())).unwrap();
    m.set_known(&"U".to_string(), KnownParam::Type("TypeOfU".to_string())).unwrap();
    m
}

#[test]
fn scenario_definition_header() {
    let m = scenario();
    assert_eq!(strs(&header(&m)), vec!["<", "'a", ",", "'c: 'a", ",", "T", ":", "TraitT", ",", ">"]);
}

#[test]
fn scenario_type_reference() {
    let m = scenario();
    let r = reference(&m).unwrap();
    assert_eq!(strs(&r), vec!["<", "'a", ",", "'static", ",", "'c", ",", "T", ",", "TypeOfU", ",", ">"]);
}

#[test]
fn scenario_where_clause_carried() {
    let mut g = Generics { params: vec![ty("T", "", None)], where_clause: Some("where T: Clone".to_string()) };
    g.params.push(lifetime("a", "'a"));
    let m = GenericsModifier::new(g).unwrap();
    assert_eq!(m.split_for_impl().2, &Some("where T: Clone".to_string()));
}

#[test]
fn build_keeps_order_per_kind() {
    let m = build(vec![
        ty("A", "", None),
        lifetime("x", "'x"),
        konst("N", "usize", None),
        lifetime("y", "'y"),
        ty("B", "", None),
    ]);
    assert_eq!(lifetime_names(&m), vec!["x".to_string(), "y".to_string()]);
    assert_eq!(type_names(&m), vec!["A".to_string(), "N".to_string(), "B".to_string()]);
}

#[test]
fn build_rejects_duplicate_type() {
    let r = GenericsModifier::new(Generics {
        params: vec![ty("T", "", None), lifetime("a", "'a"), konst("T", "usize", None)],
        where_clause: None,
    });
    assert_eq!(r.err(), Some(GenericsError::DuplicateName("T".to_string())));
}

#[test]
fn build_rejects_duplicate_lifetime() {
    let r = GenericsModifier::new(Generics {
        params: vec![lifetime("a", "'a"), lifetime("b", "'b"), lifetime("a", "'a: 'b")],
        where_clause: None,
    });
    assert_eq!(r.err(), Some(GenericsError::DuplicateName("a".to_string())));
}

#[test]
fn build_reports_first_duplicate() {
    let r = GenericsModifier::new(Generics {
        params: vec![ty("T", "", None), ty("U", "", None), ty("U", "", None), ty("T", "", None)],
        where_clause: None,
    });
    assert_eq!(r.err(), Some(GenericsError::DuplicateName("U".to_string())));
}

#[test]
fn namespaces_are_separate() {
    let m = build(vec![lifetime("a", "'a"), ty("a", "", None)]);
    assert_eq!(lifetime_names(&m), vec!["a".to_string()]);
    assert_eq!(type_names(&m), vec!["a".to_string()]);
}

#[test]
fn push_param_rejects_duplicate_and_keeps_state() {
    let mut m = build(vec![ty("T", "Clone", None)]);
    let before = header(&m);
    let r = m.push_param(ty("T", "Copy", None), None);
    assert_eq!(r, Err(GenericsError::DuplicateName("T".to_string())));
    assert_eq!(header(&m), before);
}

#[test]
fn set_known_unknown_name_fails_and_keeps_state() {
    let mut m = build(vec![lifetime("a", "'a"), ty("T", "", None)]);
    let h = header(&m);
    let t = reference(&m).unwrap();
    let r = m.set_known(&"Z".to_string(), KnownParam::Type("u8".to_string()));
    assert_eq!(r, Err(GenericsError::UnknownParameter("Z".to_string())));
    assert_eq!(header(&m), h);
    assert_eq!(reference(&m).unwrap(), t);
}

#[test]
fn set_known_searches_implied_table() {
    let mut m = build(vec![lifetime("a", "'a"), ty("T", "", None)]);
    let r = m.set_known(&"T".to_string(), KnownParam::Lifetime("'static".to_string()));
    assert_eq!(r, Err(GenericsError::UnknownParameter("T".to_string())));
    let r = m.set_known(&"a".to_string(), KnownParam::Type("u8".to_string()));
    assert_eq!(r, Err(GenericsError::UnknownParameter("a".to_string())));
}

#[test]
fn rendering_twice_gives_same_output() {
    let m = scenario();
    assert_eq!(header(&m), header(&m));
    assert_eq!(reference(&m), reference(&m));
}

#[test]
fn lifetimes_come_first_in_reference() {
    let m = build(vec![ty("T", "", None), lifetime("a", "'a"), konst("N", "usize", None), lifetime("b", "'b")]);
    let r = reference(&m).unwrap();
    assert_eq!(strs(&r), vec!["<", "'a", ",", "'b", ",", "T", ",", "N", ",", ">"]);
    let h = header(&m);
    assert_eq!(strs(&h), vec!["<", "'a", ",", "'b", ",", "T", ",", "const", "N", ":", "usize", ",", ">"]);
}

#[test]
fn default_before_needed_argument_fails() {
    let mut m = build(vec![ty("T", "", Some("u8")), ty("U", "", None)]);
    m.set_known(&"T".to_string(), KnownParam::UseDefault).unwrap();
    assert_eq!(reference(&m), Err(GenericsError::InvalidDefaultOrdering("U".to_string())));
}

#[test]
fn default_before_resolved_argument_fails() {
    let mut m = build(vec![ty("T", "", Some("u8")), konst("N", "usize", None), ty("U", "", None)]);
    m.set_known(&"T".to_string(), KnownParam::UseDefault).unwrap();
    m.set_known(&"N".to_string(), KnownParam::Const("3".to_string())).unwrap();
    assert_eq!(reference(&m), Err(GenericsError::InvalidDefaultOrdering("N".to_string())));
}

#[test]
fn trailing_defaults_are_omitted() {
    let mut m = build(vec![ty("T", "", None), ty("U", "", Some("u8")), konst("N", "usize", Some("4"))]);
    m.set_known(&"U".to_string(), KnownParam::UseDefault).unwrap();
    m.set_known(&"N".to_string(), KnownParam::UseDefault).unwrap();
    assert_eq!(strs(&reference(&m).unwrap()), vec!["<", "T", ",", ">"]);
    assert_eq!(strs(&header(&m)), vec!["<", "T", ",", ">"]);
}

#[test]
fn empty_registry_renders_nothing() {
    let m = build(Vec::new());
    assert!(header(&m).is_empty());
    assert!(reference(&m).unwrap().is_empty());
}

#[test]
fn all_resolved_header_keeps_brackets() {
    let mut m = build(vec![ty("T", "", None)]);
    m.set_known(&"T".to_string(), KnownParam::Type("u8".to_string())).unwrap();
    assert_eq!(strs(&header(&m)), vec!["<", ">"]);
    assert_eq!(strs(&reference(&m).unwrap()), vec!["<", "u8", ",", ">"]);
}

#[test]
fn header_drops_defaults_and_inner_attributes() {
    let t = TypeParam {
        attrs: vec![
            Attribute { outer: true, text: "#[a]".to_string() },
            Attribute { outer: false, text: "#![b]".to_string() },
        ],
        name: "T".to_string(),
        bounds: "Clone + Send".to_string(),
        default: Some("String".to_string()),
    };
    let c = ConstParam {
        attrs: vec![Attribute { outer: true, text: "#[c]".to_string() }],
        name: "N".to_string(),
        ty: "usize".to_string(),
        default: Some("3".to_string()),
    };
    let m = build(vec![GenericParam::Type(t), GenericParam::Const(c)]);
    assert_eq!(
        strs(&header(&m)),
        vec!["<", "#[a]", "T", ":", "Clone + Send", ",", "#[c]", "const", "N", ":", "usize", ",", ">"]
    );
}

#[test]
fn resolved_lifetime_is_substituted() {
    let mut m = build(vec![lifetime("a", "#[x] 'a: 'static")]);
    assert_eq!(strs(&reference(&m).unwrap()), vec!["<", "'a", ",", ">"]);
    m.set_known(&"a".to_string(), KnownParam::Lifetime("'static".to_string())).unwrap();
    assert_eq!(strs(&reference(&m).unwrap()), vec!["<", "'static", ",", ">"]);
    assert_eq!(strs(&header(&m)), vec!["<", ">"]);
}

#[test]
fn type_const_param_name() {
    let t = TypeConstParam::Const(ConstParam {
        attrs: Vec::new(),
        name: "N".to_string(),
        ty: "u8".to_string(),
        default: None,
    });
    assert_eq!(t.name(), "N");
}
