use bevy_trait::emit::BuildError;
use bevy_trait::model::{Arg, AttrEntry, Method, MethodSig};
use bevy_trait::scan::scan_attrs;
use bevy_trait::wrap::WrapImplSystem;

fn entry(name: Option<&str>, text: &str) -> AttrEntry {
    AttrEntry { name: name.map(|s| s.to_string()), text: text.to_string(), inner: false }
}

fn arg(text: &str, ty_text: &str) -> Arg {
    Arg { text: text.to_string(), ty_text: ty_text.to_string() }
}

fn bare_method(name: &str) -> Method {
    Method {
        attrs: vec![],
        sig: MethodSig {
            lead: String::new(),
            name: name.to_string(),
            generics: String::new(),
            inputs: vec![],
            variadic: None,
            output: None,
            where_text: String::new(),
        },
        body: None,
    }
}

#[test]
fn scan_splits_markers_from_kept() {
    let attrs = vec![
        entry(Some("inline"), "#[inline]"),
        entry(Some("with_input"), "#[with_input]"),
        entry(None, "#[a::b]"),
        entry(Some("boxed"), "#[boxed]"),
    ];
    let (flags, kept) = scan_attrs(&attrs);
    assert!(flags.with_input);
    assert!(!flags.readonly);
    assert!(flags.boxed);
    assert_eq!(kept.len(), 2);
    assert_eq!(kept[0].text, "#[inline]");
    assert_eq!(kept[1].text, "#[a::b]");
}

#[test]
fn scan_sets_flag_for_repeated_marker() {
    let attrs = vec![entry(Some("readonly"), "#[readonly]"), entry(Some("readonly"), "#[readonly]")];
    let (flags, kept) = scan_attrs(&attrs);
    assert!(flags.readonly);
    assert!(!flags.with_input);
    assert!(kept.is_empty());
}

#[test]
fn exact_text_of_bare_declaration() {
    let w = WrapImplSystem::from_parts(vec![], bare_method("update"));
    assert_eq!(
        w.rewritten_text().unwrap(),
        "fn update() -> impl ::bevy::ecs::system::System<In = (), Out = ()>;"
    );
}

#[test]
fn exact_text_with_body() {
    let mut m = bare_method("update");
    m.sig.inputs = vec![arg("n: u32", "u32")];
    m.body = Some("{ work(n) }".to_string());
    let w = WrapImplSystem::from_parts(vec![arg("&self", "& Self")], m);
    assert_eq!(
        w.rewritten_text().unwrap(),
        "fn update(&self) -> impl ::bevy::ecs::system::System<In = (), Out = ()> \
         { ::bevy::ecs::system::IntoSystem::into_system(move |n: u32| { work(n) }) }"
    );
}

#[test]
fn exact_text_of_qualifiers_generics_output_where() {
    let mut m = bare_method("update");
    m.sig.lead = "async".to_string();
    m.sig.generics = "<T>".to_string();
    m.sig.output = Some("bool".to_string());
    m.sig.where_text = "where T: Send".to_string();
    let w = WrapImplSystem::from_parts(vec![], m);
    assert_eq!(
        w.rewritten_text().unwrap(),
        "async fn update<T>() -> impl ::bevy::ecs::system::System<In = (), Out = bool> \
         where T: Send;"
    );
}

#[test]
fn exact_text_keeps_other_attributes() {
    let mut m = bare_method("update");
    m.attrs = vec![entry(Some("inline"), "#[inline]"), entry(Some("boxed"), "#[boxed]")];
    let w = WrapImplSystem::from_parts(vec![], m);
    assert_eq!(
        w.rewritten_text().unwrap(),
        "#[inline] fn update() -> \
         ::std::boxed::Box<dyn ::bevy::ecs::system::System<In = (), Out = ()>>;"
    );
}

#[test]
fn inner_attribute_goes_into_the_body() {
    let mut m = bare_method("update");
    m.attrs = vec![
        entry(Some("inline"), "#[inline]"),
        AttrEntry {
            name: Some("allow".to_string()),
            text: "#![allow(dead_code)]".to_string(),
            inner: true,
        },
    ];
    m.body = Some("{ work() }".to_string());
    let w = WrapImplSystem::from_parts(vec![], m);
    assert_eq!(
        w.rewritten_text().unwrap(),
        "#[inline] fn update() -> impl ::bevy::ecs::system::System<In = (), Out = ()> \
         { #![allow(dead_code)] \
         ::bevy::ecs::system::IntoSystem::into_system(move || { work() }) }"
    );
}

#[test]
fn builder_marks_count_as_attributes() {
    let w = WrapImplSystem::from_parts(vec![arg("n: u32", "u32")], bare_method("update"));
    assert_eq!(
        w.with_input().rewritten_text().unwrap(),
        "fn update() -> impl ::bevy::ecs::system::System<In = u32, Out = ()>;"
    );
}

#[test]
fn variadic_is_kept() {
    let mut m = bare_method("log");
    m.sig.inputs = vec![arg("fmt: Fmt", "Fmt")];
    m.sig.variadic = Some("...".to_string());
    let w = WrapImplSystem::from_parts(vec![], m);
    assert_eq!(
        w.rewritten_text().unwrap(),
        "fn log(fmt: Fmt, ...) -> impl ::bevy::ecs::system::System<In = (), Out = ()>;"
    );
}

#[test]
fn missing_input_in_model() {
    let w = WrapImplSystem::from_parts(vec![], bare_method("update"));
    let err = w.with_input().rewritten_text().unwrap_err();
    assert!(matches!(err, BuildError::MissingInputArg));
}
