use bevy_trait::{
    boxed_readonly_system, boxed_readonly_system_with_input, boxed_system, boxed_system_with_input,
    readonly_system, readonly_system_with_input, system, system_with_input,
};
use bevy_trait::wrap::RewriteError;

fn ts(s: &str) -> proc_macro2::TokenStream {
    s.parse().unwrap()
}

fn norm(s: &str) -> String {
    s.parse::<proc_macro2::TokenStream>().unwrap().to_string()
}

#[test]
fn bare_declaration() {
    let out = system(ts(""), ts("fn update();")).unwrap();
    assert_eq!(
        out.to_string(),
        norm("fn update() -> impl ::bevy::ecs::system::System<In = (), Out = ()>;")
    );
}

#[test]
fn declaration_keeps_own_inputs() {
    let out = system(ts("&self, name: String"), ts("fn update(&self, name: String);")).unwrap();
    assert_eq!(
        out.to_string(),
        norm(
            "fn update(&self, name: String) -> impl ::bevy::ecs::system::System<In = (), Out = ()>;"
        )
    );
}

#[test]
fn body_swaps_argument_lists() {
    let out = system(ts("&self"), ts("fn update(x: u32, y: u32) { work(x, y) }")).unwrap();
    assert_eq!(
        out.to_string(),
        norm(
            "fn update(&self) -> impl ::bevy::ecs::system::System<In = (), Out = ()> \
             { ::bevy::ecs::system::IntoSystem::into_system(move |x: u32, y: u32| { work(x, y) }) }"
        )
    );
}

#[test]
fn readonly_bound() {
    let out = readonly_system(ts(""), ts("fn update();")).unwrap();
    assert_eq!(
        out.to_string(),
        norm("fn update() -> impl ::bevy::ecs::system::ReadOnlySystem<In = (), Out = ()>;")
    );
}

#[test]
fn boxed_return_type() {
    let out = boxed_system(ts(""), ts("fn update();")).unwrap();
    assert_eq!(
        out.to_string(),
        norm("fn update() -> ::std::boxed::Box<dyn ::bevy::ecs::system::System<In = (), Out = ()>>;")
    );
}

#[test]
fn boxed_body_is_wrapped() {
    let out = boxed_system(ts(""), ts("fn update() { work() }")).unwrap();
    assert_eq!(
        out.to_string(),
        norm(
            "fn update() -> ::std::boxed::Box<dyn ::bevy::ecs::system::System<In = (), Out = ()>> \
             { ::std::boxed::Box::new(\
             ::bevy::ecs::system::IntoSystem::into_system(move || { work() })) }"
        )
    );
}

#[test]
fn input_type_from_first_body_argument() {
    let out = system_with_input(ts(""), ts("fn handle(input: In<u32>) -> bool { true }")).unwrap();
    assert_eq!(
        out.to_string(),
        norm(
            "fn handle() -> impl ::bevy::ecs::system::System<In = In<u32>, Out = bool> \
             { ::bevy::ecs::system::IntoSystem::into_system(move |input: In<u32>| -> bool { true }) }"
        )
    );
}

#[test]
fn input_type_from_first_attribute_argument() {
    let out = system_with_input(ts("&self, name: String"), ts("fn update(&self, name: String);"))
        .unwrap();
    assert_eq!(
        out.to_string(),
        norm(
            "fn update(&self, name: String) -> \
             impl ::bevy::ecs::system::System<In = &Self, Out = ()>;"
        )
    );
}

#[test]
fn readonly_with_input() {
    let out = readonly_system_with_input(ts(""), ts("fn handle(n: u32) { work(n) }")).unwrap();
    assert_eq!(
        out.to_string(),
        norm(
            "fn handle() -> impl ::bevy::ecs::system::ReadOnlySystem<In = u32, Out = ()> \
             { ::bevy::ecs::system::IntoSystem::into_system(move |n: u32| { work(n) }) }"
        )
    );
}

#[test]
fn boxed_with_input() {
    let out = boxed_system_with_input(ts(""), ts("fn handle(n: u32) { work(n) }")).unwrap();
    assert_eq!(
        out.to_string(),
        norm(
            "fn handle() -> ::std::boxed::Box<dyn ::bevy::ecs::system::System<In = u32, Out = ()>> \
             { ::std::boxed::Box::new(\
             ::bevy::ecs::system::IntoSystem::into_system(move |n: u32| { work(n) })) }"
        )
    );
}

#[test]
fn boxed_readonly() {
    let out = boxed_readonly_system(ts(""), ts("fn update();")).unwrap();
    assert_eq!(
        out.to_string(),
        norm(
            "fn update() -> \
             ::std::boxed::Box<dyn ::bevy::ecs::system::ReadOnlySystem<In = (), Out = ()>>;"
        )
    );
}

#[test]
fn boxed_readonly_with_input() {
    let out =
        boxed_readonly_system_with_input(ts(""), ts("fn handle(n: u32) { work(n) }")).unwrap();
    assert_eq!(
        out.to_string(),
        norm(
            "fn handle() -> \
             ::std::boxed::Box<dyn ::bevy::ecs::system::ReadOnlySystem<In = u32, Out = ()>> \
             { ::std::boxed::Box::new(\
             ::bevy::ecs::system::IntoSystem::into_system(move |n: u32| { work(n) })) }"
        )
    );
}

#[test]
fn variadic_is_kept_end_to_end() {
    let out = system(ts(""), ts("fn log(fmt: Fmt, ...);")).unwrap();
    assert_eq!(
        out.to_string(),
        norm("fn log(fmt: Fmt, ...) -> impl ::bevy::ecs::system::System<In = (), Out = ()>;")
    );
}

#[test]
fn inner_attribute_is_kept_inside_the_body() {
    let out = system(ts(""), ts("fn update() { #![allow(dead_code)] work() }")).unwrap();
    assert_eq!(
        out.to_string(),
        norm(
            "fn update() -> impl ::bevy::ecs::system::System<In = (), Out = ()> \
             { # ! [allow(dead_code)] \
             ::bevy::ecs::system::IntoSystem::into_system(move || { work() }) }"
        )
    );
}

#[test]
fn marker_written_in_source() {
    let from_marker = system(ts(""), ts("#[readonly] fn update();")).unwrap();
    let from_builder = readonly_system(ts(""), ts("fn update();")).unwrap();
    assert_eq!(from_marker.to_string(), from_builder.to_string());
}

#[test]
fn other_attributes_are_kept() {
    let out = system(ts(""), ts("#[inline] #[readonly] fn update();")).unwrap();
    assert_eq!(
        out.to_string(),
        norm(
            "#[inline] fn update() -> \
             impl ::bevy::ecs::system::ReadOnlySystem<In = (), Out = ()>;"
        )
    );
}

#[test]
fn generics_and_where_clause_are_kept() {
    let out = system(ts(""), ts("fn update<T: Clone>() where T: Send;")).unwrap();
    assert_eq!(
        out.to_string(),
        norm(
            "fn update<T: Clone>() -> impl ::bevy::ecs::system::System<In = (), Out = ()> \
             where T: Send;"
        )
    );
}

#[test]
fn missing_input_argument_is_reported() {
    let err = system_with_input(ts(""), ts("fn update();")).unwrap_err();
    assert!(matches!(err, RewriteError::MissingInputArg));
}

#[test]
fn non_method_is_reported() {
    let err = system(ts(""), ts("struct X;")).unwrap_err();
    assert!(matches!(err, RewriteError::NotTraitFn(_)));
}

#[test]
fn bad_attribute_arguments_are_reported() {
    let err = system(ts("17 +"), ts("fn update();")).unwrap_err();
    assert!(matches!(err, RewriteError::ArgsParse(_)));
}
