const GATE: &str = "#[cfg_attr(feature = \"sync\", tokio::main)]";

#[test]
fn wrap_gates_a_plain_function() {
    let src = "async fn foo(input: &str) -> String { format!(\"I am {} now\", input) }";
    let out = ut::wrap(src).unwrap();
    assert_eq!(
        out,
        format!(
            "{GATE}\nasync fn foo(input : & str) -> String {{ format ! (\"I am {{}} now\" , input) }}"
        )
    );
}

#[test]
fn wrap_keeps_attributes_and_visibility() {
    let src = "#[inline]\npub async fn foo() -> u32 { 1 }";
    let out = ut::wrap(src).unwrap();
    assert_eq!(out, format!("# [inline]\n{GATE}\npub async fn foo() -> u32 {{ 1 }}"));
}

#[test]
fn wrap_keeps_generics() {
    let src = "async fn foo<T>(x: T) -> T { x }";
    let out = ut::wrap(src).unwrap();
    assert_eq!(out, format!("{GATE}\nasync fn foo< T >(x : T) -> T {{ x }}"));
}

#[test]
fn wrap_rejects_text_that_is_no_function() {
    assert!(ut::wrap("struct Foo;").is_none());
    assert!(ut::wrap("not rust at all (").is_none());
}

#[test]
fn wrapper_drops_the_functions_own_attributes() {
    let src = "#[inline]\npub async fn foo() -> u32 { 1 }";
    let out = ut::wrapper(src).unwrap();
    assert_eq!(out, format!("{GATE}\npub async fn foo() -> u32 {{ 1 }}"));
}

#[test]
fn wrapper_rejects_text_that_is_no_function() {
    assert!(ut::wrapper("impl Foo {}").is_none());
}

#[test]
fn clone_emits_original_and_blocking_twin() {
    let src = "async fn foo(input: &str) -> String { format!(\"I am {} now\", input) }";
    let out = ut::clone(src).unwrap();
    let original = "async fn foo(input : & str) -> String { format ! (\"I am {} now\" , input) }";
    let twin =
        "async fn foo_blocking(input : & str) -> String { format ! (\"I am {} now\" , input) }";
    assert_eq!(out, format!("{original}\n\n{GATE}\n{twin}"));
}

#[test]
fn clone_keeps_attributes_on_both_copies() {
    let src = "#[inline]\nasync fn foo() { }";
    let out = ut::clone(src).unwrap();
    assert_eq!(
        out,
        format!("# [inline]\nasync fn foo() {{ }}\n\n# [inline]\n{GATE}\nasync fn foo_blocking() {{ }}")
    );
}

#[test]
fn clone_rejects_text_that_is_no_function() {
    assert!(ut::clone("const X: u32 = 1;").is_none());
}

#[test]
fn clone_impl_emits_original_and_blocking_block() {
    let src = "impl Fooers { pub async fn foo(&self, input: &str) -> String { format!(\"I am {} now\", input) } }";
    let out = ut::clone_impl(src).unwrap();
    let item =
        "pub async fn foo (& self , input : & str) -> String { format ! (\"I am {} now\" , input) }";
    let method =
        "pub async fn foo(& self , input : & str) -> String { format ! (\"I am {} now\" , input) }";
    assert_eq!(
        out,
        format!("impl Fooers {{\n{item}\n}}\n\nimpl FooersBlocking {{\n{GATE}\n{method}\n}}")
    );
}

#[test]
fn clone_impl_handles_several_methods_in_order() {
    let src = "impl Fooers {\n  pub async fn foo(&self) -> u32 { 1 }\n  pub async fn bar(&self) -> u32 { 2 }\n}";
    let out = ut::clone_impl(src).unwrap();
    let foo_item = "pub async fn foo (& self) -> u32 { 1 }";
    let bar_item = "pub async fn bar (& self) -> u32 { 2 }";
    let foo = "pub async fn foo(& self) -> u32 { 1 }";
    let bar = "pub async fn bar(& self) -> u32 { 2 }";
    assert_eq!(
        out,
        format!(
            "impl Fooers {{\n{foo_item}\n{bar_item}\n}}\n\nimpl FooersBlocking {{\n{GATE}\n{foo}\n{GATE}\n{bar}\n}}"
        )
    );
}

#[test]
fn clone_impl_keeps_the_first_block_verbatim() {
    let src = "impl Fooers { pub async unsafe fn foo<T>(&self, x: T) -> T where T: Clone { x } }";
    let out = ut::clone_impl(src).unwrap();
    let item = "pub async unsafe fn foo < T > (& self , x : T) -> T where T : Clone { x }";
    let method = "pub async fn foo< T >(& self , x : T) -> T { x }";
    assert_eq!(
        out,
        format!("impl Fooers {{\n{item}\n}}\n\nimpl FooersBlocking {{\n{GATE}\n{method}\n}}")
    );
}

#[test]
fn clone_impl_of_an_empty_block() {
    let out = ut::clone_impl("impl Fooers {}").unwrap();
    assert_eq!(out, "impl Fooers {\n}\n\nimpl FooersBlocking {\n}");
}

#[test]
fn clone_impl_rejects_a_type_that_is_no_plain_name() {
    assert_eq!(
        ut::clone_impl("impl (Fooers) {}"),
        Err(ut::model::ImplRejection::SelfTypeNotPlainName)
    );
    assert_eq!(
        ut::clone_impl("impl Fooers<T> {}"),
        Err(ut::model::ImplRejection::SelfTypeNotPlainName)
    );
}

#[test]
fn clone_impl_rejects_items_that_are_no_functions() {
    assert_eq!(
        ut::clone_impl("impl Fooers { const X: u32 = 1; }"),
        Err(ut::model::ImplRejection::ItemNotAFunction)
    );
}

#[test]
fn clone_impl_rejects_text_that_is_no_impl() {
    assert_eq!(
        ut::clone_impl("async fn foo() { }"),
        Err(ut::model::ImplRejection::NotAnImplBlock)
    );
}
