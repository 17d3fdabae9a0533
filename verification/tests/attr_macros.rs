use proc_macro2::TokenStream;
use realtime_lint::attr_macros::{
    attach_to_function, call_info_target, classify_call_info_target, classify_item, item_shape,
    non_realtime, realtime, rt_call_info, CallInfoError, StmtForm,
};
use realtime_lint::marker::{CallInfoTarget, ItemShape};

fn tokens(src: &str) -> TokenStream {
    src.parse().unwrap()
}

fn doc_values(attrs: &[syn::Attribute]) -> Vec<String> {
    let mut out = Vec::new();
    for a in attrs {
        if let syn::Meta::NameValue(nv) = &a.meta {
            if nv.path.is_ident("doc") {
                if let syn::Expr::Lit(syn::ExprLit { lit: syn::Lit::Str(s), .. }) = &nv.value {
                    out.push(s.value());
                }
            }
        }
    }
    out
}

#[test]
fn classify_item_first_form_wins() {
    assert_eq!(classify_item(true, true, true), ItemShape::TraitMethod);
    assert_eq!(classify_item(false, true, true), ItemShape::ImplMethod);
    assert_eq!(classify_item(false, false, true), ItemShape::Function);
    assert_eq!(classify_item(false, false, false), ItemShape::Other);
}

#[test]
fn classify_call_info_target_lets_and_functions() {
    assert_eq!(classify_call_info_target(Some(StmtForm::Let), Some(true)), CallInfoTarget::LetStatement);
    assert_eq!(classify_call_info_target(Some(StmtForm::FnItem), None), CallInfoTarget::FunctionItem);
    assert_eq!(classify_call_info_target(Some(StmtForm::Other), Some(true)), CallInfoTarget::OtherStatement);
    assert_eq!(classify_call_info_target(None, Some(true)), CallInfoTarget::FunctionItem);
    assert_eq!(classify_call_info_target(None, Some(false)), CallInfoTarget::OtherItem);
    assert_eq!(classify_call_info_target(None, None), CallInfoTarget::Unparsed);
}

#[test]
fn item_shapes() {
    // a free function with a body also reads as a trait method with a default body
    assert_eq!(item_shape(&tokens("fn do_rt() { println!(\"x\"); }")), ItemShape::TraitMethod);
    assert_eq!(item_shape(&tokens("fn get_name(&self) -> &str;")), ItemShape::TraitMethod);
    assert_eq!(item_shape(&tokens("pub fn do_rt() {}")), ItemShape::ImplMethod);
    assert_eq!(item_shape(&tokens("struct SimpleProcessor;")), ItemShape::Other);
    assert_eq!(item_shape(&tokens("let x = 1;")), ItemShape::Other);
    assert_eq!(item_shape(&TokenStream::new()), ItemShape::Other);
}

#[test]
fn call_info_targets() {
    assert_eq!(call_info_target(&tokens("let fp: fn(&str, f32) = print_rt;")), CallInfoTarget::LetStatement);
    assert_eq!(call_info_target(&tokens("let c = |x: u8| x + 1;")), CallInfoTarget::LetStatement);
    assert_eq!(call_info_target(&tokens("fn f() {}")), CallInfoTarget::FunctionItem);
    assert_eq!(call_info_target(&tokens("struct S;")), CallInfoTarget::OtherStatement);
    assert_eq!(call_info_target(&tokens("f(1);")), CallInfoTarget::OtherStatement);
    assert_eq!(call_info_target(&tokens("let")), CallInfoTarget::Unparsed);
}

#[test]
fn realtime_appends_marker_after_existing_attributes() {
    let out = realtime(TokenStream::new(), tokens("/// Realtime function A\npub fn realtime_a() {}"));
    let f: syn::ItemFn = syn::parse2(out).unwrap();
    assert_eq!(doc_values(&f.attrs), vec![" Realtime function A".to_string(), "rt:realtime".to_string()]);
    assert_eq!(f.sig.ident.to_string(), "realtime_a");
}

#[test]
fn realtime_on_trait_method_declaration() {
    let out = realtime(TokenStream::new(), tokens("fn process_audio(&self, _buffer: &mut [f32]);"));
    let m: syn::TraitItemFn = syn::parse2(out).unwrap();
    assert_eq!(doc_values(&m.attrs), vec!["rt:realtime".to_string()]);
}

#[test]
fn non_realtime_ignores_its_arguments() {
    let out = non_realtime(tokens("\"alloc\""), tokens("pub fn do_slow() {}"));
    let f: syn::ItemFn = syn::parse2(out).unwrap();
    assert_eq!(doc_values(&f.attrs), vec!["rt:non_realtime".to_string()]);
}

#[test]
fn markers_leave_other_items_unchanged() {
    let item = tokens("struct S { x: u8 }");
    let out = realtime(TokenStream::new(), item.clone());
    assert_eq!(out.to_string(), item.to_string());
    let out = attach_to_function(ItemShape::Other, item.clone(), Some("rt:realtime".to_string()));
    assert_eq!(out.to_string(), item.to_string());
}

#[test]
fn rt_call_info_marks_let_statement() {
    let out = rt_call_info(
        tokens("\"closure\", \"non_realtime\""),
        tokens("let print_with_closure = |name: &str| { println!(\"{}\", name); };"),
    );
    let out = match out {
        Ok(t) => t,
        Err(_) => panic!("arguments rejected"),
    };
    let stmt: syn::Stmt = syn::parse2(out).unwrap();
    match stmt {
        syn::Stmt::Local(l) => {
            assert_eq!(doc_values(&l.attrs), vec!["rt:call-info:closure:non_realtime".to_string()])
        }
        _ => panic!("not a let"),
    }
}

#[test]
fn rt_call_info_marks_function_item() {
    let out = match rt_call_info(tokens("\"foo\", \"realtime\""), tokens("fn foo() {}")) {
        Ok(t) => t,
        Err(_) => panic!("arguments rejected"),
    };
    let f: syn::ItemFn = syn::parse2(out).unwrap();
    assert_eq!(doc_values(&f.attrs), vec!["rt:call-info:foo:realtime".to_string()]);
}

#[test]
fn rt_call_info_rejects_argument_lists() {
    match rt_call_info(tokens("\"closure\""), tokens("let x = 1;")) {
        Err(CallInfoError::WrongCount(1)) => {}
        _ => panic!("one argument accepted"),
    }
    match rt_call_info(tokens("\"a\", \"b\", \"c\""), tokens("let x = 1;")) {
        Err(CallInfoError::WrongCount(3)) => {}
        _ => panic!("three arguments accepted"),
    }
    match rt_call_info(tokens("closure, realtime"), tokens("let x = 1;")) {
        Err(CallInfoError::Malformed(e)) => assert!(e.to_string().contains("compile_error")),
        _ => panic!("identifiers accepted"),
    }
}

#[test]
fn rt_call_info_leaves_other_statements() {
    let item = tokens("f(1);");
    match rt_call_info(tokens("\"closure\", \"realtime\""), item.clone()) {
        Ok(t) => assert_eq!(t.to_string(), item.to_string()),
        Err(_) => panic!("arguments rejected"),
    }
}
