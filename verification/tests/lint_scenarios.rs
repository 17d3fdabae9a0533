use realtime_lint::lint::{
    CallTarget, Callee, Expr, Finding, HirId, LetInit, LetStmt, RealtimeCallsNonrealtime, Stmt,
};
use realtime_lint::marker::AttrInfo;
use realtime_lint::timestamp::timestamp_prefix;
use realtime_lint::var_table::VarTable;

fn id(n: u32) -> HirId {
    HirId { owner: n, local_id: 0 }
}

fn local_fn(doc: &str) -> Callee {
    Callee { attrs: vec![AttrInfo::doc(doc)] }
}

fn call_item(callee: Callee, path: &str) -> Expr {
    Expr::Call(CallTarget::Item { callee, path: path.to_string() })
}

fn call_local(name: &str) -> Expr {
    Expr::Call(CallTarget::Local(Some(name.to_string())))
}

fn let_stmt(attrs: Vec<AttrInfo>, binding: &str, init: LetInit) -> Stmt {
    Stmt::Let(LetStmt { attrs, binding: Some(binding.to_string()), init })
}

#[test]
fn new_lint_is_outside_realtime() {
    let lint = RealtimeCallsNonrealtime::new();
    assert!(!lint.in_realtime());
    let lint2 = RealtimeCallsNonrealtime::default();
    assert!(!lint2.in_realtime());
}

#[test]
fn realtime_function_opens_context_and_next_function_closes_it() {
    let mut lint = RealtimeCallsNonrealtime::new();
    lint.check_fn(false, id(1), &vec![AttrInfo::doc("rt:realtime")]);
    assert!(lint.in_realtime());
    // closures inside keep the context
    lint.check_fn(true, id(2), &vec![]);
    assert!(lint.in_realtime());
    lint.check_fn(false, id(3), &vec![AttrInfo::doc(" plain function")]);
    assert!(!lint.in_realtime());
    lint.check_fn(false, id(4), &vec![AttrInfo::doc("rt:non_realtime")]);
    assert!(!lint.in_realtime());
}

#[test]
fn nothing_reported_outside_realtime() {
    let mut lint = RealtimeCallsNonrealtime::new();
    lint.check_fn(false, id(1), &vec![]);
    let found = lint.check_expr(&call_item(local_fn("rt:non_realtime"), "print_rt"));
    assert!(found.is_empty());
    let found = lint.check_expr(&Expr::MethodCall(Some(local_fn("rt:non_realtime"))));
    assert!(found.is_empty());
}

#[test]
fn audio_main_scenario() {
    // A realtime `main` that calls a trait method, a non-realtime function,
    // a closure marked non-realtime, a function pointer and a copy of it.
    let mut lint = RealtimeCallsNonrealtime::new();
    lint.check_fn(false, id(10), &vec![AttrInfo::doc("rt:realtime")]);

    // processor.process_audio(&mut buffer): the impl method has no marker
    let impl_method = Callee { attrs: vec![] };
    assert_eq!(lint.check_expr(&Expr::MethodCall(Some(impl_method))), vec![Finding::NonRealtimeMethod]);

    // print_rt(name, area)
    let found = lint.check_expr(&call_item(local_fn("rt:non_realtime"), "print_rt"));
    assert_eq!(found, vec![Finding::NonRealtimeFunction("print_rt".to_string())]);

    // #[rt_call_info("closure", "non_realtime")] let print_with_closure = |..| ..;
    lint.check_stmt(&let_stmt(
        vec![AttrInfo::doc("rt:call-info:closure:non_realtime")],
        "print_with_closure",
        LetInit::Other,
    ));
    let found = lint.check_expr(&call_local("print_with_closure"));
    assert_eq!(found, vec![Finding::NonRealtimeClosure("print_with_closure".to_string())]);

    // let fp: fn(&str, f32) = print_rt;
    lint.check_stmt(&let_stmt(vec![], "fp", LetInit::FnItem(local_fn("rt:non_realtime"))));
    let found = lint.check_expr(&call_local("fp"));
    assert_eq!(found, vec![Finding::NonRealtimeFnPtr("fp".to_string())]);

    // let other_fp = fp;
    lint.check_stmt(&let_stmt(vec![], "other_fp", LetInit::Local(Some("fp".to_string()))));
    let found = lint.check_expr(&call_local("other_fp"));
    assert_eq!(found, vec![Finding::NonRealtimeFnPtr("other_fp".to_string())]);
}

#[test]
fn realtime_calling_realtime_is_silent_and_unmarked_is_reported() {
    // test_realtime_call_nonrealtime calls A (realtime) and B (unmarked)
    let mut lint = RealtimeCallsNonrealtime::new();
    lint.check_fn(false, id(20), &vec![AttrInfo::doc("rt:realtime")]);
    assert!(lint.check_expr(&call_item(local_fn("rt:realtime"), "A")).is_empty());
    let b = Callee { attrs: vec![AttrInfo::doc(" plain function")] };
    assert_eq!(
        lint.check_expr(&call_item(b, "B")),
        vec![Finding::NonRealtimeFunction("B".to_string())]
    );
}

#[test]
fn callees_of_other_crates_are_read_by_their_markers() {
    // a realtime `audio` calling do_rt (realtime) and do_slow (non-realtime,
    // written `rt:non_realtime`) from another crate
    let mut lint = RealtimeCallsNonrealtime::new();
    lint.check_fn(false, id(30), &vec![AttrInfo::doc("rt:realtime")]);
    let do_rt = Callee { attrs: vec![AttrInfo::doc(" Realtime function"), AttrInfo::doc("rt:realtime")] };
    assert!(lint.check_expr(&call_item(do_rt, "my_functions_lib::do_rt")).is_empty());
    let do_slow = Callee { attrs: vec![AttrInfo::doc("rt:non_realtime")] };
    assert_eq!(
        lint.check_expr(&call_item(do_slow, "my_functions_lib::do_slow")),
        vec![Finding::NonRealtimeFunction("my_functions_lib::do_slow".to_string())]
    );
    let std_fn = Callee { attrs: vec![] };
    assert_eq!(
        lint.check_expr(&call_item(std_fn, "std::vec::from_elem")),
        vec![Finding::NonRealtimeFunction("std::vec::from_elem".to_string())]
    );
    let marked_method = Callee { attrs: vec![AttrInfo::doc("rt:nonrealtime:alloc")] };
    assert_eq!(lint.check_expr(&Expr::MethodCall(Some(marked_method))), vec![Finding::NonRealtimeMethod]);
    let rt_method = Callee { attrs: vec![AttrInfo::doc("rt:realtime")] };
    assert!(lint.check_expr(&Expr::MethodCall(Some(rt_method))).is_empty());
    // an unmarked function bound to a pointer is not flagged
    lint.check_stmt(&let_stmt(vec![], "p", LetInit::FnItem(Callee { attrs: vec![] })));
    assert!(lint.check_expr(&call_local("p")).is_empty());
}

#[test]
fn closure_marked_realtime_is_silent_and_unknown_locals_too() {
    let mut lint = RealtimeCallsNonrealtime::new();
    lint.check_fn(false, id(40), &vec![AttrInfo::doc("rt:realtime")]);
    lint.check_stmt(&let_stmt(
        vec![AttrInfo::doc("rt:call-info:closure:realtime")],
        "c",
        LetInit::Other,
    ));
    assert!(lint.check_expr(&call_local("c")).is_empty());
    assert!(lint.check_expr(&call_local("never_bound")).is_empty());
    assert!(lint.check_expr(&Expr::Call(CallTarget::Local(None))).is_empty());
    assert!(lint.check_expr(&Expr::Call(CallTarget::Other)).is_empty());
    assert!(lint.check_expr(&Expr::MethodCall(None)).is_empty());
    assert!(lint.check_expr(&Expr::Other).is_empty());
}

#[test]
fn call_info_for_non_closure_name_is_ignored() {
    let mut lint = RealtimeCallsNonrealtime::new();
    lint.check_fn(false, id(50), &vec![AttrInfo::doc("rt:realtime")]);
    lint.check_stmt(&let_stmt(
        vec![AttrInfo::doc("rt:call-info:print_rt:non_realtime")],
        "c",
        LetInit::Other,
    ));
    assert!(lint.check_expr(&call_local("c")).is_empty());
    lint.check_stmt(&Stmt::Other);
    assert!(lint.in_realtime());
}

#[test]
fn closure_and_fn_ptr_flags_both_reported() {
    let mut lint = RealtimeCallsNonrealtime::new();
    lint.check_fn(false, id(60), &vec![AttrInfo::doc("rt:realtime")]);
    lint.check_stmt(&let_stmt(
        vec![AttrInfo::doc("rt:call-info:closure:non_realtime")],
        "x",
        LetInit::FnItem(local_fn("rt:non_realtime")),
    ));
    let found = lint.check_expr(&call_local("x"));
    assert_eq!(
        found,
        vec![
            Finding::NonRealtimeClosure("x".to_string()),
            Finding::NonRealtimeFnPtr("x".to_string())
        ]
    );
}

#[test]
fn propagation_copies_realtime_flag() {
    let mut lint = RealtimeCallsNonrealtime::new();
    lint.check_fn(false, id(70), &vec![AttrInfo::doc("rt:realtime")]);
    lint.check_stmt(&let_stmt(vec![], "fp", LetInit::FnItem(local_fn("rt:non_realtime"))));
    lint.check_stmt(&let_stmt(vec![], "fast", LetInit::FnItem(local_fn("rt:realtime"))));
    // re-binding fp to a realtime function clears its flag
    lint.check_stmt(&let_stmt(vec![], "fp", LetInit::Local(Some("fast".to_string()))));
    assert!(lint.check_expr(&call_local("fp")).is_empty());
}

#[test]
fn flags_survive_leaving_the_function() {
    let mut lint = RealtimeCallsNonrealtime::new();
    lint.check_fn(false, id(80), &vec![]);
    lint.check_stmt(&let_stmt(vec![], "fp", LetInit::FnItem(local_fn("rt:non_realtime"))));
    assert!(lint.check_expr(&call_local("fp")).is_empty());
    lint.check_fn(false, id(81), &vec![AttrInfo::doc("rt:realtime")]);
    assert_eq!(
        lint.check_expr(&call_local("fp")),
        vec![Finding::NonRealtimeFnPtr("fp".to_string())]
    );
}

#[test]
fn finding_messages() {
    let prefix = timestamp_prefix(0, 0);
    assert_eq!(prefix, "[     0.000s]");
    assert_eq!(
        Finding::NonRealtimeMethod.message(&prefix),
        "[     0.000s] realtime function calls a non-realtime method"
    );
    assert_eq!(
        Finding::NonRealtimeClosure("c".to_string()).message("P"),
        "P Nonrealtime Closure call detected: c"
    );
    assert_eq!(
        Finding::NonRealtimeFnPtr("fp".to_string()).message("P"),
        "P Nonrealtime Fn-ptr call detected: fp"
    );
    assert_eq!(
        Finding::NonRealtimeFunction("print_rt".to_string()).message("P"),
        "P nonrealtime function call detected: print_rt"
    );
}

#[test]
fn var_table_read_after_write() {
    let mut t = VarTable::new();
    assert_eq!(t.get(&"a".to_string()), None);
    t.insert("a".to_string(), false);
    t.insert("b".to_string(), true);
    assert_eq!(t.get(&"a".to_string()), Some(false));
    t.insert("a".to_string(), true);
    assert_eq!(t.get(&"a".to_string()), Some(true));
    assert_eq!(t.get(&"b".to_string()), Some(true));
    assert_eq!(t.get(&"c".to_string()), None);
}
