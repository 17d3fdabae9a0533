//! Properties of the lint as a whole: how the markers that the attribute
//! macros write steer what the lint reports.
use vstd::prelude::*;
use crate::lint::{
    after_fn, after_stmt, callee_marker, expr_findings, Callee, CallTarget, Expr, FindingKind,
    HirId, LetInit, LetStmt, LintState, Stmt,
};
use crate::marker::{
    call_info, call_info_text, doc_marker, doc_text, law_call_info_round_trip,
    law_non_realtime_tag_reads_non_realtime, law_realtime_tag_reads_realtime,
    lemma_call_info_push, lemma_doc_marker_push, non_realtime_tag, realtime_tag, realtime_word,
    AttrInfo,
};
use crate::text::{free_of, lemma_split_first_at, lemma_split_first_join, split_first};
use crate::attr_macros::{
    call_info_result, CallInfoError, marked_function, parsed_shape, parsed_target, spec_doc_value,
    spec_string_literals, spliced_function, spliced_target,
};
use crate::marker::{attr_call_info, attr_marker, text_call_info, CallInfoTarget, ItemShape};
use proc_macro2::TokenStream;
use crate::attr_macros::{
    spec_impl_item_fn_parses, spec_item_fn_parses, spec_item_is_fn, spec_stmt_form,
    spec_trait_item_fn_parses, spec_with_doc_impl_item_fn, spec_with_doc_item_fn,
    spec_with_doc_local, spec_with_doc_trait_item_fn, StmtForm,
};
use crate::marker::{nonrealtime_tag, text_marker};
use crate::text::occurs_at;

verus! {

/// Outside a realtime function nothing is reported.
pub proof fn law_silent_outside_realtime(s: LintState, e: Expr)
    requires
        s.stack.len() == 0,
    ensures
        expr_findings(s, e) == Seq::<FindingKind>::empty(),
{
}

/// Inside a realtime function, a call of a function that is not marked
/// realtime (marked non-realtime, or not marked at all) is reported, by its
/// path.
pub proof fn law_call_not_marked_realtime_reported(s: LintState, callee: Callee, path: String)
    requires
        s.stack.len() > 0,
        doc_marker(callee.attrs@) != Some(true),
    ensures
        expr_findings(s, Expr::Call(CallTarget::Item { callee, path })) == seq![
            FindingKind::Function(path@),
        ],
{
}

/// Inside a realtime function, a call of a method that is not marked
/// realtime is reported.
pub proof fn law_method_not_marked_realtime_reported(s: LintState, callee: Callee)
    requires
        s.stack.len() > 0,
        doc_marker(callee.attrs@) != Some(true),
    ensures
        expr_findings(s, Expr::MethodCall(Some(callee))) == seq![FindingKind::Method],
{
}

/// A callee marked realtime is never reported.
pub proof fn law_realtime_callee_silent(s: LintState, callee: Callee, path: String)
    requires
        doc_marker(callee.attrs@) == Some(true),
    ensures
        expr_findings(s, Expr::Call(CallTarget::Item { callee, path })) == Seq::<
            FindingKind,
        >::empty(),
        expr_findings(s, Expr::MethodCall(Some(callee))) == Seq::<FindingKind>::empty(),
{
}

/// A function whose attributes end with the doc text that `#[realtime]`
/// attaches, after attributes that say nothing of it, opens a realtime
/// context of its own.
pub proof fn law_realtime_function_opens_context(
    s: LintState,
    id: HirId,
    before: Seq<AttrInfo>,
    a: AttrInfo,
)
    requires
        doc_marker(before) is None,
        doc_text(a) == Some(realtime_tag()),
    ensures
        after_fn(s, false, id, before.push(a)).stack == seq![id],
{
    law_realtime_tag_reads_realtime();
    lemma_doc_marker_push(before, a);
}

/// A function whose attributes end with the doc text that `#[non_realtime]`
/// attaches, after attributes that say nothing of it, is reported when called
/// from a realtime function.
pub proof fn law_non_realtime_marked_function_reported(
    s: LintState,
    a: AttrInfo,
    callee: Callee,
    path: String,
)
    requires
        s.stack.len() > 0,
        doc_text(a) == Some(non_realtime_tag()),
        callee.attrs@.len() > 0,
        callee.attrs@.last() == a,
        doc_marker(callee.attrs@.drop_last()) is None,
    ensures
        callee_marker(callee) == Some(false),
        expr_findings(s, Expr::Call(CallTarget::Item { callee, path })) == seq![
            FindingKind::Function(path@),
        ],
{
    law_non_realtime_tag_reads_non_realtime();
    lemma_doc_marker_push(callee.attrs@.drop_last(), a);
    assert(callee.attrs@.drop_last().push(a) =~= callee.attrs@);
}

/// Entering a function that is not marked realtime ends any realtime context;
/// entering a closure changes nothing.
pub proof fn law_context_follows_function(s: LintState, id: HirId, attrs: Seq<AttrInfo>)
    ensures
        doc_marker(attrs) != Some(true) ==> after_fn(s, false, id, attrs).stack.len() == 0,
        after_fn(s, true, id, attrs) == s,
        after_fn(s, false, id, attrs).closures == s.closures,
        after_fn(s, false, id, attrs).fn_ptrs == s.fn_ptrs,
{
}

/// A statement other than `let` changes nothing, and no statement changes the
/// realtime context.
pub proof fn law_statements_keep_context(s: LintState, st: Stmt)
    ensures
        after_stmt(s, Stmt::Other) == s,
        after_stmt(s, st).stack == s.stack,
{
}

/// A `let` that binds `name`, whose attributes end with the call-info marker
/// that `#[rt_call_info("closure", property)]` attaches after attributes
/// that carry none, and that does not copy another variable, flags `name` as
/// a closure that is realtime exactly when the property is `realtime`; inside
/// a realtime function a call of a closure so flagged non-realtime is then
/// reported first.
pub proof fn law_marked_closure(
    s: LintState,
    attrs: Vec<AttrInfo>,
    property: Seq<char>,
    name: String,
    init: LetInit,
)
    requires
        attrs@.len() > 0,
        call_info(attrs@.drop_last()) is None,
        doc_text(attrs@.last()) == Some(call_info_text("closure"@, property)),
        !(init is Local),
    ensures
        ({
            let l = LetStmt { attrs, binding: Some(name), init };
            let after = after_stmt(s, Stmt::Let(l));
            let is_rt = split_first(property, ':').0 == realtime_word();
            &&& after.closures.contains_key(name@)
            &&& after.closures[name@] == is_rt
            &&& (s.stack.len() > 0 && !is_rt) ==> {
                let found = expr_findings(after, Expr::Call(CallTarget::Local(Some(name))));
                found.len() > 0 && found[0] == FindingKind::Closure(name@)
            }
        }),
{
    reveal_strlit("closure");
    assert(free_of("closure"@, ':'));
    law_call_info_round_trip("closure"@, property);
    lemma_call_info_push(attrs@.drop_last(), attrs@.last());
    assert(attrs@.drop_last().push(attrs@.last()) =~= attrs@);
    assert(call_info(attrs@) == Some(("closure"@, split_first(property, ':').0 == realtime_word())));
}

/// `let name = f;` for a function `f` whose marker is known flags `name` as a
/// function pointer with that marker; inside a realtime function a call of a
/// pointer so flagged non-realtime is then reported last.
pub proof fn law_detected_fn_ptr(s: LintState, attrs: Vec<AttrInfo>, name: String, callee: Callee)
    requires
        callee_marker(callee) is Some,
    ensures
        ({
            let l = LetStmt { attrs, binding: Some(name), init: LetInit::FnItem(callee) };
            let after = after_stmt(s, Stmt::Let(l));
            let m = callee_marker(callee)->0;
            &&& after.fn_ptrs.contains_key(name@)
            &&& after.fn_ptrs[name@] == m
            &&& (s.stack.len() > 0 && !m) ==> {
                let found = expr_findings(after, Expr::Call(CallTarget::Local(Some(name))));
                found.len() > 0 && found[found.len() - 1] == FindingKind::FnPtr(name@)
            }
        }),
{
}

/// `let dst = src;` gives `dst` the closure flag and the function-pointer
/// flag that `src` has, and leaves every other variable as it was.
pub proof fn law_flags_propagate(s: LintState, attrs: Vec<AttrInfo>, src: String, dst: String)
    requires
        call_info(attrs@) is None,
    ensures
        ({
            let l = LetStmt { attrs, binding: Some(dst), init: LetInit::Local(Some(src)) };
            let after = after_stmt(s, Stmt::Let(l));
            &&& after.closures == (if s.closures.contains_key(src@) {
                s.closures.insert(dst@, s.closures[src@])
            } else {
                s.closures
            })
            &&& after.fn_ptrs == (if s.fn_ptrs.contains_key(src@) {
                s.fn_ptrs.insert(dst@, s.fn_ptrs[src@])
            } else {
                s.fn_ptrs
            })
        }),
{
}

/// What `#[realtime]` makes of a function is read back by the lint as
/// realtime: the attribute it appends carries the realtime marker, and any
/// attribute with that doc text, after attributes that say nothing, makes the
/// function realtime.
pub proof fn law_realtime_expansion_read_back(item: TokenStream, r: TokenStream, before: Seq<AttrInfo>)
    requires
        parsed_shape(item) != ItemShape::Other,
        marked_function(parsed_shape(item), item, realtime_tag(), r),
        doc_marker(before) is None,
    ensures
        exists|a: syn::Attribute|
            #[trigger] spec_doc_value(a) == Some(realtime_tag()) && r == spliced_function(
                parsed_shape(item),
                item,
                a,
            ) && forall|b: AttrInfo|
                doc_text(b) == spec_doc_value(a) ==> #[trigger] doc_marker(before.push(b))
                    == Some(true),
{
    law_realtime_tag_reads_realtime();
    let a = choose|a: syn::Attribute|
        #[trigger] spec_doc_value(a) == Some(realtime_tag()) && r == spliced_function(
            parsed_shape(item),
            item,
            a,
        );
    assert forall|b: AttrInfo| doc_text(b) == spec_doc_value(a) implies #[trigger] doc_marker(
        before.push(b),
    ) == Some(true) by {
        lemma_doc_marker_push(before, b);
        assert(attr_marker(b) == Some(true));
    }
}

/// What `#[rt_call_info(name, property)]` makes of a `let` statement or a
/// function is read back by the lint as the name it was given, realtime
/// exactly when the property, up to any `:`, is `realtime`; this holds when
/// the name holds no `:` and the attributes before the marker carry none.
pub proof fn law_call_info_expansion_read_back(
    args: TokenStream,
    item: TokenStream,
    r: Result<TokenStream, CallInfoError>,
    before: Seq<AttrInfo>,
)
    requires
        call_info_result(spec_string_literals(args), item, r),
        spec_string_literals(args) matches Ok(v) && v.len() == 2 && free_of(v[0], ':'),
        parsed_target(item) == CallInfoTarget::LetStatement || parsed_target(item)
            == CallInfoTarget::FunctionItem,
        call_info(before) is None,
    ensures
        ({
            let v = spec_string_literals(args)->Ok_0;
            exists|a: syn::Attribute|
                #[trigger] spec_doc_value(a) == Some(call_info_text(v[0], v[1])) && r == Ok::<
                    TokenStream,
                    CallInfoError,
                >(spliced_target(parsed_target(item), item, a)) && forall|b: AttrInfo|
                    doc_text(b) == spec_doc_value(a) ==> #[trigger] call_info(before.push(b))
                        == Some((v[0], split_first(v[1], ':').0 == realtime_word()))
        }),
{
    let v = spec_string_literals(args)->Ok_0;
    law_call_info_round_trip(v[0], v[1]);
    let a = choose|a: syn::Attribute|
        #[trigger] spec_doc_value(a) == Some(call_info_text(v[0], v[1])) && r == Ok::<
            TokenStream,
            CallInfoError,
        >(spliced_target(parsed_target(item), item, a));
    assert forall|b: AttrInfo| doc_text(b) == spec_doc_value(a) implies #[trigger] call_info(
        before.push(b),
    ) == Some((v[0], split_first(v[1], ':').0 == realtime_word())) by {
        lemma_call_info_push(before, b);
        assert(attr_call_info(b) == text_call_info(call_info_text(v[0], v[1])));
    }
}

/// `pat` stands somewhere in `text`.
pub open spec fn appears_in(text: Seq<char>, pat: Seq<char>) -> bool {
    exists|k: int|
        0 <= k && k + pat.len() <= text.len() && #[trigger] text.subrange(k, k + pat.len()) == pat
}

/// The spliced tokens, or `item` when there are none.
pub open spec fn or_item(spliced: Option<TokenStream>, item: TokenStream) -> TokenStream {
    match spliced {
        Some(t) => t,
        None => item,
    }
}

/// A doc text that holds `rt:realtime` anywhere marks a function realtime.
pub proof fn law_realtime_tag_anywhere(t: Seq<char>)
    requires
        appears_in(t, "rt:realtime"@),
    ensures
        text_marker(t) == Some(true),
{
    let p = "rt:realtime"@;
    let k = choose|k: int| 0 <= k && k + p.len() <= t.len() && #[trigger] t.subrange(k, k + p.len()) == p;
    assert(occurs_at(t, realtime_tag(), k));
}

/// A doc text that holds `rt:non_realtime` or `rt:nonrealtime` anywhere, and
/// `rt:realtime` nowhere, marks a function not realtime.
pub proof fn law_non_realtime_tag_anywhere(t: Seq<char>)
    requires
        !appears_in(t, "rt:realtime"@),
        appears_in(t, "rt:non_realtime"@) || appears_in(t, "rt:nonrealtime"@),
    ensures
        text_marker(t) == Some(false),
{
    let p = "rt:realtime"@;
    assert forall|k: int| !occurs_at(t, realtime_tag(), k) by {
        if occurs_at(t, realtime_tag(), k) {
            assert(t.subrange(k, k + p.len()) == p);
        }
    }
    if appears_in(t, "rt:non_realtime"@) {
        let q = "rt:non_realtime"@;
        let k = choose|k: int| 0 <= k && k + q.len() <= t.len() && #[trigger] t.subrange(k, k + q.len()) == q;
        assert(occurs_at(t, non_realtime_tag(), k));
    } else {
        let q = "rt:nonrealtime"@;
        let k = choose|k: int| 0 <= k && k + q.len() <= t.len() && #[trigger] t.subrange(k, k + q.len()) == q;
        assert(occurs_at(t, nonrealtime_tag(), k));
    }
}

/// A doc text that holds none of the tags says nothing.
pub proof fn law_no_tag_no_marker(t: Seq<char>)
    requires
        !appears_in(t, "rt:realtime"@),
        !appears_in(t, "rt:non_realtime"@),
        !appears_in(t, "rt:nonrealtime"@),
    ensures
        text_marker(t) is None,
{
    assert forall|k: int| !occurs_at(t, realtime_tag(), k) by {
        if occurs_at(t, realtime_tag(), k) {
            assert(t.subrange(k, k + realtime_tag().len()) == "rt:realtime"@);
        }
    }
    assert forall|k: int| !occurs_at(t, non_realtime_tag(), k) by {
        if occurs_at(t, non_realtime_tag(), k) {
            assert(t.subrange(k, k + non_realtime_tag().len()) == "rt:non_realtime"@);
        }
    }
    assert forall|k: int| !occurs_at(t, nonrealtime_tag(), k) by {
        if occurs_at(t, nonrealtime_tag(), k) {
            assert(t.subrange(k, k + nonrealtime_tag().len()) == "rt:nonrealtime"@);
        }
    }
}

/// A `doc` attribute says what its text says; any other attribute says nothing.
pub proof fn law_only_doc_attributes_mark(a: AttrInfo)
    ensures
        (a.name matches Some(n) && n@ == "doc"@) && (a.value matches Some(v)) ==> attr_marker(a)
            == text_marker(a.value->0@),
        !(a.name matches Some(n) && n@ == "doc"@) ==> attr_marker(a) is None,
        a.value is None ==> attr_marker(a) is None,
{
}

/// The first attribute that says anything decides what the list says,
/// wherever it stands.
pub proof fn law_first_marking_attribute_decides(attrs: Seq<AttrInfo>, i: int)
    requires
        0 <= i < attrs.len(),
        attr_marker(attrs[i]) is Some,
        forall|j: int| 0 <= j < i ==> (#[trigger] attr_marker(attrs[j])) is None,
    ensures
        doc_marker(attrs) == attr_marker(attrs[i]),
    decreases i,
{
    if i > 0 {
        let rest = attrs.drop_first();
        assert(attr_marker(attrs[0]) is None);
        assert forall|j: int| 0 <= j < i - 1 implies (#[trigger] attr_marker(rest[j])) is None by {
            assert(rest[j] == attrs[j + 1]);
            assert(attr_marker(attrs[j + 1]) is None);
        }
        assert(rest[i - 1] == attrs[i]);
        law_first_marking_attribute_decides(rest, i - 1);
    }
}

/// A list none of whose attributes says anything says nothing.
pub proof fn law_unmarked_list(attrs: Seq<AttrInfo>)
    requires
        forall|j: int| 0 <= j < attrs.len() ==> (#[trigger] attr_marker(attrs[j])) is None,
    ensures
        doc_marker(attrs) is None,
    decreases attrs.len(),
{
    if attrs.len() > 0 {
        let rest = attrs.drop_first();
        assert(attr_marker(attrs[0]) is None);
        assert forall|j: int| 0 <= j < rest.len() implies (#[trigger] attr_marker(rest[j])) is None by {
            assert(rest[j] == attrs[j + 1]);
        }
        law_unmarked_list(rest);
    }
}

/// Entering a function whose first marking attribute says realtime, wherever
/// it stands among its attributes, opens a realtime context of its own; one
/// whose first marking attribute says otherwise, or that has none, closes it.
pub proof fn law_marked_function_context(s: LintState, id: HirId, attrs: Seq<AttrInfo>, i: int)
    requires
        0 <= i < attrs.len(),
        attr_marker(attrs[i]) is Some,
        forall|j: int| 0 <= j < i ==> (#[trigger] attr_marker(attrs[j])) is None,
    ensures
        attr_marker(attrs[i]) == Some(true) ==> after_fn(s, false, id, attrs).stack == seq![id],
        attr_marker(attrs[i]) == Some(false) ==> after_fn(s, false, id, attrs).stack.len() == 0,
{
    law_first_marking_attribute_decides(attrs, i);
}

/// Entering a function whose attribute list reads as realtime opens a
/// realtime context of its own, and keeps the variable flags.
pub proof fn law_realtime_function_context(s: LintState, id: HirId, attrs: Seq<AttrInfo>)
    requires
        doc_marker(attrs) == Some(true),
    ensures
        after_fn(s, false, id, attrs).stack == seq![id],
        after_fn(s, false, id, attrs).closures == s.closures,
        after_fn(s, false, id, attrs).fn_ptrs == s.fn_ptrs,
{
}

/// A `let` statement changes the closure flag and the function-pointer flag
/// of no variable other than the one it binds, and leaves the realtime
/// context as it was.
pub proof fn law_let_changes_only_its_binding(s: LintState, l: LetStmt, k: Seq<char>)
    requires
        match l.binding {
            Some(b) => k != b@,
            None => true,
        },
    ensures
        ({
            let after = after_stmt(s, Stmt::Let(l));
            &&& after.stack == s.stack
            &&& after.fn_ptrs.contains_key(k) == s.fn_ptrs.contains_key(k)
            &&& s.fn_ptrs.contains_key(k) ==> after.fn_ptrs[k] == s.fn_ptrs[k]
            &&& after.closures.contains_key(k) == s.closures.contains_key(k)
            &&& s.closures.contains_key(k) ==> after.closures[k] == s.closures[k]
        }),
{
}

/// What a marker attribute macro makes of an item, in terms of how `syn`
/// reads it: the item read as a trait method, else as an impl method, else as
/// a free function, with an attribute carrying `tag` appended in that form;
/// the item itself when it is none of them.
pub proof fn law_marker_macro_output(item: TokenStream, tag: Seq<char>, r: TokenStream)
    requires
        marked_function(parsed_shape(item), item, tag, r),
    ensures
        spec_trait_item_fn_parses(item) ==> exists|a: syn::Attribute|
            #[trigger] spec_doc_value(a) == Some(tag) && r == or_item(
                spec_with_doc_trait_item_fn(item, a),
                item,
            ),
        !spec_trait_item_fn_parses(item) && spec_impl_item_fn_parses(item) ==> exists|
            a: syn::Attribute,
        |
            #[trigger] spec_doc_value(a) == Some(tag) && r == or_item(
                spec_with_doc_impl_item_fn(item, a),
                item,
            ),
        !spec_trait_item_fn_parses(item) && !spec_impl_item_fn_parses(item) && spec_item_fn_parses(
            item,
        ) ==> exists|a: syn::Attribute|
            #[trigger] spec_doc_value(a) == Some(tag) && r == or_item(
                spec_with_doc_item_fn(item, a),
                item,
            ),
        !spec_trait_item_fn_parses(item) && !spec_impl_item_fn_parses(item)
            && !spec_item_fn_parses(item) ==> r == item,
{
}

/// What `#[rt_call_info]` makes of two string arguments `v` and an item, in
/// terms of how `syn` reads the item: a `let` statement with an attribute
/// carrying `rt:call-info:<v0>:<v1>` appended, a function with that attribute
/// appended (whether it reads as a statement or, failing that, as an item),
/// and anything else unchanged; whatever the text of the arguments.
pub proof fn law_call_info_macro_output(
    args: TokenStream,
    item: TokenStream,
    v: Seq<Seq<char>>,
    r: Result<TokenStream, CallInfoError>,
)
    requires
        call_info_result(spec_string_literals(args), item, r),
        spec_string_literals(args) == Ok::<Seq<Seq<char>>, TokenStream>(v),
        v.len() == 2,
    ensures
        spec_stmt_form(item) == Some(StmtForm::Let) ==> exists|a: syn::Attribute|
            #[trigger] spec_doc_value(a) == Some("rt:call-info:"@ + v[0] + seq![':'] + v[1]) && r
                == Ok::<TokenStream, CallInfoError>(or_item(spec_with_doc_local(item, a), item)),
        spec_stmt_form(item) == Some(StmtForm::FnItem) || (spec_stmt_form(item) is None
            && spec_item_is_fn(item) == Some(true)) ==> exists|a: syn::Attribute|
            #[trigger] spec_doc_value(a) == Some("rt:call-info:"@ + v[0] + seq![':'] + v[1]) && r
                == Ok::<TokenStream, CallInfoError>(or_item(spec_with_doc_item_fn(item, a), item)),
        spec_stmt_form(item) == Some(StmtForm::Other) || (spec_stmt_form(item) is None
            && spec_item_is_fn(item) != Some(true)) ==> r == Ok::<TokenStream, CallInfoError>(
            item,
        ),
{
}

/// `#[rt_call_info]` rejects arguments that are not string literals with
/// `syn`'s error, and a number of them other than two with that number.
pub proof fn law_call_info_macro_rejects(args: TokenStream, item: TokenStream, r: Result<TokenStream, CallInfoError>)
    requires
        call_info_result(spec_string_literals(args), item, r),
    ensures
        match spec_string_literals(args) {
            Err(e) => r == Err::<TokenStream, CallInfoError>(CallInfoError::Malformed(e)),
            Ok(v) => (r matches Err(CallInfoError::WrongCount(n)) ==> n == v.len() && n != 2)
                && (v.len() != 2 ==> r is Err) && (v.len() == 2 ==> r is Ok),
        },
{
}

/// The first attribute that carries a call-info marker decides, wherever it
/// stands.
pub proof fn law_first_call_info_decides(attrs: Seq<AttrInfo>, i: int)
    requires
        0 <= i < attrs.len(),
        attr_call_info(attrs[i]) is Some,
        forall|j: int| 0 <= j < i ==> (#[trigger] attr_call_info(attrs[j])) is None,
    ensures
        call_info(attrs) == attr_call_info(attrs[i]),
    decreases i,
{
    if i > 0 {
        let rest = attrs.drop_first();
        assert(attr_call_info(attrs[0]) is None);
        assert forall|j: int| 0 <= j < i - 1 implies (#[trigger] attr_call_info(rest[j])) is None by {
            assert(rest[j] == attrs[j + 1]);
            assert(attr_call_info(attrs[j + 1]) is None);
        }
        assert(rest[i - 1] == attrs[i]);
        law_first_call_info_decides(rest, i - 1);
    }
}

/// A call-info doc text `rt:call-info:<name>:<property>`, possibly followed
/// by `:` and more, gives the name and whether the property is `realtime`,
/// for a name and a property that hold no `:`.
pub proof fn law_call_info_fields(name: Seq<char>, property: Seq<char>, more: Option<Seq<char>>)
    requires
        free_of(name, ':'),
        free_of(property, ':'),
    ensures
        ({
            let tail = match more {
                Some(m) => seq![':'] + m,
                None => Seq::<char>::empty(),
            };
            text_call_info("rt:call-info:"@ + name + seq![':'] + property + tail) == Some(
                (name, property == "realtime"@),
            )
        }),
{
    let tail = match more {
        Some(m) => seq![':'] + m,
        None => Seq::<char>::empty(),
    };
    let t = "rt:call-info:"@ + name + seq![':'] + property + tail;
    let prefix = "rt:call-info:"@;
    assert(t.take(prefix.len() as int) =~= prefix);
    let rest = t.skip(prefix.len() as int);
    assert(rest =~= name + seq![':'] + (property + tail));
    lemma_split_first_join(name, property + tail, ':');
    match more {
        Some(m) => {
            assert(property + tail =~= property + seq![':'] + m);
            lemma_split_first_join(property, m, ':');
        },
        None => {
            assert(property + tail =~= property);
            lemma_split_first_at(property, ':', property.len() as int);
            assert(property.take(property.len() as int) =~= property);
        },
    }
}

/// A call-info doc text with a name and no `:` after it gives the name and
/// not realtime.
pub proof fn law_call_info_without_property(name: Seq<char>)
    requires
        free_of(name, ':'),
    ensures
        text_call_info("rt:call-info:"@ + name) == Some((name, false)),
{
    let t = "rt:call-info:"@ + name;
    let prefix = "rt:call-info:"@;
    assert(t.take(prefix.len() as int) =~= prefix);
    assert(t.skip(prefix.len() as int) =~= name);
    lemma_split_first_at(name, ':', name.len() as int);
    assert(name.take(name.len() as int) =~= name);
    reveal_strlit("realtime");
}

/// A doc text that does not begin with `rt:call-info:` carries no call-info
/// marker.
pub proof fn law_call_info_needs_prefix(t: Seq<char>)
    requires
        !(t.len() >= "rt:call-info:"@.len() && t.subrange(0, "rt:call-info:"@.len() as int)
            == "rt:call-info:"@),
    ensures
        text_call_info(t) is None,
{
    let prefix = "rt:call-info:"@;
    if t.len() >= prefix.len() {
        assert(t.take(prefix.len() as int) =~= t.subrange(0, prefix.len() as int));
    }
}

/// Inside a realtime function, a call of a local variable is reported once as
/// a closure when it is flagged a non-realtime closure, and once as a function
/// pointer when it is flagged a non-realtime function pointer, in that order;
/// a variable flagged realtime, or not flagged, is not reported.
pub proof fn law_local_call_findings(s: LintState, v: String)
    requires
        s.stack.len() > 0,
    ensures
        ({
            let found = expr_findings(s, Expr::Call(CallTarget::Local(Some(v))));
            let c = s.closures.contains_key(v@) && !s.closures[v@];
            let f = s.fn_ptrs.contains_key(v@) && !s.fn_ptrs[v@];
            &&& found.len() == (if c { 1int } else { 0 }) + (if f { 1int } else { 0 })
            &&& c ==> found[0] == FindingKind::Closure(v@)
            &&& f ==> found[found.len() - 1] == FindingKind::FnPtr(v@)
        }),
{
}

/// A call whose local variable has no name, or whose target is neither a
/// variable nor a definition, is not reported; nor is a method call that does
/// not resolve, nor any other expression.
pub proof fn law_unresolved_calls_silent(s: LintState)
    ensures
        expr_findings(s, Expr::Call(CallTarget::Local(None))).len() == 0,
        expr_findings(s, Expr::Call(CallTarget::Other)).len() == 0,
        expr_findings(s, Expr::MethodCall(None)).len() == 0,
        expr_findings(s, Expr::Other).len() == 0,
{
}

} // verus!
