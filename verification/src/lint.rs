//! The lint's decisions: which function bodies are realtime, which local
//! bindings stand for realtime or non-realtime code, and which calls inside a
//! realtime function are reported.
use vstd::prelude::*;
use crate::marker::{call_info, doc_marker, doc_text_of, read_text_call_info, read_text_marker, AttrInfo};
use crate::var_table::VarTable;

verus! {

/// The identifier of a node of the compiler's syntax tree.
#[derive(Clone, Copy, PartialEq, Eq, Debug, Structural)]
pub struct HirId {
    pub owner: u32,
    pub local_id: u32,
}

/// A definition that a call or a binding may name, by its attributes (those
/// of a definition of another crate included).
pub struct Callee {
    pub attrs: Vec<AttrInfo>,
}

/// The initializer of a `let` statement, as far as the lint reads it.
pub enum LetInit {
    /// A path to a function or an associated function.
    FnItem(Callee),
    /// A path to a local variable, with that variable's name when it has one.
    Local(Option<String>),
    /// Anything else, or no initializer.
    Other,
}

/// A `let` statement: its attributes, the name it binds when its pattern is a
/// single binding, and its initializer.
pub struct LetStmt {
    pub attrs: Vec<AttrInfo>,
    pub binding: Option<String>,
    pub init: LetInit,
}

/// A statement.
pub enum Stmt {
    Let(LetStmt),
    Other,
}

/// What the path called by a call expression resolves to.
pub enum CallTarget {
    /// A local variable, with its name when it has one.
    Local(Option<String>),
    /// A definition, with its path as the compiler prints it.
    Item { callee: Callee, path: String },
    /// Anything else.
    Other,
}

/// An expression.
pub enum Expr {
    /// A method call, with the method it resolves to when it resolves.
    MethodCall(Option<Callee>),
    /// A call whose callee is a path.
    Call(CallTarget),
    /// Anything else.
    Other,
}

/// A call that the lint reports: a call, from a realtime function, of code
/// that is not marked realtime.
#[derive(Debug, PartialEq, Eq)]
pub enum Finding {
    /// A method not marked realtime.
    NonRealtimeMethod,
    /// A closure variable marked non-realtime, by name.
    NonRealtimeClosure(String),
    /// A function-pointer variable bound to a non-realtime function, by name.
    NonRealtimeFnPtr(String),
    /// A function not marked realtime, by path.
    NonRealtimeFunction(String),
}

/// The mathematical value of a `Finding`.
pub enum FindingKind {
    Method,
    Closure(Seq<char>),
    FnPtr(Seq<char>),
    Function(Seq<char>),
}

impl View for Finding {
    type V = FindingKind;

    open spec fn view(&self) -> FindingKind {
        match self {
            Finding::NonRealtimeMethod => FindingKind::Method,
            Finding::NonRealtimeClosure(v) => FindingKind::Closure(v@),
            Finding::NonRealtimeFnPtr(v) => FindingKind::FnPtr(v@),
            Finding::NonRealtimeFunction(p) => FindingKind::Function(p@),
        }
    }
}

/// The diagnostic text of a finding, after `prefix`.
pub open spec fn finding_message(k: FindingKind, prefix: Seq<char>) -> Seq<char> {
    match k {
        FindingKind::Method => prefix + " realtime function calls a non-realtime method"@,
        FindingKind::Closure(v) => prefix + " Nonrealtime Closure call detected: "@ + v,
        FindingKind::FnPtr(v) => prefix + " Nonrealtime Fn-ptr call detected: "@ + v,
        FindingKind::Function(p) => prefix + " nonrealtime function call detected: "@ + p,
    }
}

impl Finding {
    /// The diagnostic text of this finding, after `prefix`.
    pub fn message(&self, prefix: &str) -> (r: String)
        ensures
            r@ == finding_message(self@, prefix@),
    {
        let mut m = String::from_str(prefix);
        match self {
            Finding::NonRealtimeMethod => {
                m.append(" realtime function calls a non-realtime method");
            },
            Finding::NonRealtimeClosure(v) => {
                m.append(" Nonrealtime Closure call detected: ");
                m.append(v.as_str());
            },
            Finding::NonRealtimeFnPtr(v) => {
                m.append(" Nonrealtime Fn-ptr call detected: ");
                m.append(v.as_str());
            },
            Finding::NonRealtimeFunction(p) => {
                m.append(" nonrealtime function call detected: ");
                m.append(p.as_str());
            },
        }
        m
    }
}

/// The lint's state: the realtime function being checked, if any (at most one
/// entry), and the realtime flags of closure and function-pointer variables.
pub struct LintState {
    pub stack: Seq<HirId>,
    pub closures: Map<Seq<char>, bool>,
    pub fn_ptrs: Map<Seq<char>, bool>,
}

/// What the lint knows of a callee: the marker of its attributes.
pub open spec fn callee_marker(c: Callee) -> Option<bool> {
    doc_marker(c.attrs@)
}

/// The state after a function is entered: a closure changes nothing; any other
/// function replaces the realtime context by itself when it is marked realtime
/// and by none otherwise.
pub open spec fn after_fn(s: LintState, is_closure: bool, id: HirId, attrs: Seq<AttrInfo>) -> LintState {
    if is_closure {
        s
    } else {
        LintState {
            stack: if doc_marker(attrs) == Some(true) {
                seq![id]
            } else {
                Seq::empty()
            },
            closures: s.closures,
            fn_ptrs: s.fn_ptrs,
        }
    }
}

/// Closure flags after a `let` whose call-info marker names a closure.
pub open spec fn marked_closures(c: Map<Seq<char>, bool>, l: LetStmt) -> Map<Seq<char>, bool> {
    match call_info(l.attrs@) {
        Some(info) => match l.binding {
            Some(var) => if info.0 == "closure"@ {
                c.insert(var@, info.1)
            } else {
                c
            },
            None => c,
        },
        None => c,
    }
}

/// Function-pointer flags after a `let` bound to a function whose marker is known.
pub open spec fn detected_fn_ptrs(f: Map<Seq<char>, bool>, l: LetStmt) -> Map<Seq<char>, bool> {
    match l.init {
        LetInit::FnItem(callee) => match l.binding {
            Some(var) => match callee_marker(callee) {
                Some(v) => f.insert(var@, v),
                None => f,
            },
            None => f,
        },
        _ => f,
    }
}

/// Flags after `let dst = src;`: `dst` takes the flag of `src`, when `src` has one.
pub open spec fn propagated(m: Map<Seq<char>, bool>, l: LetStmt) -> Map<Seq<char>, bool> {
    match l.init {
        LetInit::Local(Some(src)) => match l.binding {
            Some(dst) => if m.contains_key(src@) {
                m.insert(dst@, m[src@])
            } else {
                m
            },
            None => m,
        },
        _ => m,
    }
}

/// The state after a statement.
pub open spec fn after_stmt(s: LintState, st: Stmt) -> LintState {
    match st {
        Stmt::Let(l) => LintState {
            stack: s.stack,
            closures: propagated(marked_closures(s.closures, l), l),
            fn_ptrs: propagated(detected_fn_ptrs(s.fn_ptrs, l), l),
        },
        Stmt::Other => s,
    }
}

/// The findings for a call of the local variable `v`: one if it is a closure
/// flagged non-realtime, then one if it is a function pointer flagged so.
pub open spec fn local_findings(s: LintState, v: Seq<char>) -> Seq<FindingKind> {
    (if s.closures.contains_key(v) && !s.closures[v] {
        seq![FindingKind::Closure(v)]
    } else {
        Seq::empty()
    }) + (if s.fn_ptrs.contains_key(v) && !s.fn_ptrs[v] {
        seq![FindingKind::FnPtr(v)]
    } else {
        Seq::empty()
    })
}

/// The findings for an expression: none outside a realtime function; inside
/// one, the calls of methods and functions that are not marked realtime, and
/// of closures and function pointers flagged non-realtime.
pub open spec fn expr_findings(s: LintState, e: Expr) -> Seq<FindingKind> {
    if s.stack.len() == 0 {
        Seq::empty()
    } else {
        match e {
            Expr::MethodCall(Some(c)) => if callee_marker(c) != Some(true) {
                seq![FindingKind::Method]
            } else {
                Seq::empty()
            },
            Expr::Call(CallTarget::Local(Some(v))) => local_findings(s, v@),
            Expr::Call(CallTarget::Item { callee, path }) => if callee_marker(callee) != Some(
                true,
            ) {
                seq![FindingKind::Function(path@)]
            } else {
                Seq::empty()
            },
            _ => Seq::empty(),
        }
    }
}

/// Reports calls from realtime functions to non-realtime code.
pub struct RealtimeCallsNonrealtime {
    in_realtime_main_fn: Vec<HirId>,
    closure_var_realtime: VarTable,
    fnptr_var_realtime: VarTable,
}

impl View for RealtimeCallsNonrealtime {
    type V = LintState;

    closed spec fn view(&self) -> LintState {
        LintState {
            stack: self.in_realtime_main_fn@,
            closures: self.closure_var_realtime@,
            fn_ptrs: self.fnptr_var_realtime@,
        }
    }
}

impl RealtimeCallsNonrealtime {
    /// The variable tables hold each name once.
    pub closed spec fn wf(&self) -> bool {
        self.closure_var_realtime.wf() && self.fnptr_var_realtime.wf()
    }

    /// A lint outside any realtime function, with no variable flagged.
    pub fn new() -> (r: Self)
        ensures
            r.wf(),
            r@ == (LintState {
                stack: Seq::empty(),
                closures: Map::empty(),
                fn_ptrs: Map::empty(),
            }),
    {
        RealtimeCallsNonrealtime {
            in_realtime_main_fn: Vec::new(),
            closure_var_realtime: VarTable::new(),
            fnptr_var_realtime: VarTable::new(),
        }
    }

    /// Whether a realtime function is being checked.
    pub fn in_realtime(&self) -> (r: bool)
        ensures
            r == (self@.stack.len() > 0),
    {
        self.in_realtime_main_fn.len() > 0
    }

    /// What an attribute list says of a function: the first doc attribute
    /// that holds the realtime tag (realtime) or the non-realtime tag (not
    /// realtime) decides; `None` when none does.
    pub fn doc_marker_is_realtime(attrs: &Vec<AttrInfo>) -> (r: Option<bool>)
        ensures
            r == doc_marker(attrs@),
    {
        let n = attrs.len();
        assert(attrs@.skip(0) =~= attrs@);
        for i in 0..n
            invariant
                n == attrs@.len(),
                doc_marker(attrs@) == doc_marker(attrs@.skip(i as int)),
        {
            assert(attrs@.skip(i as int)[0] == attrs@[i as int]);
            assert(attrs@.skip(i as int).drop_first() =~= attrs@.skip(i + 1));
            match doc_text_of(&attrs[i]) {
                Some(t) => {
                    let m = read_text_marker(t.as_str());
                    if m.is_some() {
                        return m;
                    }
                },
                None => {},
            }
        }
        assert(attrs@.skip(n as int) =~= Seq::<AttrInfo>::empty());
        None
    }

    /// The first call-info marker of an attribute list: the name it gives and
    /// whether its property is `realtime`.
    pub fn extract_call_info_from_doc_attrs(attrs: &Vec<AttrInfo>) -> (r: Option<(String, bool)>)
        ensures
            match r {
                Some((name, is_rt)) => call_info(attrs@) == Some((name@, is_rt)),
                None => call_info(attrs@) is None,
            },
    {
        let n = attrs.len();
        assert(attrs@.skip(0) =~= attrs@);
        for i in 0..n
            invariant
                n == attrs@.len(),
                call_info(attrs@) == call_info(attrs@.skip(i as int)),
        {
            assert(attrs@.skip(i as int)[0] == attrs@[i as int]);
            assert(attrs@.skip(i as int).drop_first() =~= attrs@.skip(i + 1));
            match doc_text_of(&attrs[i]) {
                Some(t) => {
                    let info = read_text_call_info(t.as_str());
                    if info.is_some() {
                        return info;
                    }
                },
                None => {},
            }
        }
        assert(attrs@.skip(n as int) =~= Seq::<AttrInfo>::empty());
        None
    }

    /// What the lint knows of a callee: what its attributes say, whichever
    /// crate defines it.
    pub fn callee_is_realtime(callee: &Callee) -> (r: Option<bool>)
        ensures
            r == callee_marker(*callee),
    {
        Self::doc_marker_is_realtime(&callee.attrs)
    }

    /// Enters a function body.
    pub fn check_fn(&mut self, is_closure: bool, hir_id: HirId, attrs: &Vec<AttrInfo>)
        requires
            old(self).wf(),
        ensures
            final(self).wf(),
            final(self)@ == after_fn(old(self)@, is_closure, hir_id, attrs@),
    {
        if is_closure {
            return;
        }
        self.in_realtime_main_fn.clear();
        if Self::doc_marker_is_realtime(attrs) == Some(true) {
            self.in_realtime_main_fn.push(hir_id);
        }
        assert(self@.stack =~= after_fn(old(self)@, is_closure, hir_id, attrs@).stack);
    }

    /// Records what a `let` statement tells of the variable it binds.
    pub fn check_stmt(&mut self, stmt: &Stmt)
        requires
            old(self).wf(),
        ensures
            final(self).wf(),
            final(self)@ == after_stmt(old(self)@, *stmt),
    {
        let local = match stmt {
            Stmt::Let(l) => l,
            Stmt::Other => {
                return;
            },
        };
        if let Some((name_marker, is_rt)) = Self::extract_call_info_from_doc_attrs(&local.attrs) {
            let closure = String::from_str("closure");
            if name_marker == closure {
                if let Some(var_name) = &local.binding {
                    self.closure_var_realtime.insert(var_name.clone(), is_rt);
                }
            }
        }
        if let LetInit::FnItem(callee) = &local.init {
            if let Some(var_name) = &local.binding {
                let is_fn_rt = Self::callee_is_realtime(callee);
                if let Some(is_fn_rt) = is_fn_rt {
                    self.fnptr_var_realtime.insert(var_name.clone(), is_fn_rt);
                }
            }
        }
        if let LetInit::Local(Some(src)) = &local.init {
            if let Some(dst) = &local.binding {
                if let Some(v) = self.closure_var_realtime.get(src) {
                    self.closure_var_realtime.insert(dst.clone(), v);
                }
                if let Some(v) = self.fnptr_var_realtime.get(src) {
                    self.fnptr_var_realtime.insert(dst.clone(), v);
                }
            }
        }
    }

    /// The calls of an expression that are reported: only inside a realtime
    /// function, and only of code that is not marked realtime.
    pub fn check_expr(&mut self, expr: &Expr) -> (r: Vec<Finding>)
        requires
            old(self).wf(),
        ensures
            *final(self) == *old(self),
            r@.map_values(|f: Finding| f@) == expr_findings(old(self)@, *expr),
    {
        let mut out: Vec<Finding> = Vec::new();
        if !self.in_realtime() {
            assert(out@.map_values(|f: Finding| f@) =~= Seq::<FindingKind>::empty());
            return out;
        }
        match expr {
            Expr::MethodCall(Some(callee)) => {
                if Self::callee_is_realtime(callee) != Some(true) {
                    out.push(Finding::NonRealtimeMethod);
                }
            },
            Expr::Call(CallTarget::Local(Some(var_name))) => {
                if let Some(is_rt) = self.closure_var_realtime.get(var_name) {
                    if is_rt == false {
                        out.push(Finding::NonRealtimeClosure(var_name.clone()));
                    }
                }
                if let Some(is_rt) = self.fnptr_var_realtime.get(var_name) {
                    if is_rt == false {
                        out.push(Finding::NonRealtimeFnPtr(var_name.clone()));
                    }
                }
            },
            Expr::Call(CallTarget::Item { callee, path }) => {
                if Self::callee_is_realtime(callee) != Some(true) {
                    out.push(Finding::NonRealtimeFunction(path.clone()));
                }
            },
            _ => {},
        }
        assert(out@.map_values(|f: Finding| f@) =~= expr_findings(self@, *expr));
        out
    }
}

impl Default for RealtimeCallsNonrealtime {
    fn default() -> (r: Self)
        ensures
            r.wf(),
            r@ == (LintState {
                stack: Seq::empty(),
                closures: Map::empty(),
                fn_ptrs: Map::empty(),
            }),
    {
        Self::new()
    }
}

} // verus!
