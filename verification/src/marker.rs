//! The doc markers that tag functions and bindings as realtime or not:
//! what the attribute macros attach, and how an attribute list is read back.
use vstd::prelude::*;
use crate::text::{
    chars_of, contains, contains_text, find_char, free_of, lemma_split_first_from, lemma_split_first_join,
    occurs_at, split_first, starts_with, strip_prefix,
};

verus! {

/// An attribute of an item or a statement, as the lint sees it: its name
/// (when its path is a single identifier) and its string value (when it
/// has one, as `#[doc = "..."]` does).
pub struct AttrInfo {
    pub name: Option<String>,
    pub value: Option<String>,
}

impl AttrInfo {
    /// A `#[doc = text]` attribute.
    pub fn doc(text: &str) -> (r: AttrInfo)
        ensures
            r.name matches Some(n) && n@ == "doc"@,
            r.value matches Some(v) && v@ == text@,
            doc_text(r) == Some(text@),
    {
        AttrInfo { name: Some(String::from_str("doc")), value: Some(String::from_str(text)) }
    }
}

/// The text that marks a function as realtime.
pub open spec fn realtime_tag() -> Seq<char> {
    "rt:realtime"@
}

/// The text that marks a function as not realtime.
pub open spec fn non_realtime_tag() -> Seq<char> {
    "rt:non_realtime"@
}

/// The other spelling of the non-realtime marker, as in `rt:nonrealtime:<reason>`.
pub open spec fn nonrealtime_tag() -> Seq<char> {
    "rt:nonrealtime"@
}

/// The start of the text that tags a binding with what it calls.
pub open spec fn call_info_tag() -> Seq<char> {
    "rt:call-info:"@
}

/// The property word that a call-info marker must carry to mean realtime.
pub open spec fn realtime_word() -> Seq<char> {
    "realtime"@
}

/// The text of a doc attribute; `None` for any other attribute.
pub open spec fn doc_text(a: AttrInfo) -> Option<Seq<char>> {
    match a.name {
        Some(n) => if n@ == "doc"@ {
            match a.value {
                Some(v) => Some(v@),
                None => None,
            }
        } else {
            None
        },
        None => None,
    }
}

/// What a doc text says of a function: realtime (`Some(true)`), not realtime
/// (`Some(false)`, for either spelling of the non-realtime tag) or nothing.
/// The realtime tag is looked for first.
pub open spec fn text_marker(t: Seq<char>) -> Option<bool> {
    if contains_text(t, realtime_tag()) {
        Some(true)
    } else if contains_text(t, non_realtime_tag()) || contains_text(t, nonrealtime_tag()) {
        Some(false)
    } else {
        None
    }
}

/// What one attribute says of a function.
pub open spec fn attr_marker(a: AttrInfo) -> Option<bool> {
    match doc_text(a) {
        Some(t) => text_marker(t),
        None => None,
    }
}

/// What an attribute list says of a function: the first attribute that says
/// anything decides.
pub open spec fn doc_marker(attrs: Seq<AttrInfo>) -> Option<bool>
    decreases attrs.len(),
{
    if attrs.len() == 0 {
        None
    } else {
        match attr_marker(attrs[0]) {
            Some(b) => Some(b),
            None => doc_marker(attrs.drop_first()),
        }
    }
}

/// Attributes that say nothing of a function leave the decision to the ones
/// after them.
pub proof fn lemma_doc_marker_push(s: Seq<AttrInfo>, a: AttrInfo)
    requires
        doc_marker(s) is None,
    ensures
        doc_marker(s.push(a)) == attr_marker(a),
    decreases s.len(),
{
    if s.len() == 0 {
        assert(s.push(a).drop_first() =~= Seq::<AttrInfo>::empty());
        assert(doc_marker(Seq::<AttrInfo>::empty()) is None);
    } else {
        assert(s.push(a)[0] == s[0]);
        assert(s.push(a).drop_first() =~= s.drop_first().push(a));
        lemma_doc_marker_push(s.drop_first(), a);
    }
}

/// What a call-info doc text says: the name it was given (the text up to the
/// next `:`), and whether its property field (the text between the next two
/// `:`, empty when there is none) is exactly `realtime`.
pub open spec fn text_call_info(t: Seq<char>) -> Option<(Seq<char>, bool)> {
    if starts_with(t, call_info_tag()) {
        let rest = t.skip(call_info_tag().len() as int);
        let (name, after) = split_first(rest, ':');
        let property = match after {
            Some(r) => split_first(r, ':').0,
            None => Seq::empty(),
        };
        Some((name, property == realtime_word()))
    } else {
        None
    }
}

/// What one attribute says as a call-info marker.
pub open spec fn attr_call_info(a: AttrInfo) -> Option<(Seq<char>, bool)> {
    match doc_text(a) {
        Some(t) => text_call_info(t),
        None => None,
    }
}

/// The first call-info marker of an attribute list.
pub open spec fn call_info(attrs: Seq<AttrInfo>) -> Option<(Seq<char>, bool)>
    decreases attrs.len(),
{
    if attrs.len() == 0 {
        None
    } else {
        match attr_call_info(attrs[0]) {
            Some(info) => Some(info),
            None => call_info(attrs.drop_first()),
        }
    }
}

/// Attributes that carry no call-info marker leave it to the ones after them.
pub proof fn lemma_call_info_push(s: Seq<AttrInfo>, a: AttrInfo)
    requires
        call_info(s) is None,
    ensures
        call_info(s.push(a)) == attr_call_info(a),
    decreases s.len(),
{
    if s.len() == 0 {
        assert(s.push(a).drop_first() =~= Seq::<AttrInfo>::empty());
        assert(call_info(Seq::<AttrInfo>::empty()) is None);
    } else {
        assert(s.push(a)[0] == s[0]);
        assert(s.push(a).drop_first() =~= s.drop_first().push(a));
        lemma_call_info_push(s.drop_first(), a);
    }
}

/// The doc text that a call-info marker with these two arguments carries.
pub open spec fn call_info_text(name: Seq<char>, property: Seq<char>) -> Seq<char> {
    call_info_tag() + name + seq![':'] + property
}

/// The text of an attribute that is a doc attribute with a value.
pub fn doc_text_of(a: &AttrInfo) -> (r: Option<&String>)
    ensures
        match r {
            Some(t) => doc_text(*a) == Some(t@),
            None => doc_text(*a) is None,
        },
{
    match &a.name {
        Some(n) => {
            let doc = String::from_str("doc");
            if *n == doc {
                match &a.value {
                    Some(v) => Some(v),
                    None => None,
                }
            } else {
                None
            }
        },
        None => None,
    }
}

/// What a doc text says of a function.
pub fn read_text_marker(t: &str) -> (r: Option<bool>)
    ensures
        r == text_marker(t@),
{
    if contains(t, "rt:realtime") {
        Some(true)
    } else if contains(t, "rt:non_realtime") || contains(t, "rt:nonrealtime") {
        Some(false)
    } else {
        None
    }
}

/// What a call-info doc text says.
pub fn read_text_call_info(t: &str) -> (r: Option<(String, bool)>)
    ensures
        match r {
            Some((name, is_rt)) => text_call_info(t@) == Some((name@, is_rt)),
            None => text_call_info(t@) is None,
        },
{
    match strip_prefix(t, "rt:call-info:") {
        Some(rest) => {
            let s = rest.as_str();
            let cs = chars_of(s);
            let k = find_char(&cs, 0, ':');
            proof {
                lemma_split_first_from(cs@, 0, k as int, ':');
                assert(cs@.skip(0) =~= cs@);
            }
            let name = String::from_str(s.substring_char(0, k));
            let property = if k < cs.len() {
                let m = find_char(&cs, k + 1, ':');
                proof {
                    lemma_split_first_from(cs@, k + 1, m as int, ':');
                }
                String::from_str(s.substring_char(k + 1, m))
            } else {
                String::new()
            };
            let word = String::from_str("realtime");
            let is_rt = property == word;
            Some((name, is_rt))
        },
        None => None,
    }
}

/// Which form an item given to a marker attribute has, tried in this order:
/// a trait method, an impl method, a free function, or anything else.
#[derive(Clone, Copy, PartialEq, Eq, Debug, Structural)]
pub enum ItemShape {
    TraitMethod,
    ImplMethod,
    Function,
    Other,
}

/// What a call-info attribute is attached to, tried in this order: a
/// statement (a `let` or another one), then an item (a function or another
/// one), or input that is neither.
#[derive(Clone, Copy, PartialEq, Eq, Debug, Structural)]
pub enum CallInfoTarget {
    LetStatement,
    OtherStatement,
    FunctionItem,
    OtherItem,
    Unparsed,
}

/// The doc text that `#[realtime]` attaches to an item of this shape: the
/// realtime tag on any function form, nothing on anything else.
pub fn realtime_doc(item: ItemShape) -> (r: Option<String>)
    ensures
        match item {
            ItemShape::Other => r is None,
            _ => r matches Some(t) && t@ == realtime_tag(),
        },
{
    match item {
        ItemShape::Other => None,
        _ => Some(String::from_str("rt:realtime")),
    }
}

/// The doc text that `#[non_realtime]` attaches to an item of this shape: the
/// non-realtime tag on any function form, nothing on anything else.
pub fn non_realtime_doc(item: ItemShape) -> (r: Option<String>)
    ensures
        match item {
            ItemShape::Other => r is None,
            _ => r matches Some(t) && t@ == non_realtime_tag(),
        },
{
    match item {
        ItemShape::Other => None,
        _ => Some(String::from_str("rt:non_realtime")),
    }
}

/// The doc text that `#[rt_call_info(name, property)]` attaches to `target`:
/// the call-info tag followed by the two arguments, each after a `:`, on a
/// `let` statement or a function item; nothing on anything else. The
/// attribute takes exactly two string arguments.
pub fn call_info_doc(args: &Vec<String>, target: CallInfoTarget) -> (r: Option<String>)
    requires
        args@.len() == 2,
    ensures
        match target {
            CallInfoTarget::LetStatement | CallInfoTarget::FunctionItem => r matches Some(t)
                && t@ == call_info_text(args@[0]@, args@[1]@),
            _ => r is None,
        },
{
    match target {
        CallInfoTarget::LetStatement | CallInfoTarget::FunctionItem => {
            let mut t = String::from_str("rt:call-info:");
            t.append(args[0].as_str());
            t.append(":");
            t.append(args[1].as_str());
            proof {
                reveal_strlit(":");
                assert(":"@ =~= seq![':']);
            }
            Some(t)
        },
        _ => None,
    }
}

/// The realtime marker reads back as realtime.
pub proof fn law_realtime_tag_reads_realtime()
    ensures
        text_marker(realtime_tag()) == Some(true),
{
    reveal_strlit("rt:realtime");
    assert(occurs_at(realtime_tag(), realtime_tag(), 0)) by {
        assert(realtime_tag().subrange(0, realtime_tag().len() as int) =~= realtime_tag());
    }
}

/// The non-realtime marker reads back as not realtime: it holds the
/// non-realtime tag and not the realtime tag.
pub proof fn law_non_realtime_tag_reads_non_realtime()
    ensures
        text_marker(non_realtime_tag()) == Some(false),
{
    reveal_strlit("rt:realtime");
    reveal_strlit("rt:non_realtime");
    let t = non_realtime_tag();
    let p = realtime_tag();
    assert forall|i: int| !occurs_at(t, p, i) by {
        if occurs_at(t, p, i) {
            if i == 0 {
                assert(t.subrange(0, 11)[3] == t[3]);
            } else {
                assert(t.subrange(i, i + 11)[0] == t[i]);
            }
        }
    }
    assert(occurs_at(t, t, 0)) by {
        assert(t.subrange(0, t.len() as int) =~= t);
    }
}

/// The other spelling of the non-realtime marker, with any reason after it,
/// reads back as not realtime, unless the realtime tag occurs in the text.
pub proof fn law_nonrealtime_spelling_reads_non_realtime(reason: Seq<char>)
    requires
        !contains_text(nonrealtime_tag() + reason, realtime_tag()),
    ensures
        text_marker(nonrealtime_tag() + reason) == Some(false),
{
    let t = nonrealtime_tag() + reason;
    let q = nonrealtime_tag();
    assert(occurs_at(t, q, 0)) by {
        assert(t.subrange(0, q.len() as int) =~= q);
    }
}

/// A call-info marker reads back as the name it was written with, and as
/// realtime exactly when its property argument, up to any `:` in it, is
/// `realtime`; this holds whenever the name holds no `:`.
pub proof fn law_call_info_round_trip(name: Seq<char>, property: Seq<char>)
    requires
        free_of(name, ':'),
    ensures
        text_call_info(call_info_text(name, property)) == Some(
            (name, split_first(property, ':').0 == realtime_word()),
        ),
{
    let t = call_info_text(name, property);
    let tag = call_info_tag();
    assert(t.take(tag.len() as int) =~= tag);
    let rest = t.skip(tag.len() as int);
    assert(rest =~= name + seq![':'] + property);
    lemma_split_first_join(name, property, ':');
}

} // verus!
