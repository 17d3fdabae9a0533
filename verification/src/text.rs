//! Character-level text operations used to read and write the markers:
//! substring search, prefix stripping and splitting on a separator.
use vstd::prelude::*;

verus! {

/// `pat` occurs in `text` starting at position `i`.
pub open spec fn occurs_at(text: Seq<char>, pat: Seq<char>, i: int) -> bool {
    &&& 0 <= i
    &&& i + pat.len() <= text.len()
    &&& text.subrange(i, i + pat.len()) == pat
}

/// `pat` occurs somewhere in `text`.
pub open spec fn contains_text(text: Seq<char>, pat: Seq<char>) -> bool {
    exists|i: int| occurs_at(text, pat, i)
}

/// `text` begins with `prefix`.
pub open spec fn starts_with(text: Seq<char>, prefix: Seq<char>) -> bool {
    prefix.len() <= text.len() && text.take(prefix.len() as int) == prefix
}

/// Splits `s` at the first `sep`: the text before it, and the text after it
/// (`None` when `s` holds no `sep`).
pub open spec fn split_first(s: Seq<char>, sep: char) -> (Seq<char>, Option<Seq<char>>)
    decreases s.len(),
{
    if s.len() == 0 {
        (s, None)
    } else if s[0] == sep {
        (Seq::empty(), Some(s.drop_first()))
    } else {
        let (head, rest) = split_first(s.drop_first(), sep);
        (seq![s[0]] + head, rest)
    }
}

/// `s` holds no `sep`.
pub open spec fn free_of(s: Seq<char>, sep: char) -> bool {
    forall|j: int| 0 <= j < s.len() ==> s[j] != sep
}

/// Where the first `sep` stands, `split_first` cuts.
pub proof fn lemma_split_first_at(s: Seq<char>, sep: char, k: int)
    requires
        0 <= k <= s.len(),
        k < s.len() ==> s[k] == sep,
        forall|j: int| 0 <= j < k ==> s[j] != sep,
    ensures
        split_first(s, sep) == (s.take(k), if k < s.len() {
            Some(s.skip(k + 1))
        } else {
            None::<Seq<char>>
        }),
    decreases k,
{
    if k == 0 {
        if s.len() == 0 {
            assert(s.take(0) =~= s);
        } else {
            assert(s.take(0) =~= Seq::<char>::empty());
            assert(s.skip(1) =~= s.drop_first());
        }
    } else {
        let t = s.drop_first();
        lemma_split_first_at(t, sep, k - 1);
        assert(seq![s[0]] + t.take(k - 1) =~= s.take(k));
        if k < s.len() {
            assert(t.skip(k) =~= s.skip(k + 1));
        }
    }
}

/// Joining two texts with `sep`, where the first is free of `sep`, splits back.
pub proof fn lemma_split_first_join(a: Seq<char>, b: Seq<char>, sep: char)
    requires
        free_of(a, sep),
    ensures
        split_first(a + seq![sep] + b, sep) == (a, Some(b)),
{
    let s = a + seq![sep] + b;
    lemma_split_first_at(s, sep, a.len() as int);
    assert(s.take(a.len() as int) =~= a);
    assert(s.skip(a.len() + 1int) =~= b);
}

/// The characters of `s`, in order.
pub fn chars_of(s: &str) -> (r: Vec<char>)
    ensures
        r@ == s@,
{
    let n = s.unicode_len();
    let mut r: Vec<char> = Vec::new();
    for i in 0..n
        invariant
            n == s@.len(),
            r@ == s@.take(i as int),
    {
        let c = s.get_char(i);
        r.push(c);
        assert(r@ =~= s@.take(i + 1));
    }
    assert(r@ =~= s@);
    r
}

/// Whether `pat` occurs in `text` at position `i`.
fn occurs_at_exec(text: &Vec<char>, pat: &Vec<char>, i: usize) -> (r: bool)
    ensures
        r == occurs_at(text@, pat@, i as int),
{
    if i > text.len() || pat.len() > text.len() - i {
        return false;
    }
    let n = pat.len();
    let tl = text.len();
    for j in 0..n
        invariant
            n == pat@.len(),
            tl == text@.len(),
            i + n <= tl,
            forall|k: int| 0 <= k < j ==> text@[i + k] == pat@[k],
    {
        if text[i + j] != pat[j] {
            assert(text@.subrange(i as int, i + n)[j as int] != pat@[j as int]);
            return false;
        }
    }
    assert(text@.subrange(i as int, i + n) =~= pat@);
    true
}

/// Whether `pat` occurs somewhere in `text`.
pub fn contains(text: &str, pat: &str) -> (r: bool)
    ensures
        r == contains_text(text@, pat@),
{
    let t = chars_of(text);
    let p = chars_of(pat);
    if p.len() > t.len() {
        assert forall|i: int| !occurs_at(text@, pat@, i) by {}
        return false;
    }
    let last = t.len() - p.len();
    let mut i: usize = 0;
    while i <= last
        invariant
            t@ == text@,
            p@ == pat@,
            last == t@.len() - p@.len(),
            i <= last + 1,
            forall|k: int| 0 <= k < i ==> !occurs_at(text@, pat@, k),
        decreases last + 1 - i,
    {
        if occurs_at_exec(&t, &p, i) {
            return true;
        }
        if i == last {
            assert forall|k: int| !occurs_at(text@, pat@, k) by {}
            return false;
        }
        i = i + 1;
    }
    assert forall|i: int| !occurs_at(text@, pat@, i) by {}
    false
}

/// The rest of `text` after `prefix`, when `text` begins with `prefix`.
pub fn strip_prefix(text: &str, prefix: &str) -> (r: Option<String>)
    ensures
        r is Some <==> starts_with(text@, prefix@),
        r matches Some(rest) ==> rest@ == text@.skip(prefix@.len() as int),
{
    let t = chars_of(text);
    let p = chars_of(prefix);
    if occurs_at_exec(&t, &p, 0) {
        let rest = text.substring_char(p.len(), t.len());
        Some(String::from_str(rest))
    } else {
        None
    }
}

/// The position of the first `sep` in `s` at or after `from`, or the length of `s`.
pub fn find_char(s: &Vec<char>, from: usize, sep: char) -> (k: usize)
    requires
        from <= s@.len(),
    ensures
        from <= k <= s@.len(),
        k < s@.len() ==> s@[k as int] == sep,
        forall|j: int| from <= j < k ==> s@[j] != sep,
{
    let mut k: usize = from;
    while k < s.len()
        invariant
            from <= k <= s@.len(),
            forall|j: int| from <= j < k ==> s@[j] != sep,
        decreases s@.len() - k,
    {
        if s[k] == sep {
            return k;
        }
        k = k + 1;
    }
    k
}

/// `split_first` read off a position found by `find_char`.
pub proof fn lemma_split_first_from(s: Seq<char>, from: int, k: int, sep: char)
    requires
        0 <= from <= k <= s.len(),
        k < s.len() ==> s[k] == sep,
        forall|j: int| from <= j < k ==> s[j] != sep,
    ensures
        split_first(s.skip(from), sep) == (s.subrange(from, k), if k < s.len() {
            Some(s.skip(k + 1))
        } else {
            None::<Seq<char>>
        }),
{
    let t = s.skip(from);
    lemma_split_first_at(t, sep, k - from);
    assert(t.take(k - from) =~= s.subrange(from, k));
    if k < s.len() {
        assert(t.skip(k - from + 1) =~= s.skip(k + 1));
    }
}

} // verus!
