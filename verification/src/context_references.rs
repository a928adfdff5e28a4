//! References to context inside a query, written `<block:ID>`,
//! `<change:FILE:LINES>` or `<plan:ID>`, and the attachments a request
//! carries for them.
//!
//! A reference is its prefix, one or more characters other than `>`, and a
//! closing `>`. References are found from the left and do not overlap, as a
//! regular expression `<block:([^>]+)>` finds them.

use vstd::prelude::*;

use crate::shell::push_char;
use crate::text::chars_of;

verus! {

/// The kinds of context a query can reference.
#[derive(Clone, Copy, Debug, PartialEq, Eq, Structural)]
pub enum ReferenceKind {
    Block,
    Change,
    Plan,
}

/// The text that opens a reference of `kind`.
pub open spec fn prefix_of(kind: ReferenceKind) -> Seq<char> {
    match kind {
        ReferenceKind::Block => seq!['<', 'b', 'l', 'o', 'c', 'k', ':'],
        ReferenceKind::Change => seq!['<', 'c', 'h', 'a', 'n', 'g', 'e', ':'],
        ReferenceKind::Plan => seq!['<', 'p', 'l', 'a', 'n', ':'],
    }
}

/// The position of the first `>` of `s` at or after `k`, or `s.len()` when
/// there is none.
pub open spec fn next_close(s: Seq<char>, k: int) -> int
    decreases s.len() - k,
{
    if k >= s.len() {
        s.len() as int
    } else if s[k] == '>' {
        k
    } else {
        next_close(s, k + 1)
    }
}

/// Whether a reference opened by `prefix` starts at `i`, and if so where its
/// closing `>` is.
pub open spec fn reference_at(s: Seq<char>, prefix: Seq<char>, i: int) -> Option<int> {
    let body = i + prefix.len();
    if 0 <= i && body < s.len() && s.subrange(i, body) == prefix && s[body] != '>' {
        let close = next_close(s, body);
        if close < s.len() {
            Some(close)
        } else {
            None
        }
    } else {
        None
    }
}

/// The references opened by `prefix` in `s` from position `i` on, each as
/// its whole text and the text between the prefix and the `>`.
pub open spec fn references_from(s: Seq<char>, prefix: Seq<char>, i: int) -> Seq<(Seq<char>, Seq<char>)>
    decreases s.len() - i,
{
    if i < 0 || i >= s.len() {
        Seq::empty()
    } else {
        match reference_at(s, prefix, i) {
            Some(close) => if close >= i {
                seq![(s.subrange(i, close + 1), s.subrange(i + prefix.len(), close))]
                    + references_from(s, prefix, close + 1)
            } else {
                Seq::empty()
            },
            None => references_from(s, prefix, i + 1),
        }
    }
}

/// One reference found in a query.
#[derive(Debug, PartialEq, Eq)]
pub struct ContextReference {
    pub kind: ReferenceKind,
    /// The whole reference, such as `<block:42>`.
    pub reference: String,
    /// What it names, such as `42`.
    pub key: String,
}

/// The views of found references.
pub open spec fn reference_views(refs: Seq<ContextReference>) -> Seq<(Seq<char>, Seq<char>)> {
    refs.map_values(|r: ContextReference| (r.reference@, r.key@))
}

/// Every reference's `next_close` lies at or after where the search starts.
proof fn lemma_next_close_bounds(s: Seq<char>, k: int)
    requires
        0 <= k,
    ensures
        k <= next_close(s, k) || k > s.len(),
        next_close(s, k) <= s.len() || k > s.len(),
        next_close(s, k) < s.len() ==> s[next_close(s, k)] == '>',
        forall|j: int| k <= j < next_close(s, k) ==> s[j] != '>',
    decreases s.len() - k,
{
    if k < s.len() && s[k] != '>' {
        lemma_next_close_bounds(s, k + 1);
    }
}

/// The characters `chars[from..to]` as a string.
fn string_of(chars: &Vec<char>, from: usize, to: usize) -> (out: String)
    requires
        from <= to <= chars.len(),
    ensures
        out@ == chars@.subrange(from as int, to as int),
{
    let mut out = String::new();
    let mut k: usize = from;
    while k < to
        invariant
            from <= k <= to <= chars.len(),
            out@ == chars@.subrange(from as int, k as int),
        decreases to - k,
    {
        push_char(&mut out, chars[k]);
        assert(out@ =~= chars@.subrange(from as int, k + 1));
        k += 1;
    }
    out
}

/// Whether `chars` holds `prefix` at position `i`.
fn prefix_at(chars: &Vec<char>, prefix: &Vec<char>, i: usize) -> (found: bool)
    requires
        i <= chars.len(),
    ensures
        found == (i + prefix.len() <= chars.len() && chars@.subrange(i as int, i + prefix.len())
            == prefix@),
{
    if prefix.len() > chars.len() - i {
        return false;
    }
    let mut k: usize = 0;
    while k < prefix.len()
        invariant
            k <= prefix.len(),
            i + prefix.len() <= chars.len(),
            forall|j: int| 0 <= j < k ==> chars@[i + j] == prefix@[j],
        decreases prefix.len() - k,
    {
        if chars[i + k] != prefix[k] {
            assert(chars@.subrange(i as int, i + prefix.len())[k as int] != prefix@[k as int]);
            return false;
        }
        k += 1;
    }
    assert(chars@.subrange(i as int, i + prefix.len()) =~= prefix@);
    true
}

/// The characters that open a reference of `kind`.
fn prefix_chars(kind: ReferenceKind) -> (prefix: Vec<char>)
    ensures
        prefix@ == prefix_of(kind),
{
    let mut prefix = Vec::new();
    prefix.push('<');
    match kind {
        ReferenceKind::Block => {
            prefix.push('b');
            prefix.push('l');
            prefix.push('o');
            prefix.push('c');
            prefix.push('k');
        },
        ReferenceKind::Change => {
            prefix.push('c');
            prefix.push('h');
            prefix.push('a');
            prefix.push('n');
            prefix.push('g');
            prefix.push('e');
        },
        ReferenceKind::Plan => {
            prefix.push('p');
            prefix.push('l');
            prefix.push('a');
            prefix.push('n');
        },
    }
    prefix.push(':');
    assert(prefix@ =~= prefix_of(kind));
    prefix
}

/// The references of `kind` in `query`, from the left and without overlap.
pub fn find_references(query: &str, kind: ReferenceKind) -> (refs: Vec<ContextReference>)
    ensures
        reference_views(refs@) == references_from(query@, prefix_of(kind), 0),
        forall|j: int| 0 <= j < refs@.len() ==> (#[trigger] refs@[j]).kind == kind,
{
    let chars = chars_of(query);
    let prefix = prefix_chars(kind);
    let ghost s = query@;
    let ghost p = prefix_of(kind);
    let n = chars.len();
    let plen = prefix.len();
    let mut refs: Vec<ContextReference> = Vec::new();
    let mut i: usize = 0;
    while i < n
        invariant
            chars@ == s,
            s == query@,
            prefix@ == p,
            p == prefix_of(kind),
            n == s.len(),
            plen == p.len(),
            i <= n,
            reference_views(refs@) + references_from(s, p, i as int) == references_from(s, p, 0),
            forall|j: int| 0 <= j < refs@.len() ==> (#[trigger] refs@[j]).kind == kind,
        decreases n - i,
    {
        let at_prefix = prefix_at(&chars, &prefix, i);
        let mut matched = false;
        if at_prefix && i + plen < n && chars[i + plen] != '>' {
            let body = i + plen;
            let mut close = body;
            while close < n && chars[close] != '>'
                invariant
                    body <= close <= n,
                    n == s.len(),
                    chars@ == s,
                    next_close(s, body as int) == next_close(s, close as int),
                decreases n - close,
            {
                close += 1;
            }
            proof {
                lemma_next_close_bounds(s, body as int);
            }
            if close < n {
                assert(reference_at(s, p, i as int) == Some(close as int));
                let reference = string_of(&chars, i, close + 1);
                let key = string_of(&chars, body, close);
                let ghost before = refs@;
                refs.push(ContextReference { kind, reference, key });
                assert(reference_views(refs@) =~= reference_views(before).push(
                    (s.subrange(i as int, close + 1), s.subrange(i + plen, close as int)),
                ));
                assert(references_from(s, p, i as int) =~= seq![
                    (s.subrange(i as int, close + 1), s.subrange(i + plen, close as int)),
                ] + references_from(s, p, close + 1));
                assert(reference_views(refs@) + references_from(s, p, close + 1)
                    =~= reference_views(before) + references_from(s, p, i as int));
                i = close + 1;
                matched = true;
            } else {
                assert(reference_at(s, p, i as int) is None);
            }
        } else {
            assert(reference_at(s, p, i as int) is None);
        }
        if !matched {
            assert(references_from(s, p, i as int) == references_from(s, p, i + 1));
            i += 1;
        }
    }
    assert(references_from(s, p, n as int) =~= Seq::<(Seq<char>, Seq<char>)>::empty());
    assert(reference_views(refs@) + Seq::<(Seq<char>, Seq<char>)>::empty() =~= reference_views(refs@));
    refs
}

/// Every reference of `query`: the block references, then the changes, then
/// the plans, each kind from the left.
pub fn context_references(query: &str) -> (refs: Vec<ContextReference>)
    ensures
        reference_views(refs@) == references_from(query@, prefix_of(ReferenceKind::Block), 0)
            + references_from(query@, prefix_of(ReferenceKind::Change), 0) + references_from(
            query@,
            prefix_of(ReferenceKind::Plan),
            0,
        ),
{
    let mut refs = find_references(query, ReferenceKind::Block);
    let mut changes = find_references(query, ReferenceKind::Change);
    let mut plans = find_references(query, ReferenceKind::Plan);
    let ghost a = refs@;
    let ghost b = changes@;
    let ghost c = plans@;
    refs.append(&mut changes);
    refs.append(&mut plans);
    assert(refs@ =~= a + b + c);
    assert(reference_views(refs@) =~= reference_views(a) + reference_views(b) + reference_views(c));
    refs
}

} // verus!
