//! The attachments a query carries, keyed by the text that names them: the
//! context references of the query that could be resolved, the files
//! waiting to be attached (a name that is taken gets the first free
//! ` (n)` suffix), and the plan being edited, under its id.
//!
//! The keys are kept in a `Vec` of pairs, each key at most once; its map is
//! `entry_map`.

use vstd::prelude::*;
use vstd::relations::injective_on;
use vstd::set_lib::{lemma_int_range, lemma_len_subset, lemma_map_size, set_int_range};

use crate::shell::push_char;
use crate::text::str_eq;

verus! {

/// The character of a decimal digit.
pub open spec fn digit_char(d: nat) -> char {
    if d == 0 {
        '0'
    } else if d == 1 {
        '1'
    } else if d == 2 {
        '2'
    } else if d == 3 {
        '3'
    } else if d == 4 {
        '4'
    } else if d == 5 {
        '5'
    } else if d == 6 {
        '6'
    } else if d == 7 {
        '7'
    } else if d == 8 {
        '8'
    } else {
        '9'
    }
}

/// `n` in decimal, as `{}` prints it.
pub open spec fn decimal(n: nat) -> Seq<char>
    decreases n,
{
    if n < 10 {
        seq![digit_char(n)]
    } else {
        decimal(n / 10).push(digit_char(n % 10))
    }
}

/// A number has one decimal spelling, and each spelling one number.
proof fn lemma_decimal_injective(a: nat, b: nat)
    requires
        decimal(a) == decimal(b),
    ensures
        a == b,
    decreases a,
{
    lemma_decimal_len(a);
    lemma_decimal_len(b);
    if a < 10 {
        assert(decimal(a).len() == 1);
    }
    if b < 10 {
        assert(decimal(b).len() == 1);
    }
    if a < 10 && b < 10 {
        assert(decimal(a)[0] == digit_char(a));
        assert(decimal(b)[0] == digit_char(b));
    }
    if a >= 10 && b >= 10 {
        assert(decimal(a).drop_last() =~= decimal(a / 10));
        assert(decimal(b).drop_last() =~= decimal(b / 10));
        lemma_decimal_injective(a / 10, b / 10);
        assert(decimal(a).last() == digit_char(a % 10));
        assert(decimal(b).last() == digit_char(b % 10));
        assert(a % 10 == b % 10);
        assert(a == 10 * (a / 10) + a % 10);
        assert(b == 10 * (b / 10) + b % 10);
    }
}

proof fn lemma_decimal_len(n: nat)
    ensures
        decimal(n).len() >= 1,
        n >= 10 ==> decimal(n).len() >= 2,
    decreases n,
{
    if n >= 10 {
        lemma_decimal_len(n / 10);
    }
}

fn digit(d: u128) -> (c: char)
    requires
        d < 10,
    ensures
        c == digit_char(d as nat),
{
    if d == 0 {
        '0'
    } else if d == 1 {
        '1'
    } else if d == 2 {
        '2'
    } else if d == 3 {
        '3'
    } else if d == 4 {
        '4'
    } else if d == 5 {
        '5'
    } else if d == 6 {
        '6'
    } else if d == 7 {
        '7'
    } else if d == 8 {
        '8'
    } else {
        '9'
    }
}

/// Appends `n` in decimal to `out`.
fn push_decimal(out: &mut String, n: u128)
    ensures
        final(out)@ == old(out)@ + decimal(n as nat),
    decreases n,
{
    if n >= 10 {
        push_decimal(out, n / 10);
    }
    push_char(out, digit(n % 10));
    assert(n < 10 ==> decimal(n as nat) == seq![digit_char(n as nat)]);
}

/// `name` with the suffix ` (n)`.
pub open spec fn suffixed(name: Seq<char>, n: nat) -> Seq<char> {
    name + " ("@ + decimal(n) + ")"@
}

proof fn lemma_suffixed_injective(name: Seq<char>, a: nat, b: nat)
    requires
        suffixed(name, a) == suffixed(name, b),
    ensures
        a == b,
{
    reveal_strlit(" (");
    reveal_strlit(")");
    let sa = suffixed(name, a);
    let sb = suffixed(name, b);
    let start = name.len() + 2;
    assert(sa.subrange(start as int, sa.len() - 1) =~= decimal(a));
    assert(sb.subrange(start as int, sb.len() - 1) =~= decimal(b));
    lemma_decimal_injective(a, b);
}

/// When `keys` holds `name (1)` to `name (n)`, it has at least `n` elements.
proof fn lemma_taken_suffixes_in_set(keys: Set<Seq<char>>, name: Seq<char>, n: int)
    requires
        0 <= n,
        keys.finite(),
        forall|j: int| 1 <= j <= n ==> keys.contains(#[trigger] suffixed(name, j as nat)),
    ensures
        n <= keys.len(),
{
    let range = set_int_range(1, n + 1);
    lemma_int_range(1, n + 1);
    let f = |j: int| suffixed(name, j as nat);
    assert(injective_on(f, range)) by {
        assert forall|x1: int, x2: int|
            range.contains(x1) && range.contains(x2) && #[trigger] f(x1) == #[trigger] f(x2) implies x1 == x2 by {
            lemma_suffixed_injective(name, x1 as nat, x2 as nat);
        }
    }
    let image = range.map(f);
    lemma_map_size(range, image, f);
    assert(image.subset_of(keys)) by {
        assert forall|k: Seq<char>| image.contains(k) implies keys.contains(k) by {
            let j = choose|j: int| range.contains(j) && f(j) == k;
            assert(keys.contains(suffixed(name, j as nat)));
        }
    }
    lemma_len_subset(image, keys);
}

/// When the keys hold `name (1)` to `name (n)`, there are at least `n` of
/// them.
proof fn lemma_taken_suffixes_bounded(keys: Seq<Seq<char>>, name: Seq<char>, n: int)
    requires
        0 <= n,
        forall|j: int| 1 <= j <= n ==> keys.contains(#[trigger] suffixed(name, j as nat)),
    ensures
        n <= keys.len(),
{
    keys.lemma_cardinality_of_set();
    assert forall|j: int| 1 <= j <= n implies keys.to_set().contains(#[trigger] suffixed(name, j as nat)) by {
        assert(keys.contains(suffixed(name, j as nat)));
    }
    lemma_taken_suffixes_in_set(keys.to_set(), name, n);
}

/// Whether `n` is the first suffix for which `name (n)` is free in `m`.
pub open spec fn is_first_free<A>(m: Map<Seq<char>, A>, name: Seq<char>, n: nat) -> bool {
    &&& n >= 1
    &&& !m.contains_key(suffixed(name, n))
    &&& forall|j: nat| 1 <= j < n ==> m.contains_key(#[trigger] suffixed(name, j))
}

/// The first free suffix for `name` in `m`.
pub open spec fn first_free<A>(m: Map<Seq<char>, A>, name: Seq<char>) -> nat {
    choose|n: nat| is_first_free(m, name, n)
}

proof fn lemma_first_free_unique<A>(m: Map<Seq<char>, A>, name: Seq<char>, n: nat)
    requires
        is_first_free(m, name, n),
    ensures
        first_free(m, name) == n,
{
    let k = first_free(m, name);
    assert(is_first_free(m, name, k));
    if k < n {
        assert(m.contains_key(suffixed(name, k)));
    }
    if n < k {
        assert(m.contains_key(suffixed(name, n)));
    }
}

/// Scanning up from `i`, a first free suffix turns up.
proof fn lemma_first_free_from<A>(m: Map<Seq<char>, A>, name: Seq<char>, i: nat)
    requires
        m.dom().finite(),
        1 <= i <= m.dom().len() + 1,
        forall|j: nat| 1 <= j < i ==> m.contains_key(#[trigger] suffixed(name, j)),
    ensures
        is_first_free(m, name, first_free(m, name)),
    decreases m.dom().len() + 1 - i,
{
    if !m.contains_key(suffixed(name, i)) {
        assert(is_first_free(m, name, i));
        lemma_first_free_unique(m, name, i);
    } else {
        if i == m.dom().len() + 1 {
            assert forall|j: int| 1 <= j <= i implies m.dom().contains(#[trigger] suffixed(name, j as nat)) by {
                if j < i {
                    assert(m.contains_key(suffixed(name, j as nat)));
                }
            }
            lemma_taken_suffixes_in_set(m.dom(), name, i as int);
        } else {
            assert forall|j: nat| 1 <= j < i + 1 implies m.contains_key(#[trigger] suffixed(name, j)) by {
                if j < i {
                    assert(m.contains_key(suffixed(name, j)));
                }
            }
            lemma_first_free_from(m, name, (i + 1) as nat);
        }
    }
}

/// A pending file goes under a key that nothing holds yet: its own name
/// when that is free, else its name with a ` (n)` suffix, `n` at least 1.
pub proof fn law_file_keys_are_fresh<A>(m: Map<Seq<char>, A>, name: Seq<char>)
    requires
        m.dom().finite(),
    ensures
        !m.contains_key(free_key(m, name)),
        free_key(m, name) == name || (first_free(m, name) >= 1 && free_key(m, name) == suffixed(
            name,
            first_free(m, name),
        )),
{
    if m.contains_key(name) {
        lemma_first_free_from(m, name, 1);
    }
}

/// The key a file named `name` gets in `m`: its name while that is free,
/// else its name with the first free suffix.
pub open spec fn free_key<A>(m: Map<Seq<char>, A>, name: Seq<char>) -> Seq<char> {
    if !m.contains_key(name) {
        name
    } else {
        suffixed(name, first_free(m, name))
    }
}

/// The keys of `entries`, in order.
pub open spec fn entry_keys<A>(entries: Seq<(String, A)>) -> Seq<Seq<char>> {
    entries.map_values(|p: (String, A)| p.0@)
}

/// Whether no key occurs twice in `entries`.
pub open spec fn unique_keys<A>(entries: Seq<(String, A)>) -> bool {
    forall|i: int, j: int|
        0 <= i < entries.len() && 0 <= j < entries.len() && #[trigger] entries[i].0@ == #[trigger] entries[j].0@
            ==> i == j
}

/// Whether `entries` has an entry with key `k`.
pub open spec fn has_key<A>(entries: Seq<(String, A)>, k: Seq<char>) -> bool {
    exists|i: int| 0 <= i < entries.len() && #[trigger] entries[i].0@ == k
}

/// The map that `entries` stands for.
pub open spec fn entry_map<A>(entries: Seq<(String, A)>) -> Map<Seq<char>, A> {
    Map::new(
        |k: Seq<char>| has_key(entries, k),
        |k: Seq<char>| entries[choose|i: int| 0 <= i < entries.len() && #[trigger] entries[i].0@ == k].1,
    )
}

/// The value under `entries[i]`'s key is `entries[i]`'s value.
proof fn lemma_entry_value<A>(entries: Seq<(String, A)>, i: int)
    requires
        unique_keys(entries),
        0 <= i < entries.len(),
    ensures
        entry_map(entries).contains_key(entries[i].0@),
        entry_map(entries)[entries[i].0@] == entries[i].1,
{
    let k = entries[i].0@;
    assert(has_key(entries, k));
    let c = choose|c: int| 0 <= c < entries.len() && #[trigger] entries[c].0@ == k;
    assert(entries[c].0@ == entries[i].0@);
}

proof fn lemma_entry_map_push<A>(entries: Seq<(String, A)>, key: String, value: A)
    requires
        unique_keys(entries),
        !has_key(entries, key@),
    ensures
        unique_keys(entries.push((key, value))),
        entry_map(entries.push((key, value))) == entry_map(entries).insert(key@, value),
{
    let e2 = entries.push((key, value));
    assert forall|i: int, j: int|
        0 <= i < e2.len() && 0 <= j < e2.len() && #[trigger] e2[i].0@ == #[trigger] e2[j].0@ implies i == j by {
        if i < entries.len() && j < entries.len() {
            assert(entries[i].0@ == entries[j].0@);
        } else if i < entries.len() {
            assert(entries[i].0@ == key@);
        } else if j < entries.len() {
            assert(entries[j].0@ == key@);
        }
    }
    assert forall|k: Seq<char>| #[trigger] has_key(e2, k) == (has_key(entries, k) || k == key@) by {
        if has_key(entries, k) {
            let i = choose|i: int| 0 <= i < entries.len() && #[trigger] entries[i].0@ == k;
            assert(e2[i].0@ == k);
        }
        if k == key@ {
            assert(e2[entries.len() as int].0@ == k);
        }
        if has_key(e2, k) && k != key@ {
            let i = choose|i: int| 0 <= i < e2.len() && #[trigger] e2[i].0@ == k;
            assert(entries[i].0@ == k);
        }
    }
    assert forall|k: Seq<char>| #[trigger] entry_map(e2).contains_key(k) implies entry_map(e2)[k]
        == entry_map(entries).insert(key@, value)[k] by {
        if k == key@ {
            lemma_entry_value(e2, entries.len() as int);
        } else {
            let i = choose|i: int| 0 <= i < entries.len() && #[trigger] entries[i].0@ == k;
            lemma_entry_value(entries, i);
            assert(e2[i] == entries[i]);
            lemma_entry_value(e2, i);
        }
    }
    assert(entry_map(e2) =~= entry_map(entries).insert(key@, value));
}

proof fn lemma_entry_map_remove<A>(entries: Seq<(String, A)>, i: int)
    requires
        unique_keys(entries),
        0 <= i < entries.len(),
    ensures
        unique_keys(entries.remove(i)),
        entry_map(entries.remove(i)) == entry_map(entries).remove(entries[i].0@),
{
    let e2 = entries.remove(i);
    let key = entries[i].0@;
    assert forall|a: int, b: int|
        0 <= a < e2.len() && 0 <= b < e2.len() && #[trigger] e2[a].0@ == #[trigger] e2[b].0@ implies a == b by {
        let a2 = if a < i { a } else { a + 1 };
        let b2 = if b < i { b } else { b + 1 };
        assert(e2[a] == entries[a2]);
        assert(e2[b] == entries[b2]);
    }
    assert forall|k: Seq<char>| #[trigger] has_key(e2, k) == (has_key(entries, k) && k != key) by {
        if has_key(e2, k) {
            let a = choose|a: int| 0 <= a < e2.len() && #[trigger] e2[a].0@ == k;
            let a2 = if a < i { a } else { a + 1 };
            assert(e2[a] == entries[a2]);
            assert(entries[a2].0@ == k);
            assert(a2 != i);
        }
        if has_key(entries, k) && k != key {
            let a = choose|a: int| 0 <= a < entries.len() && #[trigger] entries[a].0@ == k;
            assert(a != i);
            let a2 = if a < i { a } else { a - 1 };
            assert(e2[a2] == entries[a]);
            assert(e2[a2].0@ == k);
        }
    }
    assert forall|k: Seq<char>| #[trigger] entry_map(e2).contains_key(k) implies entry_map(e2)[k]
        == entry_map(entries).remove(key)[k] by {
        let a = choose|a: int| 0 <= a < e2.len() && #[trigger] e2[a].0@ == k;
        let a2 = if a < i { a } else { a + 1 };
        assert(e2[a] == entries[a2]);
        lemma_entry_value(e2, a);
        lemma_entry_value(entries, a2);
    }
    assert(entry_map(e2) =~= entry_map(entries).remove(key));
}

/// The position of the entry with key `key`, if any.
fn find_key<A>(entries: &Vec<(String, A)>, key: &str) -> (pos: Option<usize>)
    ensures
        match pos {
            Some(i) => i < entries@.len() && entries@[i as int].0@ == key@,
            None => !has_key(entries@, key@),
        },
{
    let mut i: usize = 0;
    while i < entries.len()
        invariant
            i <= entries.len(),
            forall|j: int| 0 <= j < i ==> #[trigger] entries@[j].0@ != key@,
        decreases entries.len() - i,
    {
        if str_eq(entries[i].0.as_str(), key) {
            return Some(i);
        }
        i += 1;
    }
    None
}

/// Puts `value` under `key`, in place of what was there.
fn insert_entry<A>(entries: &mut Vec<(String, A)>, key: String, value: A)
    requires
        unique_keys(old(entries)@),
    ensures
        unique_keys(final(entries)@),
        entry_map(final(entries)@) == entry_map(old(entries)@).insert(key@, value),
{
    match find_key(entries, key.as_str()) {
        Some(i) => {
            let ghost before = entries@;
            entries.remove(i);
            proof {
                lemma_entry_map_remove(before, i as int);
                assert(!has_key(entries@, key@));
            }
            let ghost mid = entries@;
            entries.push((key, value));
            proof {
                lemma_entry_map_push(mid, key, value);
                assert(entry_map(before).remove(key@).insert(key@, value) =~= entry_map(before).insert(
                    key@,
                    value,
                ));
            }
        },
        None => {
            let ghost before = entries@;
            entries.push((key, value));
            proof {
                lemma_entry_map_push(before, key, value);
            }
        },
    }
}

/// `name (n)`.
fn suffixed_name(name: &str, n: u128) -> (key: String)
    ensures
        key@ == suffixed(name@, n as nat),
{
    let mut key = String::from_str(name);
    key.append(" (");
    push_decimal(&mut key, n);
    key.append(")");
    key
}

/// The key for a file named `name` among `entries` (see `free_key`).
fn free_key_for<A>(entries: &Vec<(String, A)>, name: &str) -> (key: String)
    requires
        unique_keys(entries@),
    ensures
        key@ == free_key(entry_map(entries@), name@),
{
    let ghost m = entry_map(entries@);
    if find_key(entries, name).is_none() {
        return String::from_str(name);
    }
    let ghost keys = entry_keys(entries@);
    let len = entries.len();
    let mut n: u128 = 1;
    loop
        invariant
            entries@.len() == len,
            m == entry_map(entries@),
            keys == entry_keys(entries@),
            1 <= n <= entries@.len() + 1,
            forall|j: nat| 1 <= j < n ==> m.contains_key(#[trigger] suffixed(name@, j)),
            m.contains_key(name@),
        decreases entries@.len() + 1 - n,
    {
        let candidate = suffixed_name(name, n);
        match find_key(entries, candidate.as_str()) {
            None => {
                proof {
                    assert(is_first_free(m, name@, n as nat));
                    lemma_first_free_unique(m, name@, n as nat);
                }
                return candidate;
            },
            Some(i) => {
                proof {
                    assert forall|j: int| 1 <= j <= n implies keys.contains(
                        #[trigger] suffixed(name@, j as nat),
                    ) by {
                        let k = suffixed(name@, j as nat);
                        if j < n {
                            assert(m.contains_key(k));
                            assert(has_key(entries@, k));
                            let a = choose|a: int| 0 <= a < entries@.len() && #[trigger] entries@[a].0@ == k;
                            assert(keys[a] == k);
                        } else {
                            assert(keys[i as int] == k);
                        }
                    }
                    lemma_taken_suffixes_bounded(keys, name@, n as int);
                    assert(has_key(entries@, candidate@));
                }
                n = n + 1;
            },
        }
    }
}

/// `m` with each resolved reference of `references` put under its text, in
/// order; references that did not resolve are left out.
pub open spec fn with_references<A>(m: Map<Seq<char>, A>, references: Seq<(String, Option<A>)>) -> Map<
    Seq<char>,
    A,
>
    decreases references.len(),
{
    if references.len() == 0 {
        m
    } else {
        let before = with_references(m, references.drop_last());
        match references.last().1 {
            Some(a) => before.insert(references.last().0@, a),
            None => before,
        }
    }
}

/// `m` with each of `files` put under the key its name gets (see
/// `free_key`), in order.
pub open spec fn with_files<A>(m: Map<Seq<char>, A>, files: Seq<(String, A)>) -> Map<Seq<char>, A>
    decreases files.len(),
{
    if files.len() == 0 {
        m
    } else {
        let before = with_files(m, files.drop_last());
        before.insert(free_key(before, files.last().0@), files.last().1)
    }
}

/// `m` with `document` under its id, when there is one.
pub open spec fn with_document<A>(m: Map<Seq<char>, A>, document: Option<(String, A)>) -> Map<Seq<char>, A> {
    match document {
        Some(d) => m.insert(d.0@, d.1),
        None => m,
    }
}

/// The attachments of a query: each resolved reference under its text
/// (`references` pairs the text of each reference of the query, in order,
/// with what it resolved to), then each pending file under its name or, when
/// that is taken, under its name with the first free ` (n)` suffix, then the
/// pending document under its id. A later entry under a key replaces an
/// earlier one.
pub fn parse_context_attachments<A>(
    references: Vec<(String, Option<A>)>,
    pending_files: Vec<(String, A)>,
    pending_document: Option<(String, A)>,
) -> (attachments: Vec<(String, A)>)
    ensures
        unique_keys(attachments@),
        entry_map(attachments@) == with_document(
            with_files(with_references(Map::empty(), references@), pending_files@),
            pending_document,
        ),
{
    let mut entries: Vec<(String, A)> = Vec::new();
    let ghost all_refs = references@;
    let n_refs = references.len();
    let mut rest = references;
    let mut k: usize = 0;
    proof {
        assert(entry_map(entries@) =~= Map::<Seq<char>, A>::empty());
    }
    while rest.len() > 0
        invariant
            all_refs.len() == n_refs,
            k + rest@.len() == all_refs.len(),
            rest@ == all_refs.subrange(k as int, all_refs.len() as int),
            unique_keys(entries@),
            entry_map(entries@) == with_references(Map::empty(), all_refs.subrange(0, k as int)),
        decreases rest.len(),
    {
        let (text, found) = rest.remove(0);
        proof {
            assert(all_refs.subrange(0, k + 1).drop_last() =~= all_refs.subrange(0, k as int));
            assert(rest@ =~= all_refs.subrange(k + 1, all_refs.len() as int));
        }
        match found {
            Some(a) => insert_entry(&mut entries, text, a),
            None => {},
        }
        k += 1;
    }
    assert(all_refs.subrange(0, k as int) =~= all_refs);
    let ghost all_files = pending_files@;
    let ghost base = entry_map(entries@);
    let n_files = pending_files.len();
    let mut files = pending_files;
    let mut f: usize = 0;
    while files.len() > 0
        invariant
            all_files.len() == n_files,
            f + files@.len() == all_files.len(),
            files@ == all_files.subrange(f as int, all_files.len() as int),
            unique_keys(entries@),
            entry_map(entries@) == with_files(base, all_files.subrange(0, f as int)),
        decreases files.len(),
    {
        let (name, a) = files.remove(0);
        proof {
            assert(all_files.subrange(0, f + 1).drop_last() =~= all_files.subrange(0, f as int));
            assert(files@ =~= all_files.subrange(f + 1, all_files.len() as int));
        }
        let key = free_key_for(&entries, name.as_str());
        insert_entry(&mut entries, key, a);
        f += 1;
    }
    assert(all_files.subrange(0, f as int) =~= all_files);
    match pending_document {
        Some((id, a)) => insert_entry(&mut entries, id, a),
        None => {},
    }
    entries
}

} // verus!
