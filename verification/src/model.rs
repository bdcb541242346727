use vstd::prelude::*;

verus! {

/// The abstract state of an environment: the command-line arguments,
/// the environment variables as an ordered list of key-value pairs, and
/// the current directory.
pub struct EnvModel {
    pub args: Seq<Seq<char>>,
    pub vars: Seq<(Seq<char>, Seq<char>)>,
    pub current_dir: Seq<char>,
}

/// The environment with no arguments, no variables and an empty current
/// directory.
pub open spec fn empty_env_model() -> EnvModel {
    EnvModel { args: Seq::empty(), vars: Seq::empty(), current_dir: Seq::empty() }
}

/// The contents of a list of strings.
pub open spec fn strings_view(s: Seq<String>) -> Seq<Seq<char>> {
    s.map_values(|x: String| x@)
}

/// The contents of a list of string pairs.
pub open spec fn pairs_view(s: Seq<(String, String)>) -> Seq<(Seq<char>, Seq<char>)> {
    s.map_values(|p: (String, String)| (p.0@, p.1@))
}

/// The contents of a list of string slices.
pub open spec fn strs_view(s: Seq<&str>) -> Seq<Seq<char>> {
    s.map_values(|x: &str| x@)
}

/// The contents of a list of pairs of string slices.
pub open spec fn str_pairs_view(s: Seq<(&str, &str)>) -> Seq<(Seq<char>, Seq<char>)> {
    s.map_values(|p: (&str, &str)| (p.0@, p.1@))
}

/// `i` is the position of the first entry of `vars` whose key is `key`.
pub open spec fn is_first_index(vars: Seq<(Seq<char>, Seq<char>)>, key: Seq<char>, i: int) -> bool {
    &&& 0 <= i < vars.len()
    &&& vars[i].0 == key
    &&& forall|j: int| 0 <= j < i ==> vars[j].0 != key
}

/// Some entry of `vars` has the key `key`.
pub open spec fn has_key(vars: Seq<(Seq<char>, Seq<char>)>, key: Seq<char>) -> bool {
    exists|i: int| 0 <= i < vars.len() && vars[i].0 == key
}

/// The position of the first entry with key `key`, or -1 when there is none.
pub open spec fn key_index(vars: Seq<(Seq<char>, Seq<char>)>, key: Seq<char>) -> int {
    if exists|i: int| is_first_index(vars, key, i) {
        choose|i: int| is_first_index(vars, key, i)
    } else {
        -1
    }
}

/// The value of the first entry with key `key`, if any.
pub open spec fn lookup(vars: Seq<(Seq<char>, Seq<char>)>, key: Seq<char>) -> Option<Seq<char>> {
    let i = key_index(vars, key);
    if i >= 0 {
        Some(vars[i].1)
    } else {
        None
    }
}

/// The variables after setting `key` to `value`: the first entry with that
/// key takes the new value in place, or a new entry is appended.
pub open spec fn set_entry(
    vars: Seq<(Seq<char>, Seq<char>)>,
    key: Seq<char>,
    value: Seq<char>,
) -> Seq<(Seq<char>, Seq<char>)> {
    let i = key_index(vars, key);
    if i >= 0 {
        vars.update(i, (key, value))
    } else {
        vars.push((key, value))
    }
}

/// The variables after removing the first entry with key `key`, if any.
pub open spec fn remove_entry(vars: Seq<(Seq<char>, Seq<char>)>, key: Seq<char>) -> Seq<
    (Seq<char>, Seq<char>),
> {
    let i = key_index(vars, key);
    if i >= 0 {
        vars.remove(i)
    } else {
        vars
    }
}

/// No two entries share a key.
pub open spec fn keys_unique(vars: Seq<(Seq<char>, Seq<char>)>) -> bool {
    forall|i: int, j: int| 0 <= i < j < vars.len() ==> vars[i].0 != vars[j].0
}

/// The view of an optional owned string.
pub open spec fn opt_string_view(o: Option<String>) -> Option<Seq<char>> {
    match o {
        Some(s) => Some(s@),
        None => None,
    }
}

/// The view of an optional borrowed string.
pub open spec fn opt_str_view(o: Option<&str>) -> Option<Seq<char>> {
    match o {
        Some(s) => Some(s@),
        None => None,
    }
}

/// Two positions that are both the first one of a key are equal.
pub proof fn lemma_first_index_unique(
    vars: Seq<(Seq<char>, Seq<char>)>,
    key: Seq<char>,
    i: int,
    j: int,
)
    requires
        is_first_index(vars, key, i),
        is_first_index(vars, key, j),
    ensures
        i == j,
{
    if i < j {
        assert(vars[i].0 != key);
    } else if j < i {
        assert(vars[j].0 != key);
    }
}

/// A found first position is the one that `key_index` names.
pub proof fn lemma_key_index_is(vars: Seq<(Seq<char>, Seq<char>)>, key: Seq<char>, i: int)
    requires
        is_first_index(vars, key, i),
    ensures
        key_index(vars, key) == i,
{
    let c = choose|k: int| is_first_index(vars, key, k);
    lemma_first_index_unique(vars, key, i, c);
}

/// A key that occurs has a first position.
pub proof fn lemma_first_index_exists(vars: Seq<(Seq<char>, Seq<char>)>, key: Seq<char>, i: int)
    requires
        0 <= i < vars.len(),
        vars[i].0 == key,
    ensures
        exists|k: int| is_first_index(vars, key, k),
    decreases i,
{
    if exists|j: int| 0 <= j < i && vars[j].0 == key {
        let j = choose|j: int| 0 <= j < i && vars[j].0 == key;
        lemma_first_index_exists(vars, key, j);
    } else {
        assert(is_first_index(vars, key, i));
    }
}

/// `key_index` is -1 exactly when the key does not occur, and otherwise
/// the first position of the key.
pub proof fn lemma_key_index(vars: Seq<(Seq<char>, Seq<char>)>, key: Seq<char>)
    ensures
        key_index(vars, key) == -1 <==> !has_key(vars, key),
        key_index(vars, key) != -1 ==> is_first_index(vars, key, key_index(vars, key)),
{
    if has_key(vars, key) {
        let i = choose|i: int| 0 <= i < vars.len() && vars[i].0 == key;
        lemma_first_index_exists(vars, key, i);
    }
}

/// Reading a variable right after setting it gives back the value that was
/// set.
pub proof fn law_set_then_lookup(
    vars: Seq<(Seq<char>, Seq<char>)>,
    key: Seq<char>,
    value: Seq<char>,
)
    ensures
        lookup(set_entry(vars, key, value), key) == Some(value),
{
    lemma_key_index(vars, key);
    let i = key_index(vars, key);
    let after = set_entry(vars, key, value);
    if i >= 0 {
        assert(is_first_index(after, key, i));
        lemma_key_index_is(after, key, i);
    } else {
        assert(is_first_index(after, key, vars.len() as int));
        lemma_key_index_is(after, key, vars.len() as int);
    }
}

/// Setting a variable leaves the value read for every other key unchanged.
pub proof fn law_set_keeps_other_keys(
    vars: Seq<(Seq<char>, Seq<char>)>,
    key: Seq<char>,
    value: Seq<char>,
    other: Seq<char>,
)
    requires
        other != key,
    ensures
        lookup(set_entry(vars, key, value), other) == lookup(vars, other),
{
    lemma_key_index(vars, key);
    lemma_key_index(vars, other);
    let after = set_entry(vars, key, value);
    if has_key(vars, other) {
        let o = key_index(vars, other);
        assert(is_first_index(after, other, o));
        lemma_key_index_is(after, other, o);
    } else {
        lemma_key_index(after, other);
        if has_key(after, other) {
            let j = choose|j: int| 0 <= j < after.len() && after[j].0 == other;
            assert(vars[j].0 == other);
        }
    }
}

/// Removing a variable leaves the value read for every other key
/// unchanged.
pub proof fn law_remove_keeps_other_keys(
    vars: Seq<(Seq<char>, Seq<char>)>,
    key: Seq<char>,
    other: Seq<char>,
)
    requires
        other != key,
    ensures
        lookup(remove_entry(vars, key), other) == lookup(vars, other),
{
    lemma_key_index(vars, key);
    lemma_key_index(vars, other);
    let i = key_index(vars, key);
    let after = remove_entry(vars, key);
    if i >= 0 {
        if has_key(vars, other) {
            let o = key_index(vars, other);
            if o < i {
                assert(is_first_index(after, other, o));
                lemma_key_index_is(after, other, o);
                assert(after[o] == vars[o]);
            } else {
                assert(o != i);
                assert(is_first_index(after, other, o - 1));
                lemma_key_index_is(after, other, o - 1);
                assert(after[o - 1] == vars[o]);
            }
        } else {
            lemma_key_index(after, other);
            if has_key(after, other) {
                let j = choose|j: int| 0 <= j < after.len() && after[j].0 == other;
                if j < i {
                    assert(vars[j].0 == other);
                } else {
                    assert(vars[j + 1].0 == other);
                }
            }
        }
    }
}

/// Removing a variable that was just set under a fresh key gives back the
/// original variables.
pub proof fn law_remove_undoes_fresh_set(
    vars: Seq<(Seq<char>, Seq<char>)>,
    key: Seq<char>,
    value: Seq<char>,
)
    requires
        lookup(vars, key) is None,
    ensures
        remove_entry(set_entry(vars, key, value), key) == vars,
{
    lemma_key_index(vars, key);
    let after = set_entry(vars, key, value);
    assert(after == vars.push((key, value)));
    assert(is_first_index(after, key, vars.len() as int));
    lemma_key_index_is(after, key, vars.len() as int);
    assert(after.remove(vars.len() as int) =~= vars);
}

/// Setting a variable twice is the same as setting it once to the second
/// value.
pub proof fn law_set_twice(
    vars: Seq<(Seq<char>, Seq<char>)>,
    key: Seq<char>,
    first: Seq<char>,
    second: Seq<char>,
)
    ensures
        set_entry(set_entry(vars, key, first), key, second) == set_entry(vars, key, second),
{
    lemma_key_index(vars, key);
    let i = key_index(vars, key);
    let once = set_entry(vars, key, first);
    if i >= 0 {
        assert(is_first_index(once, key, i));
        lemma_key_index_is(once, key, i);
        assert(once.update(i, (key, second)) =~= vars.update(i, (key, second)));
    } else {
        assert(is_first_index(once, key, vars.len() as int));
        lemma_key_index_is(once, key, vars.len() as int);
        assert(once.update(vars.len() as int, (key, second)) =~= vars.push((key, second)));
    }
}

/// Setting a variable keeps the keys distinct.
pub proof fn law_set_keeps_keys_unique(
    vars: Seq<(Seq<char>, Seq<char>)>,
    key: Seq<char>,
    value: Seq<char>,
)
    requires
        keys_unique(vars),
    ensures
        keys_unique(set_entry(vars, key, value)),
{
    lemma_key_index(vars, key);
    let after = set_entry(vars, key, value);
    assert forall|i: int, j: int| 0 <= i < j < after.len() implies after[i].0 != after[j].0 by {
        if key_index(vars, key) >= 0 {
            let p = key_index(vars, key);
            if i == p {
                assert(vars[j].0 != vars[p].0);
            } else if j == p {
                assert(vars[i].0 != vars[p].0);
            } else {
                assert(vars[i].0 != vars[j].0);
            }
        } else {
            if j == vars.len() {
                assert(vars[i].0 != key);
            } else {
                assert(vars[i].0 != vars[j].0);
            }
        }
    }
}

/// Removing a variable keeps the keys distinct.
pub proof fn law_remove_keeps_keys_unique(vars: Seq<(Seq<char>, Seq<char>)>, key: Seq<char>)
    requires
        keys_unique(vars),
    ensures
        keys_unique(remove_entry(vars, key)),
{
    lemma_key_index(vars, key);
    let after = remove_entry(vars, key);
    if key_index(vars, key) >= 0 {
        let p = key_index(vars, key);
        assert forall|i: int, j: int| 0 <= i < j < after.len() implies after[i].0 != after[j].0 by {
            let vi = if i < p { i } else { i + 1 };
            let vj = if j < p { j } else { j + 1 };
            assert(after[i] == vars[vi]);
            assert(after[j] == vars[vj]);
            assert(vars[vi].0 != vars[vj].0);
        }
    }
}

/// Where keys are distinct, a removed variable can no longer be read.
pub proof fn law_remove_then_lookup(vars: Seq<(Seq<char>, Seq<char>)>, key: Seq<char>)
    requires
        keys_unique(vars),
    ensures
        lookup(remove_entry(vars, key), key) is None,
{
    lemma_key_index(vars, key);
    let after = remove_entry(vars, key);
    lemma_key_index(after, key);
    if has_key(after, key) {
        let p = key_index(vars, key);
        let j = choose|j: int| 0 <= j < after.len() && after[j].0 == key;
        if p >= 0 {
            if j < p {
                assert(vars[j].0 == key);
            } else {
                assert(vars[j + 1].0 == key);
                assert(vars[p].0 != vars[j + 1].0);
            }
        } else {
            assert(vars[j].0 == key);
        }
    }
}

/// Reading a variable gives the value stored in the first entry with that
/// key, unchanged.
pub proof fn law_lookup_is_stored_value(
    vars: Seq<(Seq<char>, Seq<char>)>,
    key: Seq<char>,
    i: int,
)
    requires
        0 <= i < vars.len(),
        vars[i].0 == key,
        forall|j: int| 0 <= j < i ==> vars[j].0 != key,
    ensures
        lookup(vars, key) == Some(vars[i].1),
{
    lemma_key_index_is(vars, key, i);
}

/// Reading a variable whose key occurs in no entry gives nothing.
pub proof fn law_lookup_absent(vars: Seq<(Seq<char>, Seq<char>)>, key: Seq<char>)
    requires
        forall|j: int| 0 <= j < vars.len() ==> vars[j].0 != key,
    ensures
        lookup(vars, key) is None,
{
    lemma_key_index(vars, key);
}

/// Setting a variable whose key occurs replaces the first entry with that
/// key by the key and the given value, unchanged, and leaves every other
/// entry where it was.
pub proof fn law_set_replaces_first_entry(
    vars: Seq<(Seq<char>, Seq<char>)>,
    key: Seq<char>,
    value: Seq<char>,
    i: int,
)
    requires
        0 <= i < vars.len(),
        vars[i].0 == key,
        forall|j: int| 0 <= j < i ==> vars[j].0 != key,
    ensures
        set_entry(vars, key, value).len() == vars.len(),
        set_entry(vars, key, value)[i] == (key, value),
        forall|j: int|
            0 <= j < vars.len() && j != i ==> #[trigger] set_entry(vars, key, value)[j] == vars[j],
{
    lemma_key_index_is(vars, key, i);
}

/// Setting a variable whose key occurs in no entry appends the key and the
/// given value, unchanged, after all other entries.
pub proof fn law_set_appends_new_entry(
    vars: Seq<(Seq<char>, Seq<char>)>,
    key: Seq<char>,
    value: Seq<char>,
)
    requires
        forall|j: int| 0 <= j < vars.len() ==> vars[j].0 != key,
    ensures
        set_entry(vars, key, value).len() == vars.len() + 1,
        set_entry(vars, key, value)[vars.len() as int] == (key, value),
        forall|j: int| 0 <= j < vars.len() ==> #[trigger] set_entry(vars, key, value)[j] == vars[j],
{
    lemma_key_index(vars, key);
}

/// Removing a variable whose key occurs drops the first entry with that
/// key and keeps all other entries in order.
pub proof fn law_remove_drops_first_entry(
    vars: Seq<(Seq<char>, Seq<char>)>,
    key: Seq<char>,
    i: int,
)
    requires
        0 <= i < vars.len(),
        vars[i].0 == key,
        forall|j: int| 0 <= j < i ==> vars[j].0 != key,
    ensures
        remove_entry(vars, key).len() == vars.len() - 1,
        forall|j: int| 0 <= j < i ==> #[trigger] remove_entry(vars, key)[j] == vars[j],
        forall|j: int| i < j < vars.len() ==> remove_entry(vars, key)[j - 1] == #[trigger] vars[j],
{
    lemma_key_index_is(vars, key, i);
}

/// Removing a variable whose key occurs in no entry changes nothing.
pub proof fn law_remove_absent(vars: Seq<(Seq<char>, Seq<char>)>, key: Seq<char>)
    requires
        forall|j: int| 0 <= j < vars.len() ==> vars[j].0 != key,
    ensures
        remove_entry(vars, key) == vars,
{
    lemma_key_index(vars, key);
}

/// The contents of a list of string slices are the contents of each slice,
/// all of them and in order.
pub proof fn law_strs_view_elementwise(s: Seq<&str>)
    ensures
        strs_view(s).len() == s.len(),
        forall|i: int| 0 <= i < s.len() ==> #[trigger] strs_view(s)[i] == s[i]@,
{
}

/// The contents of a list of pairs of string slices are the contents of
/// each pair, all of them and in order.
pub proof fn law_str_pairs_view_elementwise(s: Seq<(&str, &str)>)
    ensures
        str_pairs_view(s).len() == s.len(),
        forall|i: int| 0 <= i < s.len() ==> #[trigger] str_pairs_view(s)[i] == (s[i].0@, s[i].1@),
{
}

/// The contents of a list of strings are the contents of each string, all
/// of them and in order.
pub proof fn law_strings_view_elementwise(s: Seq<String>)
    ensures
        strings_view(s).len() == s.len(),
        forall|i: int| 0 <= i < s.len() ==> #[trigger] strings_view(s)[i] == s[i]@,
{
}

/// The contents of a list of string pairs are the contents of each pair,
/// all of them and in order.
pub proof fn law_pairs_view_elementwise(s: Seq<(String, String)>)
    ensures
        pairs_view(s).len() == s.len(),
        forall|i: int| 0 <= i < s.len() ==> #[trigger] pairs_view(s)[i] == (s[i].0@, s[i].1@),
{
}

} // verus!
