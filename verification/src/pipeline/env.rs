//! Environment variables as an ordered list of (name, value) pairs with
//! distinct names, and the lookups and updates of a map.
use vstd::prelude::*;
use crate::text::chars_eq;

verus! {

/// An environment: (name, value) pairs.
pub type EnvSeq = Seq<(Seq<char>, Seq<char>)>;

/// The view of an environment.
pub open spec fn env_view(v: Seq<(String, String)>) -> EnvSeq {
    v.map_values(|p: (String, String)| (p.0@, p.1@))
}

/// No name occurs twice.
pub open spec fn names_unique(e: EnvSeq) -> bool {
    forall|i: int, j: int| 0 <= i < e.len() && 0 <= j < e.len() && i != j ==> e[i].0 != e[j].0
}

/// The value of `name`: that of its first pair.
pub open spec fn env_get(e: EnvSeq, name: Seq<char>) -> Option<Seq<char>>
    decreases e.len(),
{
    if e.len() == 0 {
        None
    } else if e[0].0 == name {
        Some(e[0].1)
    } else {
        env_get(e.skip(1), name)
    }
}

/// `name` set to `value` (`HashMap::insert`): the first pair of that name
/// gets the new value, or a new pair goes at the end.
pub open spec fn env_put(e: EnvSeq, name: Seq<char>, value: Seq<char>) -> EnvSeq
    decreases e.len(),
{
    if e.len() == 0 {
        seq![(name, value)]
    } else if e[0].0 == name {
        seq![(name, value)] + e.skip(1)
    } else {
        seq![e[0]] + env_put(e.skip(1), name, value)
    }
}

/// A name occurs in the environment.
pub open spec fn has_name(e: EnvSeq, name: Seq<char>) -> bool {
    exists|i: int| 0 <= i < e.len() && e[i].0 == name
}

proof fn lemma_put_shape(e: EnvSeq, name: Seq<char>, value: Seq<char>)
    ensures
        forall|k: Seq<char>| #[trigger]
            has_name(env_put(e, name, value), k) <==> (k == name || has_name(e, k)),
        names_unique(e) ==> names_unique(env_put(e, name, value)),
    decreases e.len(),
{
    let r = env_put(e, name, value);
    if e.len() == 0 {
        assert forall|k: Seq<char>| has_name(r, k) <==> (k == name || has_name(e, k)) by {
            if k == name {
                assert(r[0].0 == name);
            }
        }
    } else if e[0].0 == name {
        assert forall|k: Seq<char>| has_name(r, k) <==> (k == name || has_name(e, k)) by {
            if has_name(r, k) {
                let i = choose|i: int| 0 <= i < r.len() && r[i].0 == k;
                if i > 0 {
                    assert(e[i].0 == k);
                }
            }
            if k == name {
                assert(r[0].0 == k);
            } else if has_name(e, k) {
                let i = choose|i: int| 0 <= i < e.len() && e[i].0 == k;
                assert(r[i].0 == k);
            }
        }
        if names_unique(e) {
            assert forall|i: int, j: int|
                0 <= i < r.len() && 0 <= j < r.len() && i != j implies r[i].0 != r[j].0 by {
                if i > 0 && j > 0 {
                    assert(r[i] == e[i] && r[j] == e[j]);
                } else if i == 0 {
                    assert(r[j] == e[j]);
                } else {
                    assert(r[i] == e[i]);
                }
            }
        }
    } else {
        let t = e.skip(1);
        lemma_put_shape(t, name, value);
        let rt = env_put(t, name, value);
        assert(r == seq![e[0]] + rt);
        assert forall|k: Seq<char>| has_name(r, k) <==> (k == name || has_name(e, k)) by {
            if has_name(r, k) {
                let i = choose|i: int| 0 <= i < r.len() && r[i].0 == k;
                if i > 0 {
                    assert(rt[i - 1].0 == k);
                    assert(has_name(rt, k));
                    if k != name {
                        assert(has_name(t, k));
                        let j = choose|j: int| 0 <= j < t.len() && t[j].0 == k;
                        assert(e[j + 1].0 == k);
                    }
                } else {
                    assert(e[0].0 == k);
                }
            }
            if k == name || has_name(e, k) {
                if k == e[0].0 {
                    assert(r[0].0 == k);
                } else {
                    if k != name {
                        let i = choose|i: int| 0 <= i < e.len() && e[i].0 == k;
                        assert(t[i - 1].0 == k);
                        assert(has_name(t, k));
                    }
                    assert(has_name(rt, k));
                    let j = choose|j: int| 0 <= j < rt.len() && rt[j].0 == k;
                    assert(r[j + 1].0 == k);
                }
            }
        }
        if names_unique(e) {
            assert(names_unique(t)) by {
                assert forall|i: int, j: int|
                    0 <= i < t.len() && 0 <= j < t.len() && i != j implies t[i].0 != t[j].0 by {
                    assert(t[i] == e[i + 1] && t[j] == e[j + 1]);
                }
            }
            assert(!has_name(t, e[0].0)) by {
                if has_name(t, e[0].0) {
                    let j = choose|j: int| 0 <= j < t.len() && t[j].0 == e[0].0;
                    assert(e[j + 1].0 == e[0].0);
                }
            }
            assert(!has_name(rt, e[0].0));
            assert forall|i: int, j: int|
                0 <= i < r.len() && 0 <= j < r.len() && i != j implies r[i].0 != r[j].0 by {
                if i > 0 && j > 0 {
                    assert(r[i] == rt[i - 1] && r[j] == rt[j - 1]);
                } else if i == 0 {
                    assert(r[j] == rt[j - 1]);
                    if r[j].0 == e[0].0 {
                        assert(has_name(rt, e[0].0));
                    }
                } else {
                    assert(r[i] == rt[i - 1]);
                    if r[i].0 == e[0].0 {
                        assert(has_name(rt, e[0].0));
                    }
                }
            }
        }
    }
}

/// Setting a variable keeps names distinct, a later read of it gives the
/// value written, and the other variables keep their values.
pub proof fn lemma_env_put_get(e: EnvSeq, name: Seq<char>, value: Seq<char>, other: Seq<char>)
    ensures
        env_get(env_put(e, name, value), name) == Some(value),
        other != name ==> env_get(env_put(e, name, value), other) == env_get(e, other),
        names_unique(e) ==> names_unique(env_put(e, name, value)),
    decreases e.len(),
{
    lemma_put_shape(e, name, value);
    let r = env_put(e, name, value);
    if e.len() == 0 {
        assert(r.skip(1) =~= Seq::<(Seq<char>, Seq<char>)>::empty());
        if other != name {
            assert(env_get(r, other) == env_get(r.skip(1), other));
        }
    } else if e[0].0 == name {
        assert(r.skip(1) =~= e.skip(1));
        if other != name {
            assert(env_get(r, other) == env_get(r.skip(1), other));
            assert(env_get(e, other) == env_get(e.skip(1), other));
        }
    } else {
        lemma_env_put_get(e.skip(1), name, value, other);
        assert(r.skip(1) =~= env_put(e.skip(1), name, value));
        assert(r[0] == e[0]);
        if other != e[0].0 {
            assert(env_get(r, other) == env_get(r.skip(1), other));
            assert(env_get(e, other) == env_get(e.skip(1), other));
        }
        assert(env_get(r, name) == env_get(r.skip(1), name));
    }
}

/// The index of the first pair named `name`.
fn index_of_name(env: &Vec<(String, String)>, name: &Vec<char>) -> (r: Option<usize>)
    ensures
        match r {
            Some(i) => i < env@.len() && env_view(env@)[i as int].0 == name@ && forall|j: int|
                0 <= j < i ==> env_view(env@)[j].0 != name@,
            None => forall|j: int| 0 <= j < env@.len() ==> env_view(env@)[j].0 != name@,
        },
{
    let mut i: usize = 0;
    while i < env.len()
        invariant
            i <= env.len(),
            forall|j: int| 0 <= j < i ==> env_view(env@)[j].0 != name@,
        decreases env.len() - i,
    {
        let k = crate::text::chars_of(env[i].0.as_str());
        if chars_eq(&k, name) {
            return Some(i);
        }
        i += 1;
    }
    None
}

proof fn lemma_put_at(e: EnvSeq, name: Seq<char>, value: Seq<char>, i: int)
    requires
        0 <= i < e.len(),
        e[i].0 == name,
        forall|j: int| 0 <= j < i ==> e[j].0 != name,
    ensures
        env_put(e, name, value) == e.update(i, (name, value)),
    decreases i,
{
    if i == 0 {
        assert(seq![(name, value)] + e.skip(1) =~= e.update(0, (name, value)));
    } else {
        lemma_put_at(e.skip(1), name, value, i - 1);
        assert(seq![e[0]] + e.skip(1).update(i - 1, (name, value)) =~= e.update(i, (name, value)));
    }
}

proof fn lemma_put_absent(e: EnvSeq, name: Seq<char>, value: Seq<char>)
    requires
        forall|j: int| 0 <= j < e.len() ==> e[j].0 != name,
    ensures
        env_put(e, name, value) == e.push((name, value)),
    decreases e.len(),
{
    if e.len() > 0 {
        lemma_put_absent(e.skip(1), name, value);
        assert(seq![e[0]] + e.skip(1).push((name, value)) =~= e.push((name, value)));
    }
}

proof fn lemma_get_at(e: EnvSeq, name: Seq<char>, i: int)
    requires
        0 <= i < e.len(),
        e[i].0 == name,
        forall|j: int| 0 <= j < i ==> e[j].0 != name,
    ensures
        env_get(e, name) == Some(e[i].1),
    decreases i,
{
    if i > 0 {
        lemma_get_at(e.skip(1), name, i - 1);
    }
}

proof fn lemma_get_absent(e: EnvSeq, name: Seq<char>)
    requires
        forall|j: int| 0 <= j < e.len() ==> e[j].0 != name,
    ensures
        env_get(e, name) is None,
    decreases e.len(),
{
    if e.len() > 0 {
        lemma_get_absent(e.skip(1), name);
    }
}

/// Set `name` to `value` (`HashMap::insert`).
pub fn env_set(env: &mut Vec<(String, String)>, name: &str, value: &str)
    ensures
        env_view(final(env)@) == env_put(env_view(old(env)@), name@, value@),
{
    let n = crate::text::chars_of(name);
    let ghost before = env_view(env@);
    match index_of_name(env, &n) {
        Some(i) => {
            proof {
                lemma_put_at(before, name@, value@, i as int);
            }
            env[i] = (crate::paths::owned(name), crate::paths::owned(value));
            assert(env_view(env@) =~= before.update(i as int, (name@, value@)));
        },
        None => {
            proof {
                lemma_put_absent(before, name@, value@);
            }
            env.push((crate::paths::owned(name), crate::paths::owned(value)));
            assert(env_view(env@) =~= before.push((name@, value@)));
        },
    }
}

/// The value of `name`, if set.
pub fn env_lookup(env: &Vec<(String, String)>, name: &str) -> (r: Option<String>)
    ensures
        match r {
            Some(v) => env_get(env_view(env@), name@) == Some(v@),
            None => env_get(env_view(env@), name@) is None,
        },
{
    let n = crate::text::chars_of(name);
    match index_of_name(env, &n) {
        Some(i) => {
            proof {
                lemma_get_at(env_view(env@), name@, i as int);
            }
            Some(env[i].1.clone())
        },
        None => {
            proof {
                lemma_get_absent(env_view(env@), name@);
            }
            None
        },
    }
}

} // verus!
