//! Orders named node descriptions so that each comes after every node it
//! refers to, or reports why no such order exists.
use vstd::prelude::*;
use crate::config::TaskConfig;
use crate::float::Float;

verus! {

/// Why a set of descriptions cannot be ordered.
#[derive(Debug)]
pub enum GraphError {
    /// A description refers to a name that no description has.
    UnknownTask(String),
    /// The references form a cycle.
    CycleDetected,
}

/// The names of the descriptions, in input order.
pub open spec fn config_keys<T: Float>(tasks: Seq<(String, TaskConfig<T>)>) -> Seq<Seq<char>> {
    Seq::new(tasks.len(), |i: int| tasks[i].0@)
}

/// The names each description refers to, in input order.
pub open spec fn config_deps<T: Float>(tasks: Seq<(String, TaskConfig<T>)>) -> Seq<
    Seq<Seq<char>>,
> {
    Seq::new(tasks.len(), |i: int| tasks[i].1.deps())
}

/// Every name referred to is the name of a description.
pub open spec fn deps_known(keys: Seq<Seq<char>>, deps: Seq<Seq<Seq<char>>>) -> bool {
    forall|i: int, j: int|
        0 <= i < deps.len() && 0 <= j < deps[i].len() ==> keys.contains(#[trigger] deps[i][j])
}

/// `ord` lists every name exactly once, and each name comes after all the
/// names its description refers to.
pub open spec fn valid_order(
    keys: Seq<Seq<char>>,
    deps: Seq<Seq<Seq<char>>>,
    ord: Seq<Seq<char>>,
) -> bool {
    &&& ord.len() == keys.len()
    &&& ord.no_duplicates()
    &&& forall|i: int| 0 <= i < keys.len() ==> ord.contains(#[trigger] keys[i])
    &&& forall|k: int| 0 <= k < ord.len() ==> keys.contains(#[trigger] ord[k])
    &&& forall|k: int, i: int, j: int|
        0 <= k < ord.len() && 0 <= i < keys.len() && keys[i] == ord[k] && 0 <= j
            < deps[i].len() ==> #[trigger] ord.subrange(0, k).contains(#[trigger] deps[i][j])
}

/// Number of entries of `s` that are false.
pub open spec fn count_false(s: Seq<bool>) -> nat
    decreases s.len(),
{
    if s.len() == 0 {
        0
    } else {
        count_false(s.drop_last()) + if s.last() {
            0nat
        } else {
            1nat
        }
    }
}

proof fn lemma_count_false_set(s: Seq<bool>, i: int)
    requires
        0 <= i < s.len(),
        !s[i],
    ensures
        count_false(s.update(i, true)) + 1 == count_false(s),
    decreases s.len(),
{
    if i == s.len() - 1 {
        assert(s.update(i, true).drop_last() =~= s.drop_last());
    } else {
        assert(s.update(i, true).drop_last() =~= s.drop_last().update(i, true));
        lemma_count_false_set(s.drop_last(), i);
    }
}

/// A position `k ≥ 0` with `p(k)` has a least such position.
proof fn lemma_least(p: spec_fn(int) -> bool, k: int) -> (m: int)
    requires
        0 <= k,
        p(k),
    ensures
        0 <= m <= k,
        p(m),
        forall|m2: int| 0 <= m2 < m ==> !#[trigger] p(m2),
    decreases k,
{
    if exists|m2: int| 0 <= m2 < k && #[trigger] p(m2) {
        let m2 = choose|m2: int| 0 <= m2 < k && #[trigger] p(m2);
        lemma_least(p, m2)
    } else {
        k
    }
}

/// When some nodes remain and each of them refers to another remaining
/// node, no valid order exists.
proof fn lemma_stuck_no_order(
    keys: Seq<Seq<char>>,
    deps: Seq<Seq<Seq<char>>>,
    dep_idx: Seq<Seq<int>>,
    done: Seq<bool>,
    i0: int,
    ord: Seq<Seq<char>>,
)
    requires
        keys.no_duplicates(),
        deps.len() == keys.len(),
        dep_idx.len() == keys.len(),
        done.len() == keys.len(),
        forall|i: int|
            0 <= i < keys.len() ==> (#[trigger] dep_idx[i]).len() == deps[i].len(),
        forall|i: int, j: int|
            0 <= i < keys.len() && 0 <= j < deps[i].len() ==> 0 <= #[trigger] dep_idx[i][j]
                < keys.len() && keys[dep_idx[i][j]] == deps[i][j],
        0 <= i0 < keys.len(),
        !done[i0],
        forall|i: int|
            0 <= i < keys.len() && !done[i] ==> exists|j: int|
                0 <= j < deps[i].len() && !done[#[trigger] dep_idx[i][j]],
    ensures
        !valid_order(keys, deps, ord),
{
    if valid_order(keys, deps, ord) {
        let p = |k: int| 0 <= k < ord.len() && exists|i: int| 0 <= i < keys.len() && !done[i] && keys[i] == ord[k];
        assert(ord.contains(keys[i0]));
        let k0 = choose|k: int| 0 <= k < ord.len() && ord[k] == keys[i0];
        assert(p(k0));
        let m = lemma_least(p, k0);
        let i1 = choose|i: int| 0 <= i < keys.len() && !done[i] && keys[i] == ord[m];
        let j = choose|j: int| 0 <= j < deps[i1].len() && !done[#[trigger] dep_idx[i1][j]];
        let t = dep_idx[i1][j];
        assert(ord.subrange(0, m).contains(deps[i1][j]));
        let k1 = choose|k1: int| 0 <= k1 < m && ord.subrange(0, m)[k1] == deps[i1][j];
        assert(ord[k1] == keys[t]);
        assert(p(k1));
    }
}

proof fn lemma_count_false_all_true(s: Seq<bool>)
    requires
        forall|i: int| 0 <= i < s.len() ==> s[i],
    ensures
        count_false(s) == 0,
    decreases s.len(),
{
    if s.len() > 0 {
        lemma_count_false_all_true(s.drop_last());
    }
}

/// The state of the ordering loop: `out_idx` lists placed nodes, `pos`
/// gives each placed node's position in it, and every placed node comes
/// after the nodes it refers to.
pub open spec fn placed_ok(
    n: int,
    deps: Seq<Seq<Seq<char>>>,
    di: Seq<Seq<int>>,
    done: Seq<bool>,
    out_idx: Seq<int>,
    pos: Seq<int>,
) -> bool {
    &&& done.len() == n
    &&& pos.len() == n
    &&& forall|k: int| 0 <= k < out_idx.len() ==> 0 <= #[trigger] out_idx[k] < n
    &&& forall|k: int| 0 <= k < out_idx.len() ==> done[#[trigger] out_idx[k]]
    &&& forall|k: int| 0 <= k < out_idx.len() ==> pos[#[trigger] out_idx[k]] == k
    &&& forall|c: int|
        0 <= c < n && #[trigger] done[c] ==> 0 <= pos[c] < out_idx.len() && out_idx[pos[c]] == c
    &&& forall|k: int, b: int|
        0 <= k < out_idx.len() && 0 <= b < deps[out_idx[k]].len() ==> done[#[trigger] di[out_idx[k]][b]]
            && pos[di[out_idx[k]][b]] < k
}

/// Placing a node whose references are all placed keeps the loop state.
proof fn lemma_push_step(
    n: int,
    deps: Seq<Seq<Seq<char>>>,
    di: Seq<Seq<int>>,
    done: Seq<bool>,
    out_idx: Seq<int>,
    pos: Seq<int>,
    p: int,
)
    requires
        di.len() == n,
        deps.len() == n,
        forall|c: int| 0 <= c < n ==> (#[trigger] di[c]).len() == deps[c].len(),
        forall|c: int, b: int| 0 <= c < n && 0 <= b < deps[c].len() ==> 0 <= #[trigger] di[c][b] < n,
        placed_ok(n, deps, di, done, out_idx, pos),
        0 <= p < n,
        !done[p],
        forall|b: int| 0 <= b < deps[p].len() ==> done[#[trigger] di[p][b]],
    ensures
        placed_ok(
            n,
            deps,
            di,
            done.update(p, true),
            out_idx.push(p),
            pos.update(p, out_idx.len() as int),
        ),
{
    let d2 = done.update(p, true);
    let o2 = out_idx.push(p);
    let p2 = pos.update(p, out_idx.len() as int);
    assert forall|k: int| 0 <= k < o2.len() implies p2[#[trigger] o2[k]] == k by {
        if k < out_idx.len() {
            assert(o2[k] == out_idx[k]);
            assert(done[out_idx[k]]);
        }
    }
    assert forall|k: int| 0 <= k < o2.len() implies d2[#[trigger] o2[k]] by {
        if k < out_idx.len() {
            assert(o2[k] == out_idx[k]);
        }
    }
    assert forall|k: int, b: int|
        0 <= k < o2.len() && 0 <= b < deps[o2[k]].len() implies d2[#[trigger] di[o2[k]][b]] && p2[
            di[o2[k]][b]] < k by {
        let t = di[o2[k]][b];
        if k < out_idx.len() {
            assert(o2[k] == out_idx[k]);
            assert(pos[di[out_idx[k]][b]] < k);
            assert(done[out_idx[k]]);
            assert(done[t]);
        } else {
            assert(o2[k] == p);
            assert(done[t]);
        }
    }
    assert forall|c: int| 0 <= c < n && #[trigger] d2[c] implies 0 <= p2[c] < o2.len() && o2[p2[c]]
        == c by {
        if c != p {
            assert(done[c]);
        }
    }
}

/// A full output of the ordering loop spells a valid order.
proof fn lemma_output_valid(
    keys: Seq<Seq<char>>,
    deps: Seq<Seq<Seq<char>>>,
    di: Seq<Seq<int>>,
    done: Seq<bool>,
    out_idx: Seq<int>,
    pos: Seq<int>,
    ord: Seq<Seq<char>>,
)
    requires
        keys.no_duplicates(),
        deps.len() == keys.len(),
        di.len() == keys.len(),
        forall|c: int| 0 <= c < keys.len() ==> (#[trigger] di[c]).len() == deps[c].len(),
        forall|c: int, b: int|
            0 <= c < keys.len() && 0 <= b < deps[c].len() ==> 0 <= #[trigger] di[c][b]
                < keys.len() && keys[di[c][b]] == deps[c][b],
        placed_ok(keys.len() as int, deps, di, done, out_idx, pos),
        forall|c: int| 0 <= c < keys.len() ==> #[trigger] done[c],
        out_idx.len() == keys.len(),
        ord.len() == out_idx.len(),
        forall|k: int| 0 <= k < ord.len() ==> #[trigger] ord[k] == keys[out_idx[k]],
    ensures
        valid_order(keys, deps, ord),
{
    assert forall|k1: int, k2: int|
        0 <= k1 < ord.len() && 0 <= k2 < ord.len() && k1 != k2 implies ord[k1] != ord[k2] by {
        assert(ord[k1] == keys[out_idx[k1]]);
        assert(ord[k2] == keys[out_idx[k2]]);
        assert(pos[out_idx[k1]] == k1);
        assert(pos[out_idx[k2]] == k2);
    }
    assert forall|c: int| 0 <= c < keys.len() implies ord.contains(#[trigger] keys[c]) by {
        assert(done[c]);
        assert(out_idx[pos[c]] == c);
        assert(ord[pos[c]] == keys[c]);
    }
    assert forall|k: int| 0 <= k < ord.len() implies keys.contains(#[trigger] ord[k]) by {
        assert(ord[k] == keys[out_idx[k]]);
    }
    assert forall|k: int, c: int, j: int|
        0 <= k < ord.len() && 0 <= c < keys.len() && keys[c] == ord[k] && 0 <= j
            < deps[c].len() implies #[trigger] ord.subrange(0, k).contains(#[trigger] deps[c][j]) by {
        assert(ord[k] == keys[out_idx[k]]);
        assert(c == out_idx[k]);
        let t = di[out_idx[k]][j];
        assert(pos[t] < k);
        assert(done[t]);
        assert(out_idx[pos[t]] == t);
        assert(ord[pos[t]] == keys[t]);
        assert(ord.subrange(0, k)[pos[t]] == keys[t]);
    }
}

/// A node not yet placed whose references are all placed, if any; and
/// whether any node is not yet placed.
fn find_ready(done: &Vec<bool>, dep_idx: &Vec<Vec<usize>>) -> (r: (Option<usize>, bool))
    requires
        done.len() == dep_idx.len(),
        forall|c: int, b: int|
            0 <= c < dep_idx.len() && 0 <= b < dep_idx[c]@.len() ==> #[trigger] dep_idx[c]@[b]
                < done.len(),
    ensures
        match r.0 {
            Some(q) => q < done.len() && !done@[q as int] && forall|b: int|
                0 <= b < dep_idx[q as int]@.len() ==> done@[#[trigger] dep_idx[q as int]@[b] as int],
            None => (r.1 <==> exists|c: int| 0 <= c < done.len() && !done@[c]) && forall|c: int|
                0 <= c < done.len() && !done@[c] ==> exists|b: int|
                    0 <= b < dep_idx[c]@.len() && !done@[#[trigger] dep_idx[c]@[b] as int],
        },
{
    let n = done.len();
    let mut any_left = false;
    let mut a: usize = 0;
    while a < n
        invariant
            n == done.len(),
            done.len() == dep_idx.len(),
            forall|c: int, b: int|
                0 <= c < dep_idx.len() && 0 <= b < dep_idx[c]@.len() ==> #[trigger] dep_idx[c]@[b]
                    < done.len(),
            a <= n,
            any_left <==> exists|c: int| 0 <= c < a && !done@[c],
            forall|c: int|
                0 <= c < a && !done@[c] ==> exists|b: int|
                    0 <= b < dep_idx[c]@.len() && !done@[#[trigger] dep_idx[c]@[b] as int],
        decreases n - a,
    {
        if !done[a] {
            any_left = true;
            let deps_a = &dep_idx[a];
            let mut ready = true;
            let mut b: usize = 0;
            while b < deps_a.len()
                invariant
                    n == done.len(),
                    a < n,
                    *deps_a == dep_idx[a as int],
                    forall|c: int| 0 <= c < deps_a@.len() ==> #[trigger] deps_a@[c] < n,
                    b <= deps_a.len(),
                    ready <==> forall|c: int| 0 <= c < b ==> done@[#[trigger] deps_a@[c] as int],
                decreases deps_a.len() - b,
            {
                if !done[deps_a[b]] {
                    ready = false;
                }
                b = b + 1;
            }
            if ready {
                return (Some(a), true);
            }
        }
        a = a + 1;
    }
    (None, any_left)
}

/// The index lists of `v`, as sequences.
pub open spec fn dv_of(v: Seq<Vec<usize>>) -> Seq<Seq<usize>> {
    v.map_values(|x: Vec<usize>| x@)
}

/// `di` and `dv` hold the same reference indices, each naming the
/// description that the reference's name belongs to.
pub open spec fn refs_resolved(
    keys: Seq<Seq<char>>,
    deps: Seq<Seq<Seq<char>>>,
    di: Seq<Seq<int>>,
    dv: Seq<Seq<usize>>,
) -> bool {
    &&& deps.len() == keys.len()
    &&& di.len() == keys.len()
    &&& dv.len() == keys.len()
    &&& forall|c: int| 0 <= c < keys.len() ==> (#[trigger] di[c]).len() == deps[c].len()
    &&& forall|c: int| 0 <= c < keys.len() ==> (#[trigger] dv[c]).len() == deps[c].len()
    &&& forall|c: int, b: int|
        0 <= c < keys.len() && 0 <= b < deps[c].len() ==> #[trigger] di[c][b] == dv[c][b] as int
            && 0 <= di[c][b] < keys.len() && keys[di[c][b]] == deps[c][b]
}

/// When nodes remain and none of them is ready, no valid order exists.
proof fn lemma_stuck(
    keys: Seq<Seq<char>>,
    deps: Seq<Seq<Seq<char>>>,
    di: Seq<Seq<int>>,
    dv: Seq<Seq<usize>>,
    done: Seq<bool>,
)
    requires
        keys.no_duplicates(),
        refs_resolved(keys, deps, di, dv),
        done.len() == keys.len(),
        exists|c: int| 0 <= c < done.len() && !done[c],
        forall|c: int|
            0 <= c < done.len() && !done[c] ==> exists|b: int|
                0 <= b < dv[c].len() && !done[#[trigger] dv[c][b] as int],
    ensures
        forall|ord: Seq<Seq<char>>| !valid_order(keys, deps, ord),
{
    let i0 = choose|c: int| 0 <= c < done.len() && !done[c];
    assert forall|c: int|
        0 <= c < keys.len() && !done[c] implies exists|b: int|
        0 <= b < deps[c].len() && !done[#[trigger] di[c][b]] by {
        let b = choose|b: int| 0 <= b < dv[c].len() && !done[#[trigger] dv[c][b] as int];
        assert(di[c][b] == dv[c][b] as int);
    }
    assert forall|ord: Seq<Seq<char>>| !valid_order(keys, deps, ord) by {
        lemma_stuck_no_order(keys, deps, di, done, i0, ord);
    }
}

/// When every node is placed, the output spells a valid order.
proof fn lemma_finish(
    keys: Seq<Seq<char>>,
    deps: Seq<Seq<Seq<char>>>,
    di: Seq<Seq<int>>,
    dv: Seq<Seq<usize>>,
    done: Seq<bool>,
    out_idx: Seq<int>,
    pos: Seq<int>,
    out: Seq<String>,
)
    requires
        keys.no_duplicates(),
        refs_resolved(keys, deps, di, dv),
        placed_ok(keys.len() as int, deps, di, done, out_idx, pos),
        !(exists|c: int| 0 <= c < done.len() && !done[c]),
        out.len() == out_idx.len(),
        out.len() + count_false(done) == keys.len(),
        forall|k: int| 0 <= k < out_idx.len() ==> (#[trigger] out[k])@ == keys[out_idx[k]],
    ensures
        valid_order(keys, deps, crate::config::keys_of(out)),
{
    assert forall|c: int| 0 <= c < keys.len() implies #[trigger] done[c] by {}
    lemma_count_false_all_true(done);
    let ord = crate::config::keys_of(out);
    assert forall|k: int| 0 <= k < ord.len() implies #[trigger] ord[k] == keys[out_idx[k]] by {
        assert(ord[k] == out[k]@);
    }
    lemma_output_valid(keys, deps, di, done, out_idx, pos, ord);
}

/// The position of `name` among the descriptions' names.
pub(crate) fn find_key<T: Float>(tasks: &Vec<(String, TaskConfig<T>)>, name: &String) -> (r: Option<usize>)
    ensures
        match r {
            Some(k) => k < tasks.len() && config_keys(tasks@)[k as int] == name@,
            None => !config_keys(tasks@).contains(name@),
        },
{
    let mut k: usize = 0;
    while k < tasks.len()
        invariant
            k <= tasks.len(),
            forall|m: int| 0 <= m < k ==> config_keys(tasks@)[m] != name@,
        decreases tasks.len() - k,
    {
        if tasks[k].0 == *name {
            return Some(k);
        }
        k = k + 1;
    }
    proof {
        if config_keys(tasks@).contains(name@) {
            let m = choose|m: int|
                0 <= m < config_keys(tasks@).len() && config_keys(tasks@)[m] == name@;
            assert(config_keys(tasks@)[m] == name@);
        }
    }
    None
}

/// Orders the descriptions so that each comes after all the names it
/// refers to (the order among independent descriptions is unspecified).
///
/// `UnknownTask` names a reference that no description has; it is
/// reported exactly when such a reference exists. Otherwise the result is a
/// valid order, or `CycleDetected` exactly when none exists.
#[verifier::rlimit(100)]
pub fn sort_tasks<T: Float>(tasks: &Vec<(String, TaskConfig<T>)>) -> (r: Result<
    Vec<String>,
    GraphError,
>)
    requires
        config_keys(tasks@).no_duplicates(),
    ensures
        match r {
            Ok(o) => deps_known(config_keys(tasks@), config_deps(tasks@)) && valid_order(
                config_keys(tasks@),
                config_deps(tasks@),
                crate::config::keys_of(o@),
            ),
            Err(GraphError::UnknownTask(n)) => !deps_known(
                config_keys(tasks@),
                config_deps(tasks@),
            ) && !config_keys(tasks@).contains(n@) && exists|i: int, j: int|
                0 <= i < tasks.len() && 0 <= j < config_deps(tasks@)[i].len() && config_deps(
                    tasks@,
                )[i][j] == n@,
            Err(GraphError::CycleDetected) => deps_known(config_keys(tasks@), config_deps(tasks@))
                && forall|ord: Seq<Seq<char>>|
                !valid_order(config_keys(tasks@), config_deps(tasks@), ord),
        },
{
    let ghost keys = config_keys(tasks@);
    let ghost deps = config_deps(tasks@);
    let n = tasks.len();
    let mut dep_idx: Vec<Vec<usize>> = Vec::new();
    let mut i: usize = 0;
    while i < n
        invariant
            n == tasks.len(),
            keys == config_keys(tasks@),
            deps == config_deps(tasks@),
            i <= n,
            dep_idx.len() == i,
            forall|a: int| 0 <= a < i ==> (#[trigger] dep_idx[a])@.len() == deps[a].len(),
            forall|a: int, b: int|
                0 <= a < i && 0 <= b < deps[a].len() ==> #[trigger] dep_idx[a]@[b] < n
                    && keys[dep_idx[a]@[b] as int] == deps[a][b],
        decreases n - i,
    {
        let d = tasks[i].1.dependencies();
        let mut v: Vec<usize> = Vec::new();
        let mut j: usize = 0;
        while j < d.len()
            invariant
                n == tasks.len(),
                keys == config_keys(tasks@),
                deps == config_deps(tasks@),
                i < n,
                crate::config::keys_of(d@) == deps[i as int],
                j <= d.len(),
                v.len() == j,
                forall|b: int|
                    0 <= b < j ==> #[trigger] v@[b] < n && keys[v@[b] as int] == deps[i as int][b],
            decreases d.len() - j,
        {
            assert(d@[j as int]@ == deps[i as int][j as int]);
            match find_key(tasks, &d[j]) {
                Some(k) => v.push(k),
                None => {
                    proof {
                        assert(keys.contains(deps[i as int][j as int]) == false);
                    }
                    return Err(GraphError::UnknownTask(d[j].clone()));
                },
            }
            j = j + 1;
        }
        dep_idx.push(v);
        i = i + 1;
    }
    let ghost di = Seq::new(n as nat, |a: int| Seq::new(deps[a].len(), |b: int| dep_idx@[a]@[b] as int));
    assert(deps_known(keys, deps)) by {
        assert forall|a: int, b: int| 0 <= a < deps.len() && 0 <= b < deps[a].len() implies keys.contains(
            #[trigger] deps[a][b],
        ) by {
            assert(keys[dep_idx@[a]@[b] as int] == deps[a][b]);
        }
    }
    let mut done: Vec<bool> = Vec::new();
    let mut z: usize = 0;
    while z < n
        invariant
            z <= n,
            done.len() == z,
            forall|a: int| 0 <= a < z ==> !done@[a],
            count_false(done@) == z,
        decreases n - z,
    {
        proof {
            assert(done@.push(false).drop_last() =~= done@);
        }
        done.push(false);
        z = z + 1;
    }
    let mut out: Vec<String> = Vec::new();
    let ghost mut out_idx: Seq<int> = Seq::empty();
    let ghost mut pos: Seq<int> = Seq::new(n as nat, |c: int| 0);
    loop
        invariant
            n == tasks.len(),
            keys == config_keys(tasks@),
            deps == config_deps(tasks@),
            keys.no_duplicates(),
            deps_known(keys, deps),
            dep_idx.len() == n,
            forall|a: int| 0 <= a < n ==> (#[trigger] dep_idx[a])@.len() == deps[a].len(),
            forall|a: int, b: int|
                0 <= a < n && 0 <= b < deps[a].len() ==> #[trigger] dep_idx[a]@[b] < n
                    && keys[dep_idx[a]@[b] as int] == deps[a][b],
            done.len() == n,
            out.len() == out_idx.len(),
            out.len() + count_false(done@) == n,
            forall|k: int| 0 <= k < out_idx.len() ==> (#[trigger] out@[k])@ == keys[out_idx[k]],
            di.len() == n,
            forall|c: int| 0 <= c < n ==> (#[trigger] di[c]).len() == deps[c].len(),
            forall|c: int, b: int|
                0 <= c < n && 0 <= b < deps[c].len() ==> #[trigger] di[c][b] == dep_idx[c]@[b] as int,
            placed_ok(n as int, deps, di, done@, out_idx, pos),
            refs_resolved(keys, deps, di, dv_of(dep_idx@)),
        decreases count_false(done@),
    {
        let (pick, any_left) = find_ready(&done, &dep_idx);
        match pick {
            None => {
                if !any_left {
                    proof {
                        lemma_finish(keys, deps, di, dv_of(dep_idx@), done@, out_idx, pos, out@);
                    }
                    return Ok(out);
                }
                proof {
                    let dv = dv_of(dep_idx@);
                    assert forall|c: int| 0 <= c < done.len() && !done@[c] implies exists|b: int|
                        0 <= b < dv[c].len() && !done@[#[trigger] dv[c][b] as int] by {
                        let b = choose|b: int|
                            0 <= b < dep_idx[c]@.len() && !done@[#[trigger] dep_idx[c]@[b] as int];
                        assert(dv[c] == dep_idx@[c]@);
                        assert(!done@[dv[c][b] as int]);
                    }
                    lemma_stuck(keys, deps, di, dv, done@);
                }
                return Err(GraphError::CycleDetected);
            },
            Some(p) => {
                proof {
                    lemma_count_false_set(done@, p as int);
                }
                let ghost pre_done = done@;
                done.set(p, true);
                out.push(tasks[p].0.clone());
                proof {
                    assert forall|b: int| 0 <= b < deps[p as int].len() implies pre_done[
                        #[trigger] di[p as int][b]] by {
                        assert(di[p as int][b] == dep_idx[p as int]@[b] as int);
                    }
                    lemma_push_step(n as int, deps, di, pre_done, out_idx, pos, p as int);
                    pos = pos.update(p as int, out_idx.len() as int);
                    out_idx = out_idx.push(p as int);
                    assert(done@ == pre_done.update(p as int, true));
                }
            },
        }
    }
}

} // verus!
