use vstd::prelude::*;
use crate::manifest::migrator::Migrator;

verus! {

/// Whether `a` and `b` hold the same characters.
pub fn str_eq(a: &str, b: &str) -> (res: bool)
    ensures
        res == (a@ == b@),
{
    let n = a.unicode_len();
    let m = b.unicode_len();
    if n != m {
        return false;
    }
    let mut i: usize = 0;
    while i < n
        invariant
            n == a@.len(),
            m == b@.len(),
            n == m,
            i <= n,
            forall|k: int| 0 <= k < i ==> a@[k] == b@[k],
        decreases n - i,
    {
        if a.get_char(i) != b.get_char(i) {
            return false;
        }
        i = i + 1;
    }
    assert(a@ =~= b@);
    true
}

/// `path` is a run of migrators taken from `ms` that rewrites format `from` into
/// format `to`: each migrator reads the format the previous one yields; the
/// empty run rewrites a format into itself.
pub open spec fn is_migration_path(
    ms: Seq<Migrator>,
    path: Seq<Migrator>,
    from: Seq<char>,
    to: Seq<char>,
) -> bool {
    &&& forall|k: int| 0 <= k < path.len() ==> ms.contains(#[trigger] path[k])
    &&& if path.len() == 0 {
        from == to
    } else {
        &&& path[0].from@ == from
        &&& path.last().to@ == to
        &&& forall|i: int, j: int|
            #![trigger path[i], path[j]]
            0 <= i && j == i + 1 && j < path.len() ==> path[i].to@ == path[j].from@
    }
}

/// The migrator at index `i` yields the format that the one at index `j` reads.
pub open spec fn links(ms: Seq<Migrator>, i: int, j: int) -> bool {
    ms[i].to@ == ms[j].from@
}

/// `p` holds indices into `ms` of a nonempty run of migrators that starts at
/// format `from`, each reading the format the previous one yields.
pub open spec fn is_index_chain(ms: Seq<Migrator>, p: Seq<usize>, from: Seq<char>) -> bool {
    &&& p.len() > 0
    &&& forall|k: int| 0 <= k < p.len() ==> #[trigger] p[k] < ms.len()
    &&& ms[p[0] as int].from@ == from
    &&& forall|i: int, j: int|
        #![trigger p[i], p[j]]
        0 <= i && j == i + 1 && j < p.len() ==> links(ms, p[i] as int, p[j] as int)
}

/// An index chain from `from` that ends with the migrator at index `e`.
pub open spec fn chain_to(ms: Seq<Migrator>, p: Seq<usize>, from: Seq<char>, e: int) -> bool {
    is_index_chain(ms, p, from) && p.last() == e
}

/// What the search knows of the migrator at index `e` after `k` rounds: a
/// shortest chain ending with it, of length at most `k`, or that every chain
/// ending with it is longer than `k`.
pub open spec fn entry_ok(
    ms: Seq<Migrator>,
    from: Seq<char>,
    o: Option<Vec<usize>>,
    e: int,
    k: nat,
) -> bool {
    match o {
        Some(p) => {
            &&& chain_to(ms, p@, from, e)
            &&& p@.len() <= k
            &&& forall|q: Seq<usize>| #[trigger] chain_to(ms, q, from, e) ==> p@.len() <= q.len()
        },
        None => forall|q: Seq<usize>| #[trigger] chain_to(ms, q, from, e) ==> q.len() > k,
    }
}

pub open spec fn layer_ok(
    ms: Seq<Migrator>,
    from: Seq<char>,
    best: Seq<Option<Vec<usize>>>,
    k: nat,
) -> bool {
    &&& best.len() == ms.len()
    &&& forall|e: int| 0 <= e < best.len() ==> entry_ok(ms, from, #[trigger] best[e], e, k)
}

/// No chain can be extended to reach a migrator that has none yet.
pub open spec fn closed(ms: Seq<Migrator>, from: Seq<char>, best: Seq<Option<Vec<usize>>>) -> bool {
    forall|e: int|
        0 <= e < best.len() && #[trigger] best[e] is None ==> {
            &&& ms[e].from@ != from
            &&& forall|i: int| 0 <= i < best.len() && #[trigger] best[i] is Some ==> !links(ms, i, e)
        }
}

pub open spec fn num_some(s: Seq<Option<Vec<usize>>>) -> nat
    decreases s.len(),
{
    if s.len() == 0 {
        0
    } else {
        num_some(s.drop_last()) + if s.last() is Some { 1nat } else { 0nat }
    }
}

proof fn lemma_num_some_bound(s: Seq<Option<Vec<usize>>>)
    ensures
        num_some(s) <= s.len(),
    decreases s.len(),
{
    if s.len() > 0 {
        lemma_num_some_bound(s.drop_last());
    }
}

proof fn lemma_chain_prefix(ms: Seq<Migrator>, q: Seq<usize>, from: Seq<char>)
    requires
        is_index_chain(ms, q, from),
        q.len() >= 2,
    ensures
        chain_to(ms, q.drop_last(), from, q[q.len() - 2] as int),
        links(ms, q[q.len() - 2] as int, q[q.len() - 1] as int),
{
    let r = q.drop_last();
    assert forall|k: int| 0 <= k < r.len() implies #[trigger] r[k] < ms.len() by {
        assert(r[k] == q[k]);
    }
    assert forall|i: int, j: int|
        #![trigger r[i], r[j]]
        0 <= i && j == i + 1 && j < r.len() implies links(ms, r[i] as int, r[j] as int) by {
        assert(r[i] == q[i] && r[j] == q[j]);
        assert(links(ms, q[i] as int, q[j] as int));
    }
    let a = q.len() - 2;
    let b = q.len() - 1;
    assert(links(ms, q[a] as int, q[b] as int));
}

proof fn lemma_chain_extend(ms: Seq<Migrator>, p: Seq<usize>, from: Seq<char>, j: usize)
    requires
        is_index_chain(ms, p, from),
        j < ms.len(),
        links(ms, p.last() as int, j as int),
    ensures
        chain_to(ms, p.push(j), from, j as int),
{
    let r = p.push(j);
    assert forall|k: int| 0 <= k < r.len() implies #[trigger] r[k] < ms.len() by {
        if k < p.len() {
            assert(r[k] == p[k]);
        }
    }
    assert forall|i: int, k: int|
        #![trigger r[i], r[k]]
        0 <= i && k == i + 1 && k < r.len() implies links(ms, r[i] as int, r[k] as int) by {
        if k < p.len() {
            assert(r[i] == p[i] && r[k] == p[k]);
        } else {
            assert(r[i] == p.last());
        }
    }
}

/// Every migrator that a chain from `from` reaches has a chain recorded.
proof fn lemma_closed_reaches(
    ms: Seq<Migrator>,
    from: Seq<char>,
    best: Seq<Option<Vec<usize>>>,
    q: Seq<usize>,
    e: int,
)
    requires
        best.len() == ms.len(),
        closed(ms, from, best),
        chain_to(ms, q, from, e),
    ensures
        best[e] is Some,
    decreases q.len(),
{
    assert(q[q.len() - 1] < ms.len());
    if q.len() == 1 {
        if best[e] is None {
            assert(ms[e].from@ != from);
        }
    } else {
        lemma_chain_prefix(ms, q, from);
        let i = q[q.len() - 2] as int;
        assert(q[q.len() - 2] < ms.len());
        lemma_closed_reaches(ms, from, best, q.drop_last(), i);
        if best[e] is None {
            assert(best[i] is Some);
            assert(!links(ms, i, e));
        }
    }
}

/// A run of migrators given by a chain of indices.
pub open spec fn path_of(ms: Seq<Migrator>, p: Seq<usize>) -> Seq<Migrator> {
    p.map_values(|x: usize| ms[x as int])
}

proof fn lemma_index_chain_is_path(ms: Seq<Migrator>, p: Seq<usize>, from: Seq<char>, to: Seq<char>)
    requires
        is_index_chain(ms, p, from),
        ms[p.last() as int].to@ == to,
    ensures
        is_migration_path(ms, path_of(ms, p), from, to),
{
    let path = path_of(ms, p);
    assert forall|k: int| 0 <= k < path.len() implies ms.contains(#[trigger] path[k]) by {
        assert(p[k] < ms.len());
        assert(path[k] == ms[p[k] as int]);
    }
    assert forall|i: int, j: int|
        #![trigger path[i], path[j]]
        0 <= i && j == i + 1 && j < path.len() implies path[i].to@ == path[j].from@ by {
        assert(links(ms, p[i] as int, p[j] as int));
    }
}

proof fn lemma_path_has_index_chain(
    ms: Seq<Migrator>,
    path: Seq<Migrator>,
    from: Seq<char>,
    to: Seq<char>,
) -> (p: Seq<usize>)
    requires
        is_migration_path(ms, path, from, to),
        path.len() > 0,
        ms.len() <= usize::MAX,
    ensures
        is_index_chain(ms, p, from),
        p.len() == path.len(),
        ms[p.last() as int].to@ == to,
{
    let p = Seq::new(
        path.len(),
        |k: int| (choose|i: int| 0 <= i < ms.len() && ms[i] == path[k]) as usize,
    );
    assert forall|k: int| 0 <= k < p.len() implies #[trigger] p[k] < ms.len() && ms[p[k] as int]
        == path[k] by {
        assert(ms.contains(path[k]));
    }
    assert forall|i: int, j: int|
        #![trigger p[i], p[j]]
        0 <= i && j == i + 1 && j < p.len() implies links(ms, p[i] as int, p[j] as int) by {
        assert(ms[p[i] as int] == path[i] && ms[p[j] as int] == path[j]);
        assert(path[i].to@ == path[j].from@);
    }
    assert(ms[p[0] as int] == path[0]);
    assert(ms[p[p.len() - 1] as int] == path[path.len() - 1]);
    p
}

fn copy_path(p: &Vec<usize>) -> (res: Vec<usize>)
    ensures
        res@ == p@,
{
    let mut res: Vec<usize> = Vec::new();
    let mut i: usize = 0;
    while i < p.len()
        invariant
            i <= p.len(),
            res@ == p@.take(i as int),
        decreases p.len() - i,
    {
        res.push(p[i]);
        i = i + 1;
        assert(res@ =~= p@.take(i as int));
    }
    assert(p@.take(p.len() as int) == p@);
    res
}

/// The entry for migrator `j` in the next round: the chain already known, a
/// chain of the one migrator when it reads `from`, or a known chain extended
/// by it; `None` when none exists.
fn next_entry(
    migrators: &Vec<Migrator>,
    from: &str,
    best: &Vec<Option<Vec<usize>>>,
    j: usize,
    Ghost(k): Ghost<nat>,
) -> (res: (Option<Vec<usize>>, bool))
    requires
        layer_ok(migrators@, from@, best@, k),
        j < best.len(),
    ensures
        entry_ok(migrators@, from@, res.0, j as int, k + 1),
        best@[j as int] is Some ==> res.0 is Some && !res.1,
        best@[j as int] is None ==> (res.0 is Some <==> res.1),
        res.0 is None ==> {
            &&& migrators@[j as int].from@ != from@
            &&& forall|i: int|
                0 <= i < best.len() && #[trigger] best@[i] is Some ==> !links(
                    migrators@,
                    i,
                    j as int,
                )
        },
{
    let ghost ms = migrators@;
    let n = best.len();
    assert(entry_ok(ms, from@, best@[j as int], j as int, k));
    match &best[j] {
        Some(p) => {
            return (Some(copy_path(p)), false);
        },
        None => {},
    }
    if str_eq(migrators[j].from.as_str(), from) {
        let mut p: Vec<usize> = Vec::new();
        p.push(j);
        proof {
            assert(chain_to(ms, p@, from@, j as int));
        }
        return (Some(p), true);
    }
    let mut i: usize = 0;
    while i < n
        invariant
            n == best.len(),
            ms == migrators@,
            n == ms.len(),
            i <= n,
            j < n,
            layer_ok(ms, from@, best@, k),
            best@[j as int] is None,
            ms[j as int].from@ != from@,
            forall|i2: int| 0 <= i2 < i && #[trigger] best@[i2] is Some ==> !links(ms, i2, j as int),
        decreases n - i,
    {
        match &best[i] {
            Some(p) => {
                if str_eq(migrators[i].to.as_str(), migrators[j].from.as_str()) {
                    let mut np = copy_path(p);
                    np.push(j);
                    proof {
                        assert(entry_ok(ms, from@, best@[i as int], i as int, k));
                        lemma_chain_extend(ms, p@, from@, j);
                        assert(entry_ok(ms, from@, best@[j as int], j as int, k));
                    }
                    return (Some(np), true);
                }
            },
            None => {},
        }
        i = i + 1;
    }
    proof {
        assert forall|q: Seq<usize>| #[trigger] chain_to(ms, q, from@, j as int) implies q.len() > k
            + 1 by {
            assert(q.len() > k);
            if q.len() == k + 1 {
                if q.len() >= 2 {
                    lemma_chain_prefix(ms, q, from@);
                    let i2 = q[q.len() - 2] as int;
                    assert(q[q.len() - 2] < ms.len());
                    assert(entry_ok(ms, from@, best@[i2], i2, k));
                    assert(chain_to(ms, q.drop_last(), from@, i2));
                    assert(best@[i2] is Some);
                }
            }
        }
    }
    (None, false)
}

/// A shortest run of `migrators` that rewrites format `from` into format `to`,
/// or `None` when there is no such run.
pub fn find_shortest_migration_path(migrators: &Vec<Migrator>, from: &str, to: &str) -> (res:
    Option<Vec<Migrator>>)
    ensures
        res matches Some(p) ==> {
            &&& is_migration_path(migrators@, p@, from@, to@)
            &&& forall|q: Seq<Migrator>|
                #[trigger] is_migration_path(migrators@, q, from@, to@) ==> p@.len() <= q.len()
        },
        res is None ==> forall|q: Seq<Migrator>| !is_migration_path(migrators@, q, from@, to@),
{
    let ghost ms = migrators@;
    if str_eq(from, to) {
        let empty: Vec<Migrator> = Vec::new();
        return Some(empty);
    }
    let n = migrators.len();
    let mut best: Vec<Option<Vec<usize>>> = Vec::new();
    while best.len() < n
        invariant
            ms == migrators@,
            n == ms.len(),
            best.len() <= n,
            forall|e: int| 0 <= e < best.len() ==> #[trigger] best@[e] is None,
        decreases n - best.len(),
    {
        best.push(None);
    }
    let ghost mut k: nat = 0;
    assert forall|e: int| 0 <= e < best.len() implies entry_ok(ms, from@, #[trigger] best@[e], e, k) by {
        assert forall|q: Seq<usize>| #[trigger] chain_to(ms, q, from@, e) implies q.len() > k by {}
    }
    proof {
        lemma_num_some_bound(best@);
    }
    loop
        invariant
            ms == migrators@,
            n == ms.len(),
            layer_ok(ms, from@, best@, k),
            num_some(best@) <= n,
        ensures
            layer_ok(ms, from@, best@, k),
            closed(ms, from@, best@),
        decreases n - num_some(best@),
    {
        let mut next: Vec<Option<Vec<usize>>> = Vec::new();
        let mut added: usize = 0;
        let mut j: usize = 0;
        while j < n
            invariant
                ms == migrators@,
                n == ms.len(),
                n == best.len(),
                layer_ok(ms, from@, best@, k),
                j <= n,
                next.len() == j,
                added <= j,
                num_some(next@) == num_some(best@.take(j as int)) + added,
                forall|e: int| 0 <= e < j ==> entry_ok(ms, from@, #[trigger] next@[e], e, k + 1),
                forall|e: int| 0 <= e < j && #[trigger] best@[e] is Some ==> next@[e] is Some,
                added == 0 ==> forall|e: int| 0 <= e < j && #[trigger] next@[e] is Some ==> best@[e] is Some,
                forall|e: int|
                    0 <= e < j && #[trigger] next@[e] is None ==> {
                        &&& ms[e].from@ != from@
                        &&& forall|i: int|
                            0 <= i < n && #[trigger] best@[i] is Some ==> !links(ms, i, e)
                    },
            decreases n - j,
        {
            let (entry, fresh) = next_entry(migrators, from, &best, j, Ghost(k));
            let ghost prev = next@;
            next.push(entry);
            if fresh {
                added = added + 1;
            }
            proof {
                assert(next@.drop_last() == prev);
                assert(best@.take(j + 1).drop_last() == best@.take(j as int));
            }
            j = j + 1;
        }
        proof {
            assert(best@.take(n as int) == best@);
            lemma_num_some_bound(next@);
        }
        let ghost old_best = best@;
        best = next;
        proof {
            k = k + 1;
        }
        if added == 0 {
            assert forall|e: int| 0 <= e < best.len() && #[trigger] best@[e] is None implies {
                &&& ms[e].from@ != from@
                &&& forall|i: int| 0 <= i < best.len() && #[trigger] best@[i] is Some ==> !links(ms, i, e)
            } by {
                assert forall|i: int| 0 <= i < best.len() && #[trigger] best@[i] is Some implies !links(ms, i, e) by {
                    assert(old_best[i] is Some);
                }
            }
            break;
        }
    }
    let mut chosen: Option<usize> = None;
    let mut e: usize = 0;
    while e < n
        invariant
            ms == migrators@,
            n == ms.len(),
            n == best.len(),
            layer_ok(ms, from@, best@, k),
            e <= n,
            chosen matches Some(c) ==> {
                &&& c < n
                &&& best@[c as int] matches Some(p) && ms[c as int].to@ == to@
                    && forall|e2: int|
                    0 <= e2 < e && #[trigger] best@[e2] is Some && ms[e2].to@ == to@
                        ==> p@.len() <= best@[e2].unwrap()@.len()
            },
            chosen is None ==> forall|e2: int|
                0 <= e2 < e && #[trigger] best@[e2] is Some ==> ms[e2].to@ != to@,
        decreases n - e,
    {
        match &best[e] {
            Some(p) => {
                if str_eq(migrators[e].to.as_str(), to) {
                    let better = match chosen {
                        None => true,
                        Some(c) => match &best[c] {
                            Some(pc) => p.len() < pc.len(),
                            None => false,
                        },
                    };
                    if better {
                        chosen = Some(e);
                    }
                }
            },
            None => {},
        }
        e = e + 1;
    }
    match chosen {
        None => {
            proof {
                assert forall|q: Seq<Migrator>| !is_migration_path(ms, q, from@, to@) by {
                    if is_migration_path(ms, q, from@, to@) {
                        let p = lemma_path_has_index_chain(ms, q, from@, to@);
                        let e2 = p.last() as int;
                        assert(p[p.len() - 1] < ms.len());
                        lemma_closed_reaches(ms, from@, best@, p, e2);
                    }
                }
            }
            None
        },
        Some(c) => {
            let p = match &best[c] {
                Some(p) => p,
                None => {
                    proof {
                        assert(false);
                    }
                    return None;
                },
            };
            let mut res: Vec<Migrator> = Vec::new();
            let mut t: usize = 0;
            assert(entry_ok(ms, from@, best@[c as int], c as int, k));
            while t < p.len()
                invariant
                    ms == migrators@,
                    n == ms.len(),
                    is_index_chain(ms, p@, from@),
                    t <= p.len(),
                    res@ == path_of(ms, p@).take(t as int),
                decreases p.len() - t,
            {
                assert(p@[t as int] < ms.len());
                let m = migrators[p[t]].duplicate();
                res.push(m);
                t = t + 1;
                assert(res@ =~= path_of(ms, p@).take(t as int));
            }
            proof {
                assert(path_of(ms, p@).take(p.len() as int) == path_of(ms, p@));
                lemma_index_chain_is_path(ms, p@, from@, to@);
                assert forall|q: Seq<Migrator>| #[trigger] is_migration_path(ms, q, from@, to@) implies res@.len()
                    <= q.len() by {
                    if q.len() == 0 {
                        assert(from@ == to@);
                    } else {
                        let p2 = lemma_path_has_index_chain(ms, q, from@, to@);
                        let e2 = p2.last() as int;
                        assert(p2[p2.len() - 1] < ms.len());
                        lemma_closed_reaches(ms, from@, best@, p2, e2);
                        assert(entry_ok(ms, from@, best@[e2], e2, k));
                        assert(chain_to(ms, p2, from@, e2));
                        assert(best@[e2].unwrap()@.len() <= p2.len());
                        assert(ms[e2].to@ == to@);
                        assert(p@.len() <= best@[e2].unwrap()@.len());
                        assert(res@.len() == p@.len());
                    }
                }
            }
            Some(res)
        },
    }
}

} // verus!
