//! Turning code search hits into the manifests detected in each repository.

use vstd::prelude::*;
use crate::ecosystem::Ecosystem;

verus! {

/// The view of a search hit: the repository's full name and the file's path.
pub open spec fn hit_view(h: (String, String)) -> (Seq<char>, Seq<char>) {
    (h.0@, h.1@)
}

/// The views of a list of hits.
pub open spec fn hits_view(hs: Seq<(String, String)>) -> Seq<(Seq<char>, Seq<char>)> {
    hs.map_values(|h: (String, String)| hit_view(h))
}

/// Some hit lies in repository `repo`.
pub open spec fn has_repo(hs: Seq<(String, String)>, repo: Seq<char>) -> bool {
    exists|i: int| 0 <= i < hs.len() && (#[trigger] hs[i]).0@ == repo
}

/// The hits of `roots`, in order, whose repository has no hit in `excluded`.
pub open spec fn kept(roots: Seq<(String, String)>, excluded: Seq<(String, String)>) -> Seq<(Seq<char>, Seq<char>)>
    decreases roots.len(),
{
    if roots.len() == 0 {
        Seq::empty()
    } else {
        let r = kept(roots.drop_last(), excluded);
        if has_repo(excluded, roots.last().0@) {
            r
        } else {
            r.push(hit_view(roots.last()))
        }
    }
}

fn repo_listed(hs: &Vec<(String, String)>, repo: &String) -> (r: bool)
    ensures
        r == has_repo(hs@, repo@),
{
    let mut i: usize = 0;
    while i < hs.len()
        invariant
            0 <= i <= hs@.len(),
            forall|k: int| 0 <= k < i ==> (#[trigger] hs@[k]).0@ != repo@,
        decreases hs@.len() - i,
    {
        if hs[i].0 == *repo {
            assert(hs@[i as int].0@ == repo@);
            return true;
        }
        i = i + 1;
    }
    false
}

/// The hits of `roots`, in order, but those in a repository that has a hit in
/// `excluded`.
pub fn exclude_repos(roots: &Vec<(String, String)>, excluded: &Vec<(String, String)>) -> (r: Vec<(String, String)>)
    ensures
        hits_view(r@) == kept(roots@, excluded@),
{
    let mut r: Vec<(String, String)> = Vec::new();
    let mut i: usize = 0;
    while i < roots.len()
        invariant
            0 <= i <= roots@.len(),
            hits_view(r@) == kept(roots@.take(i as int), excluded@),
        decreases roots@.len() - i,
    {
        proof {
            assert(roots@.take(i + 1).drop_last() =~= roots@.take(i as int));
            assert(roots@.take(i + 1).last() == roots@[i as int]);
        }
        if !repo_listed(excluded, &roots[i].0) {
            let ghost prev = r@;
            r.push((roots[i].0.clone(), roots[i].1.clone()));
            proof {
                assert(hits_view(r@) =~= hits_view(prev).push(hit_view(roots@[i as int])));
            }
        }
        i = i + 1;
    }
    proof {
        assert(roots@.take(roots@.len() as int) =~= roots@);
    }
    r
}

/// A detection: repository, path and ecosystem.
pub type Detection = (Seq<char>, Seq<char>, Ecosystem);

/// The hits of one search, each with the search's ecosystem.
pub open spec fn tagged(hs: Seq<(String, String)>, eco: Ecosystem) -> Seq<Detection> {
    hs.map_values(|h: (String, String)| (h.0@, h.1@, eco))
}

/// The hits of all searches, in order, each with its search's ecosystem.
pub open spec fn flat(searches: Seq<(Vec<(String, String)>, Ecosystem)>) -> Seq<Detection>
    decreases searches.len(),
{
    if searches.len() == 0 {
        Seq::empty()
    } else {
        flat(searches.drop_last()) + tagged(searches.last().0@, searches.last().1)
    }
}

/// The paths and ecosystems detected in repository `repo`, in order.
pub open spec fn found_in(ds: Seq<Detection>, repo: Seq<char>) -> Seq<(Seq<char>, Ecosystem)>
    decreases ds.len(),
{
    if ds.len() == 0 {
        Seq::empty()
    } else {
        let r = found_in(ds.drop_last(), repo);
        if ds.last().0 == repo {
            r.push((ds.last().1, ds.last().2))
        } else {
            r
        }
    }
}

/// The view of a repository's detections.
pub open spec fn found_view(v: Seq<(String, Ecosystem)>) -> Seq<(Seq<char>, Ecosystem)> {
    v.map_values(|p: (String, Ecosystem)| (p.0@, p.1))
}

/// `groups` lists each repository of `ds` once, with its detections in order.
pub open spec fn grouped(groups: Seq<(String, Vec<(String, Ecosystem)>)>, ds: Seq<Detection>) -> bool {
    &&& forall|a: int, b: int|
        0 <= a < b < groups.len() ==> (#[trigger] groups[a]).0@ != (#[trigger] groups[b]).0@
    &&& forall|k: int|
        0 <= k < groups.len() ==> found_view((#[trigger] groups[k]).1@) == found_in(ds, groups[k].0@)
    &&& forall|repo: Seq<char>|
        (forall|k: int| 0 <= k < groups.len() ==> (#[trigger] groups[k]).0@ != repo) ==> found_in(
            ds,
            repo,
        ).len() == 0
}

fn flatten(searches: &Vec<(Vec<(String, String)>, Ecosystem)>) -> (r: Vec<(String, String, Ecosystem)>)
    ensures
        r@.map_values(|d: (String, String, Ecosystem)| (d.0@, d.1@, d.2)) == flat(searches@),
{
    let mut r: Vec<(String, String, Ecosystem)> = Vec::new();
    let mut i: usize = 0;
    while i < searches.len()
        invariant
            0 <= i <= searches@.len(),
            r@.map_values(|d: (String, String, Ecosystem)| (d.0@, d.1@, d.2)) == flat(searches@.take(i as int)),
        decreases searches@.len() - i,
    {
        let hits = &searches[i].0;
        let eco = searches[i].1;
        let ghost base = r@.map_values(|d: (String, String, Ecosystem)| (d.0@, d.1@, d.2));
        let mut j: usize = 0;
        while j < hits.len()
            invariant
                0 <= j <= hits@.len(),
                r@.map_values(|d: (String, String, Ecosystem)| (d.0@, d.1@, d.2)) == base + tagged(hits@.take(j as int), eco),
            decreases hits@.len() - j,
        {
            let ghost before = r@.map_values(|d: (String, String, Ecosystem)| (d.0@, d.1@, d.2));
            r.push((hits[j].0.clone(), hits[j].1.clone(), eco));
            proof {
                assert(tagged(hits@.take(j + 1), eco) =~= tagged(hits@.take(j as int), eco).push(
                    (hits@[j as int].0@, hits@[j as int].1@, eco),
                ));
                assert(r@.map_values(|d: (String, String, Ecosystem)| (d.0@, d.1@, d.2)) =~= before.push(
                    (hits@[j as int].0@, hits@[j as int].1@, eco),
                ));
            }
            j = j + 1;
        }
        proof {
            assert(hits@.take(hits@.len() as int) =~= hits@);
            assert(searches@.take(i + 1).drop_last() =~= searches@.take(i as int));
            assert(searches@.take(i + 1).last() == searches@[i as int]);
        }
        i = i + 1;
    }
    proof {
        assert(searches@.take(searches@.len() as int) =~= searches@);
    }
    r
}

proof fn lemma_found_push(ds: Seq<Detection>, d: Detection, repo: Seq<char>)
    ensures
        found_in(ds.push(d), repo) == if d.0 == repo {
            found_in(ds, repo).push((d.1, d.2))
        } else {
            found_in(ds, repo)
        },
{
    assert(ds.push(d).drop_last() =~= ds);
}

fn position_of(groups: &Vec<(String, Vec<(String, Ecosystem)>)>, repo: &String) -> (r: Option<usize>)
    ensures
        r matches Some(k) ==> k < groups@.len() && groups@[k as int].0@ == repo@,
        r is None ==> forall|k: int| 0 <= k < groups@.len() ==> (#[trigger] groups@[k]).0@ != repo@,
{
    let mut i: usize = 0;
    while i < groups.len()
        invariant
            0 <= i <= groups@.len(),
            forall|k: int| 0 <= k < i ==> (#[trigger] groups@[k]).0@ != repo@,
        decreases groups@.len() - i,
    {
        if groups[i].0 == *repo {
            return Some(i);
        }
        i = i + 1;
    }
    None
}

/// The hits of all searches grouped by repository: each repository once, in
/// the order of its first hit, with its paths and ecosystems in search order.
pub fn group_by_repo(searches: &Vec<(Vec<(String, String)>, Ecosystem)>) -> (r: Vec<(String, Vec<(String, Ecosystem)>)>)
    ensures
        grouped(r@, flat(searches@)),
{
    let fl = flatten(searches);
    let ghost fv = fl@.map_values(|d: (String, String, Ecosystem)| (d.0@, d.1@, d.2));
    let mut acc: Vec<(String, Vec<(String, Ecosystem)>)> = Vec::new();
    let mut n: usize = 0;
    proof {
        assert(fv.take(0) =~= Seq::<Detection>::empty());
    }
    while n < fl.len()
        invariant
            0 <= n <= fl@.len(),
            fv == fl@.map_values(|d: (String, String, Ecosystem)| (d.0@, d.1@, d.2)),
            fv == flat(searches@),
            grouped(acc@, fv.take(n as int)),
        decreases fl@.len() - n,
    {
        let ghost p = fv.take(n as int);
        let ghost d = fv[n as int];
        let ghost old_acc = acc@;
        proof {
            assert(fv.take(n + 1) =~= p.push(d));
        }
        let repo = &fl[n].0;
        let item = (fl[n].1.clone(), fl[n].2);
        assert(item.0@ == d.1 && item.1 == d.2 && repo@ == d.0);
        match position_of(&acc, repo) {
            Some(k) => {
                let mut entry = acc.remove(k);
                let ghost old_list = entry.1@;
                entry.1.push(item);
                acc.insert(k, entry);
                proof {
                    assert(acc@ =~= old_acc.update(k as int, (old_acc[k as int].0, entry.1)));
                    assert(found_view(entry.1@) =~= found_view(old_list).push((d.1, d.2)));
                    assert forall|j: int| 0 <= j < acc@.len() implies found_view(
                        (#[trigger] acc@[j]).1@,
                    ) == found_in(p.push(d), acc@[j].0@) by {
                        lemma_found_push(p, d, acc@[j].0@);
                        if j != k {
                            assert(old_acc[j].0@ != old_acc[k as int].0@);
                        }
                    }
                    assert forall|rp: Seq<char>|
                        (forall|j: int| 0 <= j < acc@.len() ==> (#[trigger] acc@[j]).0@ != rp) implies found_in(
                        p.push(d),
                        rp,
                    ).len() == 0 by {
                        lemma_found_push(p, d, rp);
                        assert(acc@[k as int].0@ != rp);
                        assert forall|j: int| 0 <= j < old_acc.len() implies (#[trigger] old_acc[j]).0@ != rp by {
                            assert(acc@[j].0@ != rp);
                        }
                    }
                    assert forall|a: int, b: int|
                        0 <= a < b < acc@.len() implies (#[trigger] acc@[a]).0@ != (#[trigger] acc@[b]).0@ by {
                        assert(old_acc[a].0@ != old_acc[b].0@);
                    }
                }
            },
            None => {
                let mut list: Vec<(String, Ecosystem)> = Vec::new();
                list.push(item);
                acc.push((repo.clone(), list));
                proof {
                    assert(found_in(p, d.0).len() == 0);
                    lemma_found_push(p, d, d.0);
                    assert(found_view(list@) =~= found_in(p.push(d), d.0));
                    assert forall|j: int| 0 <= j < acc@.len() implies found_view(
                        (#[trigger] acc@[j]).1@,
                    ) == found_in(p.push(d), acc@[j].0@) by {
                        lemma_found_push(p, d, acc@[j].0@);
                        if j < old_acc.len() {
                            assert(acc@[j] == old_acc[j]);
                        }
                    }
                    assert forall|rp: Seq<char>|
                        (forall|j: int| 0 <= j < acc@.len() ==> (#[trigger] acc@[j]).0@ != rp) implies found_in(
                        p.push(d),
                        rp,
                    ).len() == 0 by {
                        lemma_found_push(p, d, rp);
                        assert(acc@[old_acc.len() as int].0@ != rp);
                        assert forall|j: int| 0 <= j < old_acc.len() implies (#[trigger] old_acc[j]).0@ != rp by {
                            assert(acc@[j].0@ != rp);
                        }
                    }
                    assert forall|a: int, b: int|
                        0 <= a < b < acc@.len() implies (#[trigger] acc@[a]).0@ != (#[trigger] acc@[b]).0@ by {
                        if b < old_acc.len() {
                            assert(old_acc[a].0@ != old_acc[b].0@);
                        }
                    }
                }
            },
        }
        n = n + 1;
    }
    proof {
        assert(fv.take(fl@.len() as int) =~= fv);
    }
    acc
}

} // verus!
