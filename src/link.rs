use vstd::prelude::*;

verus! {

/// What the link materializer does at a target, once the target is inspected.
#[derive(Debug, Clone, Copy, PartialEq, Eq, Structural)]
pub enum LinkPlan {
    /// The target is already a hardlink of the source: leave it.
    Keep,
    /// The target does not exist: create its missing parents and the link.
    Create,
    /// Something else is at the target: unlink it, then link.
    Replace,
}

pub open spec fn plan_of(target_exists: bool, same_file: bool) -> LinkPlan {
    if !target_exists {
        LinkPlan::Create
    } else if same_file {
        LinkPlan::Keep
    } else {
        LinkPlan::Replace
    }
}

/// Chooses the plan from whether the target exists and whether it already is
/// the same file as the source.
pub fn link_plan(target_exists: bool, same_file: bool) -> (r: LinkPlan)
    ensures
        r == plan_of(target_exists, same_file),
{
    if !target_exists {
        LinkPlan::Create
    } else if same_file {
        LinkPlan::Keep
    } else {
        LinkPlan::Replace
    }
}

/// A filesystem seen as the inode at each existing path.
pub open spec fn plan_at(fs: Map<Seq<char>, nat>, source: Seq<char>, target: Seq<char>) -> LinkPlan {
    plan_of(fs.contains_key(target), fs.contains_key(target) && fs[target] == fs[source])
}

/// The filesystem after materializing `source` at `target`.
pub open spec fn link_step(fs: Map<Seq<char>, nat>, source: Seq<char>, target: Seq<char>) -> Map<
    Seq<char>,
    nat,
> {
    match plan_at(fs, source, target) {
        LinkPlan::Keep => fs,
        _ => fs.insert(target, fs[source]),
    }
}

/// The filesystem after materializing each `(source, target)` pair in order.
pub open spec fn deploy_links(fs: Map<Seq<char>, nat>, links: Seq<(Seq<char>, Seq<char>)>) -> Map<
    Seq<char>,
    nat,
>
    decreases links.len(),
{
    if links.len() == 0 {
        fs
    } else {
        link_step(deploy_links(fs, links.drop_last()), links.last().0, links.last().1)
    }
}

/// The inode that each target ends up with: that of the source of the last
/// pair naming it.
pub open spec fn written(fs: Map<Seq<char>, nat>, links: Seq<(Seq<char>, Seq<char>)>) -> Map<
    Seq<char>,
    nat,
>
    decreases links.len(),
{
    if links.len() == 0 {
        Map::empty()
    } else {
        written(fs, links.drop_last()).insert(links.last().1, fs[links.last().0])
    }
}

/// Every source exists, and no target is a source: the cache is only read.
pub open spec fn sources_stable(fs: Map<Seq<char>, nat>, links: Seq<(Seq<char>, Seq<char>)>) -> bool {
    &&& forall|i: int| 0 <= i < links.len() ==> fs.contains_key(#[trigger] links[i].0)
    &&& forall|i: int, j: int|
        0 <= i < links.len() && 0 <= j < links.len() ==> #[trigger] links[i].1 != #[trigger] links[j].0
}

/// After a link step the target holds the source's inode and nothing else
/// changed; a second step on the result changes nothing.
pub proof fn lemma_link_step(fs: Map<Seq<char>, nat>, source: Seq<char>, target: Seq<char>)
    requires
        fs.contains_key(source),
    ensures
        link_step(fs, source, target) == fs.insert(target, fs[source]),
        link_step(fs, source, target)[target] == fs[source],
        link_step(link_step(fs, source, target), source, target) == link_step(fs, source, target),
{
    if plan_at(fs, source, target) == LinkPlan::Keep {
        assert(fs.insert(target, fs[source]) =~= fs);
    }
    let g = fs.insert(target, fs[source]);
    if plan_at(g, source, target) != LinkPlan::Keep {
        assert(g.contains_key(target));
        if target != source {
            assert(g[source] == fs[source]);
        }
    }
}

proof fn lemma_written_domain(fs: Map<Seq<char>, nat>, links: Seq<(Seq<char>, Seq<char>)>, p: Seq<char>)
    requires
        forall|i: int| 0 <= i < links.len() ==> #[trigger] links[i].1 != p,
    ensures
        !written(fs, links).contains_key(p),
    decreases links.len(),
{
    if links.len() > 0 {
        let l = links.drop_last();
        assert forall|i: int| 0 <= i < l.len() implies #[trigger] l[i].1 != p by {
            assert(l[i] == links[i]);
        }
        lemma_written_domain(fs, l, p);
        assert(links.last() == links[links.len() - 1]);
    }
}

proof fn lemma_deploy_overlays(
    fs: Map<Seq<char>, nat>,
    g: Map<Seq<char>, nat>,
    links: Seq<(Seq<char>, Seq<char>)>,
)
    requires
        sources_stable(fs, links),
        forall|i: int|
            0 <= i < links.len() ==> g.contains_key(#[trigger] links[i].0) && g[links[i].0]
                == fs[links[i].0],
    ensures
        deploy_links(g, links) == g.union_prefer_right(written(fs, links)),
    decreases links.len(),
{
    if links.len() == 0 {
        assert(g.union_prefer_right(Map::empty()) =~= g);
    } else {
        let l = links.drop_last();
        let n = links.len() - 1;
        assert(links.last() == links[n]);
        let (s, t) = links[n];
        assert(sources_stable(fs, l)) by {
            assert forall|i: int| 0 <= i < l.len() implies fs.contains_key(#[trigger] l[i].0) by {
                assert(l[i] == links[i]);
            }
            assert forall|i: int, j: int|
                0 <= i < l.len() && 0 <= j < l.len() implies #[trigger] l[i].1 != #[trigger] l[j].0 by {
                assert(l[i] == links[i] && l[j] == links[j]);
            }
        }
        assert forall|i: int|
            0 <= i < l.len() implies g.contains_key(#[trigger] l[i].0) && g[l[i].0] == fs[l[i].0] by {
            assert(l[i] == links[i]);
        }
        lemma_deploy_overlays(fs, g, l);
        let d = g.union_prefer_right(written(fs, l));
        assert forall|i: int| 0 <= i < l.len() implies #[trigger] l[i].1 != s by {
            assert(l[i] == links[i]);
            assert(links[i].1 != links[n].0);
        }
        lemma_written_domain(fs, l, s);
        assert(g.contains_key(links[n].0));
        assert(d.contains_key(s) && d[s] == fs[s]);
        lemma_link_step(d, s, t);
        assert(d.insert(t, fs[s]) =~= g.union_prefer_right(written(fs, l).insert(t, fs[s])));
    }
}

/// Deploying the same links twice leaves the filesystem as deploying them once,
/// when every source exists and no target is a source.
pub proof fn lemma_deploy_idempotent(fs: Map<Seq<char>, nat>, links: Seq<(Seq<char>, Seq<char>)>)
    requires
        sources_stable(fs, links),
    ensures
        deploy_links(deploy_links(fs, links), links) == deploy_links(fs, links),
{
    lemma_deploy_overlays(fs, fs, links);
    let once = fs.union_prefer_right(written(fs, links));
    assert forall|i: int|
        0 <= i < links.len() implies once.contains_key(#[trigger] links[i].0) && once[links[i].0]
        == fs[links[i].0] by {
        assert forall|j: int| 0 <= j < links.len() implies #[trigger] links[j].1 != links[i].0 by {
            assert(links[j].1 != links[i].0);
        }
        lemma_written_domain(fs, links, links[i].0);
    }
    lemma_deploy_overlays(fs, once, links);
    assert(once.union_prefer_right(written(fs, links)) =~= once);
}

proof fn lemma_written_distinct(fs: Map<Seq<char>, nat>, links: Seq<(Seq<char>, Seq<char>)>, k: int)
    requires
        0 <= k < links.len(),
        forall|i: int, j: int|
            0 <= i < links.len() && 0 <= j < links.len() && i != j ==> #[trigger] links[i].1
                != #[trigger] links[j].1,
    ensures
        written(fs, links).contains_key(links[k].1),
        written(fs, links)[links[k].1] == fs[links[k].0],
    decreases links.len(),
{
    let n = links.len() - 1;
    assert(links.last() == links[n]);
    if k < n {
        let l = links.drop_last();
        assert(l[k] == links[k]);
        assert forall|i: int, j: int|
            0 <= i < l.len() && 0 <= j < l.len() && i != j implies #[trigger] l[i].1 != #[trigger] l[j].1 by {
            assert(l[i] == links[i] && l[j] == links[j]);
        }
        lemma_written_distinct(fs, l, k);
        assert(links[n].1 != links[k].1);
    }
}

/// After deploying links with distinct targets, when every source exists and
/// no target is a source, each target holds the inode of its own source.
pub proof fn lemma_deploy_links_targets(fs: Map<Seq<char>, nat>, links: Seq<(Seq<char>, Seq<char>)>)
    requires
        sources_stable(fs, links),
        forall|i: int, j: int|
            0 <= i < links.len() && 0 <= j < links.len() && i != j ==> #[trigger] links[i].1
                != #[trigger] links[j].1,
    ensures
        forall|i: int|
            0 <= i < links.len() ==> deploy_links(fs, links).contains_key(#[trigger] links[i].1)
                && deploy_links(fs, links)[links[i].1] == fs[links[i].0],
{
    lemma_deploy_overlays(fs, fs, links);
    assert forall|i: int| 0 <= i < links.len() implies deploy_links(fs, links).contains_key(
        #[trigger] links[i].1,
    ) && deploy_links(fs, links)[links[i].1] == fs[links[i].0] by {
        lemma_written_distinct(fs, links, i);
    }
}

} // verus!
