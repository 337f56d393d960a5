//! Grouping containers into their compose projects.
//!
//! The runtime labels each container of a compose project with the
//! project's name and working directory.  Fetching those labels is the
//! caller's job; `group_containers_by_project` takes them as plain values,
//! keeps one project per working directory (skipping containers without
//! both labels), collects container names in arrival order, and hands the
//! projects back sorted by project name.

use vstd::prelude::*;

verus! {

broadcast use vstd::seq_lib::group_to_multiset_ensures;

/// The compose labels of one container, as the caller resolved them.
/// A container without both labels belongs to no project.
#[derive(Debug, Clone)]
pub struct ComposeEntry {
    pub container_name: String,
    pub working_dir: String,
    pub project_name: String,
}

/// One compose project: its name, its working directory, and the names of
/// its containers in arrival order.
#[derive(Clone, Debug)]
pub struct ComposeProject {
    pub project_name: String,
    pub working_dir: String,
    pub containers: Vec<String>,
}

/// The abstract state of a project.
pub ghost struct ProjectView {
    pub project_name: Seq<char>,
    pub working_dir: Seq<char>,
    pub containers: Seq<Seq<char>>,
}

impl View for ComposeProject {
    type V = ProjectView;

    open spec fn view(&self) -> ProjectView {
        ProjectView {
            project_name: self.project_name@,
            working_dir: self.working_dir@,
            containers: self.containers@.map_values(|s: String| s@),
        }
    }
}

impl ComposeProject {
    /// How many containers the project holds.
    pub fn container_count(&self) -> (r: usize)
        ensures
            r == self@.containers.len(),
    {
        self.containers.len()
    }
}

/// The abstract form of one labelled container.
pub ghost struct EntryView {
    pub container_name: Seq<char>,
    pub working_dir: Seq<char>,
    pub project_name: Seq<char>,
}

impl View for ComposeEntry {
    type V = EntryView;

    open spec fn view(&self) -> EntryView {
        EntryView {
            container_name: self.container_name@,
            working_dir: self.working_dir@,
            project_name: self.project_name@,
        }
    }
}

/// Lexicographic order on character sequences, by scalar value: the order
/// the dashboard sorts project names in.
pub open spec fn lex_le(a: Seq<char>, b: Seq<char>) -> bool
    decreases a.len(),
{
    if a.len() == 0 {
        true
    } else if b.len() == 0 {
        false
    } else if a[0] != b[0] {
        a[0] < b[0]
    } else {
        lex_le(a.drop_first(), b.drop_first())
    }
}

/// The order is total: of any two sequences one comes first.
pub proof fn lemma_lex_total(a: Seq<char>, b: Seq<char>)
    ensures
        lex_le(a, b) || lex_le(b, a),
    decreases a.len(),
{
    if a.len() > 0 && b.len() > 0 && a[0] == b[0] {
        lemma_lex_total(a.drop_first(), b.drop_first());
    }
}

/// The order is transitive.
pub proof fn lemma_lex_trans(a: Seq<char>, b: Seq<char>, c: Seq<char>)
    requires
        lex_le(a, b),
        lex_le(b, c),
    ensures
        lex_le(a, c),
    decreases a.len(),
{
    if a.len() > 0 && b.len() > 0 && c.len() > 0 {
        if a[0] == b[0] && b[0] == c[0] {
            lemma_lex_trans(a.drop_first(), b.drop_first(), c.drop_first());
        }
    }
}

/// Distinct working directories: grouping never creates two projects for
/// the same directory.
pub proof fn lemma_grouped_distinct(entries: Seq<EntryView>)
    ensures
        forall|i: int, j: int|
            0 <= i < j < grouped(entries).len() ==> (#[trigger] grouped(entries)[i]).working_dir
                != (#[trigger] grouped(entries)[j]).working_dir,
    decreases entries.len(),
{
    if entries.len() > 0 {
        lemma_grouped_distinct(entries.drop_last());
        let prev = grouped(entries.drop_last());
        let e = entries.last();
        if labelled(e) {
            if exists|i: int|
                0 <= i < prev.len() && (#[trigger] prev[i]).working_dir == e.working_dir {
                let t = choose|i: int|
                    0 <= i < prev.len() && (#[trigger] prev[i]).working_dir == e.working_dir;
                assert(grouped(entries)[t].working_dir == prev[t].working_dir);
                assert(forall|i: int|
                    0 <= i < prev.len() && i != t ==> (#[trigger] grouped(entries)[i]) == prev[i]);
            } else {
                assert(forall|i: int|
                    0 <= i < prev.len() ==> (#[trigger] prev[i]).working_dir != e.working_dir);
            }
        }
    }
}

/// Whether `a` comes before `b` in lexicographic order.
fn str_lex_le(a: &str, b: &str) -> (r: bool)
    ensures
        r == lex_le(a@, b@),
{
    let a_len = a.unicode_len();
    let b_len = b.unicode_len();
    proof {
        assert(a@.skip(0) =~= a@);
        assert(b@.skip(0) =~= b@);
    }
    let mut i: usize = 0;
    while i < a_len && i < b_len
        invariant
            i <= a_len,
            i <= b_len,
            a_len == a@.len(),
            b_len == b@.len(),
            lex_le(a@, b@) == lex_le(a@.skip(i as int), b@.skip(i as int)),
        decreases a_len - i,
    {
        let ca = a.get_char(i);
        let cb = b.get_char(i);
        proof {
            assert(a@.skip(i as int)[0] == a@[i as int]);
            assert(b@.skip(i as int)[0] == b@[i as int]);
            assert(a@.skip(i as int).drop_first() =~= a@.skip(i as int + 1));
            assert(b@.skip(i as int).drop_first() =~= b@.skip(i as int + 1));
        }
        if ca != cb {
            return ca < cb;
        }
        i += 1;
    }
    proof {
        if i >= a_len {
            assert(a@.skip(i as int).len() == 0);
        } else {
            assert(b@.skip(i as int).len() == 0);
            assert(a@.skip(i as int).len() > 0);
        }
    }
    a_len <= b_len
}

/// Whether the entry carries both compose labels.
pub open spec fn labelled(e: EntryView) -> bool {
    e.working_dir.len() != 0 && e.project_name.len() != 0
}

/// The projects that a sequence of labelled containers forms, one per
/// working directory, each collecting its containers in arrival order;
/// unlabelled containers are skipped.  (Order of the projects here is
/// arrival order of their first containers; the public function sorts.)
pub open spec fn grouped(entries: Seq<EntryView>) -> Seq<ProjectView>
    decreases entries.len(),
{
    if entries.len() == 0 {
        Seq::empty()
    } else {
        let prev = grouped(entries.drop_last());
        let e = entries.last();
        if !labelled(e) {
            prev
        } else if exists|i: int| 0 <= i < prev.len() && (#[trigger] prev[i]).working_dir
            == e.working_dir {
            let i = choose|i: int|
                0 <= i < prev.len() && (#[trigger] prev[i]).working_dir == e.working_dir;
            prev.update(
                i,
                ProjectView { containers: prev[i].containers.push(e.container_name), ..prev[i] },
            )
        } else {
            prev.push(
                ProjectView {
                    project_name: e.project_name,
                    working_dir: e.working_dir,
                    containers: seq![e.container_name],
                },
            )
        }
    }
}

/// Whether the projects are sorted by name.
pub open spec fn sorted_by_name(ps: Seq<ProjectView>) -> bool {
    forall|i: int, j: int|
        0 <= i < j < ps.len() ==> lex_le(
            (#[trigger] ps[i]).project_name,
            (#[trigger] ps[j]).project_name,
        )
}

/// Group labelled containers into compose projects and sort the projects
/// by name: the result holds exactly the projects of [`grouped`], in an
/// order sorted by project name.
pub fn group_containers_by_project(entries: Vec<ComposeEntry>) -> (r: Vec<ComposeProject>)
    ensures
        r@.map_values(|p: ComposeProject| p@).to_multiset() == grouped(
            entries@.map_values(|e: ComposeEntry| e@),
        ).to_multiset(),
        sorted_by_name(r@.map_values(|p: ComposeProject| p@)),
{
    let ghost all = entries@.map_values(|e: ComposeEntry| e@);
    let n = entries.len();
    let mut projects: Vec<ComposeProject> = Vec::new();
    let mut idx: usize = 0;
    // Group, keeping one project per working directory.
    while idx < n
        invariant
            idx <= n,
            n == entries@.len(),
            all == entries@.map_values(|e: ComposeEntry| e@),
            projects@.map_values(|p: ComposeProject| p@) =~= grouped(all.take(idx as int)),
        decreases n - idx,
    {
        let e = &entries[idx];
        proof {
            assert(all.take(idx as int + 1).drop_last() =~= all.take(idx as int));
            assert(all.take(idx as int + 1).last() == all[idx as int]);
            assert(all[idx as int] == e@);
        }
        if !e.working_dir.as_str().is_empty() && !e.project_name.as_str().is_empty() {
            let m = projects.len();
            let mut j: usize = 0;
            let mut found = false;
            while j < m && !found
                invariant
                    j <= m,
                    m == projects@.len(),
                    !found ==> forall|k: int|
                        0 <= k < j ==> (#[trigger] projects@[k])@.working_dir != e@.working_dir,
                    found ==> j < m && projects@[j as int]@.working_dir == e@.working_dir,
                decreases m - j + (if found { 0int } else { 1int }),
            {
                if projects[j].working_dir == e.working_dir {
                    found = true;
                } else {
                    j += 1;
                }
            }
            if found {
                let ghost pre = projects@.map_values(|p: ComposeProject| p@);
                proof {
                    assert(pre[j as int].working_dir == e@.working_dir);
                    assert(exists|i: int|
                        0 <= i < pre.len() && (#[trigger] pre[i]).working_dir == e@.working_dir);
                }
                let mut p = projects.remove(j);
                let ghost pv0 = p@;
                p.containers.push(e.container_name.clone());
                projects.insert(j, p);
                proof {
                    lemma_grouped_distinct(all.take(idx as int));
                    let target = choose|i: int|
                        0 <= i < pre.len() && (#[trigger] pre[i]).working_dir == e@.working_dir;
                    assert(target == j as int);
                    assert(pv0 == pre[j as int]);
                    assert(projects@[j as int]@.containers =~= pre[
                        j as int
                    ].containers.push(e@.container_name));
                    assert(projects@[j as int]@ == (ProjectView {
                        containers: pre[j as int].containers.push(e@.container_name),
                        ..pre[j as int]
                    }));
                    assert(projects@.map_values(|p: ComposeProject| p@) =~= pre.update(
                        j as int,
                        ProjectView {
                            containers: pre[j as int].containers.push(e@.container_name),
                            ..pre[j as int]
                        },
                    ));
                }
            } else {
                let fresh = ComposeProject {
                    project_name: e.project_name.clone(),
                    working_dir: e.working_dir.clone(),
                    containers: vec![e.container_name.clone()],
                };
                proof {
                    assert(fresh@.containers =~= seq![e@.container_name]);
                }
                let ghost pre = projects@.map_values(|p: ComposeProject| p@);
                let ghost fv = fresh@;
                projects.push(fresh);
                proof {
                    assert(projects@.map_values(|p: ComposeProject| p@) =~= pre.push(fv));
                }
            }
        }
        idx += 1;
    }
    proof {
        assert(all.take(n as int) =~= all);
    }

    // Sort by project name, stably, by inserting each project after every
    // name that does not come after it.
    let ghost unsorted = projects@.map_values(|p: ComposeProject| p@);
    let mut sorted: Vec<ComposeProject> = Vec::new();
    proof {
        assert(unsorted.take(0) =~= Seq::<ProjectView>::empty());
        assert(projects@.map_values(|p: ComposeProject| p@) =~= unsorted.skip(0));
        assert(sorted@.map_values(|p: ComposeProject| p@).to_multiset() =~= unsorted.take(
            0,
        ).to_multiset());
    }
    let mut taken: usize = 0;
    let total = projects.len();
    while taken < total
        invariant
            taken <= total,
            total == unsorted.len(),
            projects@.map_values(|p: ComposeProject| p@) =~= unsorted.skip(taken as int),
            sorted@.map_values(|p: ComposeProject| p@).to_multiset() == unsorted.take(
                taken as int,
            ).to_multiset(),
            sorted_by_name(sorted@.map_values(|p: ComposeProject| p@)),
        decreases total - taken,
    {
        let ghost pre_rest = projects@.map_values(|p: ComposeProject| p@);
        let ghost pre_vec = projects@;
        proof {
            assert(pre_rest.len() == projects@.len());
            assert(projects@.len() > 0);
        }
        let p = projects.remove(0);
        proof {
            assert(pre_rest[0] == unsorted[taken as int]);
            assert forall|k: int| 0 <= k < projects@.len() implies projects@.map_values(
                |q: ComposeProject| q@,
            )[k] == #[trigger] unsorted.skip(taken as int + 1)[k] by {
                assert(projects@[k] == pre_vec[k + 1]);
                assert(pre_rest[k + 1] == unsorted.skip(taken as int)[k + 1]);
            }
            assert(projects@.map_values(|q: ComposeProject| q@) =~= unsorted.skip(
                taken as int + 1,
            ));
        }
        let m = sorted.len();
        let mut pos: usize = 0;
        while pos < m && !str_lex_le(p.project_name.as_str(), sorted[pos].project_name.as_str())
            invariant
                pos <= m,
                m == sorted@.len(),
                forall|k: int|
                    0 <= k < pos ==> !lex_le(p@.project_name, (#[trigger] sorted@[k])@.project_name),
            decreases m - pos,
        {
            pos += 1;
        }
        let ghost pre_sorted = sorted@.map_values(|q: ComposeProject| q@);
        let ghost pv = p@;
        sorted.insert(pos, p);
        proof {
            assert(sorted@.map_values(|q: ComposeProject| q@) =~= pre_sorted.insert(
                pos as int,
                pv,
            ));
            let now = sorted@.map_values(|q: ComposeProject| q@);
            assert forall|i: int, j: int| 0 <= i < j < now.len() implies lex_le(
                (#[trigger] now[i]).project_name,
                (#[trigger] now[j]).project_name,
            ) by {
                if i < pos && j == pos {
                    lemma_lex_total(pv.project_name, pre_sorted[i].project_name);
                } else if i == pos && j > pos {
                    assert(pre_sorted[j - 1] == now[j]);
                    assert(lex_le(pv.project_name, pre_sorted[pos as int].project_name));
                    if j - 1 > pos {
                        assert(lex_le(
                            pre_sorted[pos as int].project_name,
                            pre_sorted[j - 1].project_name,
                        ));
                        lemma_lex_trans(
                            pv.project_name,
                            pre_sorted[pos as int].project_name,
                            pre_sorted[j - 1].project_name,
                        );
                    }
                }
            }
            assert(unsorted.take(taken as int + 1) =~= unsorted.take(taken as int).push(pv));
            let ins = pre_sorted.insert(pos as int, pv);
            assert(ins.remove(pos as int) =~= pre_sorted);
            assert(ins[pos as int] == pv);
            assert(ins.remove(pos as int).to_multiset() =~= ins.to_multiset().remove(
                ins[pos as int],
            ));
            assert(ins.contains(pv));
            assert(ins.to_multiset().count(pv) > 0);
            assert(ins.to_multiset() =~= pre_sorted.to_multiset().insert(pv)) by {
                assert(ins.to_multiset().remove(pv) =~= pre_sorted.to_multiset());
                assert forall|x: ProjectView| true implies ins.to_multiset().count(x)
                    == pre_sorted.to_multiset().insert(pv).count(x) by {
                    if x == pv {
                        assert(ins.to_multiset().remove(pv).count(pv) == ins.to_multiset().count(
                            pv,
                        ) - 1);
                    } else {
                        assert(ins.to_multiset().remove(pv).count(x) == ins.to_multiset().count(
                            x,
                        ));
                    }
                }
            }
        }
        taken += 1;
    }
    proof {
        assert(unsorted.take(total as int) =~= unsorted);
    }
    sorted
}

} // verus!
