//! The tree walk and its classification: an explicit work-list of
//! (source, destination) directory pairs is drained one directory at a time;
//! every direct child is classified as excluded, a directory to descend
//! into, a file to render, or a file to copy verbatim; and three deferred
//! queues accumulate the work, so that nothing touches the filesystem until
//! classification has completed in full.

use vstd::prelude::*;

verus! {

/// How one directory entry is treated.
#[derive(Clone, Copy, Debug, PartialEq, Eq, Structural)]
pub enum EntryClass {
    /// Skipped entirely: not copied, not rendered, not descended into.
    Excluded,
    /// Recorded for creation and pushed onto the work-list.
    Directory,
    /// Queued to be rendered through the template engine.
    Render,
    /// Queued to be copied byte for byte.
    Copy,
}

/// The classification rule: exclusion wins over everything, directories are
/// descended into, listed template paths are rendered, everything else is
/// copied.
pub open spec fn classify_spec(
    rel: Seq<char>,
    is_dir: bool,
    exclude: Seq<Seq<char>>,
    templates: Seq<Seq<char>>,
) -> EntryClass {
    if exclude.contains(rel) {
        EntryClass::Excluded
    } else if is_dir {
        EntryClass::Directory
    } else if templates.contains(rel) {
        EntryClass::Render
    } else {
        EntryClass::Copy
    }
}

/// Whether the list holds this exact string.
pub fn contains_str(v: &Vec<String>, s: &String) -> (r: bool)
    ensures
        r == v.deep_view().contains(s@),
{
    let mut i: usize = 0;
    while i < v.len()
        invariant
            0 <= i <= v@.len(),
            forall|j: int| 0 <= j < i ==> v.deep_view()[j] != s@,
        decreases v@.len() - i,
    {
        if v[i].eq(s) {
            proof {
                assert(v.deep_view()[i as int] == s@);
            }
            return true;
        }
        i += 1;
    }
    false
}

/// Classifies one entry by its relative path and kind.
pub fn classify(rel: &String, is_dir: bool, exclude: &Vec<String>, templates: &Vec<String>) -> (c:
    EntryClass)
    ensures
        c == classify_spec(rel@, is_dir, exclude.deep_view(), templates.deep_view()),
{
    if contains_str(exclude, rel) {
        EntryClass::Excluded
    } else if is_dir {
        EntryClass::Directory
    } else if contains_str(templates, rel) {
        EntryClass::Render
    } else {
        EntryClass::Copy
    }
}

/// A child path under a relative directory path; the root is the empty path.
pub open spec fn join_rel(dir: Seq<char>, name: Seq<char>) -> Seq<char> {
    if dir.len() == 0 {
        name
    } else {
        dir + "/"@ + name
    }
}

/// An absolute path under a base directory; a root relative path names the
/// base itself.
pub open spec fn join_abs(base: Seq<char>, rel: Seq<char>) -> Seq<char> {
    if rel.len() == 0 {
        base
    } else {
        base + "/"@ + rel
    }
}

/// A single path segment: a directory entry's name never holds a separator.
pub open spec fn no_slash(name: Seq<char>) -> bool {
    forall|i: int| 0 <= i < name.len() ==> name[i] != '/'
}

/// `a` is `b` itself or a directory above it.
pub open spec fn path_ancestor(a: Seq<char>, b: Seq<char>) -> bool {
    a == b || (b.len() > a.len() && b.take(a.len() as int) == a && b[a.len() as int] == '/')
}

/// No member of the exclusion set is the path itself or a directory above it.
pub open spec fn not_excluded_under(rel: Seq<char>, exclude: Seq<Seq<char>>) -> bool {
    forall|i: int| 0 <= i < exclude.len() ==> !path_ancestor(#[trigger] exclude[i], rel)
}

/// An ancestor of a child path is an ancestor of its parent directory, or
/// the child path itself: a single new segment opens no other way in.
pub proof fn lemma_ancestor_of_child(e: Seq<char>, rel: Seq<char>, name: Seq<char>)
    requires
        name.len() > 0,
        no_slash(name),
        path_ancestor(e, join_rel(rel, name)),
    ensures
        path_ancestor(e, rel) || e == join_rel(rel, name),
{
    reveal_strlit("/");
    let c = join_rel(rel, name);
    if e != c {
        let el = e.len() as int;
        assert(c.take(el) == e && c[el] == '/');
        if rel.len() == 0 {
            assert(c == name);
            assert(false);
        } else {
            assert(c =~= rel + "/"@ + name);
            assert(c.len() == rel.len() + 1 + name.len());
            if el < rel.len() {
                assert(rel.take(el) =~= c.take(el));
                assert(rel[el] == c[el]);
                assert(path_ancestor(e, rel));
            } else if el == rel.len() {
                assert(e =~= rel);
                assert(path_ancestor(e, rel));
            } else {
                assert(c[el] == name[el - rel.len() - 1]);
                assert(false);
            }
        }
    }
}

/// Joining one more segment below a base directory appends one separator and
/// the segment, whatever the relative path so far.
pub proof fn lemma_join_abs_step(base: Seq<char>, rel: Seq<char>, name: Seq<char>)
    requires
        name.len() > 0,
    ensures
        join_abs(base, join_rel(rel, name)) == join_abs(base, rel) + "/"@ + name,
{
    if rel.len() == 0 {
        assert(join_abs(base, join_rel(rel, name)) =~= join_abs(base, rel) + "/"@ + name);
    } else {
        assert(base + "/"@ + (rel + "/"@ + name) =~= (base + "/"@ + rel) + "/"@ + name);
    }
}

/// Appends a path segment to a directory path.
fn join_path(dir: &str, name: &str) -> (r: String)
    ensures
        r@ == dir@ + "/"@ + name@,
{
    let mut r = String::from_str(dir);
    r.append("/");
    r.append(name);
    proof {
        assert(r@ =~= dir@ + "/"@ + name@);
    }
    r
}

/// Appends a path segment to a relative directory path (empty at the root).
fn join_rel_path(dir: &str, name: &str) -> (r: String)
    ensures
        r@ == join_rel(dir@, name@),
{
    if dir.is_empty() {
        String::from_str(name)
    } else {
        join_path(dir, name)
    }
}

/// One work-list item: a source directory, its destination, and the
/// project-relative path they share (empty for the roots).
pub struct WalkTarget {
    pub src: String,
    pub dest: String,
    pub rel: String,
}

/// One queued verbatim copy.
pub struct CopyJob {
    pub src: String,
    pub dest: String,
    pub rel: String,
}

/// The walk's whole state: the directories still to scan and the three
/// deferred queues. `renders` holds `(template name, destination)` pairs,
/// the template name being the entry's relative path.
pub struct WalkPlan {
    pub pending: Vec<WalkTarget>,
    pub dirs: Vec<WalkTarget>,
    pub copies: Vec<CopyJob>,
    pub renders: Vec<(String, String)>,
}

/// A work-list item is sound: its paths mirror one relative path under the
/// two roots, and that path lies under no excluded one.
pub open spec fn target_wf(
    src: Seq<char>,
    dest: Seq<char>,
    rel: Seq<char>,
    template_dir: Seq<char>,
    project_dir: Seq<char>,
    exclude: Seq<Seq<char>>,
) -> bool {
    &&& src == join_abs(template_dir, rel)
    &&& dest == join_abs(project_dir, rel)
    &&& not_excluded_under(rel, exclude)
}

/// The walk's invariant: every work-list item, recorded directory, queued
/// copy and queued render mirrors the template tree under the project root,
/// and none of them is an excluded path or lies beneath one.
pub open spec fn plan_wf(
    p: WalkPlan,
    template_dir: Seq<char>,
    project_dir: Seq<char>,
    exclude: Seq<Seq<char>>,
) -> bool {
    &&& forall|i: int| 0 <= i < p.pending@.len() ==> {
        let t = #[trigger] p.pending@[i];
        target_wf(t.src@, t.dest@, t.rel@, template_dir, project_dir, exclude)
    }
    &&& forall|i: int| 0 <= i < p.dirs@.len() ==> {
        let t = #[trigger] p.dirs@[i];
        target_wf(t.src@, t.dest@, t.rel@, template_dir, project_dir, exclude)
    }
    &&& forall|i: int| 0 <= i < p.copies@.len() ==> {
        let t = #[trigger] p.copies@[i];
        target_wf(t.src@, t.dest@, t.rel@, template_dir, project_dir, exclude)
    }
    &&& forall|i: int| 0 <= i < p.renders@.len() ==> {
        let t = #[trigger] p.renders@[i];
        t.1@ == join_abs(project_dir, t.0@) && not_excluded_under(t.0@, exclude)
    }
}

/// Some queue already holds this relative path.
pub open spec fn plan_holds_rel(p: WalkPlan, rel: Seq<char>) -> bool {
    ||| exists|i: int| 0 <= i < p.dirs@.len() && (#[trigger] p.dirs@[i]).rel@ == rel
    ||| exists|i: int| 0 <= i < p.copies@.len() && (#[trigger] p.copies@[i]).rel@ == rel
    ||| exists|i: int| 0 <= i < p.renders@.len() && (#[trigger] p.renders@[i]).0@ == rel
}

/// No relative path appears twice across the three queues: a path is never
/// both a copy target and a render target, never recorded for creation
/// twice, and never queued twice in any role.
pub open spec fn plan_distinct(p: WalkPlan) -> bool {
    &&& forall|i: int, j: int| 0 <= i < j < p.dirs@.len() ==> (#[trigger] p.dirs@[i]).rel@ != (
    #[trigger] p.dirs@[j]).rel@
    &&& forall|i: int, j: int| 0 <= i < j < p.copies@.len() ==> (#[trigger] p.copies@[i]).rel@ != (
    #[trigger] p.copies@[j]).rel@
    &&& forall|i: int, j: int| 0 <= i < j < p.renders@.len() ==> (#[trigger] p.renders@[i]).0@ != (
    #[trigger] p.renders@[j]).0@
    &&& forall|i: int, j: int|
        0 <= i < p.dirs@.len() && 0 <= j < p.copies@.len() ==> (#[trigger] p.dirs@[i]).rel@ != (
        #[trigger] p.copies@[j]).rel@
    &&& forall|i: int, j: int|
        0 <= i < p.dirs@.len() && 0 <= j < p.renders@.len() ==> (#[trigger] p.dirs@[i]).rel@ != (
        #[trigger] p.renders@[j]).0@
    &&& forall|i: int, j: int|
        0 <= i < p.copies@.len() && 0 <= j < p.renders@.len() ==> (#[trigger] p.copies@[i]).rel@
            != (#[trigger] p.renders@[j]).0@
}

/// The plan at the start of a walk: the two roots on the work-list, every
/// queue empty.
pub fn new_plan(template_dir: &str, project_dir: &str) -> (p: WalkPlan)
    ensures
        p.pending@.len() == 1,
        p.pending@[0].src@ == template_dir@,
        p.pending@[0].dest@ == project_dir@,
        p.pending@[0].rel@ == Seq::<char>::empty(),
        p.dirs@.len() == 0,
        p.copies@.len() == 0,
        p.renders@.len() == 0,
        plan_distinct(p),
        forall|exclude: Seq<Seq<char>>|
            not_excluded_under(Seq::<char>::empty(), exclude) ==> #[trigger] plan_wf(
                p,
                template_dir@,
                project_dir@,
                exclude,
            ),
{
    let root = WalkTarget {
        src: String::from_str(template_dir),
        dest: String::from_str(project_dir),
        rel: String::new(),
    };
    WalkPlan { pending: vec![root], dirs: Vec::new(), copies: Vec::new(), renders: Vec::new() }
}

/// Takes the next directory off the work-list and records its destination
/// for creation; `None` when the walk is complete.
pub fn next_target(plan: &mut WalkPlan) -> (r: Option<WalkTarget>)
    ensures
        final(plan).copies@ == old(plan).copies@,
        final(plan).renders@ == old(plan).renders@,
        match r {
            None => old(plan).pending@.len() == 0 && final(plan).pending@ == old(plan).pending@
                && final(plan).dirs@ == old(plan).dirs@,
            Some(t) => old(plan).pending@.len() > 0 && t.src@ == old(plan).pending@.last().src@
                && t.dest@ == old(plan).pending@.last().dest@ && t.rel@ == old(
                plan,
            ).pending@.last().rel@ && final(plan).pending@ == old(plan).pending@.drop_last()
                && final(plan).dirs@ == old(plan).dirs@.push(old(plan).pending@.last()),
        },
        forall|td: Seq<char>, pd: Seq<char>, ex: Seq<Seq<char>>|
            plan_wf(*old(plan), td, pd, ex) ==> #[trigger] plan_wf(*final(plan), td, pd, ex),
        (plan_distinct(*old(plan)) && (r matches Some(t) ==> !plan_holds_rel(*old(plan), t.rel@))
            ==> plan_distinct(*final(plan))),
{
    match plan.pending.pop() {
        None => None,
        Some(t) => {
            let out = WalkTarget { src: t.src.clone(), dest: t.dest.clone(), rel: t.rel.clone() };
            plan.dirs.push(t);
            Some(out)
        },
    }
}

/// Classifies one directory entry and records the outcome: an excluded
/// entry leaves the plan untouched; a directory joins the work-list; a
/// listed template joins the render queue under its relative path; any
/// other file joins the copy queue. Exactly one queue grows, by exactly one
/// entry, and the walk invariant is preserved.
pub fn record_entry(
    plan: &mut WalkPlan,
    target: &WalkTarget,
    name: &String,
    is_dir: bool,
    exclude: &Vec<String>,
    templates: &Vec<String>,
) -> (c: EntryClass)
    requires
        name@.len() > 0,
        no_slash(name@),
    ensures
        c == classify_spec(
            join_rel(target.rel@, name@),
            is_dir,
            exclude.deep_view(),
            templates.deep_view(),
        ),
        final(plan).dirs@ == old(plan).dirs@,
        (c is Excluded ==> {
            &&& final(plan).pending@ == old(plan).pending@
            &&& final(plan).copies@ == old(plan).copies@
            &&& final(plan).renders@ == old(plan).renders@
        }),
        (c is Directory ==> {
            &&& final(plan).copies@ == old(plan).copies@
            &&& final(plan).renders@ == old(plan).renders@
            &&& final(plan).pending@.len() == old(plan).pending@.len() + 1
            &&& final(plan).pending@.drop_last() == old(plan).pending@
            &&& final(plan).pending@.last().src@ == target.src@ + "/"@ + name@
            &&& final(plan).pending@.last().dest@ == target.dest@ + "/"@ + name@
            &&& final(plan).pending@.last().rel@ == join_rel(target.rel@, name@)
        }),
        (c is Render ==> {
            &&& final(plan).pending@ == old(plan).pending@
            &&& final(plan).copies@ == old(plan).copies@
            &&& final(plan).renders@.len() == old(plan).renders@.len() + 1
            &&& final(plan).renders@.drop_last() == old(plan).renders@
            &&& final(plan).renders@.last().0@ == join_rel(target.rel@, name@)
            &&& final(plan).renders@.last().1@ == target.dest@ + "/"@ + name@
        }),
        (c is Copy ==> {
            &&& final(plan).pending@ == old(plan).pending@
            &&& final(plan).renders@ == old(plan).renders@
            &&& final(plan).copies@.len() == old(plan).copies@.len() + 1
            &&& final(plan).copies@.drop_last() == old(plan).copies@
            &&& final(plan).copies@.last().src@ == target.src@ + "/"@ + name@
            &&& final(plan).copies@.last().dest@ == target.dest@ + "/"@ + name@
            &&& final(plan).copies@.last().rel@ == join_rel(target.rel@, name@)
        }),
        forall|td: Seq<char>, pd: Seq<char>|
            plan_wf(*old(plan), td, pd, exclude.deep_view()) && target_wf(
                target.src@,
                target.dest@,
                target.rel@,
                td,
                pd,
                exclude.deep_view(),
            ) ==> #[trigger] plan_wf(*final(plan), td, pd, exclude.deep_view()),
        (plan_distinct(*old(plan)) && !plan_holds_rel(*old(plan), join_rel(target.rel@, name@))
            ==> plan_distinct(*final(plan))),
{
    let ghost p0 = *plan;
    let rel = join_rel_path(target.rel.as_str(), name.as_str());
    let c = classify(&rel, is_dir, exclude, templates);
    match c {
        EntryClass::Excluded => {},
        EntryClass::Directory => {
            let src = join_path(target.src.as_str(), name.as_str());
            let dest = join_path(target.dest.as_str(), name.as_str());
            plan.pending.push(WalkTarget { src, dest, rel });
        },
        EntryClass::Render => {
            let dest = join_path(target.dest.as_str(), name.as_str());
            plan.renders.push((rel, dest));
        },
        EntryClass::Copy => {
            let src = join_path(target.src.as_str(), name.as_str());
            let dest = join_path(target.dest.as_str(), name.as_str());
            plan.copies.push(CopyJob { src, dest, rel });
        },
    }
    proof {
        let relv = join_rel(target.rel@, name@);
        let exv = exclude.deep_view();
        assert forall|td: Seq<char>, pd: Seq<char>|
            plan_wf(p0, td, pd, exv) && target_wf(
                target.src@,
                target.dest@,
                target.rel@,
                td,
                pd,
                exv,
            ) implies #[trigger] plan_wf(*plan, td, pd, exv) by {
            if !(c is Excluded) {
                assert(!exv.contains(relv));
                assert forall|i: int| 0 <= i < exv.len() implies !path_ancestor(
                    #[trigger] exv[i],
                    relv,
                ) by {
                    if path_ancestor(exv[i], relv) {
                        lemma_ancestor_of_child(exv[i], target.rel@, name@);
                        if exv[i] == relv {
                            assert(exv.contains(relv));
                        } else {
                            assert(path_ancestor(exv[i], target.rel@));
                        }
                    }
                }
                lemma_join_abs_step(td, target.rel@, name@);
                lemma_join_abs_step(pd, target.rel@, name@);
            }
        }
    }
    c
}

/// Law: a path in the exclusion set, and anything beneath it, is absent
/// from every queue a sound walk state holds: it is never recorded for
/// creation, never copied, never rendered, and never descended into.
pub proof fn lemma_excluded_absent(
    p: WalkPlan,
    template_dir: Seq<char>,
    project_dir: Seq<char>,
    exclude: Seq<Seq<char>>,
    e: Seq<char>,
)
    requires
        plan_wf(p, template_dir, project_dir, exclude),
        exclude.contains(e),
    ensures
        forall|i: int| 0 <= i < p.pending@.len() ==> !path_ancestor(
            e,
            (#[trigger] p.pending@[i]).rel@,
        ),
        forall|i: int| 0 <= i < p.dirs@.len() ==> !path_ancestor(e, (#[trigger] p.dirs@[i]).rel@),
        forall|i: int| 0 <= i < p.copies@.len() ==> !path_ancestor(
            e,
            (#[trigger] p.copies@[i]).rel@,
        ),
        forall|i: int| 0 <= i < p.renders@.len() ==> !path_ancestor(
            e,
            (#[trigger] p.renders@[i]).0@,
        ),
{
    let j = choose|j: int| 0 <= j < exclude.len() && exclude[j] == e;
    assert forall|i: int| 0 <= i < p.pending@.len() implies !path_ancestor(
        e,
        (#[trigger] p.pending@[i]).rel@,
    ) by {
        assert(target_wf(
            p.pending@[i].src@,
            p.pending@[i].dest@,
            p.pending@[i].rel@,
            template_dir,
            project_dir,
            exclude,
        ));
    }
    assert forall|i: int| 0 <= i < p.dirs@.len() implies !path_ancestor(
        e,
        (#[trigger] p.dirs@[i]).rel@,
    ) by {
        assert(target_wf(
            p.dirs@[i].src@,
            p.dirs@[i].dest@,
            p.dirs@[i].rel@,
            template_dir,
            project_dir,
            exclude,
        ));
    }
    assert forall|i: int| 0 <= i < p.copies@.len() implies !path_ancestor(
        e,
        (#[trigger] p.copies@[i]).rel@,
    ) by {
        assert(target_wf(
            p.copies@[i].src@,
            p.copies@[i].dest@,
            p.copies@[i].rel@,
            template_dir,
            project_dir,
            exclude,
        ));
    }
    assert forall|i: int| 0 <= i < p.renders@.len() implies !path_ancestor(
        e,
        (#[trigger] p.renders@[i]).0@,
    ) by {
        assert(p.renders@[i].1@ == join_abs(project_dir, p.renders@[i].0@) && not_excluded_under(
            p.renders@[i].0@,
            exclude,
        ));
    }
}

/// Law: a sound walk state mirrors the template tree. Every queued copy
/// reads from its relative path under the template root and writes to the
/// same relative path under the project root, and every queued render writes
/// to the mirrored destination of the template named by its relative path —
/// so a walk with nothing excluded and nothing templated reproduces the
/// input tree file for file.
pub proof fn lemma_plan_mirrors(
    p: WalkPlan,
    template_dir: Seq<char>,
    project_dir: Seq<char>,
    exclude: Seq<Seq<char>>,
)
    requires
        plan_wf(p, template_dir, project_dir, exclude),
    ensures
        forall|i: int| 0 <= i < p.copies@.len() ==> {
            let t = #[trigger] p.copies@[i];
            t.src@ == join_abs(template_dir, t.rel@) && t.dest@ == join_abs(project_dir, t.rel@)
        },
        forall|i: int| 0 <= i < p.renders@.len() ==> (#[trigger] p.renders@[i]).1@ == join_abs(
            project_dir,
            p.renders@[i].0@,
        ),
        forall|i: int| 0 <= i < p.dirs@.len() ==> (#[trigger] p.dirs@[i]).dest@ == join_abs(
            project_dir,
            p.dirs@[i].rel@,
        ),
{
}

/// Law: with an empty template list nothing is ever classified for
/// rendering; every entry is a directory to descend into or a file to copy
/// verbatim, unless it is excluded. With an empty exclusion list nothing is
/// excluded either, so the walk reproduces the whole tree as copies.
pub proof fn lemma_no_templates_all_copy(rel: Seq<char>, is_dir: bool, exclude: Seq<Seq<char>>)
    ensures
        !(classify_spec(rel, is_dir, exclude, Seq::<Seq<char>>::empty()) is Render),
        !is_dir && !exclude.contains(rel) ==> classify_spec(
            rel,
            is_dir,
            exclude,
            Seq::<Seq<char>>::empty(),
        ) is Copy,
        exclude.len() == 0 ==> !(classify_spec(
            rel,
            is_dir,
            exclude,
            Seq::<Seq<char>>::empty(),
        ) is Excluded),
{
    assert(!Seq::<Seq<char>>::empty().contains(rel));
    if exclude.len() == 0 {
        assert(!exclude.contains(rel));
    }
}

} // verus!
