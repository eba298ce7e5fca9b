//! Rendering a project and its context sections to one markdown context
//! file.

use vstd::prelude::*;
use vstd::seq_lib::group_to_multiset_ensures;
use vstd::string::StringExecFns;

use crate::project::Project;
use crate::section::{spec_section_markdown, ContextSection};

verus! {

/// The identity index sequence of length `n`.
pub open spec fn idents(n: nat) -> Seq<usize> {
    Seq::new(n, |i: int| i as usize)
}

/// `perm` lists each position of `sections` exactly once, ordered so that
/// the sections' order fields never decrease.
pub open spec fn is_sorted_perm(sections: Seq<ContextSection>, perm: Seq<usize>) -> bool {
    &&& perm.len() == sections.len()
    &&& forall|k: int| 0 <= k < perm.len() ==> (#[trigger] perm[k]) < sections.len()
    &&& perm.to_multiset() == idents(sections.len()).to_multiset()
    &&& forall|k1: int, k2: int|
        0 <= k1 < k2 < perm.len() ==> sections[perm[k1] as int].order <= sections[perm[k2] as int].order
}

/// The markdown of the sections of `sections` picked by `perm`, in that
/// order.
pub open spec fn sections_md(sections: Seq<ContextSection>, perm: Seq<usize>) -> Seq<char>
    decreases perm.len(),
{
    if perm.len() == 0 {
        Seq::empty()
    } else {
        sections_md(sections, perm.drop_last()) + spec_section_markdown(
            sections[perm.last() as int].title@,
            sections[perm.last() as int].content@,
        )
    }
}

/// One tech stack bullet line per entry, in order.
pub open spec fn tech_lines(stack: Seq<String>) -> Seq<char>
    decreases stack.len(),
{
    if stack.len() == 0 {
        Seq::empty()
    } else {
        tech_lines(stack.drop_last()) + "- "@ + stack.last()@ + "\n"@
    }
}

/// The whole context file: title, overview, tech stack, the sections in
/// `perm` order, and a footer with the given timestamp.
pub open spec fn md_text(
    project: Project,
    sections: Seq<ContextSection>,
    perm: Seq<usize>,
    timestamp: Seq<char>,
) -> Seq<char> {
    "# "@ + project.name@ + "\n\n"@ + "## Project Overview\n"@ + (match project.description {
        Some(d) => d@ + "\n\n"@,
        None => Seq::empty(),
    }) + (if project.tech_stack@.len() > 0 {
        "## Tech Stack\n"@ + tech_lines(project.tech_stack@) + "\n"@
    } else {
        Seq::empty()
    }) + sections_md(sections, perm) + "---\n"@ + "_Last updated: "@ + timestamp + "_\n"@
}

/// The positions of `sections` reordered so that the order fields never
/// decrease.
fn sorted_indices(sections: &Vec<ContextSection>) -> (r: Vec<usize>)
    ensures
        is_sorted_perm(sections@, r@),
{
    broadcast use group_to_multiset_ensures;

    let n = sections.len();
    let mut work: Vec<usize> = Vec::new();
    let mut i: usize = 0;
    while i < n
        invariant
            i <= n,
            work@ =~= idents(i as nat),
        decreases n - i,
    {
        work.push(i);
        proof {
            assert(work@ =~= idents(i as nat + 1));
        }
        i = i + 1;
    }
    let mut r: Vec<usize> = Vec::new();
    while work.len() > 0
        invariant
            n == sections@.len(),
            forall|k: int| 0 <= k < work@.len() ==> (#[trigger] work@[k]) < n,
            forall|k: int| 0 <= k < r@.len() ==> (#[trigger] r@[k]) < n,
            r@.to_multiset().add(work@.to_multiset()) =~= idents(n as nat).to_multiset(),
            r@.len() + work@.len() == n,
            forall|k1: int, k2: int|
                0 <= k1 < k2 < r@.len() ==> sections@[r@[k1] as int].order
                    <= sections@[r@[k2] as int].order,
            forall|k1: int, k2: int|
                0 <= k1 < r@.len() && 0 <= k2 < work@.len() ==> sections@[r@[k1] as int].order
                    <= sections@[work@[k2] as int].order,
        decreases work@.len(),
    {
        let mut m: usize = 0;
        let mut mi: usize = 1;
        while mi < work.len()
            invariant
                work@.len() > 0,
                n == sections@.len(),
                forall|k: int| 0 <= k < work@.len() ==> (#[trigger] work@[k]) < n,
                m < mi <= work@.len(),
                forall|j: int|
                    0 <= j < mi ==> sections@[work@[m as int] as int].order
                        <= sections@[(#[trigger] work@[j]) as int].order,
            decreases work@.len() - mi,
        {
            if sections[work[mi]].order < sections[work[m]].order {
                m = mi;
            }
            mi = mi + 1;
        }
        let ghost work0 = work@;
        let ghost r0 = r@;
        let picked = work.remove(m);
        r.push(picked);
        proof {
            broadcast use vstd::multiset::group_multiset_axioms;

            assert(r@.drop_last() =~= r0);
            assert(r@ =~= r0.push(picked));
            assert(work@ =~= work0.remove(m as int));
            vstd::seq_lib::to_multiset_build(r0, picked);
            assert(r@.to_multiset() =~= r0.to_multiset().insert(picked));
            vstd::seq_lib::to_multiset_remove(work0, m as int);
            assert(work@.to_multiset() =~= work0.to_multiset().remove(picked));
            assert(work0.contains(picked));
            work0.to_multiset_ensures();
            assert(work0.to_multiset().count(picked) > 0);
            assert(r@.to_multiset().add(work@.to_multiset()) =~= r0.to_multiset().add(
                work0.to_multiset(),
            ));
            assert forall|k1: int, k2: int|
                0 <= k1 < r@.len() && 0 <= k2 < work@.len() implies sections@[r@[k1] as int].order
                <= sections@[work@[k2] as int].order by {
                assert(work@[k2] == work0.remove(m as int)[k2]);
                if k2 < m {
                    assert(work0.remove(m as int)[k2] == work0[k2]);
                } else {
                    assert(work0.remove(m as int)[k2] == work0[k2 + 1]);
                }
            }
        }
    }
    proof {
        vstd::multiset::lemma_multiset_empty_len(work@.to_multiset());
        assert(r@.to_multiset() =~= idents(n as nat).to_multiset());
    }
    r
}

/// The context file for the project and its sections, timestamped with the
/// given text: the sections appear ordered by their order fields, each
/// position exactly once.
pub fn generate_claude_md_at(
    project: &Project,
    sections: &Vec<ContextSection>,
    timestamp: &str,
) -> (r: String)
    ensures
        exists|perm: Seq<usize>|
            is_sorted_perm(sections@, perm) && r@ == md_text(*project, sections@, perm, timestamp@),
{
    let order = sorted_indices(sections);
    let mut md = "# ".to_owned();
    md.append(project.name.as_str());
    md.append("\n\n");
    md.append("## Project Overview\n");
    match &project.description {
        Some(d) => {
            md.append(d.as_str());
            md.append("\n\n");
        },
        None => {},
    }
    if project.tech_stack.len() > 0 {
        md.append("## Tech Stack\n");
        let tn = project.tech_stack.len();
        let mut ti: usize = 0;
        let ghost before_tech = md@;
        while ti < tn
            invariant
                tn == project.tech_stack@.len(),
                ti <= tn,
                md@ =~= before_tech + tech_lines(project.tech_stack@.take(ti as int)),
            decreases tn - ti,
        {
            md.append("- ");
            md.append(project.tech_stack[ti].as_str());
            md.append("\n");
            proof {
                assert(project.tech_stack@.take(ti as int + 1).drop_last()
                    =~= project.tech_stack@.take(ti as int));
            }
            ti = ti + 1;
        }
        proof {
            assert(project.tech_stack@.take(tn as int) =~= project.tech_stack@);
        }
        md.append("\n");
    }
    let sn = order.len();
    let mut si: usize = 0;
    let ghost before_sections = md@;
    while si < sn
        invariant
            is_sorted_perm(sections@, order@),
            sn == order@.len(),
            si <= sn,
            md@ =~= before_sections + sections_md(sections@, order@.take(si as int)),
        decreases sn - si,
    {
        let section = &sections[order[si]];
        let piece = section.to_markdown();
        md.append(piece.as_str());
        proof {
            assert(order@.take(si as int + 1).drop_last() =~= order@.take(si as int));
        }
        si = si + 1;
    }
    proof {
        assert(order@.take(sn as int) =~= order@);
    }
    md.append("---\n");
    md.append("_Last updated: ");
    md.append(timestamp);
    md.append("_\n");
    proof {
        assert(md@ =~= md_text(*project, sections@, order@, timestamp@));
    }
    md
}

/// The context file for the project and its sections, timestamped with the
/// current instant. The timestamp moves with the wall clock, so the file is
/// promised only up to some timestamp text.
pub fn generate_claude_md(project: &Project, sections: &Vec<ContextSection>) -> (r: String)
    ensures
        exists|perm: Seq<usize>, ts: Seq<char>|
            is_sorted_perm(sections@, perm) && r@ == md_text(*project, sections@, perm, ts),
{
    let timestamp = crate::clock::now_formatted();
    generate_claude_md_at(project, sections, timestamp.as_str())
}

} // verus!
