//! The template resolver: a deterministic, priority-ordered match from the
//! normalized component selection and the optional frontend choice to at most
//! one template key.
//!
//! Candidates are tried from the largest required-component set down to the
//! single-component sets. A multi-component candidate matches only when the
//! selection equals its required set exactly; a single-component candidate
//! matches whenever its component is selected, extra selections allowed.

use vstd::prelude::*;

use crate::registry::{spec_lookup, template_catalog};
use crate::text::str_eq;

verus! {

/// The frontend choice relevant to resolution: one of the two supported
/// frameworks, or none (an absent or unrecognized frontend).
pub ghost enum FrontendKind {
    Plain,
    React,
    Svelte,
}

/// The frontend kind named by an optional frontend string.
pub open spec fn frontend_kind(f: Option<Seq<char>>) -> FrontendKind {
    match f {
        Some(s) => if s == "react"@ {
            FrontendKind::React
        } else if s == "svelte"@ {
            FrontendKind::Svelte
        } else {
            FrontendKind::Plain
        },
        None => FrontendKind::Plain,
    }
}

/// The priority-ordered candidate list for a frontend kind: template key and
/// required component set, most specific first.
pub open spec fn priority_list(k: FrontendKind) -> Seq<(Seq<char>, Seq<Seq<char>>)> {
    match k {
        FrontendKind::React => seq![
            ("ripress-wynd-lume-react"@, seq!["ripress"@, "wynd"@, "lume"@]),
            ("ripress-wynd-react"@, seq!["ripress"@, "wynd"@]),
            ("ripress-lume-react"@, seq!["ripress"@, "lume"@]),
            ("wynd-lume-react"@, seq!["wynd"@, "lume"@]),
            ("ripress-react"@, seq!["ripress"@]),
            ("wynd-react"@, seq!["wynd"@]),
            ("lume-react"@, seq!["lume"@]),
        ],
        FrontendKind::Svelte => seq![
            ("ripress-wynd-lume-svelte"@, seq!["ripress"@, "wynd"@, "lume"@]),
            ("ripress-wynd-svelte"@, seq!["ripress"@, "wynd"@]),
            ("ripress-lume-svelte"@, seq!["ripress"@, "lume"@]),
            ("wynd-lume-svelte"@, seq!["wynd"@, "lume"@]),
            ("ripress-svelte"@, seq!["ripress"@]),
            ("wynd-svelte"@, seq!["wynd"@]),
            ("lume-svelte"@, seq!["lume"@]),
        ],
        FrontendKind::Plain => seq![
            ("ripress_wynd_lume"@, seq!["ripress"@, "wynd"@, "lume"@]),
            ("ripress_wynd"@, seq!["ripress"@, "wynd"@]),
            ("ripress_lume"@, seq!["ripress"@, "lume"@]),
            ("wynd_lume"@, seq!["wynd"@, "lume"@]),
            ("ripress"@, seq!["ripress"@]),
            ("wynd"@, seq!["wynd"@]),
            ("lume"@, seq!["lume"@]),
        ],
    }
}

/// Whether a candidate's required set matches the selection: every required
/// component is selected, and a multi-component requirement additionally
/// forbids extra selections (exact set equality).
pub open spec fn req_matches(req: Seq<Seq<char>>, comps: Seq<Seq<char>>) -> bool {
    (forall|i: int| 0 <= i < req.len() ==> comps.contains(req[i])) && (req.len() > 1
        ==> forall|j: int| 0 <= j < comps.len() ==> req.contains(comps[j]))
}

/// The first candidate, in priority order, whose requirements match the
/// selection and whose key is present in the template catalog.
pub open spec fn resolved_key(
    prios: Seq<(Seq<char>, Seq<Seq<char>>)>,
    comps: Seq<Seq<char>>,
) -> Option<Seq<char>>
    decreases prios.len(),
{
    if prios.len() == 0 {
        None
    } else if req_matches(prios[0].1, comps) && spec_lookup(template_catalog(), prios[0].0)
        is Some {
        Some(prios[0].0)
    } else {
        resolved_key(prios.drop_first(), comps)
    }
}

/// The template key the resolver selects for a selection and frontend choice,
/// or absent when no candidate matches.
pub open spec fn spec_resolve(comps: Seq<Seq<char>>, k: FrontendKind) -> Option<Seq<char>> {
    resolved_key(priority_list(k), comps)
}

/// Mathematical image of the priority table the resolver walks.
pub open spec fn table_view(t: Seq<(&str, Vec<&str>)>) -> Seq<(Seq<char>, Seq<Seq<char>>)> {
    t.map_values(|p: (&str, Vec<&str>)| (p.0@, p.1.deep_view()))
}

/// Whether some selected component equals `s`.
pub(crate) fn vec_contains_str(v: &Vec<String>, s: &str) -> (r: bool)
    ensures
        r == v.deep_view().contains(s@),
{
    let n: usize = v.len();
    let mut i: usize = 0;
    while i < n
        invariant
            i <= n,
            n == v.len(),
            forall|k: int| 0 <= k < i ==> v.deep_view()[k] != s@,
        decreases n - i,
    {
        if str_eq(v[i].as_str(), s) {
            proof {
                assert(v.deep_view()[i as int] == s@);
            }
            return true;
        }
        i = i + 1;
    }
    false
}

/// Whether some required component equals `s`.
fn req_contains_str(req: &Vec<&str>, s: &String) -> (r: bool)
    ensures
        r == req.deep_view().contains(s@),
{
    let n: usize = req.len();
    let mut i: usize = 0;
    while i < n
        invariant
            i <= n,
            n == req.len(),
            forall|k: int| 0 <= k < i ==> req.deep_view()[k] != s@,
        decreases n - i,
    {
        if str_eq(req[i], s.as_str()) {
            proof {
                assert(req.deep_view()[i as int] == s@);
            }
            return true;
        }
        i = i + 1;
    }
    false
}

/// Whether every required component occurs in the selection.
fn all_reqs_selected(req: &Vec<&str>, comps: &Vec<String>) -> (r: bool)
    ensures
        r == (forall|i: int|
            0 <= i < req.deep_view().len() ==> comps.deep_view().contains(req.deep_view()[i])),
{
    let n: usize = req.len();
    let mut i: usize = 0;
    while i < n
        invariant
            i <= n,
            n == req.len(),
            forall|k: int| 0 <= k < i ==> comps.deep_view().contains(req.deep_view()[k]),
        decreases n - i,
    {
        if !vec_contains_str(comps, req[i]) {
            proof {
                assert(!comps.deep_view().contains(req.deep_view()[i as int]));
            }
            return false;
        }
        i = i + 1;
    }
    true
}

/// Whether every selected component occurs in the required set.
fn all_selected_required(comps: &Vec<String>, req: &Vec<&str>) -> (r: bool)
    ensures
        r == (forall|j: int|
            0 <= j < comps.deep_view().len() ==> req.deep_view().contains(comps.deep_view()[j])),
{
    let n: usize = comps.len();
    let mut j: usize = 0;
    while j < n
        invariant
            j <= n,
            n == comps.len(),
            forall|k: int| 0 <= k < j ==> req.deep_view().contains(comps.deep_view()[k]),
        decreases n - j,
    {
        if !req_contains_str(req, &comps[j]) {
            proof {
                assert(!req.deep_view().contains(comps.deep_view()[j as int]));
            }
            return false;
        }
        j = j + 1;
    }
    true
}

/// Whether the selection matches a candidate's required set, with the exact
/// set-equality rule for multi-component candidates.
pub(crate) fn selection_matches(req: &Vec<&str>, comps: &Vec<String>) -> (r: bool)
    ensures
        r == req_matches(req.deep_view(), comps.deep_view()),
{
    if !all_reqs_selected(req, comps) {
        return false;
    }
    if req.len() > 1 {
        all_selected_required(comps, req)
    } else {
        true
    }
}

/// Builds the priority-ordered candidate table for the chosen frontend.
pub(crate) fn priority_table(react: bool, svelte: bool) -> (r: Vec<(&'static str, Vec<&'static str>)>)
    ensures
        table_view(r@) == priority_list(
            if react {
                FrontendKind::React
            } else if svelte {
                FrontendKind::Svelte
            } else {
                FrontendKind::Plain
            },
        ),
{
    let mut t: Vec<(&'static str, Vec<&'static str>)> = Vec::new();
    if react {
        t.push(("ripress-wynd-lume-react", vec!["ripress", "wynd", "lume"]));
        t.push(("ripress-wynd-react", vec!["ripress", "wynd"]));
        t.push(("ripress-lume-react", vec!["ripress", "lume"]));
        t.push(("wynd-lume-react", vec!["wynd", "lume"]));
        t.push(("ripress-react", vec!["ripress"]));
        t.push(("wynd-react", vec!["wynd"]));
        t.push(("lume-react", vec!["lume"]));
        proof {
            assert(table_view(t@) =~~= priority_list(FrontendKind::React));
        }
    } else if svelte {
        t.push(("ripress-wynd-lume-svelte", vec!["ripress", "wynd", "lume"]));
        t.push(("ripress-wynd-svelte", vec!["ripress", "wynd"]));
        t.push(("ripress-lume-svelte", vec!["ripress", "lume"]));
        t.push(("wynd-lume-svelte", vec!["wynd", "lume"]));
        t.push(("ripress-svelte", vec!["ripress"]));
        t.push(("wynd-svelte", vec!["wynd"]));
        t.push(("lume-svelte", vec!["lume"]));
        proof {
            assert(table_view(t@) =~~= priority_list(FrontendKind::Svelte));
        }
    } else {
        t.push(("ripress_wynd_lume", vec!["ripress", "wynd", "lume"]));
        t.push(("ripress_wynd", vec!["ripress", "wynd"]));
        t.push(("ripress_lume", vec!["ripress", "lume"]));
        t.push(("wynd_lume", vec!["wynd", "lume"]));
        t.push(("ripress", vec!["ripress"]));
        t.push(("wynd", vec!["wynd"]));
        t.push(("lume", vec!["lume"]));
        proof {
            assert(table_view(t@) =~~= priority_list(FrontendKind::Plain));
        }
    }
    t
}

} // verus!
