//! The library's general guarantees, stated and proved once: resolution is
//! casing-invariant and depends only on the normalized selection as a set,
//! a resolved key is always a catalog key, the exact-match rule for
//! multi-component templates, and the uniqueness and determinism of the
//! compiled-in catalogs.

use vstd::prelude::*;

use crate::registry::{
    component_catalog, spec_lookup, template_catalog, ComponentCatalog, TemplateCatalog,
};
use crate::resolve::{priority_list, req_matches, resolved_key, spec_resolve, FrontendKind};
use crate::text::lower_all;

verus! {

/// A candidate matches one selection if and only if it matches another with
/// the same members: matching reads the selection only as a set.
proof fn lemma_req_matches_members(req: Seq<Seq<char>>, c1: Seq<Seq<char>>, c2: Seq<Seq<char>>)
    requires
        forall|x: Seq<char>| c1.contains(x) <==> c2.contains(x),
    ensures
        req_matches(req, c1) == req_matches(req, c2),
{
    assert forall|j: int| 0 <= j < c1.len() && (forall|x: Seq<char>|
        c2.contains(x) ==> req.contains(x)) implies req.contains(c1[j]) by {
        assert(c1.contains(c1[j]));
    }
    assert forall|j: int| 0 <= j < c2.len() && (forall|x: Seq<char>|
        c1.contains(x) ==> req.contains(x)) implies req.contains(c2[j]) by {
        assert(c2.contains(c2[j]));
    }
    assert((forall|j: int| 0 <= j < c1.len() ==> req.contains(c1[j])) ==> (forall|x: Seq<char>|
        c1.contains(x) ==> req.contains(x)));
    assert((forall|j: int| 0 <= j < c2.len() ==> req.contains(c2[j])) ==> (forall|x: Seq<char>|
        c2.contains(x) ==> req.contains(x)));
}

/// The walk over a candidate list yields the same key for two selections
/// with the same members.
proof fn lemma_resolved_key_members(
    prios: Seq<(Seq<char>, Seq<Seq<char>>)>,
    c1: Seq<Seq<char>>,
    c2: Seq<Seq<char>>,
)
    requires
        forall|x: Seq<char>| c1.contains(x) <==> c2.contains(x),
    ensures
        resolved_key(prios, c1) == resolved_key(prios, c2),
    decreases prios.len(),
{
    if prios.len() > 0 {
        lemma_req_matches_members(prios[0].1, c1, c2);
        lemma_resolved_key_members(prios.drop_first(), c1, c2);
    }
}

/// Resolution treats the selection as a set: two selections with the same
/// members (whatever their order or duplication) resolve identically, for
/// every frontend choice. In particular the resolver is a function of the
/// normalized selection set and the frontend alone.
pub proof fn lemma_resolve_depends_on_membership(
    c1: Seq<Seq<char>>,
    c2: Seq<Seq<char>>,
    k: FrontendKind,
)
    requires
        forall|x: Seq<char>| c1.contains(x) <==> c2.contains(x),
    ensures
        spec_resolve(c1, k) == spec_resolve(c2, k),
{
    lemma_resolved_key_members(priority_list(k), c1, c2);
}

/// Two selections that agree after normalization resolve identically: the
/// matching result is invariant under the casing of the selection.
pub proof fn lemma_resolve_case_insensitive(
    c1: Seq<Seq<char>>,
    c2: Seq<Seq<char>>,
    k: FrontendKind,
)
    requires
        lower_all(c1) == lower_all(c2),
    ensures
        spec_resolve(lower_all(c1), k) == spec_resolve(lower_all(c2), k),
{
}

/// A key the resolver returns is always present in the template catalog:
/// resolution yields exactly one catalog template or absent, never a
/// dangling key.
pub proof fn lemma_resolved_key_in_catalog(comps: Seq<Seq<char>>, k: FrontendKind)
    ensures
        spec_resolve(comps, k) is Some ==> spec_lookup(
            template_catalog(),
            spec_resolve(comps, k)->Some_0,
        ) is Some,
{
    lemma_resolved_key_in_catalog_rec(priority_list(k), comps);
}

proof fn lemma_resolved_key_in_catalog_rec(
    prios: Seq<(Seq<char>, Seq<Seq<char>>)>,
    comps: Seq<Seq<char>>,
)
    ensures
        resolved_key(prios, comps) is Some ==> spec_lookup(
            template_catalog(),
            resolved_key(prios, comps)->Some_0,
        ) is Some,
    decreases prios.len(),
{
    if prios.len() > 0 {
        lemma_resolved_key_in_catalog_rec(prios.drop_first(), comps);
    }
}

/// The exact-match rule: a selection holding both known components and any
/// extra identifier that names no known component does not match the
/// two-component template (the extra selection would be dropped silently),
/// but falls back to the highest-priority single-component template.
pub proof fn lemma_extra_component_breaks_exact_match(x: Seq<char>)
    requires
        x != "ripress"@,
        x != "wynd"@,
        x != "lume"@,
    ensures
        spec_resolve(seq!["ripress"@, "wynd"@, x], FrontendKind::Plain) == Some("ripress"@),
{
    reveal_strlit("ripress");
    reveal_strlit("wynd");
    reveal_strlit("lume");
    assert("ripress"@.len() == 7);
    assert("wynd"@.len() == 4);
    assert("lume"@.len() == 4);
    assert("wynd"@[0] == 'w' && "lume"@[0] == 'l');
    assert("ripress"@ != "lume"@);
    assert("wynd"@ != "lume"@);
    let comps = seq!["ripress"@, "wynd"@, x];
    let prios = priority_list(FrontendKind::Plain);
    assert(comps.contains("ripress"@)) by {
        assert(comps[0] == "ripress"@);
    }
    assert(comps.contains("wynd"@)) by {
        assert(comps[1] == "wynd"@);
    }
    assert forall|i: int| 0 <= i < comps.len() implies comps[i] != "lume"@ by {
        assert(comps[0] == "ripress"@ && comps[1] == "wynd"@ && comps[2] == x);
    }
    assert(!comps.contains("lume"@));
    let p1 = prios.drop_first();
    let p2 = p1.drop_first();
    let p3 = p2.drop_first();
    let p4 = p3.drop_first();
    assert(!req_matches(prios[0].1, comps));
    assert(resolved_key(prios, comps) == resolved_key(p1, comps));
    assert(p1[0] == prios[1]);
    assert(!req_matches(prios[1].1, comps)) by {
        assert(comps.contains(comps[2]) && comps[2] == x);
        assert(forall|j: int| 0 <= j < prios[1].1.len() ==> prios[1].1[j] != x);
        assert(!prios[1].1.contains(x));
    }
    assert(resolved_key(p1, comps) == resolved_key(p2, comps));
    assert(p2[0] == prios[2]);
    assert(!req_matches(prios[2].1, comps)) by {
        assert(prios[2].1[1] == "lume"@);
    }
    assert(resolved_key(p2, comps) == resolved_key(p3, comps));
    assert(p3[0] == prios[3]);
    assert(!req_matches(prios[3].1, comps)) by {
        assert(prios[3].1[1] == "lume"@);
    }
    assert(resolved_key(p3, comps) == resolved_key(p4, comps));
    assert(p4[0] == prios[4]);
    assert(req_matches(prios[4].1, comps)) by {
        assert(prios[4].1[0] == "ripress"@);
        assert(prios[4].1.len() == 1);
    }
    assert(spec_lookup(template_catalog(), "ripress"@) is Some) by {
        assert(template_catalog()[0].0 == "ripress"@);
    }
    assert(resolved_key(p4, comps) == Some(p4[0].0));
    assert(resolved_key(prios, comps) == Some("ripress"@));
}

/// Loading the component catalog twice yields identical catalogs: the
/// loader's result is pinned to the compiled-in contents.
pub proof fn lemma_component_loads_identical(a: ComponentCatalog, b: ComponentCatalog)
    requires
        a@ == component_catalog(),
        b@ == component_catalog(),
    ensures
        a@ == b@,
{
}

/// Loading the template catalog twice yields identical catalogs.
pub proof fn lemma_template_loads_identical(a: TemplateCatalog, b: TemplateCatalog)
    requires
        a@ == template_catalog(),
        b@ == template_catalog(),
    ensures
        a@ == b@,
{
}

/// The compiled-in component catalog keys no identifier twice.
pub proof fn lemma_component_keys_unique()
    ensures
        forall|i: int, j: int|
            0 <= i < j < component_catalog().len() ==> component_catalog()[i].0
                != component_catalog()[j].0,
{
    reveal_strlit("ripress");
    reveal_strlit("wynd");
    reveal_strlit("lume");
    assert("ripress"@.len() == 7);
    assert("wynd"@.len() == 4);
    assert("lume"@.len() == 4);
    assert("wynd"@[0] == 'w' && "lume"@[0] == 'l');
    assert forall|i: int, j: int|
        0 <= i < j < component_catalog().len() implies component_catalog()[i].0
        != component_catalog()[j].0 by {
        assert(component_catalog()[0].0 == "ripress"@);
        assert(component_catalog()[1].0 == "wynd"@);
        assert(component_catalog()[2].0 == "lume"@);
    }
}

/// The compiled-in template catalog keys no template twice.
#[verifier::rlimit(100)]
pub proof fn lemma_template_keys_unique()
    ensures
        forall|i: int, j: int|
            0 <= i < j < template_catalog().len() ==> template_catalog()[i].0
                != template_catalog()[j].0,
{
    reveal_strlit("ripress");
    reveal_strlit("wynd");
    reveal_strlit("lume");
    reveal_strlit("ripress_wynd");
    reveal_strlit("ripress_lume");
    reveal_strlit("wynd_lume");
    reveal_strlit("ripress_wynd_lume");
    reveal_strlit("ripress-react");
    reveal_strlit("wynd-react");
    reveal_strlit("lume-react");
    reveal_strlit("ripress-wynd-react");
    reveal_strlit("ripress-lume-react");
    reveal_strlit("wynd-lume-react");
    reveal_strlit("ripress-wynd-lume-react");
    reveal_strlit("ripress-svelte");
    reveal_strlit("wynd-svelte");
    reveal_strlit("lume-svelte");
    reveal_strlit("ripress-wynd-svelte");
    reveal_strlit("ripress-lume-svelte");
    reveal_strlit("wynd-lume-svelte");
    reveal_strlit("ripress-wynd-lume-svelte");
    assert("ripress"@.len() == 7);
    assert("wynd"@.len() == 4);
    assert("lume"@.len() == 4);
    assert("ripress_wynd"@.len() == 12);
    assert("ripress_lume"@.len() == 12);
    assert("wynd_lume"@.len() == 9);
    assert("ripress_wynd_lume"@.len() == 17);
    assert("ripress-react"@.len() == 13);
    assert("wynd-react"@.len() == 10);
    assert("lume-react"@.len() == 10);
    assert("ripress-wynd-react"@.len() == 18);
    assert("ripress-lume-react"@.len() == 18);
    assert("wynd-lume-react"@.len() == 15);
    assert("ripress-wynd-lume-react"@.len() == 23);
    assert("ripress-svelte"@.len() == 14);
    assert("wynd-svelte"@.len() == 11);
    assert("lume-svelte"@.len() == 11);
    assert("ripress-wynd-svelte"@.len() == 19);
    assert("ripress-lume-svelte"@.len() == 19);
    assert("wynd-lume-svelte"@.len() == 16);
    assert("ripress-wynd-lume-svelte"@.len() == 24);
    assert("wynd"@[0] == 'w' && "lume"@[0] == 'l');
    assert("ripress_wynd"@[8] == 'w' && "ripress_lume"@[8] == 'l');
    assert("wynd-react"@[0] == 'w' && "lume-react"@[0] == 'l');
    assert("wynd-svelte"@[0] == 'w' && "lume-svelte"@[0] == 'l');
    assert("ripress-wynd-react"@[8] == 'w' && "ripress-lume-react"@[8] == 'l');
    assert("ripress-wynd-svelte"@[8] == 'w' && "ripress-lume-svelte"@[8] == 'l');
    assert forall|i: int, j: int|
        0 <= i < j < template_catalog().len() implies template_catalog()[i].0
        != template_catalog()[j].0 by {
        assert(template_catalog().len() == 21);
    }
}

} // verus!

