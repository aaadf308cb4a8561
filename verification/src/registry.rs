//! Compiled-in catalogs: the known components with their descriptions, and
//! the template identities with their source locations.
//!
//! Both catalogs are association lists built once at pipeline construction
//! and read-only afterwards. Their exact contents are pinned by the spec
//! functions [`component_catalog`] and [`template_catalog`], so any two loads
//! yield identical catalogs.

use vstd::prelude::*;

use crate::text::str_eq;

verus! {

/// Human-readable metadata for one known component.
#[derive(Debug, Clone)]
pub struct ComponentConfig {
    pub description: String,
}

/// One template identity: a display name and the remote source location the
/// template is cloned from.
#[derive(Debug, Clone)]
pub struct ProjectTemplate {
    pub name: String,
    pub github_url: String,
}

/// Mathematical image of a [`ProjectTemplate`].
pub ghost struct TemplateView {
    pub name: Seq<char>,
    pub github_url: Seq<char>,
}

impl View for ProjectTemplate {
    type V = TemplateView;

    open spec fn view(&self) -> TemplateView {
        TemplateView { name: self.name@, github_url: self.github_url@ }
    }
}

/// First-match lookup in an association list of string keys.
pub open spec fn spec_lookup<V>(s: Seq<(Seq<char>, V)>, k: Seq<char>) -> Option<V>
    decreases s.len(),
{
    if s.len() == 0 {
        None
    } else if s[0].0 == k {
        Some(s[0].1)
    } else {
        spec_lookup(s.drop_first(), k)
    }
}

/// The fixed catalog of known components: identifier and description.
pub open spec fn component_catalog() -> Seq<(Seq<char>, Seq<char>)> {
    seq![
        ("ripress"@, "An HTTP Framework with best in class developer experience"@),
        ("wynd"@, "An Event Driven WebSocket library"@),
        ("lume"@, "A simple and intuitive Query Builder inspired by Drizzle"@),
    ]
}

/// The fixed catalog of template identities, keyed by template key.
pub open spec fn template_catalog() -> Seq<(Seq<char>, TemplateView)> {
    seq![
        ("ripress"@, (TemplateView {
            name: "Ripress Basic"@,
            github_url: "https://github.com/Guru901/ripress-only"@,
        })),
        ("wynd"@, (TemplateView {
            name: "Wynd Basic"@,
            github_url: "https://github.com/Guru901/wynd-only"@,
        })),
        ("lume"@, (TemplateView {
            name: "Lume Basic"@,
            github_url: "https://github.com/Guru901/lume-only"@,
        })),
        ("ripress_wynd"@, (TemplateView {
            name: "Ripress + Wynd"@,
            github_url: "https://github.com/Guru901/ripress-wynd"@,
        })),
        ("ripress_lume"@, (TemplateView {
            name: "Ripress + Lume"@,
            github_url: "https://github.com/Guru901/ripress-lume"@,
        })),
        ("wynd_lume"@, (TemplateView {
            name: "Wynd + Lume"@,
            github_url: "https://github.com/Guru901/wynd-lume"@,
        })),
        ("ripress_wynd_lume"@, (TemplateView {
            name: "Ripress + Wynd + Lume"@,
            github_url: "https://github.com/Guru901/ripress-wynd-lume"@,
        })),
        ("ripress-react"@, (TemplateView {
            name: "Ripress + React"@,
            github_url: "https://github.com/Guru901/ripress-react"@,
        })),
        ("wynd-react"@, (TemplateView {
            name: "Wynd + React"@,
            github_url: "https://github.com/Guru901/wynd-react"@,
        })),
        ("lume-react"@, (TemplateView {
            name: "Lume + React"@,
            github_url: "https://github.com/Guru901/lume-react"@,
        })),
        ("ripress-wynd-react"@, (TemplateView {
            name: "Ripress + Wynd + React"@,
            github_url: "https://github.com/Guru901/ripress-wynd-react"@,
        })),
        ("ripress-lume-react"@, (TemplateView {
            name: "Ripress + Lume + React"@,
            github_url: "https://github.com/Guru901/ripress-lume-react"@,
        })),
        ("wynd-lume-react"@, (TemplateView {
            name: "Wynd + Lume + React"@,
            github_url: "https://github.com/Guru901/wynd-lume-react"@,
        })),
        ("ripress-wynd-lume-react"@, (TemplateView {
            name: "Ripress + Wynd + Lume + React"@,
            github_url: "https://github.com/Guru901/ripress-wynd-lume-react"@,
        })),
        ("ripress-svelte"@, (TemplateView {
            name: "Ripress + Svelte"@,
            github_url: "https://github.com/Guru901/ripress-svelte"@,
        })),
        ("wynd-svelte"@, (TemplateView {
            name: "Wynd + Svelte"@,
            github_url: "https://github.com/Guru901/wynd-svelte"@,
        })),
        ("lume-svelte"@, (TemplateView {
            name: "Lume + Svelte"@,
            github_url: "https://github.com/Guru901/lume-svelte"@,
        })),
        ("ripress-wynd-svelte"@, (TemplateView {
            name: "Ripress + Wynd + Svelte"@,
            github_url: "https://github.com/Guru901/ripress-wynd-svelte"@,
        })),
        ("ripress-lume-svelte"@, (TemplateView {
            name: "Ripress + Lume + Svelte"@,
            github_url: "https://github.com/Guru901/ripress-lume-svelte"@,
        })),
        ("wynd-lume-svelte"@, (TemplateView {
            name: "Wynd + Lume + Svelte"@,
            github_url: "https://github.com/Guru901/wynd-lume-svelte"@,
        })),
        ("ripress-wynd-lume-svelte"@, (TemplateView {
            name: "Ripress + Wynd + Lume + Svelte"@,
            github_url: "https://github.com/Guru901/ripress-wynd-lume-svelte"@,
        })),
    ]
}

/// Read-only catalog of known components.
pub struct ComponentCatalog {
    entries: Vec<(String, ComponentConfig)>,
}

impl View for ComponentCatalog {
    type V = Seq<(Seq<char>, Seq<char>)>;

    closed spec fn view(&self) -> Seq<(Seq<char>, Seq<char>)> {
        self.entries@.map_values(|p: (String, ComponentConfig)| (p.0@, p.1.description@))
    }
}

/// Read-only catalog of template identities.
pub struct TemplateCatalog {
    entries: Vec<(String, ProjectTemplate)>,
}

impl View for TemplateCatalog {
    type V = Seq<(Seq<char>, TemplateView)>;

    closed spec fn view(&self) -> Seq<(Seq<char>, TemplateView)> {
        self.entries@.map_values(|p: (String, ProjectTemplate)| (p.0@, p.1@))
    }
}

fn push_component(
    entries: &mut Vec<(String, ComponentConfig)>,
    id: &str,
    description: &str,
)
    ensures
        final(entries)@.map_values(|p: (String, ComponentConfig)| (p.0@, p.1.description@))
            =~= old(entries)@.map_values(|p: (String, ComponentConfig)| (p.0@, p.1.description@))
            .push((id@, description@)),
{
    let config = ComponentConfig { description: String::from_str(description) };
    entries.push((String::from_str(id), config));
}

fn push_template(
    entries: &mut Vec<(String, ProjectTemplate)>,
    key: &str,
    name: &str,
    url: &str,
)
    ensures
        final(entries)@.map_values(|p: (String, ProjectTemplate)| (p.0@, p.1@))
            =~= old(entries)@.map_values(|p: (String, ProjectTemplate)| (p.0@, p.1@)).push(
            (key@, (TemplateView { name: name@, github_url: url@ })),
        ),
{
    let template = ProjectTemplate {
        name: String::from_str(name),
        github_url: String::from_str(url),
    };
    entries.push((String::from_str(key), template));
}

impl ComponentCatalog {
    /// Builds the fixed component catalog.
    pub fn new() -> (r: ComponentCatalog)
        ensures
            r@ == component_catalog(),
    {
        let mut entries: Vec<(String, ComponentConfig)> = Vec::new();
        push_component(
            &mut entries,
            "ripress",
            "An HTTP Framework with best in class developer experience",
        );
        push_component(&mut entries, "wynd", "An Event Driven WebSocket library");
        push_component(
            &mut entries,
            "lume",
            "A simple and intuitive Query Builder inspired by Drizzle",
        );
        let r = ComponentCatalog { entries };
        proof {
            assert(r@ =~= component_catalog());
        }
        r
    }

    /// Looks a component up by its identifier; absent for unknown identifiers.
    pub fn get(&self, id: &str) -> (r: Option<&ComponentConfig>)
        ensures
            match r {
                Some(c) => spec_lookup(self@, id@) == Some(c.description@),
                None => spec_lookup(self@, id@) is None,
            },
    {
        let n: usize = self.entries.len();
        let mut i: usize = 0;
        proof {
            assert(self@.skip(0) =~= self@);
        }
        while i < n
            invariant
                n == self.entries.len(),
                i <= n,
                self@.len() == n,
                spec_lookup(self@, id@) == spec_lookup(self@.skip(i as int), id@),
            decreases n - i,
        {
            if str_eq(self.entries[i].0.as_str(), id) {
                proof {
                    assert(self@.skip(i as int)[0] == self@[i as int]);
                }
                return Some(&self.entries[i].1);
            }
            proof {
                assert(self@.skip(i as int)[0] == self@[i as int]);
                assert(self@.skip(i as int).drop_first() =~= self@.skip(i + 1 as int));
            }
            i = i + 1;
        }
        None
    }

    /// Whether an identifier is a known component.
    pub fn contains_key(&self, id: &str) -> (r: bool)
        ensures
            r == (spec_lookup(self@, id@) is Some),
    {
        self.get(id).is_some()
    }

    /// The number of known components.
    pub fn len(&self) -> (r: usize)
        ensures
            r == self@.len(),
    {
        self.entries.len()
    }
}

impl TemplateCatalog {
    /// Builds the fixed template catalog.
    pub fn new() -> (r: TemplateCatalog)
        ensures
            r@ == template_catalog(),
    {
        let mut entries: Vec<(String, ProjectTemplate)> = Vec::new();
        push_template(
            &mut entries,
            "ripress",
            "Ripress Basic",
            "https://github.com/Guru901/ripress-only",
        );
        push_template(
            &mut entries,
            "wynd",
            "Wynd Basic",
            "https://github.com/Guru901/wynd-only",
        );
        push_template(
            &mut entries,
            "lume",
            "Lume Basic",
            "https://github.com/Guru901/lume-only",
        );
        push_template(
            &mut entries,
            "ripress_wynd",
            "Ripress + Wynd",
            "https://github.com/Guru901/ripress-wynd",
        );
        push_template(
            &mut entries,
            "ripress_lume",
            "Ripress + Lume",
            "https://github.com/Guru901/ripress-lume",
        );
        push_template(
            &mut entries,
            "wynd_lume",
            "Wynd + Lume",
            "https://github.com/Guru901/wynd-lume",
        );
        push_template(
            &mut entries,
            "ripress_wynd_lume",
            "Ripress + Wynd + Lume",
            "https://github.com/Guru901/ripress-wynd-lume",
        );
        push_template(
            &mut entries,
            "ripress-react",
            "Ripress + React",
            "https://github.com/Guru901/ripress-react",
        );
        push_template(
            &mut entries,
            "wynd-react",
            "Wynd + React",
            "https://github.com/Guru901/wynd-react",
        );
        push_template(
            &mut entries,
            "lume-react",
            "Lume + React",
            "https://github.com/Guru901/lume-react",
        );
        push_template(
            &mut entries,
            "ripress-wynd-react",
            "Ripress + Wynd + React",
            "https://github.com/Guru901/ripress-wynd-react",
        );
        push_template(
            &mut entries,
            "ripress-lume-react",
            "Ripress + Lume + React",
            "https://github.com/Guru901/ripress-lume-react",
        );
        push_template(
            &mut entries,
            "wynd-lume-react",
            "Wynd + Lume + React",
            "https://github.com/Guru901/wynd-lume-react",
        );
        push_template(
            &mut entries,
            "ripress-wynd-lume-react",
            "Ripress + Wynd + Lume + React",
            "https://github.com/Guru901/ripress-wynd-lume-react",
        );
        push_template(
            &mut entries,
            "ripress-svelte",
            "Ripress + Svelte",
            "https://github.com/Guru901/ripress-svelte",
        );
        push_template(
            &mut entries,
            "wynd-svelte",
            "Wynd + Svelte",
            "https://github.com/Guru901/wynd-svelte",
        );
        push_template(
            &mut entries,
            "lume-svelte",
            "Lume + Svelte",
            "https://github.com/Guru901/lume-svelte",
        );
        push_template(
            &mut entries,
            "ripress-wynd-svelte",
            "Ripress + Wynd + Svelte",
            "https://github.com/Guru901/ripress-wynd-svelte",
        );
        push_template(
            &mut entries,
            "ripress-lume-svelte",
            "Ripress + Lume + Svelte",
            "https://github.com/Guru901/ripress-lume-svelte",
        );
        push_template(
            &mut entries,
            "wynd-lume-svelte",
            "Wynd + Lume + Svelte",
            "https://github.com/Guru901/wynd-lume-svelte",
        );
        push_template(
            &mut entries,
            "ripress-wynd-lume-svelte",
            "Ripress + Wynd + Lume + Svelte",
            "https://github.com/Guru901/ripress-wynd-lume-svelte",
        );
        let r = TemplateCatalog { entries };
        proof {
            assert(r@ =~= template_catalog());
        }
        r
    }

    /// Looks a template up by its key; absent for unknown keys.
    pub fn get(&self, key: &str) -> (r: Option<&ProjectTemplate>)
        ensures
            match r {
                Some(t) => spec_lookup(self@, key@) == Some(t@),
                None => spec_lookup(self@, key@) is None,
            },
    {
        let n: usize = self.entries.len();
        let mut i: usize = 0;
        proof {
            assert(self@.skip(0) =~= self@);
        }
        while i < n
            invariant
                n == self.entries.len(),
                i <= n,
                self@.len() == n,
                spec_lookup(self@, key@) == spec_lookup(self@.skip(i as int), key@),
            decreases n - i,
        {
            if str_eq(self.entries[i].0.as_str(), key) {
                proof {
                    assert(self@.skip(i as int)[0] == self@[i as int]);
                }
                return Some(&self.entries[i].1);
            }
            proof {
                assert(self@.skip(i as int)[0] == self@[i as int]);
                assert(self@.skip(i as int).drop_first() =~= self@.skip(i + 1 as int));
            }
            i = i + 1;
        }
        None
    }

    /// Whether a template key is in the catalog.
    pub fn contains_key(&self, key: &str) -> (r: bool)
        ensures
            r == (spec_lookup(self@, key@) is Some),
    {
        self.get(key).is_some()
    }

    /// The number of templates in the catalog.
    pub fn len(&self) -> (r: usize)
        ensures
            r == self@.len(),
    {
        self.entries.len()
    }
}

} // verus!
