//! The project setup: the target name, the normalized component selection,
//! the optional frontend, and the two compiled-in catalogs; with the
//! validator checks and the template resolver entry point.

use vstd::prelude::*;

use crate::errors::{ConflictError, NameError};
use crate::registry::{
    component_catalog, spec_lookup, template_catalog, ComponentCatalog, ComponentConfig,
    ProjectTemplate, TemplateCatalog,
};
use crate::resolve::{
    frontend_kind, priority_list, priority_table, req_matches, resolved_key, selection_matches,
    spec_resolve, table_view, FrontendKind,
};
use crate::text::{char_alphabetic, is_alphabetic_char, lower_all, lower_of, lowercase, str_eq};

verus! {

/// Whether a character is one of the path-hostile characters a project name
/// may not contain.
pub open spec fn is_path_hostile(c: char) -> bool {
    c == '/' || c == '\\' || c == ':' || c == '*' || c == '?' || c == '"' || c == '<' || c == '>'
        || c == '|'
}

/// Whether a name holds some path-hostile character.
pub open spec fn has_hostile_char(s: Seq<char>) -> bool {
    exists|i: int| 0 <= i < s.len() && is_path_hostile(s[i])
}

/// Whether a name starts with an alphabetic character or an underscore.
pub open spec fn valid_start(s: Seq<char>) -> bool {
    s.len() > 0 && (char_alphabetic(s[0]) || s[0] == '_')
}

/// A well-formed project name: non-empty, at most 50 characters, free of
/// path-hostile characters, and starting with a letter or an underscore.
pub open spec fn valid_project_name(s: Seq<char>) -> bool {
    0 < s.len() <= 50 && !has_hostile_char(s) && valid_start(s)
}

/// The validator's verdict on a project name: the rules in order, first
/// violation wins.
pub open spec fn name_check(s: Seq<char>) -> Result<(), NameError> {
    if s.len() == 0 {
        Err(NameError::Empty)
    } else if s.len() > 50 {
        Err(NameError::TooLong)
    } else if has_hostile_char(s) {
        Err(NameError::InvalidChar)
    } else if !valid_start(s) {
        Err(NameError::InvalidStart)
    } else {
        Ok(())
    }
}

/// The validator's verdict on a filesystem probe of the destination.
pub open spec fn conflict_check(dest_exists: bool, dest_is_dir: bool) -> Result<
    (),
    ConflictError,
> {
    if !dest_exists {
        Ok(())
    } else if dest_is_dir {
        Err(ConflictError::DirectoryExists)
    } else {
        Err(ConflictError::FileExists)
    }
}

/// The working state of one build invocation: target name, normalized
/// component selection, optional frontend, and the compiled-in catalogs.
pub struct ProjectSetup {
    pub name: String,
    pub selected_components: Vec<String>,
    pub selected_frontend: Option<String>,
    pub config: ComponentCatalog,
    pub templates: TemplateCatalog,
}

impl ProjectSetup {
    /// The catalogs hold exactly the compiled-in contents.
    pub open spec fn wf(&self) -> bool {
        self.config@ == component_catalog() && self.templates@ == template_catalog()
    }

    /// The template key the resolver selects for this setup.
    pub open spec fn spec_resolved_key(&self) -> Option<Seq<char>> {
        spec_resolve(
            self.selected_components.deep_view(),
            frontend_kind(self.selected_frontend.deep_view()),
        )
    }

    /// Builds the working state for one invocation: the component selection
    /// is normalized to lowercase, the catalogs are loaded once.
    pub fn new(
        name: String,
        selected_components: Vec<String>,
        selected_frontend: Option<String>,
    ) -> (r: ProjectSetup)
        ensures
            r.wf(),
            r.name == name,
            r.selected_frontend == selected_frontend,
            r.selected_components.deep_view() == lower_all(selected_components.deep_view()),
    {
        let n: usize = selected_components.len();
        let mut normalized: Vec<String> = Vec::new();
        let mut i: usize = 0;
        while i < n
            invariant
                i <= n,
                n == selected_components.len(),
                normalized@.len() == i,
                forall|k: int|
                    0 <= k < i ==> normalized@[k]@ == lower_of(selected_components@[k]@),
            decreases n - i,
        {
            normalized.push(lowercase(selected_components[i].as_str()));
            i = i + 1;
        }
        proof {
            assert(normalized.deep_view() =~~= lower_all(selected_components.deep_view()));
        }
        ProjectSetup {
            name,
            selected_components: normalized,
            selected_frontend,
            config: ComponentCatalog::new(),
            templates: TemplateCatalog::new(),
        }
    }

    /// Loads the compiled-in component catalog.
    pub fn load_component_config() -> (r: ComponentCatalog)
        ensures
            r@ == component_catalog(),
    {
        ComponentCatalog::new()
    }

    /// Loads the compiled-in template catalog.
    pub fn load_templates() -> (r: TemplateCatalog)
        ensures
            r@ == template_catalog(),
    {
        TemplateCatalog::new()
    }

    /// Looks a component up in this setup's catalog.
    pub fn describe_component(&self, id: &str) -> (r: Option<&ComponentConfig>)
        requires
            self.wf(),
        ensures
            match r {
                Some(c) => spec_lookup(component_catalog(), id@) == Some(c.description@),
                None => spec_lookup(component_catalog(), id@) is None,
            },
    {
        self.config.get(id)
    }

    /// Resolves the selection to at most one template: candidates are tried
    /// in priority order, and the first whose required set matches and whose
    /// key is in the catalog is returned.
    pub fn determine_template(&self) -> (r: Option<&ProjectTemplate>)
        requires
            self.wf(),
        ensures
            match r {
                Some(t) => self.spec_resolved_key() is Some && spec_lookup(
                    template_catalog(),
                    self.spec_resolved_key()->Some_0,
                ) == Some(t@),
                None => self.spec_resolved_key() is None,
            },
    {
        let has_react: bool = match &self.selected_frontend {
            Some(f) => str_eq(f.as_str(), "react"),
            None => false,
        };
        let has_svelte: bool = match &self.selected_frontend {
            Some(f) => str_eq(f.as_str(), "svelte"),
            None => false,
        };
        let table: Vec<(&'static str, Vec<&'static str>)> = priority_table(has_react, has_svelte);
        let ghost fk: FrontendKind = frontend_kind(self.selected_frontend.deep_view());
        let ghost prios: Seq<(Seq<char>, Seq<Seq<char>>)> = priority_list(fk);
        let ghost comps: Seq<Seq<char>> = self.selected_components.deep_view();
        proof {
            assert(table_view(table@) == prios);
            assert(prios.skip(0) =~= prios);
        }
        let n: usize = table.len();
        let mut i: usize = 0;
        while i < n
            invariant
                i <= n,
                n == table.len(),
                self.wf(),
                prios == priority_list(fk),
                table_view(table@) == prios,
                prios.len() == n,
                comps == self.selected_components.deep_view(),
                self.spec_resolved_key() == resolved_key(prios, comps),
                resolved_key(prios, comps) == resolved_key(prios.skip(i as int), comps),
            decreases n - i,
        {
            proof {
                assert(prios[i as int] == table_view(table@)[i as int]);
                assert(prios.skip(i as int)[0] == prios[i as int]);
            }
            if selection_matches(&table[i].1, &self.selected_components) {
                match self.templates.get(table[i].0) {
                    Some(t) => {
                        return Some(t);
                    },
                    None => {},
                }
            }
            proof {
                assert(prios.skip(i as int).drop_first() =~= prios.skip(i + 1 as int));
            }
            i = i + 1;
        }
        proof {
            assert(prios.skip(n as int).len() == 0);
        }
        None
    }

    /// The number of progress steps a build reports: one for
    /// materialization and one for the dependency refresh. The count is
    /// fixed before the first step starts and never revised mid-run.
    pub fn calculate_total_steps(&self) -> (r: u64)
        ensures
            r == 2,
    {
        2
    }

    /// Checks the project name, in order: non-empty, at most 50 characters,
    /// free of path-hostile characters, starting with a letter or an
    /// underscore. The first violated rule is reported.
    pub fn validate_project_name(&self) -> (r: Result<(), NameError>)
        ensures
            r == name_check(self.name@),
            r is Ok <==> valid_project_name(self.name@),
    {
        let name: &str = self.name.as_str();
        let n: usize = name.unicode_len();
        if n == 0 {
            return Err(NameError::Empty);
        }
        if n > 50 {
            return Err(NameError::TooLong);
        }
        let mut i: usize = 0;
        while i < n
            invariant
                i <= n,
                n == name@.len(),
                name@ == self.name@,
                0 < n <= 50,
                forall|k: int| 0 <= k < i ==> !is_path_hostile(name@[k]),
            decreases n - i,
        {
            let c: char = name.get_char(i);
            if c == '/' || c == '\\' || c == ':' || c == '*' || c == '?' || c == '"' || c == '<'
                || c == '>' || c == '|' {
                proof {
                    assert(is_path_hostile(name@[i as int]));
                    assert(has_hostile_char(name@));
                }
                return Err(NameError::InvalidChar);
            }
            i = i + 1;
        }
        let first: char = name.get_char(0);
        if is_alphabetic_char(first) || first == '_' {
            Ok(())
        } else {
            Err(NameError::InvalidStart)
        }
    }

    /// Decides the destination check from a filesystem probe of the target
    /// path: free is fine; an existing directory and an existing file are
    /// distinct conflicts.
    pub fn check_directory_conflict(
        &self,
        dest_exists: bool,
        dest_is_dir: bool,
    ) -> (r: Result<(), ConflictError>)
        ensures
            r == conflict_check(dest_exists, dest_is_dir),
            r is Ok <==> !dest_exists,
    {
        if !dest_exists {
            Ok(())
        } else if dest_is_dir {
            Err(ConflictError::DirectoryExists)
        } else {
            Err(ConflictError::FileExists)
        }
    }
}

} // verus!
