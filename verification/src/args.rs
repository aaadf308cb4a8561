//! Command-line argument parsing for the `new` command: a project name, and
//! `--template` flags whose values expand to component selections. All
//! violations are collected; the parse succeeds only when none occurred.

use vstd::prelude::*;

use crate::setup::{has_hostile_char, is_path_hostile};
use crate::text::{char_alphabetic, is_alphabetic_char, lower_of, lowercase, str_eq};

verus! {

/// One argument-parsing violation.
#[derive(Debug, Clone, PartialEq, Eq)]
pub enum ArgError {
    /// A `--template` value other than `full`, `ripress` or `wynd`.
    InvalidTemplateValue(String),
    /// A `--template` flag at the end of the argument list.
    MissingTemplateValue,
    /// An empty project name.
    NameEmpty,
    /// A project name longer than 50 characters.
    NameTooLong,
    /// A project name holding a path-hostile character.
    NameInvalidChars(String),
    /// A project name starting with neither a letter nor an underscore.
    NameInvalidStart(char),
    /// An argument that is neither a name, a flag, nor a flag value.
    Unknown(String),
}

/// Mathematical image of an [`ArgError`].
pub ghost enum ArgErrorView {
    InvalidTemplateValue(Seq<char>),
    MissingTemplateValue,
    NameEmpty,
    NameTooLong,
    NameInvalidChars(Seq<char>),
    NameInvalidStart(char),
    Unknown(Seq<char>),
}

impl View for ArgError {
    type V = ArgErrorView;

    open spec fn view(&self) -> ArgErrorView {
        match self {
            ArgError::InvalidTemplateValue(v) => ArgErrorView::InvalidTemplateValue(v@),
            ArgError::MissingTemplateValue => ArgErrorView::MissingTemplateValue,
            ArgError::NameEmpty => ArgErrorView::NameEmpty,
            ArgError::NameTooLong => ArgErrorView::NameTooLong,
            ArgError::NameInvalidChars(a) => ArgErrorView::NameInvalidChars(a@),
            ArgError::NameInvalidStart(c) => ArgErrorView::NameInvalidStart(*c),
            ArgError::Unknown(a) => ArgErrorView::Unknown(a@),
        }
    }
}

impl DeepView for ArgError {
    type V = ArgErrorView;

    open spec fn deep_view(&self) -> ArgErrorView {
        self.view()
    }
}

/// The human-readable message for one violation.
pub open spec fn arg_error_message(e: ArgErrorView) -> Seq<char> {
    match e {
        ArgErrorView::InvalidTemplateValue(v) => "Invalid template value '"@ + v
            + "'. Valid values: full, ripress, wynd"@,
        ArgErrorView::MissingTemplateValue => "--template requires a value"@,
        ArgErrorView::NameEmpty => "Project name cannot be empty"@,
        ArgErrorView::NameTooLong => "Project name is too long (max 50 characters)"@,
        ArgErrorView::NameInvalidChars(a) => "Project name '"@ + a
            + "' contains invalid characters. Valid characters: letters, numbers, hyphens, underscores, and dots"@,
        ArgErrorView::NameInvalidStart(_) => "Project name must start with a letter or underscore"@,
        ArgErrorView::Unknown(a) => "Unknown argument: "@ + a,
    }
}

impl ArgError {
    /// Renders this violation as its human-readable message.
    pub fn message(&self) -> (r: String)
        ensures
            r@ == arg_error_message(self@),
    {
        match self {
            ArgError::InvalidTemplateValue(v) => String::from_str("Invalid template value '")
                .concat(v.as_str()).concat("'. Valid values: full, ripress, wynd"),
            ArgError::MissingTemplateValue => String::from_str("--template requires a value"),
            ArgError::NameEmpty => String::from_str("Project name cannot be empty"),
            ArgError::NameTooLong => String::from_str(
                "Project name is too long (max 50 characters)",
            ),
            ArgError::NameInvalidChars(a) => String::from_str("Project name '").concat(
                a.as_str(),
            ).concat(
                "' contains invalid characters. Valid characters: letters, numbers, hyphens, underscores, and dots",
            ),
            ArgError::NameInvalidStart(_) => String::from_str(
                "Project name must start with a letter or underscore",
            ),
            ArgError::Unknown(a) => String::from_str("Unknown argument: ").concat(a.as_str()),
        }
    }
}

/// The messages of a violation list, joined with newlines.
pub open spec fn joined_messages(es: Seq<ArgErrorView>) -> Seq<char>
    decreases es.len(),
{
    if es.len() == 0 {
        Seq::empty()
    } else if es.len() == 1 {
        arg_error_message(es[0])
    } else {
        joined_messages(es.drop_last()) + "\n"@ + arg_error_message(es.last())
    }
}

/// Joins all violation messages with newlines, in order.
pub fn join_error_messages(errors: &Vec<ArgError>) -> (r: String)
    ensures
        r@ == joined_messages(errors.deep_view()),
{
    let n: usize = errors.len();
    let mut out: String = String::new();
    let mut i: usize = 0;
    proof {
        assert(errors.deep_view().subrange(0, 0) =~= Seq::<ArgErrorView>::empty());
    }
    while i < n
        invariant
            i <= n,
            n == errors.len(),
            out@ == joined_messages(errors.deep_view().subrange(0, i as int)),
        decreases n - i,
    {
        let m: String = errors[i].message();
        if i == 0 {
            out = m;
        } else {
            out = out.concat("\n").concat(m.as_str());
        }
        proof {
            let dv = errors.deep_view();
            assert(dv.subrange(0, (i + 1) as int).drop_last() =~= dv.subrange(0, i as int));
            assert(dv.subrange(0, (i + 1) as int).last() == dv[i as int]);
        }
        i = i + 1;
    }
    proof {
        assert(errors.deep_view().subrange(0, n as int) =~= errors.deep_view());
    }
    out
}

/// The violation, if any, that an early check of a candidate project name
/// reports; the rules and their order match the validator's.
pub open spec fn name_error_of(a: Seq<char>) -> Option<ArgErrorView> {
    if a.len() == 0 {
        Some(ArgErrorView::NameEmpty)
    } else if a.len() > 50 {
        Some(ArgErrorView::NameTooLong)
    } else if has_hostile_char(a) {
        Some(ArgErrorView::NameInvalidChars(a))
    } else if !(char_alphabetic(a[0]) || a[0] == '_') {
        Some(ArgErrorView::NameInvalidStart(a[0]))
    } else {
        None
    }
}

/// Runs the early name checks on a candidate project name.
fn check_name_arg(a: &str) -> (r: Option<ArgError>)
    ensures
        r is Some <==> name_error_of(a@) is Some,
        r is Some ==> r->Some_0@ == name_error_of(a@)->Some_0,
{
    let n: usize = a.unicode_len();
    if n == 0 {
        return Some(ArgError::NameEmpty);
    }
    if n > 50 {
        return Some(ArgError::NameTooLong);
    }
    let mut i: usize = 0;
    while i < n
        invariant
            i <= n,
            n == a@.len(),
            0 < n <= 50,
            forall|k: int| 0 <= k < i ==> !is_path_hostile(a@[k]),
        decreases n - i,
    {
        let c: char = a.get_char(i);
        if c == '/' || c == '\\' || c == ':' || c == '*' || c == '?' || c == '"' || c == '<'
            || c == '>' || c == '|' {
            proof {
                assert(is_path_hostile(a@[i as int]));
                assert(has_hostile_char(a@));
            }
            return Some(ArgError::NameInvalidChars(String::from_str(a)));
        }
        i = i + 1;
    }
    let first: char = a.get_char(0);
    if is_alphabetic_char(first) || first == '_' {
        None
    } else {
        Some(ArgError::NameInvalidStart(first))
    }
}

/// The parser's working state: the name seen so far, the components the
/// templates expand to, and the violations collected so far.
pub ghost struct ParseState {
    pub name: Option<Seq<char>>,
    pub templates: Seq<Seq<char>>,
    pub errors: Seq<ArgErrorView>,
}

/// One pass over the argument list from position `i` onward, threading the
/// parser's working state exactly as the executable parser does.
pub open spec fn spec_parse_from(args: Seq<Seq<char>>, i: int, st: ParseState) -> ParseState
    decreases args.len() - i,
{
    if i < 0 || i >= args.len() {
        st
    } else if args[i] == "--template"@ {
        if i + 1 < args.len() {
            if lower_of(args[i + 1]) == "full"@ {
                spec_parse_from(
                    args,
                    i + 2,
                    (ParseState {
                        name: st.name,
                        templates: st.templates.push("ripress"@).push("wynd"@),
                        errors: st.errors,
                    }),
                )
            } else if lower_of(args[i + 1]) == "ripress"@ || lower_of(args[i + 1])
                == "wynd"@ {
                spec_parse_from(
                    args,
                    i + 2,
                    (ParseState {
                        name: st.name,
                        templates: st.templates.push(lower_of(args[i + 1])),
                        errors: st.errors,
                    }),
                )
            } else {
                spec_parse_from(
                    args,
                    i + 2,
                    (ParseState {
                        name: st.name,
                        templates: st.templates,
                        errors: st.errors.push(
                            ArgErrorView::InvalidTemplateValue(args[i + 1]),
                        ),
                    }),
                )
            }
        } else {
            spec_parse_from(
                args,
                i + 1,
                (ParseState {
                    name: st.name,
                    templates: st.templates,
                    errors: st.errors.push(ArgErrorView::MissingTemplateValue),
                }),
            )
        }
    } else if (args[i].len() == 0 || args[i][0] != '-') && st.name is None {
        spec_parse_from(
            args,
            i + 1,
            (ParseState {
                name: Some(args[i]),
                templates: st.templates,
                errors: match name_error_of(args[i]) {
                    Some(e) => st.errors.push(e),
                    None => st.errors,
                },
            }),
        )
    } else {
        spec_parse_from(
            args,
            i + 1,
            (ParseState {
                name: st.name,
                templates: st.templates,
                errors: st.errors.push(ArgErrorView::Unknown(args[i])),
            }),
        )
    }
}

/// The parse of a whole argument list, from the empty state.
pub open spec fn spec_parse(args: Seq<Seq<char>>) -> ParseState {
    spec_parse_from(
        args,
        0,
        (ParseState { name: None, templates: Seq::empty(), errors: Seq::empty() }),
    )
}

/// Parses the arguments of the `new` command: at most one project name (any
/// argument not starting with `-` while no name is set), and any number of
/// `--template` flags whose lowercased values expand to component
/// selections (`full` expands to both components). Violations are collected;
/// the parse succeeds if and only if none occurred, and then yields the name,
/// if any, and the selected components, if any.
pub fn parse_new_args(args: &[String]) -> (r: Result<
    (Option<String>, Option<Vec<String>>),
    Vec<ArgError>,
>)
    ensures
        (r is Ok) == (spec_parse(args.deep_view()).errors.len() == 0),
        match r {
            Ok(p) => p.0.deep_view() == spec_parse(args.deep_view()).name && (spec_parse(
                args.deep_view(),
            ).templates.len() == 0 ==> p.1 is None) && (spec_parse(args.deep_view()).templates.len()
                > 0 ==> p.1 is Some && p.1->Some_0.deep_view() == spec_parse(
                args.deep_view(),
            ).templates),
            Err(es) => es.deep_view() == spec_parse(args.deep_view()).errors,
        },
{
    let ghost dv: Seq<Seq<char>> = args.deep_view();
    let n: usize = args.len();
    let mut name: Option<String> = None;
    let mut templates: Vec<String> = Vec::new();
    let mut errors: Vec<ArgError> = Vec::new();
    let mut i: usize = 0;
    proof {
        assert(templates.deep_view() =~= Seq::<Seq<char>>::empty());
        assert(errors.deep_view() =~= Seq::<ArgErrorView>::empty());
    }
    while i < n
        invariant
            i <= n,
            n == args.len(),
            dv == args.deep_view(),
            spec_parse_from(
                dv,
                i as int,
                (ParseState {
                    name: name.deep_view(),
                    templates: templates.deep_view(),
                    errors: errors.deep_view(),
                }),
            ) == spec_parse(dv),
        decreases n - i,
    {
        let ghost st_pre = ParseState {
            name: name.deep_view(),
            templates: templates.deep_view(),
            errors: errors.deep_view(),
        };
        proof {
            assert(dv[i as int] == args@[i as int]@);
        }
        if str_eq(args[i].as_str(), "--template") {
            if i + 1 < n {
                proof {
                    assert(dv[i as int + 1] == args@[i as int + 1]@);
                }
                let tv: String = lowercase(args[i + 1].as_str());
                if str_eq(tv.as_str(), "full") {
                    templates.push(String::from_str("ripress"));
                    templates.push(String::from_str("wynd"));
                    proof {
                        assert(templates.deep_view() =~~= st_pre.templates.push("ripress"@).push(
                            "wynd"@,
                        ));
                    }
                } else if str_eq(tv.as_str(), "ripress") || str_eq(tv.as_str(), "wynd") {
                    templates.push(tv);
                    proof {
                        assert(templates.deep_view() =~~= st_pre.templates.push(
                            lower_of(dv[i as int + 1]),
                        ));
                    }
                } else {
                    errors.push(ArgError::InvalidTemplateValue(args[i + 1].clone()));
                    proof {
                        assert(errors.deep_view() =~~= st_pre.errors.push(
                            ArgErrorView::InvalidTemplateValue(dv[i as int + 1]),
                        ));
                    }
                }
                i = i + 2;
            } else {
                errors.push(ArgError::MissingTemplateValue);
                proof {
                    assert(errors.deep_view() =~~= st_pre.errors.push(
                        ArgErrorView::MissingTemplateValue,
                    ));
                }
                i = i + 1;
            }
        } else {
            let a_str: &str = args[i].as_str();
            let is_candidate: bool = (a_str.unicode_len() == 0 || a_str.get_char(0) != '-')
                && name.is_none();
            if is_candidate {
                match check_name_arg(a_str) {
                    Some(e) => {
                        let ghost ev = e@;
                        errors.push(e);
                        proof {
                            assert(errors.deep_view() =~~= st_pre.errors.push(ev));
                        }
                    },
                    None => {},
                }
                name = Some(args[i].clone());
            } else {
                errors.push(ArgError::Unknown(args[i].clone()));
                proof {
                    assert(errors.deep_view() =~~= st_pre.errors.push(
                        ArgErrorView::Unknown(dv[i as int]),
                    ));
                }
            }
            i = i + 1;
        }
        proof {
            assert(spec_parse_from(
                dv,
                i as int,
                (ParseState {
                    name: name.deep_view(),
                    templates: templates.deep_view(),
                    errors: errors.deep_view(),
                }),
            ) == spec_parse(dv));
        }
    }
    proof {
        assert(spec_parse(dv) == (ParseState {
            name: name.deep_view(),
            templates: templates.deep_view(),
            errors: errors.deep_view(),
        }));
    }
    if errors.len() == 0 {
        proof {
            assert(errors.deep_view() =~= Seq::<ArgErrorView>::empty());
        }
        let templates_option: Option<Vec<String>> = if templates.len() == 0 {
            proof {
                assert(templates.deep_view() =~= Seq::<Seq<char>>::empty());
            }
            None
        } else {
            Some(templates)
        };
        Ok((name, templates_option))
    } else {
        Err(errors)
    }
}

} // verus!
