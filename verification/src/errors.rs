//! Error types of the validator: malformed project names and occupied
//! destinations. Both are detected before any mutation, so surfacing them is
//! always side-effect free.

use vstd::prelude::*;

verus! {

/// A malformed project name, with one variant per rule; rules are checked in
/// order and the first violation wins.
#[derive(Debug, Clone, Copy, PartialEq, Eq, Structural)]
pub enum NameError {
    /// The name is empty.
    Empty,
    /// The name is longer than 50 characters.
    TooLong,
    /// The name contains a path-hostile character.
    InvalidChar,
    /// The first character is neither alphabetic nor an underscore.
    InvalidStart,
}

/// The human-readable message for a name violation.
pub open spec fn name_error_text(e: NameError) -> Seq<char> {
    match e {
        NameError::Empty => "Project name cannot be empty"@,
        NameError::TooLong => "Project name is too long (max 50 characters)"@,
        NameError::InvalidChar => "Project name contains invalid characters: / \\ : * ? \" < > |\nValid characters: letters, numbers, hyphens, underscores, and dots"@,
        NameError::InvalidStart => "Project name must start with a letter or underscore"@,
    }
}

impl NameError {
    /// A human-readable description of the violated rule.
    pub fn message(&self) -> (r: String)
        ensures
            r@ == name_error_text(*self),
    {
        match self {
            NameError::Empty => String::from_str("Project name cannot be empty"),
            NameError::TooLong => String::from_str("Project name is too long (max 50 characters)"),
            NameError::InvalidChar => String::from_str(
                "Project name contains invalid characters: / \\ : * ? \" < > |\nValid characters: letters, numbers, hyphens, underscores, and dots",
            ),
            NameError::InvalidStart => String::from_str(
                "Project name must start with a letter or underscore",
            ),
        }
    }
}

/// An occupied destination: a filesystem entry already carries the project
/// name. The two variants distinguish a directory from a plain file, since
/// the useful remediation differs.
#[derive(Debug, Clone, Copy, PartialEq, Eq, Structural)]
pub enum ConflictError {
    /// A directory of that name already exists.
    DirectoryExists,
    /// A plain file of that name already exists.
    FileExists,
}

/// The human-readable message for a destination conflict at `name`.
pub open spec fn conflict_error_text(e: ConflictError, name: Seq<char>) -> Seq<char> {
    match e {
        ConflictError::DirectoryExists => "Directory '"@ + name
            + "' already exists!\n\nTo resolve this conflict, you can:\n1. Choose a different project name\n2. Remove the existing directory: rm -rf "@
            + name + "\n3. Use a different location for your project"@,
        ConflictError::FileExists => "A file named '"@ + name
            + "' already exists in the current directory.\nPlease choose a different project name or remove the existing file."@,
    }
}

impl ConflictError {
    /// A human-readable description of the conflict at `name`, with
    /// remediation suggestions.
    pub fn message(&self, name: &str) -> (r: String)
        ensures
            r@ == conflict_error_text(*self, name@),
    {
        match self {
            ConflictError::DirectoryExists => String::from_str("Directory '").concat(name).concat(
                "' already exists!\n\nTo resolve this conflict, you can:\n1. Choose a different project name\n2. Remove the existing directory: rm -rf ",
            ).concat(name).concat("\n3. Use a different location for your project"),
            ConflictError::FileExists => String::from_str("A file named '").concat(name).concat(
                "' already exists in the current directory.\nPlease choose a different project name or remove the existing file.",
            ),
        }
    }
}

} // verus!
