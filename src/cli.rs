use vstd::prelude::*;

verus! {

/// The parsed command line: one subcommand.
#[derive(Clone, Debug)]
pub struct Cli {
    pub command: Commands,
}

/// The subcommands: create paths, or print a shell completion script.
#[derive(Clone, Debug)]
pub enum Commands {
    Create(CreateArgs),
    Completions { shell: CompletionShell },
}

/// The options and paths of the create subcommand.
#[derive(Clone, Debug)]
pub struct CreateArgs {
    /// Print created paths to stdout.
    pub print_path: bool,
    /// Create in a temporary directory.
    pub temp_mode: bool,
    /// Create directories instead of files.
    pub dir_mode: bool,
    /// Open created paths: `Some(None)` with the editor, `Some(Some(app))` with an application.
    pub open_with: Option<Option<String>>,
    /// Paths to create, in order.
    pub paths: Vec<String>,
}

/// The shells that completion scripts are written for.
#[derive(Clone, Copy, Debug, PartialEq, Eq)]
pub enum CompletionShell {
    Bash,
    Zsh,
    Fish,
}

/// What a create invocation does, before anything touches the filesystem.
#[derive(Clone, Copy, Debug, PartialEq, Eq)]
pub enum Request {
    /// Create the given paths relative to the working directory.
    InPlace,
    /// Allocate one temporary file (or directory, where `dir`) and keep it.
    TempSingle { dir: bool },
    /// Allocate one temporary directory, keep it, and create the given paths inside it.
    TempTree,
}

/// A create invocation that cannot proceed.
#[derive(Clone, Copy, Debug, PartialEq, Eq)]
pub enum UsageError {
    /// No paths were given and temp mode was not requested.
    NoPaths,
}

/// The application named with the open flag, if any.
pub open spec fn spec_open_app(open_with: Option<Option<String>>) -> Option<Seq<char>> {
    match open_with {
        Some(Some(a)) => Some(a@),
        _ => None,
    }
}

/// What a create invocation with these flags and this many paths does.
pub open spec fn spec_request(temp_mode: bool, dir_mode: bool, n_paths: nat) -> Result<Request, UsageError> {
    if !temp_mode {
        if n_paths == 0 {
            Err(UsageError::NoPaths)
        } else {
            Ok(Request::InPlace)
        }
    } else if n_paths == 0 {
        Ok(Request::TempSingle { dir: dir_mode })
    } else {
        Ok(Request::TempTree)
    }
}

impl CreateArgs {
    /// Whether the open flag was given, with or without an application.
    pub fn open_mode(&self) -> (r: bool)
        ensures
            r == self.open_with is Some,
    {
        self.open_with.is_some()
    }

    /// The application to open with, if one was named.
    pub fn open_app(&self) -> (r: Option<String>)
        ensures
            r.deep_view() == spec_open_app(self.open_with),
    {
        match &self.open_with {
            Some(Some(a)) => Some(a.clone()),
            _ => None,
        }
    }

    /// Whether the created paths are printed: on request, and always in temp mode.
    pub fn prints_paths(&self) -> (r: bool)
        ensures
            r == (self.print_path || self.temp_mode),
    {
        self.print_path || self.temp_mode
    }

    /// Whether the created paths are opened, given how many were created.
    pub fn opens(&self, n_created: usize) -> (r: bool)
        ensures
            r == (self.open_with is Some && n_created > 0),
    {
        self.open_mode() && n_created > 0
    }

    /// What this invocation does; without paths and outside temp mode it is a usage error.
    pub fn request(&self) -> (r: Result<Request, UsageError>)
        ensures
            r == spec_request(self.temp_mode, self.dir_mode, self.paths@.len()),
    {
        if !self.temp_mode {
            if self.paths.len() == 0 {
                Err(UsageError::NoPaths)
            } else {
                Ok(Request::InPlace)
            }
        } else if self.paths.len() == 0 {
            Ok(Request::TempSingle { dir: self.dir_mode })
        } else {
            Ok(Request::TempTree)
        }
    }
}

/// Temp mode without paths, outside dir mode, allocates exactly one temporary file.
pub proof fn lemma_temp_without_paths_is_one_file()
    ensures
        spec_request(true, false, 0) == Ok::<Request, UsageError>(Request::TempSingle { dir: false }),
{
}

/// Without paths and outside temp mode nothing is created: the invocation is a usage error.
pub proof fn lemma_no_paths_is_usage_error(dir_mode: bool)
    ensures
        spec_request(false, dir_mode, 0) == Err::<Request, UsageError>(UsageError::NoPaths),
{
}

} // verus!
