//! The commands of the program, and what each asks the caller to do.
//!
//! Running a command touches neither disk nor network: it yields a `Request`
//! that the caller carries out.

use crate::git::{
    parse, parse_spec, parsed_view, text_of, ParseError, RemoteUrlDescriptor,
};
use crate::orchestrator::OrchestratorError;
use crate::resolve::{relative, relative_to, resolve, resolve_spec};
use vstd::prelude::*;

verus! {

/// Every way in which an invocation can fail.
#[derive(Clone, Copy, Debug, PartialEq, Eq, Structural)]
pub enum Error {
    /// The repository URL could not be parsed, or lacks host or path.
    InvalidUrl { reason: ParseError },
    /// The URL's directory would lie outside the root.
    PathEscape,
    /// The clone did not come about.
    Orchestration { error: OrchestratorError },
    /// The root is missing or is no directory.
    RootUnreadable,
}

/// The invocation as a whole.
#[derive(Clone, Debug)]
pub struct Cli {
    /// Path to the config file.
    pub config: String,
    /// Root path where remote repositories get cloned to.
    pub root_path: String,
    pub command: Commands,
}

#[derive(Clone, Debug)]
pub enum Commands {
    /// Clone a remote repository into the root directory.
    Get(GetArgs),
    /// List the repositories that were cloned.
    List(ListArgs),
}

#[derive(Clone, Debug)]
pub struct GetArgs {
    /// Remote repository url.
    pub repository_url: String,
    /// Clone below a directory named after the repository's language.
    pub use_language_dir: bool,
}

#[derive(Clone, Copy, Debug)]
pub struct ListArgs {
    /// Print full paths instead of paths relative to the root.
    pub full_path: bool,
}

/// What the caller is asked to do.
#[derive(Clone, Debug, PartialEq, Eq)]
pub enum Request {
    /// Orchestrate a clone of `url` into `destination`.
    Clone { url: String, destination: String },
    /// List the entries of `root`.
    List { root: String, full_path: bool },
}

/// The view of a `Request`.
pub enum RequestView {
    Clone { url: Seq<char>, destination: Seq<char> },
    List { root: Seq<char>, full_path: bool },
}

impl View for Request {
    type V = RequestView;

    open spec fn view(&self) -> RequestView {
        match *self {
            Request::Clone { url, destination } => RequestView::Clone {
                url: url@,
                destination: destination@,
            },
            Request::List { root, full_path } => RequestView::List { root: root@, full_path },
        }
    }
}

/// The view of what a command yields.
pub open spec fn planned_view(r: Result<Request, Error>) -> Result<RequestView, Error> {
    match r {
        Ok(request) => Ok(request@),
        Err(e) => Err(e),
    }
}

/// What `get` yields for a URL once it is parsed: the parser's failure, the
/// resolver's, or the request to clone into the resolved directory.
pub open spec fn plan_clone_spec(
    url: Seq<char>,
    root: Seq<char>,
    parsed: Result<(Seq<char>, Seq<char>), ParseError>,
    use_language_dir: bool,
    language: Option<Seq<char>>,
) -> Result<RequestView, Error> {
    match parsed {
        Err(reason) => Err(Error::InvalidUrl { reason }),
        Ok(descriptor) => match resolve_spec(root, descriptor, use_language_dir, language) {
            Ok(destination) => Ok(RequestView::Clone { url, destination }),
            Err(_) => Err(Error::PathEscape),
        },
    }
}

/// The exit code of a failure: one for each kind, none of them zero.
pub open spec fn exit_code_spec(e: Error) -> u8 {
    match e {
        Error::InvalidUrl { .. } => 2,
        Error::PathEscape => 3,
        Error::Orchestration { .. } => 4,
        Error::RootUnreadable => 5,
    }
}

/// Whether two failures are of one kind.
pub open spec fn same_kind(a: Error, b: Error) -> bool {
    ||| a is InvalidUrl && b is InvalidUrl
    ||| a is PathEscape && b is PathEscape
    ||| a is Orchestration && b is Orchestration
    ||| a is RootUnreadable && b is RootUnreadable
}

/// No failure exits with zero, and two failures share an exit code exactly
/// where they are of one kind.
pub proof fn lemma_exit_codes_distinct(a: Error, b: Error)
    ensures
        exit_code_spec(a) != 0,
        exit_code_spec(a) == exit_code_spec(b) <==> same_kind(a, b),
{
}

impl Error {
    /// The code with which the process exits on this failure.
    pub fn exit_code(&self) -> (r: u8)
        ensures
            r == exit_code_spec(*self),
    {
        match self {
            Error::InvalidUrl { .. } => 2,
            Error::PathEscape => 3,
            Error::Orchestration { .. } => 4,
            Error::RootUnreadable => 5,
        }
    }
}

/// Plans the clone of `url`, given what the parser made of it.
pub fn plan_clone(
    url: &str,
    root: &str,
    parsed: Result<RemoteUrlDescriptor, ParseError>,
    use_language_dir: bool,
    language: &Option<String>,
) -> (r: Result<Request, Error>)
    ensures
        planned_view(r) == plan_clone_spec(
            url@,
            root@,
            parsed_view(parsed),
            use_language_dir,
            text_of(*language),
        ),
{
    match parsed {
        Err(reason) => Err(Error::InvalidUrl { reason }),
        Ok(descriptor) => match resolve(root, &descriptor, use_language_dir, language) {
            Ok(destination) => Ok(Request::Clone { url: url.to_owned(), destination }),
            Err(_) => Err(Error::PathEscape),
        },
    }
}

/// What `get` yields for a URL: what `plan_clone` makes of the parser's
/// result for it.
pub open spec fn get_spec(
    url: Seq<char>,
    root: Seq<char>,
    use_language_dir: bool,
    language: Option<Seq<char>>,
) -> Result<RequestView, Error> {
    plan_clone_spec(url, root, parse_spec(url), use_language_dir, language)
}

/// What `get` plans is a function of URL, root and language request alone,
/// and a planned destination is the resolved directory of the descriptor
/// that the URL parses to. So two runs on the same arguments plan the same
/// destination, whatever is on disk.
pub proof fn lemma_get_plans_resolved_directory(
    url: Seq<char>,
    root: Seq<char>,
    use_language_dir: bool,
    language: Option<Seq<char>>,
)
    ensures
        get_spec(url, root, use_language_dir, language) matches Ok(request) ==> {
            &&& parse_spec(url) is Ok
            &&& request == (RequestView::Clone {
                url,
                destination: resolve_spec(
                    root,
                    parse_spec(url).unwrap(),
                    use_language_dir,
                    language,
                ).unwrap(),
            })
            &&& resolve_spec(root, parse_spec(url).unwrap(), use_language_dir, language) is Ok
        },
        get_spec(url, root, use_language_dir, language) matches Err(e) ==> {
            ||| e == (Error::InvalidUrl { reason: ParseError::Malformed })
            ||| e == (Error::InvalidUrl { reason: ParseError::MissingComponent })
            ||| e == Error::PathEscape
        },
{
}

impl GetArgs {
    /// Plans the clone where the repository's language was looked up by the
    /// caller; `None` stands for a language that could not be determined.
    pub fn run_with_language(&self, cli: &Cli, language: &Option<String>) -> (r: Result<
        Request,
        Error,
    >)
        ensures
            planned_view(r) == get_spec(
                self.repository_url@,
                cli.root_path@,
                self.use_language_dir,
                text_of(*language),
            ),
    {
        let parsed = parse(self.repository_url.as_str());
        plan_clone(
            self.repository_url.as_str(),
            cli.root_path.as_str(),
            parsed,
            self.use_language_dir,
            language,
        )
    }

    /// Plans the clone with no language known: the directory is
    /// `root/host/path` whether or not a language directory was asked for.
    pub fn run(&self, cli: &Cli) -> (r: Result<Request, Error>)
        ensures
            planned_view(r) == get_spec(
                self.repository_url@,
                cli.root_path@,
                self.use_language_dir,
                None,
            ),
    {
        self.run_with_language(cli, &None)
    }
}

/// How an entry of the root is shown: in full, or relative to the root.
pub open spec fn shown(root: Seq<char>, entry: Seq<char>, full_path: bool) -> Seq<char> {
    if full_path {
        entry
    } else {
        relative_to(root, entry)
    }
}

impl ListArgs {
    /// The lines to print for the entries found in `root`: one for each
    /// entry and in the same order, in full or relative to the root.
    pub fn render(&self, root: &str, entries: &Vec<String>) -> (r: Vec<String>)
        ensures
            r.len() == entries.len(),
            forall|i: int|
                0 <= i < r.len() ==> (#[trigger] r[i])@ == shown(
                    root@,
                    entries[i]@,
                    self.full_path,
                ),
    {
        let mut lines: Vec<String> = Vec::new();
        let mut i: usize = 0;
        while i < entries.len()
            invariant
                i <= entries.len(),
                lines.len() == i,
                forall|j: int|
                    0 <= j < i ==> (#[trigger] lines[j])@ == shown(
                        root@,
                        entries[j]@,
                        self.full_path,
                    ),
            decreases entries.len() - i,
        {
            let line = if self.full_path {
                entries[i].clone()
            } else {
                relative(root, entries[i].as_str())
            };
            lines.push(line);
            i = i + 1;
        }
        lines
    }

    /// Asks for the entries of the root.
    pub fn run(&self, cli: &Cli) -> (r: Result<Request, Error>)
        ensures
            planned_view(r) == Ok::<RequestView, Error>(
                RequestView::List { root: cli.root_path@, full_path: self.full_path },
            ),
    {
        Ok(Request::List { root: cli.root_path.clone(), full_path: self.full_path })
    }
}

impl Cli {
    /// Runs the command: `get` plans a clone, `list` asks for the entries of
    /// the root.
    pub fn run(&self) -> (r: Result<Request, Error>)
        ensures
            match self.command {
                Commands::List(args) => planned_view(r) == Ok::<RequestView, Error>(
                    RequestView::List { root: self.root_path@, full_path: args.full_path },
                ),
                Commands::Get(args) => planned_view(r) == get_spec(
                    args.repository_url@,
                    self.root_path@,
                    args.use_language_dir,
                    None,
                ),
            },
    {
        match &self.command {
            Commands::Get(args) => args.run(self),
            Commands::List(args) => args.run(self),
        }
    }
}

} // verus!
