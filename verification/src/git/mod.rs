//! Remote URLs: parsing through `gix` and the descriptor distilled from it.

use vstd::prelude::*;
use vstd::string::StrSliceExecFns;

pub mod clone;

verus! {

/// What gix found in a remote location, as far as a descriptor needs it:
/// the fields `host` and `path` of its `Url`, as text.
#[derive(Clone, Debug, PartialEq, Eq)]
pub struct GitUrl {
    pub host: Option<String>,
    pub path: String,
}

/// Why a remote location could not be turned into a descriptor.
#[derive(Clone, Copy, Debug, PartialEq, Eq, Structural)]
pub enum ParseError {
    /// The string is no remote location at all.
    Malformed,
    /// The string parses, but names no usable host or no usable path.
    MissingComponent,
}

/// Host and repository path of a remote location.
#[derive(Clone, Debug, PartialEq, Eq)]
pub struct RemoteUrlDescriptor {
    pub host: String,
    pub path: String,
}

/// The separator between the segments of a path.
pub open spec fn is_separator(c: char) -> bool {
    c == '/'
}

/// `s` without its leading separators.
pub open spec fn strip_leading_separators(s: Seq<char>) -> Seq<char>
    decreases s.len(),
{
    if s.len() > 0 && is_separator(s[0]) {
        strip_leading_separators(s.subrange(1, s.len() as int))
    } else {
        s
    }
}

/// What `describe` makes of the parts of a parsed URL, as (host, path).
pub open spec fn describe_spec(host: Option<Seq<char>>, path: Option<Seq<char>>) -> Result<
    (Seq<char>, Seq<char>),
    ParseError,
> {
    match (host, path) {
        (Some(h), Some(p)) => if h.len() > 0 && strip_leading_separators(p).len() > 0 {
            Ok((h, strip_leading_separators(p)))
        } else {
            Err(ParseError::MissingComponent)
        },
        _ => Err(ParseError::MissingComponent),
    }
}

/// The view of an optional string.
pub open spec fn text_of(s: Option<String>) -> Option<Seq<char>> {
    match s {
        Some(s) => Some(s@),
        None => None,
    }
}

impl View for RemoteUrlDescriptor {
    type V = (Seq<char>, Seq<char>);

    open spec fn view(&self) -> (Seq<char>, Seq<char>) {
        (self.host@, self.path@)
    }
}

impl RemoteUrlDescriptor {
    /// A usable descriptor names a host and a path relative to that host.
    pub open spec fn wf(&self) -> bool {
        &&& self.host@.len() > 0
        &&& self.path@.len() > 0
        &&& !is_separator(self.path@[0])
    }
}

/// What `gix::url::parse` answers for a string: `None` where it refuses it,
/// else the host, if it found one, and the path, both as text.
pub uninterp spec fn gix_parse_of(raw: Seq<char>) -> Option<(Option<Seq<char>>, Seq<char>)>;

/// The view of gix's answer.
pub open spec fn git_url_view(r: Option<GitUrl>) -> Option<(Option<Seq<char>>, Seq<char>)> {
    match r {
        Some(url) => Some((text_of(url.host), url.path@)),
        None => None,
    }
}

/// Calls `gix::url::parse` on `raw` and copies host and path out of the
/// `Url`; `None` stands for its error. Bytes of the path that are no UTF-8
/// are replaced as `bstr` displays them. The grammar is gix's own, so the
/// answer goes by the name `gix_parse_of` and nothing more is claimed of it.
#[verifier::external_body]
pub(crate) fn to_git_url(raw: &str) -> (r: Option<GitUrl>)
    ensures
        git_url_view(r) == gix_parse_of(raw@),
{
    match gix::url::parse(raw) {
        Ok(url) => Some(GitUrl { host: url.host, path: url.path.to_string() }),
        Err(_) => None,
    }
}

/// Whether `s` could pass for a command-line option: it begins with `-`.
pub open spec fn looks_like_option(s: Seq<char>) -> bool {
    s.len() > 0 && s[0] == '-'
}

/// The host where it is present and cannot pass for an option, which is the
/// rule of gix's `Url::host_argument_safe`.
pub open spec fn host_argument_safe_spec(host: Option<Seq<char>>) -> Option<Seq<char>> {
    match host {
        Some(h) => if looks_like_option(h) {
            None
        } else {
            Some(h)
        },
        None => None,
    }
}

/// The path where it begins with a separator and what follows cannot pass
/// for an option, which is the rule of gix's `Url::path_argument_safe`.
pub open spec fn path_argument_safe_spec(path: Seq<char>) -> Option<Seq<char>> {
    if path.len() > 0 && is_separator(path[0]) && !looks_like_option(
        path.subrange(1, path.len() as int),
    ) {
        Some(path)
    } else {
        None
    }
}

/// Host and path that a descriptor may be made from.
pub open spec fn parts_spec(host: Option<Seq<char>>, path: Seq<char>) -> (
    Option<Seq<char>>,
    Option<Seq<char>>,
) {
    (host_argument_safe_spec(host), select_path_spec(path_argument_safe_spec(path), path))
}

/// The host of `url` where it is present and does not begin with `-`.
pub fn host_argument_safe(url: &GitUrl) -> (r: Option<String>)
    ensures
        text_of(r) == host_argument_safe_spec(text_of(url.host)),
{
    match &url.host {
        Some(h) => {
            if h.as_str().unicode_len() > 0 && h.as_str().get_char(0) == '-' {
                None
            } else {
                Some(h.clone())
            }
        },
        None => None,
    }
}

/// The path of `url` where it begins with `/` and does not go on with `-`.
pub fn path_argument_safe(url: &GitUrl) -> (r: Option<String>)
    ensures
        text_of(r) == path_argument_safe_spec(url.path@),
{
    let path = url.path.as_str();
    let n: usize = path.unicode_len();
    if n > 0 && path.get_char(0) == '/' && !(n > 1 && path.get_char(1) == '-') {
        Some(url.path.clone())
    } else {
        None
    }
}

/// The path that a descriptor is made from: the one that is safe as an
/// argument, else the URL's own path where it is relative, as in
/// `host:path`, and cannot pass for an option either.
pub open spec fn select_path_spec(safe: Option<Seq<char>>, raw: Seq<char>) -> Option<Seq<char>> {
    match safe {
        Some(p) => Some(p),
        None => if raw.len() > 0 && !is_separator(raw[0]) && raw[0] != '-' {
            Some(raw)
        } else {
            None
        },
    }
}

/// Chooses between the path that is safe as an argument and the URL's own.
pub fn select_path(safe: Option<String>, raw: String) -> (r: Option<String>)
    ensures
        text_of(r) == select_path_spec(text_of(safe), raw@),
{
    match safe {
        Some(p) => Some(p),
        None => {
            if raw.as_str().unicode_len() > 0 && raw.as_str().get_char(0) != '/'
                && raw.as_str().get_char(0) != '-' {
                Some(raw)
            } else {
                None
            }
        },
    }
}

/// Host and path of `url`, each absent where it is missing or could pass
/// for a command-line option: the host as `host_argument_safe` gives it, the
/// path as `path_argument_safe` gives it or else, where it is relative, as
/// it stands.
pub fn parts_owned(url: &GitUrl) -> (r: (Option<String>, Option<String>))
    ensures
        (text_of(r.0), text_of(r.1)) == parts_spec(text_of(url.host), url.path@),
{
    let host = host_argument_safe(url);
    let path = select_path(path_argument_safe(url), url.path.clone());
    (host, path)
}

/// Stripping leading separators leaves a suffix of the text that does not
/// begin with a separator.
pub proof fn lemma_strip_leading_separators(s: Seq<char>)
    ensures
        strip_leading_separators(s).len() <= s.len(),
        strip_leading_separators(s) == s.subrange(
            s.len() - strip_leading_separators(s).len(),
            s.len() as int,
        ),
        strip_leading_separators(s).len() > 0 ==> !is_separator(strip_leading_separators(s)[0]),
        forall|i: int|
            0 <= i < s.len() - strip_leading_separators(s).len() ==> is_separator(#[trigger] s[i]),
    decreases s.len(),
{
    if s.len() > 0 && is_separator(s[0]) {
        let t = s.subrange(1, s.len() as int);
        lemma_strip_leading_separators(t);
        let r = strip_leading_separators(t);
        assert(r == s.subrange(s.len() - r.len(), s.len() as int)) by {
            assert(t.subrange(t.len() - r.len(), t.len() as int) =~= s.subrange(
                s.len() - r.len(),
                s.len() as int,
            ));
        }
        assert forall|i: int| 0 <= i < s.len() - r.len() implies is_separator(#[trigger] s[i]) by {
            if i > 0 {
                assert(s[i] == t[i - 1]);
            }
        }
    } else {
        assert(s.subrange(0, s.len() as int) =~= s);
    }
}

/// `path` without its leading separators.
pub fn trim_leading_separators(path: &str) -> (r: String)
    ensures
        r@ == strip_leading_separators(path@),
{
    let n: usize = path.unicode_len();
    let mut start: usize = 0;
    proof {
        assert(path@.subrange(0, n as int) =~= path@);
    }
    while start < n && path.get_char(start) == '/'
        invariant
            n == path@.len(),
            start <= n,
            strip_leading_separators(path@) == strip_leading_separators(
                path@.subrange(start as int, n as int),
            ),
        decreases n - start,
    {
        proof {
            let cur = path@.subrange(start as int, n as int);
            assert(cur.subrange(1, cur.len() as int) =~= path@.subrange(start + 1, n as int));
        }
        start = start + 1;
    }
    path.substring_char(start, n).to_owned()
}

/// Turns the parts of a parsed URL into a descriptor: both must be present,
/// the host non-empty, and the path non-empty once the separators that set it
/// off from the host are dropped.
pub fn describe(host: Option<String>, path: Option<String>) -> (r: Result<
    RemoteUrlDescriptor,
    ParseError,
>)
    ensures
        parsed_view(r) == describe_spec(text_of(host), text_of(path)),
        r matches Ok(d) ==> d.wf(),
{
    match (host, path) {
        (Some(h), Some(p)) => {
            let rel = trim_leading_separators(p.as_str());
            proof {
                lemma_strip_leading_separators(p@);
            }
            if h.as_str().unicode_len() > 0 && rel.as_str().unicode_len() > 0 {
                Ok(RemoteUrlDescriptor { host: h, path: rel })
            } else {
                Err(ParseError::MissingComponent)
            }
        },
        _ => Err(ParseError::MissingComponent),
    }
}

/// The view of a parser's result.
pub open spec fn parsed_view(r: Result<RemoteUrlDescriptor, ParseError>) -> Result<
    (Seq<char>, Seq<char>),
    ParseError,
> {
    match r {
        Ok(d) => Ok(d@),
        Err(e) => Err(e),
    }
}

/// What is made of gix's answer: `Malformed` where gix refused the string
/// (`None`), else what `describe` makes of the parts of host and path.
pub open spec fn parse_outcome_spec(answer: Option<(Option<Seq<char>>, Seq<char>)>) -> Result<
    (Seq<char>, Seq<char>),
    ParseError,
> {
    match answer {
        None => Err(ParseError::Malformed),
        Some((host, path)) => describe_spec(
            parts_spec(host, path).0,
            parts_spec(host, path).1,
        ),
    }
}

/// What `parse` returns for a string.
pub open spec fn parse_spec(raw: Seq<char>) -> Result<(Seq<char>, Seq<char>), ParseError> {
    parse_outcome_spec(gix_parse_of(raw))
}

/// Makes a descriptor of gix's answer: `Malformed` where gix refused the
/// string, `MissingComponent` where host or path is missing, empty or could
/// pass for an option, else the host with the path relative to it.
pub fn from_git_url(answer: Option<GitUrl>) -> (r: Result<RemoteUrlDescriptor, ParseError>)
    ensures
        parsed_view(r) == parse_outcome_spec(git_url_view(answer)),
        r matches Ok(d) ==> d.wf() && d.host@[0] != '-',
{
    match answer {
        None => Err(ParseError::Malformed),
        Some(url) => {
            let (host, path) = parts_owned(&url);
            describe(host, path)
        },
    }
}

/// Parses a remote location: `raw` goes to gix as it is, and the result is
/// what `from_git_url` makes of gix's answer. A descriptor that comes back
/// is usable and its host cannot pass for an option.
pub fn parse(raw: &str) -> (r: Result<RemoteUrlDescriptor, ParseError>)
    ensures
        parsed_view(r) == parse_spec(raw@),
        r matches Ok(d) ==> d.wf() && d.host@[0] != '-',
{
    from_git_url(to_git_url(raw))
}

/// `Malformed` is returned for exactly the strings that gix refuses.
pub proof fn lemma_malformed_iff_refused(raw: Seq<char>)
    ensures
        parse_spec(raw) == Err::<(Seq<char>, Seq<char>), ParseError>(ParseError::Malformed)
            <==> gix_parse_of(raw) is None,
{
}

/// Extraction is idempotent: handing the host and path of a descriptor that
/// `describe` produced back to `describe` yields the same descriptor.
pub proof fn lemma_describe_idempotent(host: Option<Seq<char>>, path: Option<Seq<char>>)
    requires
        describe_spec(host, path) is Ok,
    ensures
        ({
            let d = describe_spec(host, path).unwrap();
            describe_spec(Some(d.0), Some(d.1)) == Ok::<(Seq<char>, Seq<char>), ParseError>(d)
        }),
{
    let p = path.unwrap();
    lemma_strip_leading_separators(p);
}

} // verus!
