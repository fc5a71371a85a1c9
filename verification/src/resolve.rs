//! From a descriptor to the directory that holds its clone.

use crate::git::{is_separator, RemoteUrlDescriptor};
use vstd::prelude::*;
use vstd::string::{StrSliceExecFns, StringExecFns};

verus! {

/// Why a descriptor has no directory below the root.
#[derive(Clone, Copy, Debug, PartialEq, Eq, Structural)]
pub enum ResolveError {
    /// The directory would lie outside the root.
    PathEscape,
}

/// The lower-case form of a text, as `str::to_lowercase` computes it.
pub uninterp spec fn lowercase_of(s: Seq<char>) -> Seq<char>;

/// Calls `str::to_lowercase`; its result goes by the name `lowercase_of`.
#[verifier::external_body]
fn to_lowercase(s: &str) -> (r: String)
    ensures
        r@ == lowercase_of(s@),
{
    s.to_lowercase()
}

/// The host in lower case, the form in which it names a directory. Hosts
/// that differ only in case have the same form here, which is what
/// `lemma_resolve_host_case` asks of them.
pub fn lowercase_host(host: &str) -> (r: String)
    ensures
        r@ == lowercase_of(host@),
{
    to_lowercase(host)
}

/// Whether `p` ends in `.git`.
pub open spec fn ends_with_git(p: Seq<char>) -> bool {
    &&& p.len() >= 4
    &&& p[p.len() - 4] == '.'
    &&& p[p.len() - 3] == 'g'
    &&& p[p.len() - 2] == 'i'
    &&& p[p.len() - 1] == 't'
}

/// The canonical form of a repository path: trailing separators and trailing
/// `.git` suffixes are dropped until neither is left.
pub open spec fn normalize_path(p: Seq<char>) -> Seq<char>
    decreases p.len(),
{
    if p.len() > 0 && is_separator(p.last()) {
        normalize_path(p.drop_last())
    } else if ends_with_git(p) {
        normalize_path(p.subrange(0, p.len() - 4))
    } else {
        p
    }
}

/// Whether a segment `..` starts at position `i` of `p`.
pub open spec fn is_parent_segment_at(p: Seq<char>, i: int) -> bool {
    &&& 0 <= i
    &&& i + 2 <= p.len()
    &&& p[i] == '.'
    &&& p[i + 1] == '.'
    &&& (i == 0 || is_separator(p[i - 1]))
    &&& (i + 2 == p.len() || is_separator(p[i + 2]))
}

/// Whether one of the segments of `p` is `..`.
pub open spec fn has_parent_segment(p: Seq<char>) -> bool {
    exists|i: int| is_parent_segment_at(p, i)
}

/// Whether `p` begins with a separator.
pub open spec fn is_absolute(p: Seq<char>) -> bool {
    p.len() > 0 && is_separator(p[0])
}

/// Whether `p`, joined to a directory, could leave that directory.
pub open spec fn escapes(p: Seq<char>) -> bool {
    is_absolute(p) || has_parent_segment(p)
}

/// Whether `s` holds a separator.
pub open spec fn has_separator(s: Seq<char>) -> bool {
    exists|i: int| 0 <= i < s.len() && is_separator(#[trigger] s[i])
}

/// Whether `s` is unfit to be one segment of a path: it is `..` or is more
/// than one segment.
pub open spec fn segment_escapes(s: Seq<char>) -> bool {
    has_separator(s) || has_parent_segment(s)
}

/// Whether a language tag can serve as a directory of its own.
pub open spec fn usable_tag(tag: Seq<char>) -> bool {
    tag.len() > 0 && !segment_escapes(tag)
}

/// `rel` below `base`, with one separator between the two unless `base` is
/// empty or brings its own.
pub open spec fn join(base: Seq<char>, rel: Seq<char>) -> Seq<char> {
    if base.len() == 0 {
        rel
    } else if is_separator(base.last()) {
        base + rel
    } else {
        base + seq!['/'] + rel
    }
}

/// `entry` as seen from `root`: where it lies below the root, what follows
/// the root and its separator; any other entry as it is.
pub open spec fn relative_to(root: Seq<char>, entry: Seq<char>) -> Seq<char> {
    let prefix = join(root, Seq::<char>::empty());
    if prefix.len() > 0 && prefix.is_prefix_of(entry) {
        entry.subrange(prefix.len() as int, entry.len() as int)
    } else {
        entry
    }
}

/// The directory below which hosts are laid out: the root itself, or the
/// language's directory where one is asked for and the tag is usable.
pub open spec fn layout_base(
    root: Seq<char>,
    use_language_subdir: bool,
    language: Option<Seq<char>>,
) -> Seq<char> {
    match language {
        Some(tag) => if use_language_subdir && usable_tag(tag) {
            join(root, tag)
        } else {
            root
        },
        None => root,
    }
}

/// The directory for a host that is already in lower case and a repository
/// path: `base/host/normalize(path)`, or `PathEscape` where host or path
/// would lead out of it.
pub open spec fn place_spec(base: Seq<char>, host: Seq<char>, path: Seq<char>) -> Result<
    Seq<char>,
    ResolveError,
> {
    if segment_escapes(host) || escapes(normalize_path(path)) {
        Err(ResolveError::PathEscape)
    } else {
        Ok(join(join(base, host), normalize_path(path)))
    }
}

/// The directory of a descriptor's clone.
pub open spec fn resolve_spec(
    root: Seq<char>,
    descriptor: (Seq<char>, Seq<char>),
    use_language_subdir: bool,
    language: Option<Seq<char>>,
) -> Result<Seq<char>, ResolveError> {
    place_spec(
        layout_base(root, use_language_subdir, language),
        lowercase_of(descriptor.0),
        descriptor.1,
    )
}

/// The view of a resolver's result.
pub open spec fn resolved_view(r: Result<String, ResolveError>) -> Result<Seq<char>, ResolveError> {
    match r {
        Ok(p) => Ok(p@),
        Err(e) => Err(e),
    }
}

/// The canonical form of `path`.
pub fn normalize(path: &str) -> (r: String)
    ensures
        r@ == normalize_path(path@),
{
    let n: usize = path.unicode_len();
    let mut end: usize = n;
    proof {
        assert(path@.subrange(0, n as int) =~= path@);
    }
    loop
        invariant
            n == path@.len(),
            end <= n,
            normalize_path(path@) == normalize_path(path@.subrange(0, end as int)),
        ensures
            normalize_path(path@) == path@.subrange(0, end as int),
        decreases end,
    {
        let ghost cur = path@.subrange(0, end as int);
        if end >= 1 && path.get_char(end - 1) == '/' {
            proof {
                assert(cur.drop_last() =~= path@.subrange(0, end - 1));
            }
            end = end - 1;
        } else if end >= 4 && path.get_char(end - 4) == '.' && path.get_char(end - 3) == 'g'
            && path.get_char(end - 2) == 'i' && path.get_char(end - 1) == 't' {
            proof {
                assert(ends_with_git(cur));
                assert(cur.subrange(0, cur.len() - 4) =~= path@.subrange(0, end - 4));
            }
            end = end - 4;
        } else {
            proof {
                assert(!ends_with_git(cur));
            }
            break ;
        }
    }
    path.substring_char(0, end).to_owned()
}

/// Whether `path` begins with a separator or has a segment `..`.
pub fn escapes_root(path: &str) -> (r: bool)
    ensures
        r == escapes(path@),
{
    let n: usize = path.unicode_len();
    if n > 0 && path.get_char(0) == '/' {
        return true;
    }
    let mut i: usize = 0;
    while i < n
        invariant
            n == path@.len(),
            i <= n,
            forall|j: int| 0 <= j < i ==> !is_parent_segment_at(path@, j),
        decreases n - i,
    {
        if n - i >= 2 && path.get_char(i) == '.' && path.get_char(i + 1) == '.' && (i == 0
            || path.get_char(i - 1) == '/') && (n - i == 2 || path.get_char(i + 2) == '/') {
            proof {
                assert(is_parent_segment_at(path@, i as int));
            }
            return true;
        }
        i = i + 1;
    }
    false
}

/// Whether `s` holds a separator.
pub fn contains_separator(s: &str) -> (r: bool)
    ensures
        r == has_separator(s@),
{
    let n: usize = s.unicode_len();
    let mut i: usize = 0;
    while i < n
        invariant
            n == s@.len(),
            i <= n,
            forall|j: int| 0 <= j < i ==> !is_separator(#[trigger] s@[j]),
        decreases n - i,
    {
        if s.get_char(i) == '/' {
            return true;
        }
        i = i + 1;
    }
    false
}

/// Whether `s` cannot stand as one segment of a path.
pub fn is_unsafe_segment(s: &str) -> (r: bool)
    ensures
        r == segment_escapes(s@),
{
    contains_separator(s) || escapes_root(s)
}

/// `rel` below `base`.
pub fn join_path(base: &str, rel: &str) -> (r: String)
    ensures
        r@ == join(base@, rel@),
{
    let n: usize = base.unicode_len();
    if n == 0 {
        return rel.to_owned();
    }
    let mut out = String::from_str(base);
    if base.get_char(n - 1) != '/' {
        proof {
            reveal_strlit("/");
            assert("/"@ =~= seq!['/']);
        }
        out.append("/");
    }
    out.append(rel);
    out
}

/// Whether `text` begins with `prefix`.
pub fn starts_with(text: &str, prefix: &str) -> (r: bool)
    ensures
        r == prefix@.is_prefix_of(text@),
{
    let n: usize = prefix.unicode_len();
    if n > text.unicode_len() {
        return false;
    }
    let mut i: usize = 0;
    while i < n
        invariant
            n == prefix@.len(),
            n <= text@.len(),
            i <= n,
            forall|j: int| 0 <= j < i ==> text@[j] == prefix@[j],
        decreases n - i,
    {
        if text.get_char(i) != prefix.get_char(i) {
            proof {
                assert(text@.subrange(0, n as int)[i as int] != prefix@[i as int]);
            }
            return false;
        }
        i = i + 1;
    }
    proof {
        assert(prefix@ =~= text@.subrange(0, n as int));
    }
    true
}

/// `entry` as seen from `root`: where it lies below the root, what follows
/// the root and its separator; any other entry as it is.
pub fn relative(root: &str, entry: &str) -> (r: String)
    ensures
        r@ == relative_to(root@, entry@),
{
    let prefix = join_path(root, "");
    proof {
        reveal_strlit("");
        assert(""@ =~= Seq::<char>::empty());
    }
    let n: usize = prefix.as_str().unicode_len();
    if n > 0 && starts_with(entry, prefix.as_str()) {
        entry.substring_char(n, entry.unicode_len()).to_owned()
    } else {
        entry.to_owned()
    }
}

/// The directory for `host` and `path` below `base`, where `host` is already
/// in lower case: `PathEscape` exactly where the host is no single segment or
/// the normalized path is absolute or has a segment `..`.
pub fn place(base: &str, host: &str, path: &str) -> (r: Result<String, ResolveError>)
    ensures
        resolved_view(r) == place_spec(base@, host@, path@),
{
    let canonical = normalize(path);
    if is_unsafe_segment(host) || escapes_root(canonical.as_str()) {
        return Err(ResolveError::PathEscape);
    }
    let below_host = join_path(base, host);
    Ok(join_path(below_host.as_str(), canonical.as_str()))
}

/// The directory below which hosts are laid out.
pub fn base_directory(root: &str, use_language_subdir: bool, language: &Option<String>) -> (r:
    String)
    ensures
        r@ == layout_base(root@, use_language_subdir, crate::git::text_of(*language)),
{
    match language {
        Some(tag) => {
            if use_language_subdir && tag.as_str().unicode_len() > 0 && !is_unsafe_segment(
                tag.as_str(),
            ) {
                join_path(root, tag.as_str())
            } else {
                root.to_owned()
            }
        },
        None => root.to_owned(),
    }
}

/// Resolves the directory of a descriptor's clone below `root`:
/// `root/host/path` with the host in lower case and the path in canonical
/// form, below the language's directory where `use_language_subdir` is set
/// and `language` holds a usable tag. Nothing on disk is consulted.
pub fn resolve(
    root: &str,
    descriptor: &RemoteUrlDescriptor,
    use_language_subdir: bool,
    language: &Option<String>,
) -> (r: Result<String, ResolveError>)
    ensures
        resolved_view(r) == resolve_spec(
            root@,
            descriptor@,
            use_language_subdir,
            crate::git::text_of(*language),
        ),
{
    let base = base_directory(root, use_language_subdir, language);
    let host = lowercase_host(descriptor.host.as_str());
    place(base.as_str(), host.as_str(), descriptor.path.as_str())
}

/// Resolution is a function of its arguments: equal roots, descriptors and
/// language requests have the same directory, or fail alike.
pub proof fn lemma_resolve_deterministic(
    root_a: Seq<char>,
    descriptor_a: (Seq<char>, Seq<char>),
    root_b: Seq<char>,
    descriptor_b: (Seq<char>, Seq<char>),
    use_language_subdir: bool,
    language: Option<Seq<char>>,
)
    requires
        root_a == root_b,
        descriptor_a == descriptor_b,
    ensures
        resolve_spec(root_a, descriptor_a, use_language_subdir, language) == resolve_spec(
            root_b,
            descriptor_b,
            use_language_subdir,
            language,
        ),
{
}

/// Hosts that differ only in what lower-casing removes resolve alike.
pub proof fn lemma_resolve_host_case(
    root: Seq<char>,
    host_a: Seq<char>,
    host_b: Seq<char>,
    path: Seq<char>,
    use_language_subdir: bool,
    language: Option<Seq<char>>,
)
    requires
        lowercase_of(host_a) == lowercase_of(host_b),
    ensures
        resolve_spec(root, (host_a, path), use_language_subdir, language) == resolve_spec(
            root,
            (host_b, path),
            use_language_subdir,
            language,
        ),
{
}

/// A path and the same path with `.git` appended have one canonical form.
pub proof fn lemma_normalize_git_suffix(path: Seq<char>)
    ensures
        normalize_path(path + seq!['.', 'g', 'i', 't']) == normalize_path(path),
{
    let q = path + seq!['.', 'g', 'i', 't'];
    assert(ends_with_git(q));
    assert(!is_separator(q.last()));
    assert(q.subrange(0, q.len() - 4) =~= path);
}

/// A path and the same path with `.git` appended resolve alike.
pub proof fn lemma_resolve_git_suffix(
    root: Seq<char>,
    host: Seq<char>,
    path: Seq<char>,
    use_language_subdir: bool,
    language: Option<Seq<char>>,
)
    ensures
        resolve_spec(
            root,
            (host, path + seq!['.', 'g', 'i', 't']),
            use_language_subdir,
            language,
        ) == resolve_spec(root, (host, path), use_language_subdir, language),
{
    lemma_normalize_git_suffix(path);
}

/// The canonical form is a prefix of the path, ends neither in a separator
/// nor in `.git`, and is its own canonical form.
pub proof fn lemma_normalize_canonical(path: Seq<char>)
    ensures
        normalize_path(path).is_prefix_of(path),
        normalize_path(path).len() > 0 ==> !is_separator(normalize_path(path).last()),
        !ends_with_git(normalize_path(path)),
        normalize_path(normalize_path(path)) == normalize_path(path),
    decreases path.len(),
{
    if path.len() > 0 && is_separator(path.last()) {
        lemma_normalize_canonical(path.drop_last());
    } else if ends_with_git(path) {
        lemma_normalize_canonical(path.subrange(0, path.len() - 4));
    } else {
    }
}

/// A path whose canonical form has a segment `..`, or begins with a
/// separator, is refused with `PathEscape`, whatever root and host.
pub proof fn lemma_escape_rejected(
    root: Seq<char>,
    host: Seq<char>,
    path: Seq<char>,
    use_language_subdir: bool,
    language: Option<Seq<char>>,
)
    requires
        escapes(normalize_path(path)),
    ensures
        resolve_spec(root, (host, path), use_language_subdir, language) == Err::<
            Seq<char>,
            ResolveError,
        >(ResolveError::PathEscape),
{
}

/// Every resolved directory lies below the root: its text begins with the
/// root's.
pub proof fn lemma_resolved_below_root(
    root: Seq<char>,
    descriptor: (Seq<char>, Seq<char>),
    use_language_subdir: bool,
    language: Option<Seq<char>>,
)
    requires
        root.len() > 0,
        resolve_spec(root, descriptor, use_language_subdir, language) is Ok,
    ensures
        root.is_prefix_of(
            resolve_spec(root, descriptor, use_language_subdir, language).unwrap(),
        ),
{
    let base = layout_base(root, use_language_subdir, language);
    assert(root.is_prefix_of(base) && base.len() > 0);
    let below = join(base, lowercase_of(descriptor.0));
    assert(base.is_prefix_of(below) && below.len() > 0);
    let full = join(below, normalize_path(descriptor.1));
    assert(below.is_prefix_of(full));
}

} // verus!
