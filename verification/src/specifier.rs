//! Canonical module specifiers and the specifier resolver.
//!
//! A raw import string is resolved to an absolute, canonical locator: if it
//! already parses as an absolute URL it is canonicalized and returned;
//! otherwise it is joined onto the loader's current working directory,
//! the path is normalized (`.` and `..` segments collapse, never escaping
//! above the root), and the result is converted to a `file:` URL.
//! Canonicalization itself is delegated to the WHATWG URL implementation
//! of the `url` crate; everything around it is verified.

use vstd::prelude::*;

use crate::text::{spec_join, spec_split, split_char, join_char};
use crate::LoaderError;

verus! {

/// What `url::Url::parse` returns for a given input: `Some` of the
/// canonical serialization on success, `None` on a parse error. The
/// outcome is a function of the input string alone.
pub uninterp spec fn url_canon(s: Seq<char>) -> Option<Seq<char>>;

/// What `url::Url::from_file_path` returns for a given path: `Some` of
/// the serialized `file:` URL for an absolute path, `None` otherwise.
/// The outcome is a function of the path string alone.
pub uninterp spec fn file_url_of(path: Seq<char>) -> Option<Seq<char>>;

/// Relies on `url::Url::parse`, which parses an absolute URL from a string
/// and fails on anything else, and `url::Url::as_str`, which returns the
/// canonical serialization that parsing produced.
#[verifier::external_body]
fn parse_absolute_url(raw: &str) -> (r: Option<String>)
    ensures
        r is Some <==> url_canon(raw@) is Some,
        r matches Some(c) ==> url_canon(raw@) == Some(c@),
{
    match url::Url::parse(raw) {
        Ok(u) => Some(u.as_str().to_owned()),
        Err(_) => None,
    }
}

/// Relies on `url::Url::from_file_path`, which converts an absolute file
/// path into a `file:` URL and fails on a relative path, and
/// `url::Url::as_str`, which returns the canonical serialization.
#[verifier::external_body]
fn path_to_file_url(path: &str) -> (r: Option<String>)
    ensures
        r is Some <==> file_url_of(path@) is Some,
        r matches Some(u) ==> file_url_of(path@) == Some(u@),
{
    match url::Url::from_file_path(path) {
        Ok(u) => Some(u.as_str().to_owned()),
        Err(()) => None,
    }
}

/// An absolute, canonical locator for a loadable module. Immutable once
/// constructed; values only come out of the resolver or `parse`.
#[derive(Debug)]
pub struct ModuleSpecifier {
    url: String,
}

impl View for ModuleSpecifier {
    type V = Seq<char>;

    closed spec fn view(&self) -> Seq<char> {
        self.url@
    }
}

impl Clone for ModuleSpecifier {
    fn clone(&self) -> (r: Self)
        ensures
            r@ == self@,
    {
        ModuleSpecifier { url: self.url.clone() }
    }
}

impl ModuleSpecifier {
    /// Parses an absolute URL into a canonical specifier; anything that is
    /// not an absolute URL is rejected as `InvalidUrl`.
    pub fn parse(raw: &str) -> (r: Result<ModuleSpecifier, LoaderError>)
        ensures
            r is Ok <==> url_canon(raw@) is Some,
            r matches Ok(m) ==> url_canon(raw@) == Some(m@),
            r matches Err(e) ==> e == LoaderError::InvalidUrl,
    {
        match parse_absolute_url(raw) {
            Some(c) => Ok(ModuleSpecifier { url: c }),
            None => Err(LoaderError::InvalidUrl),
        }
    }

    /// The canonical serialization of this specifier.
    pub fn as_str(&self) -> (r: &str)
        ensures
            r@ == self@,
    {
        self.url.as_str()
    }
}

/// The `.` path segment.
pub open spec fn seg_dot() -> Seq<char> {
    seq!['.']
}

/// The `..` path segment.
pub open spec fn seg_dotdot() -> Seq<char> {
    seq!['.', '.']
}

/// Path segments after normalization: empty and `.` segments vanish and
/// `..` pops the previous segment, or vanishes at the root rather than
/// escaping above it.
pub open spec fn norm_segments(segs: Seq<Seq<char>>) -> Seq<Seq<char>>
    decreases segs.len(),
{
    if segs.len() == 0 {
        Seq::empty()
    } else {
        let rest = norm_segments(segs.drop_last());
        let last = segs.last();
        if last.len() == 0 || last == seg_dot() {
            rest
        } else if last == seg_dotdot() {
            if rest.len() > 0 {
                rest.drop_last()
            } else {
                rest
            }
        } else {
            rest.push(last)
        }
    }
}

/// A path after `.`/`..` collapse: its segments normalized and rejoined,
/// keeping a leading `/` when the input was absolute.
pub open spec fn spec_normalize_path(p: Seq<char>) -> Seq<char> {
    let joined = spec_join(norm_segments(spec_split(p, '/')), '/');
    if p.len() > 0 && p[0] == '/' {
        seq!['/'] + joined
    } else {
        joined
    }
}

/// A raw path joined onto a base directory: an already-absolute path
/// stands alone, anything else goes below the base.
pub open spec fn spec_join_path(base: Seq<char>, raw: Seq<char>) -> Seq<char> {
    if raw.len() > 0 && raw[0] == '/' {
        raw
    } else {
        base + seq!['/'] + raw
    }
}

/// The `file:` URL a path resolves to once joined onto `base` and
/// normalized, or `None` when no valid locator exists for it.
pub open spec fn spec_path_url(base: Seq<char>, raw: Seq<char>) -> Option<Seq<char>> {
    file_url_of(spec_normalize_path(spec_join_path(base, raw)))
}

/// The canonical locator a raw specifier resolves to against a current
/// working directory: an absolute URL canonicalizes directly, everything
/// else resolves as a path below the working directory.
pub open spec fn spec_resolve(raw: Seq<char>, cwd: Seq<char>) -> Option<Seq<char>> {
    match url_canon(raw) {
        Some(c) => Some(c),
        None => spec_path_url(cwd, raw),
    }
}

/// Joins `raw` below `base` unless `raw` is already absolute.
fn join_path(base: &str, raw: &str) -> (r: String)
    ensures
        r@ == spec_join_path(base@, raw@),
{
    proof {
        reveal_strlit("/");
        assert("/"@ =~= seq!['/']);
    }
    let n = raw.unicode_len();
    if n > 0 && raw.get_char(0) == '/' {
        String::from_str(raw)
    } else {
        let mut out = String::from_str(base);
        out.append("/");
        out.append(raw);
        out
    }
}

/// Collapses `.` and `..` segments of a `/`-separated path.
pub fn normalize_path(p: &str) -> (r: String)
    ensures
        r@ == spec_normalize_path(p@),
{
    let segs = split_char(p, '/');
    let mut stack: Vec<String> = Vec::new();
    let n = segs.len();
    let mut idx: usize = 0;
    proof {
        let f = |t: String| t@;
        assert(segs@.map_values(f).take(0) =~= Seq::<Seq<char>>::empty());
        assert(stack@.map_values(f) =~= norm_segments(segs@.map_values(f).take(0)));
    }
    while idx < n
        invariant
            n == segs@.len(),
            idx <= n,
            stack@.map_values(|t: String| t@) == norm_segments(
                segs@.map_values(|t: String| t@).take(idx as int),
            ),
        decreases n - idx,
    {
        let seg = &segs[idx];
        let l = seg.as_str().unicode_len();
        proof {
            let f = |t: String| t@;
            let views = segs@.map_values(f);
            assert(views.take(idx as int + 1).drop_last() =~= views.take(idx as int));
            assert(views.take(idx as int + 1).last() == seg@);
        }
        if l == 0 || (l == 1 && seg.as_str().get_char(0) == '.') {
            proof {
                if l == 1 {
                    assert(seg@ =~= seg_dot());
                }
            }
        } else if l == 2 && seg.as_str().get_char(0) == '.' && seg.as_str().get_char(1) == '.' {
            proof {
                assert(seg@ =~= seg_dotdot());
            }
            if stack.len() > 0 {
                let ghost pre = stack@;
                stack.pop();
                proof {
                    let f = |t: String| t@;
                    assert(stack@.map_values(f) =~= pre.map_values(f).drop_last());
                }
            }
        } else {
            proof {
                assert(seg@ != seg_dot());
                assert(seg@ != seg_dotdot());
            }
            let copy = seg.clone();
            let ghost pre = stack@;
            stack.push(copy);
            proof {
                let f = |t: String| t@;
                assert(stack@.map_values(f) =~= pre.map_values(f).push(seg@));
            }
        }
        idx += 1;
    }
    proof {
        let f = |t: String| t@;
        assert(segs@.map_values(f).take(n as int) =~= segs@.map_values(f));
        reveal_strlit("/");
        assert("/"@ =~= seq!['/']);
    }
    let joined = join_char(&stack, "/");
    let pn = p.unicode_len();
    if pn > 0 && p.get_char(0) == '/' {
        let mut out = String::from_str("/");
        out.append(joined.as_str());
        out
    } else {
        joined
    }
}

/// Converts a relative or absolute path into a module specifier: the
/// path is joined below `current_dir` unless already absolute,
/// normalized, and converted to a canonical `file:` locator.
pub fn resolve_path(path: &str, current_dir: &str) -> (r: Result<ModuleSpecifier, LoaderError>)
    ensures
        r is Ok <==> spec_path_url(current_dir@, path@) is Some,
        r matches Ok(m) ==> spec_path_url(current_dir@, path@) == Some(m@),
        r matches Err(e) ==> e == LoaderError::InvalidUrl,
{
    let joined = join_path(current_dir, path);
    let norm = normalize_path(joined.as_str());
    match path_to_file_url(norm.as_str()) {
        Some(u) => Ok(ModuleSpecifier { url: u }),
        None => Err(LoaderError::InvalidUrl),
    }
}

/// Resolves a raw specifier against the current working directory into a
/// canonical absolute locator, or fails with `InvalidUrl` when no valid
/// locator exists for it.
pub fn resolve_specifier(raw: &str, cwd: &str) -> (r: Result<ModuleSpecifier, LoaderError>)
    ensures
        r is Ok <==> spec_resolve(raw@, cwd@) is Some,
        r matches Ok(m) ==> spec_resolve(raw@, cwd@) == Some(m@),
        r matches Err(e) ==> e == LoaderError::InvalidUrl,
{
    match parse_absolute_url(raw) {
        Some(c) => Ok(ModuleSpecifier { url: c }),
        None => resolve_path(raw, cwd),
    }
}

/// Resolution is deterministic: the same raw specifier resolved against
/// the same base directory always yields the same canonical specifier.
pub proof fn lemma_resolution_deterministic(
    raw: Seq<char>,
    cwd: Seq<char>,
    a: Seq<char>,
    b: Seq<char>,
)
    requires
        spec_resolve(raw, cwd) == Some(a),
        spec_resolve(raw, cwd) == Some(b),
    ensures
        a == b,
{
}

} // verus!
