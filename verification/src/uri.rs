//! Absolute resource locators used as cache keys.
//!
//! A URI is parsed and normalized once, by the `url` crate, and carried
//! afterwards as plain values: its normalized form, its scheme and its
//! path. Two URIs are the same resource exactly when their normalized
//! forms are equal. The file extension of the path's last segment, which
//! selects the wire format, is computed by verified code.

use vstd::prelude::*;

use crate::error::Error;
use crate::strings::{ascii_lower, ascii_lowercase, str_eq};

verus! {

/// What parsing a URI string yields: the scheme, the path and the
/// normalized form of the whole URI, or nothing for a malformed string.
pub uninterp spec fn uri_parts(s: Seq<char>) -> Option<(Seq<char>, Seq<char>, Seq<char>)>;

/// An absolute resource locator with a scheme and a path.
#[derive(Clone, Debug)]
pub struct Uri {
    /// The normalized string form; URIs are equal iff these are equal.
    pub raw: String,
    /// The scheme, such as `file` or `https`.
    pub scheme: String,
    /// The path component.
    pub path: String,
}

/// Relies on url::Url::parse: parses and normalizes an absolute URI,
/// failing on malformed input; the result's scheme, path and serialized
/// form depend on the input string alone.
#[verifier::external_body]
fn parse_via_url(s: &str) -> (r: Option<Uri>)
    ensures
        match r {
            Some(u) => uri_parts(s@) == Some((u.scheme@, u.path@, u.raw@)),
            None => uri_parts(s@) is None,
        },
{
    match url::Url::parse(s) {
        Ok(u) => Some(
            Uri {
                scheme: u.scheme().to_string(),
                path: u.path().to_string(),
                raw: String::from(u),
            },
        ),
        Err(_) => None,
    }
}

/// Relies on url::Url::parse and url::Url::to_file_path: yields the
/// local filesystem path the URI designates, or nothing when it has no
/// such path on this platform (for instance a non-empty remote host).
/// `to_file_path` does not itself check the scheme, and which URIs have
/// a path is platform-dependent, so nothing is promised of the result.
#[verifier::external_body]
fn local_path_via_url(raw: &str) -> Option<String> {
    let parsed = url::Url::parse(raw).ok()?;
    let path = parsed.to_file_path().ok()?;
    path.to_str().map(|p| p.to_string())
}

impl Uri {
    /// Parses a URI string into its canonical form.
    ///
    /// A malformed string gives [`Error::InvalidUrl`] carrying the input.
    pub fn parse(s: &str) -> (r: Result<Uri, Error>)
        ensures
            match r {
                Ok(u) => uri_parts(s@) == Some((u.scheme@, u.path@, u.raw@)),
                Err(e) => uri_parts(s@) is None && (e matches Error::InvalidUrl { text }
                    && text@ == s@),
            },
    {
        match parse_via_url(s) {
            Some(u) => Ok(u),
            None => Err(Error::InvalidUrl { text: s.to_owned() }),
        }
    }

    /// The normalized string form of this URI.
    pub fn as_str(&self) -> (r: &str)
        ensures
            r@ == self.raw@,
    {
        self.raw.as_str()
    }

    /// The URI's scheme.
    pub fn scheme(&self) -> (r: &str)
        ensures
            r@ == self.scheme@,
    {
        self.scheme.as_str()
    }

    /// The URI's path component.
    pub fn path(&self) -> (r: &str)
        ensures
            r@ == self.path@,
    {
        self.path.as_str()
    }

    /// The lower-cased file extension of the path's last segment; empty
    /// when the segment has none.
    pub fn file_extension(&self) -> (r: String)
        ensures
            r@ == file_ext_of(self.path@),
    {
        file_extension_of(self.path.as_str())
    }

    /// The local filesystem path this URI designates, when its scheme is
    /// `file` and it has one on this platform. A URI with any other
    /// scheme yields nothing.
    pub fn to_local_path(&self) -> (r: Option<String>)
        ensures
            r is Some ==> self.scheme@ == "file"@,
    {
        if str_eq(self.scheme.as_str(), "file") {
            local_path_via_url(self.raw.as_str())
        } else {
            None
        }
    }
}

/// A value that can be turned into a canonical URI.
///
/// A conversion that is statically guaranteed never to fail has
/// `spec_uri` always defined, which leaves its implementation no error
/// case at all: the absence of failure is part of the contract, not a
/// convention.
pub trait TryIntoUri: Sized {
    /// The canonical (scheme, path, normalized form) this value
    /// denotes, or nothing when the conversion fails.
    spec fn spec_uri(&self) -> Option<(Seq<char>, Seq<char>, Seq<char>)>;

    /// Converts this value into a canonical URI.
    fn try_into_uri(self) -> (r: Result<Uri, Error>)
        ensures
            match r {
                Ok(u) => self.spec_uri() == Some((u.scheme@, u.path@, u.raw@)),
                Err(e) => self.spec_uri() is None && (e matches Error::InvalidUrl { .. }),
            },
    ;
}

impl TryIntoUri for &str {
    open spec fn spec_uri(&self) -> Option<(Seq<char>, Seq<char>, Seq<char>)> {
        uri_parts(self@)
    }

    fn try_into_uri(self) -> (r: Result<Uri, Error>) {
        Uri::parse(self)
    }
}

impl TryIntoUri for Uri {
    open spec fn spec_uri(&self) -> Option<(Seq<char>, Seq<char>, Seq<char>)> {
        Some((self.scheme@, self.path@, self.raw@))
    }

    fn try_into_uri(self) -> (r: Result<Uri, Error>) {
        Ok(self)
    }
}

/// The position right after the last `/` of `p`, or `0` when `p` has no
/// slash: where the last path segment starts.
pub open spec fn last_segment_start(p: Seq<char>) -> int
    decreases p.len(),
{
    if p.len() == 0 {
        0
    } else if p.last() == '/' {
        p.len() as int
    } else {
        last_segment_start(p.drop_last())
    }
}

/// The position right after the last `.` of `seg`, or `0` when `seg` has
/// no dot.
pub open spec fn last_dot_end(seg: Seq<char>) -> int
    decreases seg.len(),
{
    if seg.len() == 0 {
        0
    } else if seg.last() == '.' {
        seg.len() as int
    } else {
        last_dot_end(seg.drop_last())
    }
}

/// The extension of a file name: what follows the last dot, provided the
/// dot is not the name's first character; empty otherwise.
pub open spec fn extension_of(seg: Seq<char>) -> Seq<char> {
    if last_dot_end(seg) >= 2 {
        seg.subrange(last_dot_end(seg), seg.len() as int)
    } else {
        Seq::<char>::empty()
    }
}

/// The lower-cased extension of the last segment of a path.
pub open spec fn file_ext_of(p: Seq<char>) -> Seq<char> {
    ascii_lower(extension_of(p.subrange(last_segment_start(p), p.len() as int)))
}

/// Computes the lower-cased file extension of a path's last segment.
fn file_extension_of(path: &str) -> (r: String)
    ensures
        r@ == file_ext_of(path@),
{
    let len = path.unicode_len();
    // Find where the last segment starts.
    let mut seg_start: usize = len;
    proof {
        assert(path@.subrange(0, len as int) =~= path@);
    }
    loop
        invariant
            0 <= seg_start <= len,
            len == path@.len(),
            last_segment_start(path@) == last_segment_start(path@.subrange(0, seg_start as int)),
        ensures
            0 <= seg_start <= len,
            last_segment_start(path@) == seg_start,
        decreases seg_start,
    {
        if seg_start == 0 {
            break;
        }
        if path.get_char(seg_start - 1) == '/' {
            break;
        }
        proof {
            assert(path@.subrange(0, seg_start as int).drop_last() =~= path@.subrange(
                0,
                seg_start as int - 1,
            ));
        }
        seg_start -= 1;
    }
    let ghost seg = path@.subrange(seg_start as int, len as int);
    // Find where the extension starts within the last segment.
    let mut dot_end: usize = len;
    proof {
        assert(seg.subrange(0, (len - seg_start) as int) =~= seg);
    }
    loop
        invariant
            seg_start <= dot_end <= len,
            len == path@.len(),
            seg == path@.subrange(seg_start as int, len as int),
            last_dot_end(seg) == last_dot_end(seg.subrange(0, dot_end - seg_start)),
        ensures
            seg_start <= dot_end <= len,
            last_dot_end(seg) == if dot_end == seg_start {
                0int
            } else {
                dot_end - seg_start
            },
        decreases dot_end,
    {
        if dot_end == seg_start {
            break;
        }
        proof {
            assert(seg.subrange(0, dot_end - seg_start)[dot_end - seg_start - 1] == path@[dot_end
                - 1]);
        }
        if path.get_char(dot_end - 1) == '.' {
            break;
        }
        proof {
            assert(seg.subrange(0, dot_end - seg_start).drop_last() =~= seg.subrange(
                0,
                dot_end - seg_start - 1,
            ));
        }
        dot_end -= 1;
    }
    if dot_end - seg_start >= 2 {
        let ext = path.substring_char(dot_end, len);
        proof {
            assert(ext@ =~= extension_of(seg));
        }
        ascii_lowercase(ext)
    } else {
        let r = "".to_owned();
        proof {
            reveal_strlit("");
            assert(extension_of(seg) =~= Seq::<char>::empty());
            assert(r@ =~= ascii_lower(extension_of(seg)));
        }
        r
    }
}

} // verus!
