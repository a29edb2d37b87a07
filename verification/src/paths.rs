//! Resolution of the local destination path for a downloaded file.
//!
//! The default filename is the last path segment of the resource URL.  The
//! resolver is pure: whether the user-specified location names an existing
//! directory is a single filesystem check, performed by the caller and
//! passed in as a boolean, so the resolution itself is testable against
//! synthetic paths.

use vstd::prelude::*;

verus! {

/// The index just after the last `/` of `s`, or 0 if `s` has none.
pub open spec fn after_last_slash(s: Seq<char>) -> int
    decreases s.len(),
{
    if s.len() == 0 {
        0
    } else if s[s.len() - 1] == '/' {
        s.len() as int
    } else {
        after_last_slash(s.drop_last())
    }
}

/// The part of `s` after its last `/`: all of `s` if it has none, empty if
/// it ends in one.
pub open spec fn filename_of(s: Seq<char>) -> Seq<char> {
    s.subrange(after_last_slash(s), s.len() as int)
}

/// A directory path extended with a filename, adding a separator unless
/// the directory already ends in one.
pub open spec fn joined_path(dir: Seq<char>, fname: Seq<char>) -> Seq<char> {
    if dir.len() > 0 && dir[dir.len() - 1] == '/' {
        dir + fname
    } else {
        dir + "/"@ + fname
    }
}

/// Where a downloaded resource is stored: the URL's filename in the
/// current working directory when no location was given; the filename
/// inside the given location when that names an existing directory; the
/// given location verbatim otherwise.
pub open spec fn resolved_location_spec(
    url: Seq<char>,
    output: Option<String>,
    output_is_dir: bool,
) -> Seq<char> {
    match output {
        None => "./"@ + filename_of(url),
        Some(loc) => {
            if output_is_dir {
                joined_path(loc@, filename_of(url))
            } else {
                loc@
            }
        },
    }
}

/// The last path segment of a URL, the service-assigned filename of the
/// resource.
pub fn last_segment(url: &str) -> (r: String)
    ensures
        r@ == filename_of(url@),
{
    let n: usize = url.unicode_len();
    let mut start: usize = 0;
    let mut i: usize = 0;
    while i < n
        invariant
            n == url@.len(),
            i <= n,
            start <= i,
            start == after_last_slash(url@.subrange(0, i as int)),
        decreases n - i,
    {
        let c = url.get_char(i);
        proof {
            assert(url@.subrange(0, i + 1).drop_last() =~= url@.subrange(0, i as int));
            assert(url@.subrange(0, i + 1)[i as int] == url@[i as int]);
        }
        if c == '/' {
            start = i + 1;
        }
        i = i + 1;
    }
    proof {
        assert(url@.subrange(0, n as int) =~= url@);
    }
    let seg = url.substring_char(start, n);
    seg.to_owned()
}

/// Compute the destination path for a downloaded resource.
///
/// `output_is_dir` reports whether `output` names an existing directory;
/// it is ignored when no output location was given.
pub fn determine_output_location(url: &str, output: &Option<String>, output_is_dir: bool) -> (r:
    String)
    ensures
        r@ == resolved_location_spec(url@, *output, output_is_dir),
{
    match output {
        None => {
            let fname = last_segment(url);
            String::from_str("./").concat(fname.as_str())
        },
        Some(loc) => {
            if output_is_dir {
                let fname = last_segment(url);
                let n: usize = loc.as_str().unicode_len();
                let ends_in_sep = n > 0 && loc.as_str().get_char(n - 1) == '/';
                if ends_in_sep {
                    loc.clone().concat(fname.as_str())
                } else {
                    loc.clone().concat("/").concat(fname.as_str())
                }
            } else {
                loc.clone()
            }
        },
    }
}

} // verus!
