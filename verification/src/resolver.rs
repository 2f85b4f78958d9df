//! Rootfs resolution: decomposing `instance:path` locations and reading
//! the runtime's rootfs-path query output into a structured result.

use vstd::prelude::*;
use vstd::string::*;
use crate::strutil::{
    find_char, lemma_find_characterizes, spec_find, spec_trim, str_eq, trim,
};

verus! {

/// A copy or mount location, decomposed.
pub enum Location {
    /// A plain host path, used verbatim.
    Bare(String),
    /// `name:rel`: a path relative to the named instance's rootfs.
    Instance { name: String, rel: String },
}

/// View of [`Location`].
pub enum LocationView {
    Bare(Seq<char>),
    Instance { name: Seq<char>, rel: Seq<char> },
}

impl View for Location {
    type V = LocationView;

    open spec fn view(&self) -> LocationView {
        match self {
            Location::Bare(s) => LocationView::Bare(s@),
            Location::Instance { name, rel } => LocationView::Instance {
                name: name@,
                rel: rel@,
            },
        }
    }
}

/// Splits a location at its first colon: `name:rel` names an instance and
/// a path relative to its rootfs; a location without a colon is a plain
/// host path.
pub open spec fn spec_decompose(s: Seq<char>) -> LocationView {
    let i = spec_find(s, ':');
    if i == -1 {
        LocationView::Bare(s)
    } else {
        LocationView::Instance { name: s.take(i), rel: s.skip(i + 1) }
    }
}

/// Executable form of [`spec_decompose`].
pub fn decompose_location(s: &str) -> (r: Location)
    ensures
        r@ == spec_decompose(s@),
{
    let len = s.unicode_len();
    match find_char(s, ':') {
        None => Location::Bare(s.to_owned()),
        Some(i) => {
            proof {
                lemma_find_characterizes(s@, ':');
            }
            let name = s.substring_char(0, i).to_owned();
            let rel = s.substring_char(i + 1, len).to_owned();
            proof {
                assert(name@ =~= s@.take(i as int));
                assert(rel@ =~= s@.skip(i + 1));
            }
            Location::Instance { name, rel }
        },
    }
}

/// What resolving an instance's rootfs produced.
pub enum RootfsResult {
    /// The rootfs path, as the runtime reported it.
    Path(String),
    /// The instance is unknown to the runtime.
    NotFound,
    /// The instance exists but is not running, so its rootfs cannot be
    /// queried.
    NotRunning,
}

/// View of [`RootfsResult`].
pub enum RootfsResultView {
    Path(Seq<char>),
    NotFound,
    NotRunning,
}

impl View for RootfsResult {
    type V = RootfsResultView;

    open spec fn view(&self) -> RootfsResultView {
        match self {
            RootfsResult::Path(s) => RootfsResultView::Path(s@),
            RootfsResult::NotFound => RootfsResultView::NotFound,
            RootfsResult::NotRunning => RootfsResultView::NotRunning,
        }
    }
}

/// The rootfs path carried by one line of query output, if any: the line
/// must read `lxc.rootfs.path = <value>` (up to surrounding blanks) with
/// a non-empty value, which is returned verbatim.
pub open spec fn spec_rootfs_value(out: Seq<char>) -> Option<Seq<char>> {
    let e = spec_find(out, '=');
    if e == -1 {
        None
    } else {
        let key = spec_trim(out.take(e));
        let val = spec_trim(out.skip(e + 1));
        if key == "lxc.rootfs.path"@ && val.len() > 0 {
            Some(val)
        } else {
            None
        }
    }
}

/// Reads the output of the runtime's rootfs-path query.  The structured
/// result replaces any fixed-offset slicing of the query's text.
pub fn parse_rootfs_output(out: &str) -> (r: Option<String>)
    ensures
        match r {
            Some(p) => spec_rootfs_value(out@) == Some(p@),
            None => spec_rootfs_value(out@) is None,
        },
{
    let len = out.unicode_len();
    match find_char(out, '=') {
        None => None,
        Some(e) => {
            proof {
                lemma_find_characterizes(out@, '=');
            }
            let key = trim(out.substring_char(0, e));
            let val = trim(out.substring_char(e + 1, len));
            proof {
                assert(out@.take(e as int) =~= out@.subrange(0, e as int));
                assert(out@.skip(e + 1) =~= out@.subrange(e + 1, len as int));
            }
            if str_eq(key.as_str(), "lxc.rootfs.path") && !val.as_str().is_empty() {
                Some(val)
            } else {
                None
            }
        },
    }
}

} // verus!
