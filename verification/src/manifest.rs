//! The build manifest: its typed form, and a verified parser for the
//! table-based manifest text.
//!
//! The accepted text is line-oriented: blank lines and `#` comments are
//! skipped; `[image]` and `[limits]` open tables; `[[copy]]`, `[[shared]]`
//! and `[[run]]` each append one entry to the corresponding list; every
//! other line is `key = value` with a quoted string, `true`/`false`, or a
//! bare scalar on the right.  Unknown keys and unknown sections are
//! ignored.  Limit entries keep the file's declared order, duplicates
//! included, so a build applies them deterministically.

use vstd::prelude::*;
use vstd::string::*;
use crate::args::{ImageSpec, ImageSpecView};
use crate::strutil::{
    find_char, spec_find, spec_split_char, spec_trim, split_char, str_eq, trim,
};

verus! {

/// One piece of content to copy into the instance.
#[derive(Debug)]
pub struct CopySpec {
    pub host: String,
    pub container: String,
    pub archive: bool,
    pub follow_link: bool,
}

/// View of [`CopySpec`].
#[verifier::ext_equal]
pub struct CopySpecView {
    pub host: Seq<char>,
    pub container: Seq<char>,
    pub archive: bool,
    pub follow_link: bool,
}

impl View for CopySpec {
    type V = CopySpecView;

    open spec fn view(&self) -> CopySpecView {
        CopySpecView {
            host: self.host@,
            container: self.container@,
            archive: self.archive,
            follow_link: self.follow_link,
        }
    }
}

impl DeepView for CopySpec {
    type V = CopySpecView;

    open spec fn deep_view(&self) -> CopySpecView {
        self.view()
    }
}

/// One persistent bind mount shared between host and instance.
#[derive(Debug)]
pub struct SharedMountSpec {
    pub host: String,
    pub container: String,
}

/// View of [`SharedMountSpec`].
#[verifier::ext_equal]
pub struct SharedMountSpecView {
    pub host: Seq<char>,
    pub container: Seq<char>,
}

impl View for SharedMountSpec {
    type V = SharedMountSpecView;

    open spec fn view(&self) -> SharedMountSpecView {
        SharedMountSpecView { host: self.host@, container: self.container@ }
    }
}

impl DeepView for SharedMountSpec {
    type V = SharedMountSpecView;

    open spec fn deep_view(&self) -> SharedMountSpecView {
        self.view()
    }
}

/// One literal shell command to run inside the instance.
#[derive(Debug)]
pub struct RunCommand {
    pub cmd: String,
}

/// View of [`RunCommand`].
#[verifier::ext_equal]
pub struct RunCommandView {
    pub cmd: Seq<char>,
}

impl View for RunCommand {
    type V = RunCommandView;

    open spec fn view(&self) -> RunCommandView {
        RunCommandView { cmd: self.cmd@ }
    }
}

impl DeepView for RunCommand {
    type V = RunCommandView;

    open spec fn deep_view(&self) -> RunCommandView {
        self.view()
    }
}

/// One resource limit: a key written with underscores standing for dots,
/// plus its scalar value.
#[derive(Debug)]
pub struct LimitEntry {
    pub key: String,
    pub value: String,
}

/// View of [`LimitEntry`].
#[verifier::ext_equal]
pub struct LimitEntryView {
    pub key: Seq<char>,
    pub value: Seq<char>,
}

impl View for LimitEntry {
    type V = LimitEntryView;

    open spec fn view(&self) -> LimitEntryView {
        LimitEntryView { key: self.key@, value: self.value@ }
    }
}

impl DeepView for LimitEntry {
    type V = LimitEntryView;

    open spec fn deep_view(&self) -> LimitEntryView {
        self.view()
    }
}

/// The typed build manifest: everything a build needs, created once per
/// build invocation and read-only thereafter.
#[derive(Debug)]
pub struct BuildManifest {
    pub name: String,
    pub image: ImageSpec,
    pub config: Option<String>,
    pub dir: Option<String>,
    pub network: Option<String>,
    pub entrypoint: Option<String>,
    pub copies: Vec<CopySpec>,
    pub shared: Vec<SharedMountSpec>,
    pub runs: Vec<RunCommand>,
    pub limits: Vec<LimitEntry>,
}

/// View of [`BuildManifest`].
#[verifier::ext_equal]
pub struct BuildManifestView {
    pub name: Seq<char>,
    pub image: ImageSpecView,
    pub config: Option<Seq<char>>,
    pub dir: Option<Seq<char>>,
    pub network: Option<Seq<char>>,
    pub entrypoint: Option<Seq<char>>,
    pub copies: Seq<CopySpecView>,
    pub shared: Seq<SharedMountSpecView>,
    pub runs: Seq<RunCommandView>,
    pub limits: Seq<LimitEntryView>,
}

impl View for BuildManifest {
    type V = BuildManifestView;

    open spec fn view(&self) -> BuildManifestView {
        BuildManifestView {
            name: self.name@,
            image: self.image@,
            config: self.config.deep_view(),
            dir: self.dir.deep_view(),
            network: self.network.deep_view(),
            entrypoint: self.entrypoint.deep_view(),
            copies: self.copies.deep_view(),
            shared: self.shared.deep_view(),
            runs: self.runs.deep_view(),
            limits: self.limits.deep_view(),
        }
    }
}

/// Why a manifest text was rejected.  Line and entry payloads are indices
/// counted from zero.
#[derive(Debug, Clone, Copy, PartialEq, Eq, Structural)]
pub enum ManifestError {
    /// The required `name` key is missing or empty.
    MissingName,
    /// The required `image.distro` key is missing or empty.
    MissingImageDistro,
    /// The required `image.release` key is missing or empty.
    MissingImageRelease,
    /// The required `image.arch` key is missing or empty.
    MissingImageArch,
    /// The line is not a blank, header, or well-formed `key = value` line.
    MalformedLine(usize),
    /// The value on this line is a non-scalar where a scalar is expected.
    NonScalarValue(usize),
    /// The copy entry lacks `host` or `container`.
    IncompleteCopyEntry(usize),
    /// The shared-mount entry lacks `host` or `container`.
    IncompleteSharedEntry(usize),
    /// The run entry lacks `cmd`.
    IncompleteRunEntry(usize),
}

/// A scalar (or rejected non-scalar) value on a `key = value` line.
pub enum Value {
    /// A double-quoted string, quotes stripped.
    Str(String),
    /// The literal `true` or `false`.
    Boolean(bool),
    /// Any other bare scalar, kept verbatim.
    Scalar(String),
    /// An inline array or table: not a scalar.
    Compound,
}

/// View of [`Value`].
pub enum ValueView {
    Str(Seq<char>),
    Boolean(bool),
    Scalar(Seq<char>),
    Compound,
}

impl View for Value {
    type V = ValueView;

    open spec fn view(&self) -> ValueView {
        match self {
            Value::Str(s) => ValueView::Str(s@),
            Value::Boolean(b) => ValueView::Boolean(*b),
            Value::Scalar(s) => ValueView::Scalar(s@),
            Value::Compound => ValueView::Compound,
        }
    }
}

/// The text every scalar value stands for.
pub open spec fn spec_value_text(v: ValueView) -> Seq<char> {
    match v {
        ValueView::Str(s) => s,
        ValueView::Boolean(b) => if b {
            "true"@
        } else {
            "false"@
        },
        ValueView::Scalar(s) => s,
        ValueView::Compound => Seq::empty(),
    }
}

/// Renders a scalar value as its text.
fn value_text(v: &Value) -> (r: String)
    ensures
        r@ == spec_value_text(v@),
{
    match v {
        Value::Str(s) => s.clone(),
        Value::Boolean(b) => if *b {
            "true".to_owned()
        } else {
            "false".to_owned()
        },
        Value::Scalar(s) => s.clone(),
        Value::Compound => String::new(),
    }
}

/// One classified line of manifest text.
pub enum Line {
    /// Empty, all blank, or a `#` comment.
    Blank,
    /// `[name]`.
    Header(String),
    /// `[[name]]`.
    ArrayHeader(String),
    /// `key = value`.
    KeyValue(String, Value),
    /// Anything else.
    Malformed,
}

/// View of [`Line`].
pub enum LineView {
    Blank,
    Header(Seq<char>),
    ArrayHeader(Seq<char>),
    KeyValue(Seq<char>, ValueView),
    Malformed,
}

impl View for Line {
    type V = LineView;

    open spec fn view(&self) -> LineView {
        match self {
            Line::Blank => LineView::Blank,
            Line::Header(s) => LineView::Header(s@),
            Line::ArrayHeader(s) => LineView::ArrayHeader(s@),
            Line::KeyValue(k, v) => LineView::KeyValue(k@, v@),
            Line::Malformed => LineView::Malformed,
        }
    }
}

/// Characters allowed in a bare key or section name.
pub open spec fn is_key_char(c: char) -> bool {
    ||| ('a' as int) <= (c as int) <= ('z' as int)
    ||| ('A' as int) <= (c as int) <= ('Z' as int)
    ||| ('0' as int) <= (c as int) <= ('9' as int)
    ||| c == '_'
    ||| c == '-'
}

/// Executable test for [`is_key_char`].
fn is_key_char_exec(c: char) -> (r: bool)
    ensures
        r == is_key_char(c),
{
    let u = c as u32;
    (u >= 'a' as u32 && u <= 'z' as u32) || (u >= 'A' as u32 && u <= 'Z' as u32) || (u >= '0'
        as u32 && u <= '9' as u32) || c == '_' || c == '-'
}

/// A valid bare key: non-empty, all characters from the key alphabet.
pub open spec fn spec_valid_key(s: Seq<char>) -> bool {
    s.len() > 0 && forall|i: int| 0 <= i < s.len() ==> is_key_char(s[i])
}

/// Executable test for [`spec_valid_key`].
fn valid_key(s: &str) -> (r: bool)
    ensures
        r == spec_valid_key(s@),
{
    let len = s.unicode_len();
    if len == 0 {
        return false;
    }
    let mut i: usize = 0;
    while i < len
        invariant
            len == s@.len(),
            0 <= i <= len,
            forall|j: int| 0 <= j < i ==> is_key_char(s@[j]),
        decreases len - i,
    {
        if !is_key_char_exec(s.get_char(i)) {
            return false;
        }
        i += 1;
    }
    true
}

/// Reads a trimmed value text: a quoted string (no inner quote), a
/// boolean literal, a rejected inline compound, or a bare scalar; `None`
/// when malformed.
pub open spec fn spec_parse_value(v: Seq<char>) -> Option<ValueView> {
    if v.len() == 0 {
        None
    } else if v[0] == '"' {
        if v.len() >= 2 && v.last() == '"' && (forall|i: int|
            1 <= i < v.len() - 1 ==> v[i] != '"') {
            Some(ValueView::Str(v.subrange(1, v.len() - 1)))
        } else {
            None
        }
    } else if v == "true"@ {
        Some(ValueView::Boolean(true))
    } else if v == "false"@ {
        Some(ValueView::Boolean(false))
    } else if v[0] == '[' || v[0] == '{' {
        Some(ValueView::Compound)
    } else {
        Some(ValueView::Scalar(v))
    }
}

/// Executable form of [`spec_parse_value`]; `v` must already be trimmed.
fn parse_value(v: &str) -> (r: Option<Value>)
    ensures
        match r {
            Some(val) => spec_parse_value(v@) == Some(val@),
            None => spec_parse_value(v@) is None,
        },
{
    let len = v.unicode_len();
    if len == 0 {
        return None;
    }
    let c0 = v.get_char(0);
    if c0 == '"' {
        if len < 2 || v.get_char(len - 1) != '"' {
            return None;
        }
        let mut i: usize = 1;
        while i < len - 1
            invariant
                len == v@.len(),
                2 <= len,
                1 <= i <= len - 1,
                v@[0] == '"',
                v@.last() == '"',
                forall|j: int| 1 <= j < i ==> v@[j] != '"',
            decreases len - i,
        {
            if v.get_char(i) == '"' {
                proof {
                    assert(v@[i as int] == '"');
                    assert(!(forall|j: int| 1 <= j < v@.len() - 1 ==> v@[j] != '"'));
                }
                return None;
            }
            i += 1;
        }
        return Some(Value::Str(v.substring_char(1, len - 1).to_owned()));
    }
    if str_eq(v, "true") {
        return Some(Value::Boolean(true));
    }
    if str_eq(v, "false") {
        return Some(Value::Boolean(false));
    }
    if c0 == '[' || c0 == '{' {
        return Some(Value::Compound);
    }
    Some(Value::Scalar(v.to_owned()))
}

/// Classifies one raw line of manifest text.
pub open spec fn spec_classify_line(raw: Seq<char>) -> LineView {
    let t = spec_trim(raw);
    if t.len() == 0 || t[0] == '#' {
        LineView::Blank
    } else if t[0] == '[' {
        if t.len() >= 4 && t[1] == '[' && t.last() == ']' && t[t.len() - 2] == ']' {
            let name = spec_trim(t.subrange(2, t.len() - 2));
            if spec_valid_key(name) {
                LineView::ArrayHeader(name)
            } else {
                LineView::Malformed
            }
        } else if t.len() >= 2 && t.last() == ']' {
            let name = spec_trim(t.subrange(1, t.len() - 1));
            if spec_valid_key(name) {
                LineView::Header(name)
            } else {
                LineView::Malformed
            }
        } else {
            LineView::Malformed
        }
    } else {
        let e = spec_find(t, '=');
        if e <= 0 {
            LineView::Malformed
        } else {
            let k = spec_trim(t.take(e));
            let vtxt = spec_trim(t.skip(e + 1));
            if !spec_valid_key(k) {
                LineView::Malformed
            } else {
                match spec_parse_value(vtxt) {
                    None => LineView::Malformed,
                    Some(v) => LineView::KeyValue(k, v),
                }
            }
        }
    }
}

/// Executable form of [`spec_classify_line`].
fn classify_line(raw: &str) -> (r: Line)
    ensures
        r@ == spec_classify_line(raw@),
{
    let t = trim(raw);
    let ts = t.as_str();
    let tlen = ts.unicode_len();
    if tlen == 0 {
        return Line::Blank;
    }
    let c0 = ts.get_char(0);
    if c0 == '#' {
        return Line::Blank;
    }
    if c0 == '[' {
        if tlen >= 4 && ts.get_char(1) == '[' && ts.get_char(tlen - 1) == ']' && ts.get_char(
            tlen - 2,
        ) == ']' {
            let name = trim(ts.substring_char(2, tlen - 2));
            if valid_key(name.as_str()) {
                return Line::ArrayHeader(name);
            }
            return Line::Malformed;
        }
        if tlen >= 2 && ts.get_char(tlen - 1) == ']' {
            let name = trim(ts.substring_char(1, tlen - 1));
            if valid_key(name.as_str()) {
                return Line::Header(name);
            }
            return Line::Malformed;
        }
        return Line::Malformed;
    }
    match find_char(ts, '=') {
        None => Line::Malformed,
        Some(e) => {
            if e == 0 {
                return Line::Malformed;
            }
            proof {
                crate::strutil::lemma_find_characterizes(ts@, '=');
            }
            let k = trim(ts.substring_char(0, e));
            let vtxt = trim(ts.substring_char(e + 1, tlen));
            if !valid_key(k.as_str()) {
                return Line::Malformed;
            }
            match parse_value(vtxt.as_str()) {
                None => Line::Malformed,
                Some(v) => Line::KeyValue(k, v),
            }
        },
    }
}

/// Which part of the manifest the lines being read belong to.
pub enum Section {
    /// Before any header.
    Top,
    /// Inside `[image]`.
    Image,
    /// Inside `[limits]`.
    Limits,
    /// Inside the latest `[[copy]]` entry.
    CopyList,
    /// Inside the latest `[[shared]]` entry.
    SharedList,
    /// Inside the latest `[[run]]` entry.
    RunList,
    /// Inside an unknown section, whose keys are ignored.
    Skipped,
}

/// A copy entry while its keys are still being collected.
pub struct CopyDraft {
    pub host: Option<String>,
    pub container: Option<String>,
    pub archive: bool,
    pub follow_link: bool,
}

/// View of [`CopyDraft`].
#[verifier::ext_equal]
pub struct CopyDraftView {
    pub host: Option<Seq<char>>,
    pub container: Option<Seq<char>>,
    pub archive: bool,
    pub follow_link: bool,
}

impl View for CopyDraft {
    type V = CopyDraftView;

    open spec fn view(&self) -> CopyDraftView {
        CopyDraftView {
            host: self.host.deep_view(),
            container: self.container.deep_view(),
            archive: self.archive,
            follow_link: self.follow_link,
        }
    }
}

impl DeepView for CopyDraft {
    type V = CopyDraftView;

    open spec fn deep_view(&self) -> CopyDraftView {
        self.view()
    }
}

/// A shared-mount entry while its keys are still being collected.
pub struct SharedDraft {
    pub host: Option<String>,
    pub container: Option<String>,
}

/// View of [`SharedDraft`].
#[verifier::ext_equal]
pub struct SharedDraftView {
    pub host: Option<Seq<char>>,
    pub container: Option<Seq<char>>,
}

impl View for SharedDraft {
    type V = SharedDraftView;

    open spec fn view(&self) -> SharedDraftView {
        SharedDraftView { host: self.host.deep_view(), container: self.container.deep_view() }
    }
}

impl DeepView for SharedDraft {
    type V = SharedDraftView;

    open spec fn deep_view(&self) -> SharedDraftView {
        self.view()
    }
}

/// A run entry while its keys are still being collected.
pub struct RunDraft {
    pub cmd: Option<String>,
}

/// View of [`RunDraft`].
#[verifier::ext_equal]
pub struct RunDraftView {
    pub cmd: Option<Seq<char>>,
}

impl View for RunDraft {
    type V = RunDraftView;

    open spec fn view(&self) -> RunDraftView {
        RunDraftView { cmd: self.cmd.deep_view() }
    }
}

impl DeepView for RunDraft {
    type V = RunDraftView;

    open spec fn deep_view(&self) -> RunDraftView {
        self.view()
    }
}

/// Everything collected while folding the manifest's lines.
pub struct ParseState {
    pub section: Section,
    pub name: Option<String>,
    pub entrypoint: Option<String>,
    pub distro: Option<String>,
    pub release: Option<String>,
    pub arch: Option<String>,
    pub config: Option<String>,
    pub dir: Option<String>,
    pub network: Option<String>,
    pub copies: Vec<CopyDraft>,
    pub shared: Vec<SharedDraft>,
    pub runs: Vec<RunDraft>,
    pub limits: Vec<LimitEntry>,
}

/// View of [`ParseState`].
#[verifier::ext_equal]
pub struct ParseStateView {
    pub section: Section,
    pub name: Option<Seq<char>>,
    pub entrypoint: Option<Seq<char>>,
    pub distro: Option<Seq<char>>,
    pub release: Option<Seq<char>>,
    pub arch: Option<Seq<char>>,
    pub config: Option<Seq<char>>,
    pub dir: Option<Seq<char>>,
    pub network: Option<Seq<char>>,
    pub copies: Seq<CopyDraftView>,
    pub shared: Seq<SharedDraftView>,
    pub runs: Seq<RunDraftView>,
    pub limits: Seq<LimitEntryView>,
}

impl View for ParseState {
    type V = ParseStateView;

    open spec fn view(&self) -> ParseStateView {
        ParseStateView {
            section: self.section,
            name: self.name.deep_view(),
            entrypoint: self.entrypoint.deep_view(),
            distro: self.distro.deep_view(),
            release: self.release.deep_view(),
            arch: self.arch.deep_view(),
            config: self.config.deep_view(),
            dir: self.dir.deep_view(),
            network: self.network.deep_view(),
            copies: self.copies.deep_view(),
            shared: self.shared.deep_view(),
            runs: self.runs.deep_view(),
            limits: self.limits.deep_view(),
        }
    }
}

/// The state before any line has been read.
pub open spec fn spec_init_state() -> ParseStateView {
    ParseStateView {
        section: Section::Top,
        name: None,
        entrypoint: None,
        distro: None,
        release: None,
        arch: None,
        config: None,
        dir: None,
        network: None,
        copies: Seq::empty(),
        shared: Seq::empty(),
        runs: Seq::empty(),
        limits: Seq::empty(),
    }
}

/// Builds the state before any line has been read.
fn init_state() -> (r: ParseState)
    ensures
        r@ == spec_init_state(),
{
    let r = ParseState {
        section: Section::Top,
        name: None,
        entrypoint: None,
        distro: None,
        release: None,
        arch: None,
        config: None,
        dir: None,
        network: None,
        copies: Vec::new(),
        shared: Vec::new(),
        runs: Vec::new(),
        limits: Vec::new(),
    };
    proof {
        assert(r@ =~= spec_init_state());
    }
    r
}

/// One `key = value` line read at top level.
pub open spec fn spec_step_top(st: ParseStateView, k: Seq<char>, v: ValueView) -> ParseStateView {
    if k == "name"@ {
        ParseStateView { name: Some(spec_value_text(v)), ..st }
    } else if k == "entrypoint"@ {
        ParseStateView { entrypoint: Some(spec_value_text(v)), ..st }
    } else {
        st
    }
}

/// One `key = value` line read inside `[image]`.
pub open spec fn spec_step_image(st: ParseStateView, k: Seq<char>, v: ValueView) -> ParseStateView {
    if k == "distro"@ {
        ParseStateView { distro: Some(spec_value_text(v)), ..st }
    } else if k == "release"@ {
        ParseStateView { release: Some(spec_value_text(v)), ..st }
    } else if k == "arch"@ {
        ParseStateView { arch: Some(spec_value_text(v)), ..st }
    } else if k == "config"@ {
        ParseStateView { config: Some(spec_value_text(v)), ..st }
    } else if k == "dir"@ {
        ParseStateView { dir: Some(spec_value_text(v)), ..st }
    } else if k == "network"@ {
        ParseStateView { network: Some(spec_value_text(v)), ..st }
    } else {
        st
    }
}

/// One `key = value` line read inside the latest `[[copy]]` entry.
pub open spec fn spec_step_copy(
    st: ParseStateView,
    k: Seq<char>,
    v: ValueView,
    idx: usize,
) -> Result<ParseStateView, ManifestError> {
    if st.copies.len() == 0 {
        Ok(st)
    } else {
        let d = st.copies.last();
        if k == "host"@ {
            Ok(
                ParseStateView {
                    copies: st.copies.drop_last().push(
                        CopyDraftView { host: Some(spec_value_text(v)), ..d },
                    ),
                    ..st
                },
            )
        } else if k == "container"@ {
            Ok(
                ParseStateView {
                    copies: st.copies.drop_last().push(
                        CopyDraftView { container: Some(spec_value_text(v)), ..d },
                    ),
                    ..st
                },
            )
        } else if k == "archive"@ {
            match v {
                ValueView::Boolean(b) => Ok(
                    ParseStateView {
                        copies: st.copies.drop_last().push(CopyDraftView { archive: b, ..d }),
                        ..st
                    },
                ),
                _ => Err(ManifestError::MalformedLine(idx)),
            }
        } else if k == "follow_link"@ {
            match v {
                ValueView::Boolean(b) => Ok(
                    ParseStateView {
                        copies: st.copies.drop_last().push(CopyDraftView { follow_link: b, ..d }),
                        ..st
                    },
                ),
                _ => Err(ManifestError::MalformedLine(idx)),
            }
        } else {
            Ok(st)
        }
    }
}

/// One `key = value` line read inside the latest `[[shared]]` entry.
pub open spec fn spec_step_shared(
    st: ParseStateView,
    k: Seq<char>,
    v: ValueView,
) -> ParseStateView {
    if st.shared.len() == 0 {
        st
    } else {
        let d = st.shared.last();
        if k == "host"@ {
            ParseStateView {
                shared: st.shared.drop_last().push(
                    SharedDraftView { host: Some(spec_value_text(v)), ..d },
                ),
                ..st
            }
        } else if k == "container"@ {
            ParseStateView {
                shared: st.shared.drop_last().push(
                    SharedDraftView { container: Some(spec_value_text(v)), ..d },
                ),
                ..st
            }
        } else {
            st
        }
    }
}

/// One `key = value` line read inside the latest `[[run]]` entry.
pub open spec fn spec_step_run(st: ParseStateView, k: Seq<char>, v: ValueView) -> ParseStateView {
    if st.runs.len() == 0 {
        st
    } else if k == "cmd"@ {
        ParseStateView {
            runs: st.runs.drop_last().push(RunDraftView { cmd: Some(spec_value_text(v)) }),
            ..st
        }
    } else {
        st
    }
}

/// Reads one classified line into the state.  A malformed line, or a
/// non-scalar value on any `key = value` line, rejects the text.
pub open spec fn spec_step(
    st: ParseStateView,
    line: LineView,
    idx: usize,
) -> Result<ParseStateView, ManifestError> {
    match line {
        LineView::Blank => Ok(st),
        LineView::Malformed => Err(ManifestError::MalformedLine(idx)),
        LineView::Header(name) => {
            if name == "image"@ {
                Ok(ParseStateView { section: Section::Image, ..st })
            } else if name == "limits"@ {
                Ok(ParseStateView { section: Section::Limits, ..st })
            } else {
                Ok(ParseStateView { section: Section::Skipped, ..st })
            }
        },
        LineView::ArrayHeader(name) => {
            if name == "copy"@ {
                Ok(
                    ParseStateView {
                        section: Section::CopyList,
                        copies: st.copies.push(
                            CopyDraftView {
                                host: None,
                                container: None,
                                archive: false,
                                follow_link: false,
                            },
                        ),
                        ..st
                    },
                )
            } else if name == "shared"@ {
                Ok(
                    ParseStateView {
                        section: Section::SharedList,
                        shared: st.shared.push(SharedDraftView { host: None, container: None }),
                        ..st
                    },
                )
            } else if name == "run"@ {
                Ok(
                    ParseStateView {
                        section: Section::RunList,
                        runs: st.runs.push(RunDraftView { cmd: None }),
                        ..st
                    },
                )
            } else {
                Ok(ParseStateView { section: Section::Skipped, ..st })
            }
        },
        LineView::KeyValue(k, v) => {
            if v is Compound {
                Err(ManifestError::NonScalarValue(idx))
            } else {
                match st.section {
                    Section::Top => Ok(spec_step_top(st, k, v)),
                    Section::Image => Ok(spec_step_image(st, k, v)),
                    Section::Limits => Ok(
                        ParseStateView {
                            limits: st.limits.push(
                                LimitEntryView { key: k, value: spec_value_text(v) },
                            ),
                            ..st
                        },
                    ),
                    Section::CopyList => spec_step_copy(st, k, v, idx),
                    Section::SharedList => Ok(spec_step_shared(st, k, v)),
                    Section::RunList => Ok(spec_step_run(st, k, v)),
                    Section::Skipped => Ok(st),
                }
            }
        },
    }
}

/// The view of a fold result.
pub open spec fn spec_state_result(r: Result<ParseState, ManifestError>) -> Result<
    ParseStateView,
    ManifestError,
> {
    match r {
        Ok(s) => Ok(s@),
        Err(e) => Err(e),
    }
}

/// Executable form of [`spec_step_top`].
fn apply_top(st: ParseState, k: &str, v: &Value) -> (r: ParseState)
    ensures
        r@ == spec_step_top(st@, k@, v@),
{
    if str_eq(k, "name") {
        ParseState { name: Some(value_text(v)), ..st }
    } else if str_eq(k, "entrypoint") {
        ParseState { entrypoint: Some(value_text(v)), ..st }
    } else {
        st
    }
}

/// Executable form of [`spec_step_image`].
fn apply_image(st: ParseState, k: &str, v: &Value) -> (r: ParseState)
    ensures
        r@ == spec_step_image(st@, k@, v@),
{
    if str_eq(k, "distro") {
        ParseState { distro: Some(value_text(v)), ..st }
    } else if str_eq(k, "release") {
        ParseState { release: Some(value_text(v)), ..st }
    } else if str_eq(k, "arch") {
        ParseState { arch: Some(value_text(v)), ..st }
    } else if str_eq(k, "config") {
        ParseState { config: Some(value_text(v)), ..st }
    } else if str_eq(k, "dir") {
        ParseState { dir: Some(value_text(v)), ..st }
    } else if str_eq(k, "network") {
        ParseState { network: Some(value_text(v)), ..st }
    } else {
        st
    }
}

/// Executable form of [`spec_step_copy`].
fn apply_copy(st: ParseState, k: &str, v: &Value, idx: usize) -> (r: Result<
    ParseState,
    ManifestError,
>)
    ensures
        spec_state_result(r) == spec_step_copy(st@, k@, v@, idx),
{
    let mut st = st;
    let ghost old_st = st@;
    if st.copies.len() == 0 {
        return Ok(st);
    }
    if str_eq(k, "host") {
        let d = st.copies.pop().unwrap();
        let d2 = CopyDraft { host: Some(value_text(v)), ..d };
        st.copies.push(d2);
        proof {
            assert(st.copies.deep_view() =~= old_st.copies.drop_last().push(d2@));
            assert(st@ =~= spec_step_copy(old_st, k@, v@, idx)->Ok_0);
        }
        Ok(st)
    } else if str_eq(k, "container") {
        let d = st.copies.pop().unwrap();
        let d2 = CopyDraft { container: Some(value_text(v)), ..d };
        st.copies.push(d2);
        proof {
            assert(st.copies.deep_view() =~= old_st.copies.drop_last().push(d2@));
            assert(st@ =~= spec_step_copy(old_st, k@, v@, idx)->Ok_0);
        }
        Ok(st)
    } else if str_eq(k, "archive") {
        match v {
            Value::Boolean(b) => {
                let d = st.copies.pop().unwrap();
                let d2 = CopyDraft { archive: *b, ..d };
                st.copies.push(d2);
                proof {
                    assert(st.copies.deep_view() =~= old_st.copies.drop_last().push(d2@));
                    assert(st@ =~= spec_step_copy(old_st, k@, v@, idx)->Ok_0);
                }
                Ok(st)
            },
            _ => Err(ManifestError::MalformedLine(idx)),
        }
    } else if str_eq(k, "follow_link") {
        match v {
            Value::Boolean(b) => {
                let d = st.copies.pop().unwrap();
                let d2 = CopyDraft { follow_link: *b, ..d };
                st.copies.push(d2);
                proof {
                    assert(st.copies.deep_view() =~= old_st.copies.drop_last().push(d2@));
                    assert(st@ =~= spec_step_copy(old_st, k@, v@, idx)->Ok_0);
                }
                Ok(st)
            },
            _ => Err(ManifestError::MalformedLine(idx)),
        }
    } else {
        Ok(st)
    }
}

/// Executable form of [`spec_step_shared`].
fn apply_shared(st: ParseState, k: &str, v: &Value) -> (r: ParseState)
    ensures
        r@ == spec_step_shared(st@, k@, v@),
{
    let mut st = st;
    let ghost old_st = st@;
    if st.shared.len() == 0 {
        return st;
    }
    if str_eq(k, "host") {
        let d = st.shared.pop().unwrap();
        let d2 = SharedDraft { host: Some(value_text(v)), ..d };
        st.shared.push(d2);
        proof {
            assert(st.shared.deep_view() =~= old_st.shared.drop_last().push(d2@));
            assert(st@ =~= spec_step_shared(old_st, k@, v@));
        }
        st
    } else if str_eq(k, "container") {
        let d = st.shared.pop().unwrap();
        let d2 = SharedDraft { container: Some(value_text(v)), ..d };
        st.shared.push(d2);
        proof {
            assert(st.shared.deep_view() =~= old_st.shared.drop_last().push(d2@));
            assert(st@ =~= spec_step_shared(old_st, k@, v@));
        }
        st
    } else {
        st
    }
}

/// Executable form of [`spec_step_run`].
fn apply_run(st: ParseState, k: &str, v: &Value) -> (r: ParseState)
    ensures
        r@ == spec_step_run(st@, k@, v@),
{
    let mut st = st;
    let ghost old_st = st@;
    if st.runs.len() == 0 {
        return st;
    }
    if str_eq(k, "cmd") {
        let _ = st.runs.pop();
        let d2 = RunDraft { cmd: Some(value_text(v)) };
        st.runs.push(d2);
        proof {
            assert(st.runs.deep_view() =~= old_st.runs.drop_last().push(d2@));
            assert(st@ =~= spec_step_run(old_st, k@, v@));
        }
        st
    } else {
        st
    }
}

/// Executable form of [`spec_step`].
fn apply_line(st: ParseState, line: &Line, idx: usize) -> (r: Result<
    ParseState,
    ManifestError,
>)
    ensures
        spec_state_result(r) == spec_step(st@, line@, idx),
{
    let mut st = st;
    let ghost old_st = st@;
    match line {
        Line::Blank => Ok(st),
        Line::Malformed => Err(ManifestError::MalformedLine(idx)),
        Line::Header(name) => {
            if str_eq(name.as_str(), "image") {
                st.section = Section::Image;
            } else if str_eq(name.as_str(), "limits") {
                st.section = Section::Limits;
            } else {
                st.section = Section::Skipped;
            }
            proof {
                assert(st@ =~= spec_step(old_st, line@, idx)->Ok_0);
            }
            Ok(st)
        },
        Line::ArrayHeader(name) => {
            if str_eq(name.as_str(), "copy") {
                st.section = Section::CopyList;
                st.copies.push(
                    CopyDraft { host: None, container: None, archive: false, follow_link: false },
                );
            } else if str_eq(name.as_str(), "shared") {
                st.section = Section::SharedList;
                st.shared.push(SharedDraft { host: None, container: None });
            } else if str_eq(name.as_str(), "run") {
                st.section = Section::RunList;
                st.runs.push(RunDraft { cmd: None });
            } else {
                st.section = Section::Skipped;
            }
            proof {
                assert(st.copies.deep_view() =~= spec_step(old_st, line@, idx)->Ok_0.copies);
                assert(st.shared.deep_view() =~= spec_step(old_st, line@, idx)->Ok_0.shared);
                assert(st.runs.deep_view() =~= spec_step(old_st, line@, idx)->Ok_0.runs);
                assert(st@ =~= spec_step(old_st, line@, idx)->Ok_0);
            }
            Ok(st)
        },
        Line::KeyValue(k, v) => {
            match v {
                Value::Compound => Err(ManifestError::NonScalarValue(idx)),
                _ => {
                    match st.section {
                        Section::Top => Ok(apply_top(st, k.as_str(), v)),
                        Section::Image => Ok(apply_image(st, k.as_str(), v)),
                        Section::Limits => {
                            st.limits.push(LimitEntry { key: k.clone(), value: value_text(v) });
                            proof {
                                assert(st.limits.deep_view() =~= old_st.limits.push(
                                    LimitEntryView { key: k@, value: spec_value_text(v@) },
                                ));
                                assert(st@ =~= spec_step(old_st, line@, idx)->Ok_0);
                            }
                            Ok(st)
                        },
                        Section::CopyList => apply_copy(st, k.as_str(), v, idx),
                        Section::SharedList => Ok(apply_shared(st, k.as_str(), v)),
                        Section::RunList => Ok(apply_run(st, k.as_str(), v)),
                        Section::Skipped => Ok(st),
                    }
                },
            }
        },
    }
}

/// Folds classified lines in order, starting from the initial state; the
/// first error wins.
pub open spec fn spec_fold_lines(lines: Seq<LineView>) -> Result<ParseStateView, ManifestError>
    decreases lines.len(),
{
    if lines.len() == 0 {
        Ok(spec_init_state())
    } else {
        match spec_fold_lines(lines.drop_last()) {
            Ok(st) => spec_step(st, lines.last(), (lines.len() - 1) as usize),
            Err(e) => Err(e),
        }
    }
}

/// Once a prefix of the lines has been rejected, the whole text is
/// rejected with the same error.
pub proof fn lemma_fold_error_persists(lines: Seq<LineView>, k: int)
    requires
        0 <= k <= lines.len(),
        spec_fold_lines(lines.take(k)) is Err,
    ensures
        spec_fold_lines(lines) == spec_fold_lines(lines.take(k)),
    decreases lines.len() - k,
{
    if k < lines.len() {
        assert(lines.take(k + 1).drop_last() =~= lines.take(k));
        lemma_fold_error_persists(lines, k + 1);
    } else {
        assert(lines.take(k) =~= lines);
    }
}

/// Each raw line classified.
pub open spec fn spec_line_views(ls: Seq<Seq<char>>) -> Seq<LineView> {
    ls.map_values(|l: Seq<char>| spec_classify_line(l))
}

/// The first index where `p` fails, or `-1` when it holds everywhere.
pub open spec fn spec_first_violation<T>(s: Seq<T>, p: spec_fn(T) -> bool) -> int
    decreases s.len(),
{
    if s.len() == 0 {
        -1
    } else if !p(s[0]) {
        0
    } else {
        let r = spec_first_violation(s.skip(1), p);
        if r == -1 {
            -1
        } else {
            r + 1
        }
    }
}

/// A scan that saw `p` hold on the first `i` elements and then either hit
/// the end or found a failure pins down [`spec_first_violation`].
pub proof fn lemma_first_violation_at<T>(s: Seq<T>, p: spec_fn(T) -> bool, i: int)
    requires
        0 <= i <= s.len(),
        forall|j: int| 0 <= j < i ==> p(s[j]),
        i < s.len() ==> !p(s[i]),
    ensures
        spec_first_violation(s, p) == if i < s.len() {
            i
        } else {
            -1
        },
    decreases i,
{
    if s.len() == 0 {
    } else if i == 0 {
    } else {
        assert(p(s[0]));
        lemma_first_violation_at(s.skip(1), p, i - 1);
        assert(forall|j: int| 0 <= j < s.skip(1).len() ==> s.skip(1)[j] == s[j + 1]);
    }
}

/// Whether a copy entry has both required locations.
pub open spec fn spec_copy_complete(d: CopyDraftView) -> bool {
    d.host is Some && d.container is Some
}

/// [`spec_copy_complete`] as a function value.
pub open spec fn copy_complete_fn() -> spec_fn(CopyDraftView) -> bool {
    |d: CopyDraftView| spec_copy_complete(d)
}

/// Whether a shared-mount entry has both required locations.
pub open spec fn spec_shared_complete(d: SharedDraftView) -> bool {
    d.host is Some && d.container is Some
}

/// [`spec_shared_complete`] as a function value.
pub open spec fn shared_complete_fn() -> spec_fn(SharedDraftView) -> bool {
    |d: SharedDraftView| spec_shared_complete(d)
}

/// Whether a run entry has its required command.
pub open spec fn spec_run_complete(d: RunDraftView) -> bool {
    d.cmd is Some
}

/// [`spec_run_complete`] as a function value.
pub open spec fn run_complete_fn() -> spec_fn(RunDraftView) -> bool {
    |d: RunDraftView| spec_run_complete(d)
}

/// The text of a present option, empty otherwise.
pub open spec fn spec_opt_text(o: Option<Seq<char>>) -> Seq<char> {
    match o {
        Some(s) => s,
        None => Seq::empty(),
    }
}

/// Whether an option is present with non-empty text.
pub open spec fn spec_present(o: Option<Seq<char>>) -> bool {
    match o {
        Some(s) => s.len() > 0,
        None => false,
    }
}

/// A finished copy entry (meaningful when complete).
pub open spec fn spec_finish_copy(d: CopyDraftView) -> CopySpecView {
    CopySpecView {
        host: spec_opt_text(d.host),
        container: spec_opt_text(d.container),
        archive: d.archive,
        follow_link: d.follow_link,
    }
}

/// All copy entries finished.
pub open spec fn spec_finish_copies(ds: Seq<CopyDraftView>) -> Seq<CopySpecView> {
    ds.map_values(|d: CopyDraftView| spec_finish_copy(d))
}

/// A finished shared-mount entry (meaningful when complete).
pub open spec fn spec_finish_shared(d: SharedDraftView) -> SharedMountSpecView {
    SharedMountSpecView { host: spec_opt_text(d.host), container: spec_opt_text(d.container) }
}

/// All shared-mount entries finished.
pub open spec fn spec_finish_shareds(ds: Seq<SharedDraftView>) -> Seq<SharedMountSpecView> {
    ds.map_values(|d: SharedDraftView| spec_finish_shared(d))
}

/// A finished run entry (meaningful when complete).
pub open spec fn spec_finish_run(d: RunDraftView) -> RunCommandView {
    RunCommandView { cmd: spec_opt_text(d.cmd) }
}

/// All run entries finished.
pub open spec fn spec_finish_runs(ds: Seq<RunDraftView>) -> Seq<RunCommandView> {
    ds.map_values(|d: RunDraftView| spec_finish_run(d))
}

/// Checks the folded state: the name and the image triple must be present
/// and non-empty, and every list entry complete.  The first incomplete
/// entry of each list, in list order, names the error.
pub open spec fn spec_validate(st: ParseStateView) -> Result<BuildManifestView, ManifestError> {
    if !spec_present(st.name) {
        Err(ManifestError::MissingName)
    } else if !spec_present(st.distro) {
        Err(ManifestError::MissingImageDistro)
    } else if !spec_present(st.release) {
        Err(ManifestError::MissingImageRelease)
    } else if !spec_present(st.arch) {
        Err(ManifestError::MissingImageArch)
    } else {
        let ci = spec_first_violation(st.copies, copy_complete_fn());
        let si = spec_first_violation(st.shared, shared_complete_fn());
        let ri = spec_first_violation(st.runs, run_complete_fn());
        if ci != -1 {
            Err(ManifestError::IncompleteCopyEntry(ci as usize))
        } else if si != -1 {
            Err(ManifestError::IncompleteSharedEntry(si as usize))
        } else if ri != -1 {
            Err(ManifestError::IncompleteRunEntry(ri as usize))
        } else {
            Ok(
                BuildManifestView {
                    name: spec_opt_text(st.name),
                    image: ImageSpecView {
                        distro: spec_opt_text(st.distro),
                        release: spec_opt_text(st.release),
                        arch: spec_opt_text(st.arch),
                    },
                    config: st.config,
                    dir: st.dir,
                    network: st.network,
                    entrypoint: st.entrypoint,
                    copies: spec_finish_copies(st.copies),
                    shared: spec_finish_shareds(st.shared),
                    runs: spec_finish_runs(st.runs),
                    limits: st.limits,
                },
            )
        }
    }
}

/// The view of a parse result.
pub open spec fn spec_manifest_result(r: Result<BuildManifest, ManifestError>) -> Result<
    BuildManifestView,
    ManifestError,
> {
    match r {
        Ok(m) => Ok(m@),
        Err(e) => Err(e),
    }
}

/// Executable form of [`spec_validate`].
fn validate(st: ParseState) -> (r: Result<BuildManifest, ManifestError>)
    ensures
        spec_manifest_result(r) == spec_validate(st@),
{
    let name = match &st.name {
        Some(n) => {
            if n.as_str().is_empty() {
                return Err(ManifestError::MissingName);
            }
            n.clone()
        },
        None => {
            return Err(ManifestError::MissingName);
        },
    };
    let distro = match &st.distro {
        Some(d) => {
            if d.as_str().is_empty() {
                return Err(ManifestError::MissingImageDistro);
            }
            d.clone()
        },
        None => {
            return Err(ManifestError::MissingImageDistro);
        },
    };
    let release = match &st.release {
        Some(d) => {
            if d.as_str().is_empty() {
                return Err(ManifestError::MissingImageRelease);
            }
            d.clone()
        },
        None => {
            return Err(ManifestError::MissingImageRelease);
        },
    };
    let arch = match &st.arch {
        Some(d) => {
            if d.as_str().is_empty() {
                return Err(ManifestError::MissingImageArch);
            }
            d.clone()
        },
        None => {
            return Err(ManifestError::MissingImageArch);
        },
    };
    let mut copies: Vec<CopySpec> = Vec::new();
    let mut i: usize = 0;
    while i < st.copies.len()
        invariant
            0 <= i <= st.copies.len(),
            st.copies.deep_view().len() == st.copies.len(),
            spec_present(st@.name),
            spec_present(st@.distro),
            spec_present(st@.release),
            spec_present(st@.arch),
            forall|j: int| 0 <= j < i ==> spec_copy_complete(st.copies.deep_view()[j]),
            copies.deep_view() == spec_finish_copies(st.copies.deep_view().take(i as int)),
        decreases st.copies.len() - i,
    {
        let ghost dv = st.copies.deep_view();
        let d = &st.copies[i];
        let host = match &d.host {
            Some(h) => h.clone(),
            None => {
                proof {
                    lemma_first_violation_at(dv, copy_complete_fn(), i as int);
                }
                return Err(ManifestError::IncompleteCopyEntry(i));
            },
        };
        let container = match &d.container {
            Some(c) => c.clone(),
            None => {
                proof {
                    lemma_first_violation_at(dv, copy_complete_fn(), i as int);
                }
                return Err(ManifestError::IncompleteCopyEntry(i));
            },
        };
        let ghost pre_dv = copies.deep_view();
        copies.push(
            CopySpec { host, container, archive: d.archive, follow_link: d.follow_link },
        );
        proof {
            assert(pre_dv == spec_finish_copies(dv.take(i as int)));
            assert(dv.take(i as int).len() == i);
            assert(pre_dv.len() == i);
            assert(copies.deep_view().len() == i + 1);
            assert forall|j: int| 0 <= j < i + 1 implies copies.deep_view()[j]
                == spec_finish_copies(dv.take(i + 1))[j] by {
                assert(spec_finish_copies(dv.take(i + 1))[j] == spec_finish_copy(
                    dv.take(i + 1)[j],
                ));
                if j < i {
                    assert(copies.deep_view()[j] == spec_finish_copies(dv.take(i as int))[j]);
                    assert(spec_finish_copies(dv.take(i as int))[j] == spec_finish_copy(
                        dv.take(i as int)[j],
                    ));
                }
            }
            assert(copies.deep_view() =~= spec_finish_copies(dv.take(i + 1)));
        }
        i += 1;
    }
    proof {
        lemma_first_violation_at(st.copies.deep_view(), copy_complete_fn(), i as int);
        assert(st.copies.deep_view().take(i as int) =~= st.copies.deep_view());
    }
    let mut shared: Vec<SharedMountSpec> = Vec::new();
    let mut i: usize = 0;
    while i < st.shared.len()
        invariant
            0 <= i <= st.shared.len(),
            st.shared.deep_view().len() == st.shared.len(),
            spec_present(st@.name),
            spec_present(st@.distro),
            spec_present(st@.release),
            spec_present(st@.arch),
            spec_first_violation(st.copies.deep_view(), copy_complete_fn()) == -1,
            forall|j: int| 0 <= j < i ==> spec_shared_complete(st.shared.deep_view()[j]),
            shared.deep_view() == spec_finish_shareds(st.shared.deep_view().take(i as int)),
        decreases st.shared.len() - i,
    {
        let ghost dv = st.shared.deep_view();
        let d = &st.shared[i];
        let host = match &d.host {
            Some(h) => h.clone(),
            None => {
                proof {
                    lemma_first_violation_at(dv, shared_complete_fn(), i as int);
                }
                return Err(ManifestError::IncompleteSharedEntry(i));
            },
        };
        let container = match &d.container {
            Some(c) => c.clone(),
            None => {
                proof {
                    lemma_first_violation_at(dv, shared_complete_fn(), i as int);
                }
                return Err(ManifestError::IncompleteSharedEntry(i));
            },
        };
        let ghost pre_dv = shared.deep_view();
        shared.push(SharedMountSpec { host, container });
        proof {
            assert(pre_dv == spec_finish_shareds(dv.take(i as int)));
            assert(dv.take(i as int).len() == i);
            assert(pre_dv.len() == i);
            assert(shared.deep_view().len() == i + 1);
            assert forall|j: int| 0 <= j < i + 1 implies shared.deep_view()[j]
                == spec_finish_shareds(dv.take(i + 1))[j] by {
                assert(spec_finish_shareds(dv.take(i + 1))[j] == spec_finish_shared(
                    dv.take(i + 1)[j],
                ));
                if j < i {
                    assert(shared.deep_view()[j] == spec_finish_shareds(dv.take(i as int))[j]);
                    assert(spec_finish_shareds(dv.take(i as int))[j] == spec_finish_shared(
                        dv.take(i as int)[j],
                    ));
                }
            }
            assert(shared.deep_view() =~= spec_finish_shareds(dv.take(i + 1)));
        }
        i += 1;
    }
    proof {
        lemma_first_violation_at(st.shared.deep_view(), shared_complete_fn(), i as int);
        assert(st.shared.deep_view().take(i as int) =~= st.shared.deep_view());
    }
    let mut runs: Vec<RunCommand> = Vec::new();
    let mut i: usize = 0;
    while i < st.runs.len()
        invariant
            0 <= i <= st.runs.len(),
            st.runs.deep_view().len() == st.runs.len(),
            spec_present(st@.name),
            spec_present(st@.distro),
            spec_present(st@.release),
            spec_present(st@.arch),
            spec_first_violation(st.copies.deep_view(), copy_complete_fn()) == -1,
            spec_first_violation(st.shared.deep_view(), shared_complete_fn()) == -1,
            forall|j: int| 0 <= j < i ==> spec_run_complete(st.runs.deep_view()[j]),
            runs.deep_view() == spec_finish_runs(st.runs.deep_view().take(i as int)),
        decreases st.runs.len() - i,
    {
        let ghost dv = st.runs.deep_view();
        let d = &st.runs[i];
        let cmd = match &d.cmd {
            Some(c) => c.clone(),
            None => {
                proof {
                    lemma_first_violation_at(dv, run_complete_fn(), i as int);
                }
                return Err(ManifestError::IncompleteRunEntry(i));
            },
        };
        let ghost pre_dv = runs.deep_view();
        runs.push(RunCommand { cmd });
        proof {
            assert(pre_dv == spec_finish_runs(dv.take(i as int)));
            assert(dv.take(i as int).len() == i);
            assert(pre_dv.len() == i);
            assert(runs.deep_view().len() == i + 1);
            assert forall|j: int| 0 <= j < i + 1 implies runs.deep_view()[j] == spec_finish_runs(
                dv.take(i + 1),
            )[j] by {
                assert(spec_finish_runs(dv.take(i + 1))[j] == spec_finish_run(dv.take(i + 1)[j]));
                if j < i {
                    assert(runs.deep_view()[j] == spec_finish_runs(dv.take(i as int))[j]);
                    assert(spec_finish_runs(dv.take(i as int))[j] == spec_finish_run(
                        dv.take(i as int)[j],
                    ));
                }
            }
            assert(runs.deep_view() =~= spec_finish_runs(dv.take(i + 1)));
        }
        i += 1;
    }
    proof {
        lemma_first_violation_at(st.runs.deep_view(), run_complete_fn(), i as int);
        assert(st.runs.deep_view().take(i as int) =~= st.runs.deep_view());
    }
    let m = BuildManifest {
        name,
        image: ImageSpec { distro, release, arch },
        config: st.config,
        dir: st.dir,
        network: st.network,
        entrypoint: st.entrypoint,
        copies,
        shared,
        runs,
        limits: st.limits,
    };
    proof {
        assert(m@ =~= spec_validate(st@)->Ok_0);
    }
    Ok(m)
}

/// Reads a whole manifest text into its typed form, or the first error in
/// line order.
pub open spec fn spec_parse_manifest(text: Seq<char>) -> Result<BuildManifestView, ManifestError> {
    match spec_fold_lines(spec_line_views(spec_split_char(text, '\n'))) {
        Ok(st) => spec_validate(st),
        Err(e) => Err(e),
    }
}

/// Parses a manifest text: splits it into lines, classifies and folds
/// each in order, then checks the required fields.
pub fn parse_manifest(text: &str) -> (r: Result<BuildManifest, ManifestError>)
    ensures
        spec_manifest_result(r) == spec_parse_manifest(text@),
{
    let lines = split_char(text, '\n');
    let ghost lviews = spec_line_views(lines.deep_view());
    let mut st = init_state();
    let mut i: usize = 0;
    while i < lines.len()
        invariant
            lines.deep_view() == spec_split_char(text@, '\n'),
            lviews == spec_line_views(lines.deep_view()),
            lviews.len() == lines.len(),
            0 <= i <= lines.len(),
            Ok::<ParseStateView, ManifestError>(st@) == spec_fold_lines(
                lviews.take(i as int),
            ),
        decreases lines.len() - i,
    {
        let line = classify_line(lines[i].as_str());
        proof {
            assert(lviews.take(i + 1).drop_last() =~= lviews.take(i as int));
            assert(lviews.take(i + 1).last() == lviews[i as int]);
            assert(lviews[i as int] == spec_classify_line(lines.deep_view()[i as int]));
        }
        match apply_line(st, &line, i) {
            Ok(s2) => {
                st = s2;
            },
            Err(e) => {
                proof {
                    assert(spec_fold_lines(lviews.take(i + 1)) == Err::<
                        ParseStateView,
                        ManifestError,
                    >(e));
                    lemma_fold_error_persists(lviews, i + 1);
                }
                return Err(e);
            },
        }
        i += 1;
    }
    proof {
        assert(lviews.take(i as int) =~= lviews);
    }
    validate(st)
}

} // verus!
