//! The decisions behind images in a note: which clipboard text names an
//! image and under which file name it is copied, how an image link is
//! resolved and fetched, whether it is an SVG, which links still need
//! downloading, and how saved images are named.
//!
//! The disk and the network stay with the caller: where a decision needs to
//! know something about them, it asks (see [`ClipboardScan`]).

use vstd::prelude::*;
use vstd::string::StringExecFns;

use crate::paths::{
    extension_of, file_stem_of, join_paths, parent_of, path_extension, path_file_stem,
    path_join, path_parent,
};
use crate::text::{
    chars_of, contains, decimal, ends_with, eq_ascii_case, eq_ignore_ascii_case, has_substring,
    lowercase, push_decimal, same_chars, slice_chars, split_lines, starts_with, string_of,
    the_char, to_lowercase, trim, trim_by, trim_end, trim_end_by, trim_matches, views, white,
    lines,
};
use crate::urls::{
    file_path_of, parse_url, path_of, percent_decode_utf8, percent_decoded, scheme_of, url_parses,
    url_path, url_scheme, url_has_file_path, url_parse_error, LocalFile,
};

verus! {

broadcast use {vstd::string::group_string_axioms, vstd::seq_lib::group_seq_properties};

/// An image loaded for display.
#[derive(Debug, Clone)]
pub struct Image {
    pub bytes: Vec<u8>,
    pub url: String,
    pub is_svg: bool,
}

/// The file extensions (in lower case) taken for images.
pub open spec fn is_image_ext(e: Seq<char>) -> bool {
    ||| e == "png"@
    ||| e == "jpg"@
    ||| e == "jpeg"@
    ||| e == "gif"@
    ||| e == "webp"@
    ||| e == "svg"@
    ||| e == "bmp"@
    ||| e == "ico"@
    ||| e == "tiff"@
    ||| e == "avif"@
}

/// Whether `v` holds the characters of `lit`.
fn is_literal(v: &Vec<char>, lit: &str) -> (b: bool)
    ensures
        b == (v@ == lit@),
{
    let l = chars_of(lit);
    same_chars(v, &l)
}

/// Whether `ext` is the extension of an image file (see [`is_image_ext`]).
pub fn is_image_extension(ext: &str) -> (b: bool)
    ensures
        b == is_image_ext(ext@),
{
    let v = chars_of(ext);
    is_literal(&v, "png") || is_literal(&v, "jpg") || is_literal(&v, "jpeg") || is_literal(
        &v,
        "gif",
    ) || is_literal(&v, "webp") || is_literal(&v, "svg") || is_literal(&v, "bmp") || is_literal(
        &v,
        "ico",
    ) || is_literal(&v, "tiff") || is_literal(&v, "avif")
}

// ---------------------------------------------------------------------------
// Clipboard text
// ---------------------------------------------------------------------------

/// A clipboard line with surrounding white space, then double quotes, then
/// single quotes taken off.
pub open spec fn cleaned_line(raw: Seq<char>) -> Seq<char> {
    trim_by(trim_by(trim_by(raw, white()), the_char('"')), the_char('\''))
}

/// Lines that name nothing: empty ones and the `copy` / `cut` markers that
/// file managers put before copied file URIs.
pub open spec fn is_skipped_line(line: Seq<char>) -> bool {
    line.len() == 0 || line == "copy"@ || line == "cut"@
}

/// A web URL whose path ends in an image extension (in any case).
pub open spec fn is_web_image(line: Seq<char>) -> bool {
    &&& ("http://"@.is_prefix_of(line) || "https://"@.is_prefix_of(line))
    &&& url_parses(line)
    &&& path_extension(url_path(line)) matches Some(e) && is_image_ext(lowercase(e))
}

/// The local path a line names: a `file://` URI percent-decoded (kept
/// encoded when the decoded bytes are not UTF-8), any other line as it is.
pub open spec fn local_path(line: Seq<char>) -> Seq<char> {
    if "file://"@.is_prefix_of(line) {
        let rest = line.skip("file://"@.len() as int);
        match percent_decoded(rest) {
            Some(d) => d,
            None => rest,
        }
    } else {
        line
    }
}

/// A line cleaned of white space and quotes (see [`cleaned_line`]).
fn clean_line(raw: &Vec<char>) -> (r: Vec<char>)
    ensures
        r@ == cleaned_line(raw@),
{
    let a = trim(raw);
    let b = trim_matches(&a, '"');
    trim_matches(&b, '\'')
}

fn is_skipped(line: &Vec<char>) -> (b: bool)
    ensures
        b == is_skipped_line(line@),
{
    line.len() == 0 || is_literal(line, "copy") || is_literal(line, "cut")
}

/// Whether `line` is a web URL of an image (see [`is_web_image`]).
pub fn is_web_image_url(line: &str) -> (b: bool)
    ensures
        b == is_web_image(line@),
{
    let v = chars_of(line);
    let http = chars_of("http://");
    let https = chars_of("https://");
    if !(starts_with(&v, &http) || starts_with(&v, &https)) {
        return false;
    }
    match parse_url(line) {
        Ok(u) => {
            let path = path_of(&u);
            match extension_of(path.as_str()) {
                Some(ext) => {
                    let lower = to_lowercase(ext.as_str());
                    is_image_extension(lower.as_str())
                },
                None => false,
            }
        },
        Err(_) => false,
    }
}

/// The local path that `line` names (see [`local_path`]).
pub fn local_path_of(line: &str) -> (p: String)
    ensures
        p@ == local_path(line@),
{
    let v = chars_of(line);
    let scheme = chars_of("file://");
    if starts_with(&v, &scheme) {
        let rest_chars = slice_chars(&v, scheme.len(), v.len());
        let rest = string_of(&rest_chars);
        assert(rest@ == line@.skip("file://"@.len() as int));
        match percent_decode_utf8(rest.as_str()) {
            Some(d) => d,
            None => rest,
        }
    } else {
        string_of(&v)
    }
}

/// A local image file that clipboard text names, with its file stem
/// (`image` when it has none) and its extension in lower case.
pub struct LocalImage {
    pub source: String,
    pub stem: String,
    pub ext: String,
}

/// [`LocalImage`] as text.
pub struct LocalImageView {
    pub source: Seq<char>,
    pub stem: Seq<char>,
    pub ext: Seq<char>,
}

impl View for LocalImage {
    type V = LocalImageView;

    open spec fn view(&self) -> LocalImageView {
        LocalImageView { source: self.source@, stem: self.stem@, ext: self.ext@ }
    }
}

/// The image file at `path`, if its extension is an image extension.
pub open spec fn local_image(path: Seq<char>) -> Option<LocalImageView> {
    match path_extension(path) {
        Some(e) => if is_image_ext(lowercase(e)) {
            Some(
                LocalImageView {
                    source: path,
                    stem: match path_file_stem(path) {
                        Some(s) => s,
                        None => "image"@,
                    },
                    ext: lowercase(e),
                },
            )
        } else {
            None
        },
        None => None,
    }
}

/// The image file at `path`, if it has an image extension (see [`local_image`]).
pub fn local_image_of(path: String) -> (r: Option<LocalImage>)
    ensures
        r is Some <==> local_image(path@) is Some,
        r matches Some(img) ==> img@ == local_image(path@)->0,
{
    match extension_of(path.as_str()) {
        Some(ext) => {
            let lower = to_lowercase(ext.as_str());
            if is_image_extension(lower.as_str()) {
                let stem = match file_stem_of(path.as_str()) {
                    Some(s) => s,
                    None => String::from_str("image"),
                };
                Some(LocalImage { source: path, stem, ext: lower })
            } else {
                None
            }
        },
        None => None,
    }
}

// ---------------------------------------------------------------------------
// File names
// ---------------------------------------------------------------------------

/// The file name tried at position `index` for a file `stem.ext`:
/// `stem.ext` first, then `stem_1.ext`, `stem_2.ext`, and so on.
pub open spec fn candidate_name(stem: Seq<char>, ext: Seq<char>, index: nat) -> Seq<char> {
    if index == 0 {
        stem + seq!['.'] + ext
    } else {
        stem + seq!['_'] + decimal(index) + seq!['.'] + ext
    }
}

/// The last position of the name search: the counter of the search is a
/// 32-bit signed integer that counts one ahead of the position, and
/// advancing from this position would take it past `i32::MAX`.
pub open spec fn last_name_index() -> nat {
    (i32::MAX - 1) as nat
}

/// The file name at position `index` for `stem.ext` (see [`candidate_name`]).
pub fn file_name_candidate(stem: &str, ext: &str, index: usize) -> (name: String)
    ensures
        name@ == candidate_name(stem@, ext@, index as nat),
{
    let mut v = chars_of(stem);
    if index > 0 {
        v.push('_');
        push_decimal(&mut v, index);
    }
    v.push('.');
    let e = chars_of(ext);
    let mut i: usize = 0;
    let ghost before = v@;
    while i < e.len()
        invariant
            i <= e.len(),
            v@ == before + e@.subrange(0, i as int),
        decreases e.len() - i,
    {
        v.push(e[i]);
        i = i + 1;
    }
    let name = string_of(&v);
    proof {
        assert(e@.subrange(0, e@.len() as int) =~= e@);
        if index > 0 {
            assert(name@ =~= candidate_name(stem@, ext@, index as nat));
        } else {
            assert(name@ =~= candidate_name(stem@, ext@, index as nat));
        }
    }
    name
}

/// The search for a free file name `stem.ext`, `stem_1.ext`, ... in a
/// directory: the caller tries [`NameSearch::current`] and advances while
/// that name is taken.
pub struct NameSearch {
    stem: String,
    ext: String,
    index: usize,
}

impl NameSearch {
    pub closed spec fn stem(&self) -> Seq<char> {
        self.stem@
    }

    pub closed spec fn ext(&self) -> Seq<char> {
        self.ext@
    }

    /// The position of the current name.
    pub closed spec fn index(&self) -> nat {
        self.index as nat
    }

    /// The name to try now.
    pub open spec fn current_name(&self) -> Seq<char> {
        candidate_name(self.stem(), self.ext(), self.index())
    }

    /// A search for a free name `stem.ext`, starting with that name.
    pub fn new(stem: String, ext: String) -> (s: NameSearch)
        ensures
            s.stem() == stem@,
            s.ext() == ext@,
            s.index() == 0,
    {
        NameSearch { stem, ext, index: 0 }
    }

    /// The search for a free name for an image saved at time `timestamp`:
    /// `image_<timestamp>.png`, then `image_<timestamp>_1.png`, ...
    pub fn for_timestamp(timestamp: &str) -> (s: NameSearch)
        ensures
            s.stem() == "image_"@ + timestamp@,
            s.ext() == "png"@,
            s.index() == 0,
    {
        let mut stem = String::from_str("image_");
        stem.append(timestamp);
        NameSearch::new(stem, String::from_str("png"))
    }

    /// The name to try now.
    pub fn current(&self) -> (name: String)
        ensures
            name@ == self.current_name(),
    {
        file_name_candidate(self.stem.as_str(), self.ext.as_str(), self.index)
    }

    /// Whether the search can go past the current name.
    pub fn can_advance(&self) -> (b: bool)
        ensures
            b == (self.index() < last_name_index()),
    {
        self.index < 2147483646
    }

    /// Moves past a taken name and returns the next one to try.
    pub fn advance(&mut self) -> (name: String)
        requires
            old(self).index() < last_name_index(),
        ensures
            final(self).stem() == old(self).stem(),
            final(self).ext() == old(self).ext(),
            final(self).index() == old(self).index() + 1,
            name@ == final(self).current_name(),
    {
        self.index = self.index + 1;
        self.current()
    }
}

// ---------------------------------------------------------------------------
// Copying an image that clipboard text names
// ---------------------------------------------------------------------------

/// Where a [`ClipboardScan`] stands.
pub enum ScanPhase {
    /// Looking through the lines.
    Looking,
    /// Asked whether the path is an existing file.
    CheckingFile(Seq<char>),
    /// Asked to create the target directory for the image.
    Preparing(LocalImageView),
    /// Asked whether the first name in the target directory is the image itself.
    CheckingSource(LocalImageView),
    /// Asked whether the name at this position is taken in the target directory.
    CheckingTaken(LocalImageView, nat),
    /// Asked to copy the image under this name.
    Copying(LocalImageView, Seq<char>),
    /// Done.
    Finished,
}

/// What a [`ClipboardScan`] needs done next, as text.
pub enum ScanStep {
    Found(Seq<char>),
    NotFound,
    IsFile(Seq<char>),
    CreateTarget,
    IsSource(Seq<char>, Seq<char>),
    IsTaken(Seq<char>),
    Copy(Seq<char>, Seq<char>),
}

/// The state of a [`ClipboardScan`] as text.
pub struct ScanView {
    pub lines: Seq<Seq<char>>,
    pub next: nat,
    pub phase: ScanPhase,
}

/// What the caller of a [`ClipboardScan`] is asked to do next.
pub enum ScanAction {
    /// The text names this image: a web URL, or the file name it has in the
    /// target directory. The scan is over.
    Found(String),
    /// The text names no image. The scan is over.
    NotFound,
    /// Is there a file (not a directory) at this path? Answer yes or no.
    IsFile(String),
    /// Create the target directory and its parents; answer once done.
    CreateTarget,
    /// Is the target directory joined with `name` the path `source`? Answer yes or no.
    IsSource { name: String, source: String },
    /// Does the target directory already hold `name`? Answer yes or no.
    IsTaken(String),
    /// Copy the file `source` to `name` in the target directory; answer once done.
    Copy { source: String, name: String },
}

/// [`ScanAction`] as text.
pub open spec fn action_view(a: ScanAction) -> ScanStep {
    match a {
        ScanAction::Found(s) => ScanStep::Found(s@),
        ScanAction::NotFound => ScanStep::NotFound,
        ScanAction::IsFile(p) => ScanStep::IsFile(p@),
        ScanAction::CreateTarget => ScanStep::CreateTarget,
        ScanAction::IsSource { name, source } => ScanStep::IsSource(name@, source@),
        ScanAction::IsTaken(n) => ScanStep::IsTaken(n@),
        ScanAction::Copy { source, name } => ScanStep::Copy(source@, name@),
    }
}

/// Looking through `lines` from position `i`: the first line that names
/// something decides. A web image URL is found as it is; any other line is
/// taken as a local path, and the caller is asked whether it is a file.
pub open spec fn scan_lines(lines: Seq<Seq<char>>, i: nat) -> (nat, ScanPhase, ScanStep)
    decreases lines.len() - i,
{
    if i >= lines.len() {
        (i, ScanPhase::Finished, ScanStep::NotFound)
    } else {
        let line = cleaned_line(lines[i as int]);
        if is_skipped_line(line) {
            scan_lines(lines, i + 1)
        } else if is_web_image(line) {
            (i + 1, ScanPhase::Finished, ScanStep::Found(line))
        } else {
            (
                i + 1,
                ScanPhase::CheckingFile(local_path(line)),
                ScanStep::IsFile(local_path(line)),
            )
        }
    }
}

/// The scan of `lines` from position `i`, as a scan state and its step.
pub open spec fn looking_from(lines: Seq<Seq<char>>, i: nat) -> (ScanView, ScanStep) {
    let r = scan_lines(lines, i);
    (ScanView { lines, next: r.0, phase: r.1 }, r.2)
}

/// The next state and step of a scan in state `s` once the caller answers
/// `answer` (for a creation or a copy: once it is done).
pub open spec fn scan_resume(s: ScanView, answer: bool) -> (ScanView, ScanStep) {
    match s.phase {
        ScanPhase::Looking => looking_from(s.lines, s.next),
        ScanPhase::CheckingFile(path) => if answer && local_image(path) is Some {
            (ScanView { phase: ScanPhase::Preparing(local_image(path)->0), ..s }, ScanStep::CreateTarget)
        } else {
            looking_from(s.lines, s.next)
        },
        ScanPhase::Preparing(img) => (
            ScanView { phase: ScanPhase::CheckingSource(img), ..s },
            ScanStep::IsSource(candidate_name(img.stem, img.ext, 0), img.source),
        ),
        ScanPhase::CheckingSource(img) => if answer {
            (
                ScanView { phase: ScanPhase::Finished, ..s },
                ScanStep::Found(candidate_name(img.stem, img.ext, 0)),
            )
        } else {
            (
                ScanView { phase: ScanPhase::CheckingTaken(img, 0), ..s },
                ScanStep::IsTaken(candidate_name(img.stem, img.ext, 0)),
            )
        },
        ScanPhase::CheckingTaken(img, k) => if answer {
            (
                ScanView { phase: ScanPhase::CheckingTaken(img, k + 1), ..s },
                ScanStep::IsTaken(candidate_name(img.stem, img.ext, k + 1)),
            )
        } else {
            (
                ScanView { phase: ScanPhase::Copying(img, candidate_name(img.stem, img.ext, k)), ..s },
                ScanStep::Copy(img.source, candidate_name(img.stem, img.ext, k)),
            )
        },
        ScanPhase::Copying(_, name) => (
            ScanView { phase: ScanPhase::Finished, ..s },
            ScanStep::Found(name),
        ),
        ScanPhase::Finished => (s, ScanStep::NotFound),
    }
}

/// The answer `answer` can be taken in state `s`: the name search stops at
/// its last position, past which its 32-bit counter would overflow.
pub open spec fn can_resume(s: ScanView, answer: bool) -> bool {
    answer ==> (s.phase matches ScanPhase::CheckingTaken(_, k) ==> k < last_name_index())
}

enum Phase {
    Looking,
    CheckingFile(String),
    Preparing(LocalImage),
    CheckingSource(LocalImage),
    CheckingTaken(LocalImage, usize),
    Copying(LocalImage, String),
    Finished,
}

spec fn phase_view(p: Phase) -> ScanPhase {
    match p {
        Phase::Looking => ScanPhase::Looking,
        Phase::CheckingFile(path) => ScanPhase::CheckingFile(path@),
        Phase::Preparing(img) => ScanPhase::Preparing(img@),
        Phase::CheckingSource(img) => ScanPhase::CheckingSource(img@),
        Phase::CheckingTaken(img, k) => ScanPhase::CheckingTaken(img@, k as nat),
        Phase::Copying(img, name) => ScanPhase::Copying(img@, name@),
        Phase::Finished => ScanPhase::Finished,
    }
}

/// The search of clipboard text for an image: a web URL of an image, or a
/// local image file, which is copied into a target directory under a name
/// that is free there. Each line is looked at in turn, with white space and
/// quotes taken off; the first one that names an existing image decides.
///
/// The caller owns the disk and the target directory: it performs each
/// [`ScanAction`] and passes the answer to [`ClipboardScan::resume`] until
/// the scan reports [`ScanAction::Found`] or [`ScanAction::NotFound`].
pub struct ClipboardScan {
    lines: Vec<Vec<char>>,
    next: usize,
    phase: Phase,
}

impl View for ClipboardScan {
    type V = ScanView;

    closed spec fn view(&self) -> ScanView {
        ScanView { lines: views(self.lines@), next: self.next as nat, phase: phase_view(self.phase) }
    }
}

/// Looks through `lines` from position `from` (see [`scan_lines`]).
fn scan(lines: &Vec<Vec<char>>, from: usize) -> (r: (usize, Phase, ScanAction))
    ensures
        r.0 == scan_lines(views(lines@), from as nat).0,
        phase_view(r.1) == scan_lines(views(lines@), from as nat).1,
        action_view(r.2) == scan_lines(views(lines@), from as nat).2,
{
    let ghost all = views(lines@);
    let mut i = from;
    while i < lines.len()
        invariant
            all == views(lines@),
            scan_lines(all, from as nat) == scan_lines(all, i as nat),
        decreases lines.len() - i,
    {
        assert(all[i as int] == lines@[i as int]@);
        let line = clean_line(&lines[i]);
        if is_skipped(&line) {
            i = i + 1;
            continue ;
        }
        let text = string_of(&line);
        if is_web_image_url(text.as_str()) {
            return (i + 1, Phase::Finished, ScanAction::Found(text));
        }
        let path = local_path_of(text.as_str());
        return (i + 1, Phase::CheckingFile(path.clone()), ScanAction::IsFile(path));
    }
    (i, Phase::Finished, ScanAction::NotFound)
}

impl ClipboardScan {
    /// Starts the search of clipboard text `text` and says what to do first.
    pub fn new(text: &str) -> (r: (ClipboardScan, ScanAction))
        ensures
            r.0@ == looking_from(lines(text@), 0).0,
            action_view(r.1) == looking_from(lines(text@), 0).1,
    {
        let chars = chars_of(text);
        let lines = split_lines(&chars);
        let (next, phase, action) = scan(&lines, 0);
        (ClipboardScan { lines, next, phase }, action)
    }

    /// Whether answer `answer` can be taken now (see [`can_resume`]).
    pub fn can_resume(&self, answer: bool) -> (b: bool)
        ensures
            b == can_resume(self@, answer),
    {
        match &self.phase {
            Phase::CheckingTaken(_, k) => !answer || *k < 2147483646,
            _ => true,
        }
    }

    /// Takes the answer to the last action and says what to do next (see
    /// [`scan_resume`]).
    pub fn resume(&mut self, answer: bool) -> (action: ScanAction)
        requires
            can_resume(old(self)@, answer),
        ensures
            final(self)@ == scan_resume(old(self)@, answer).0,
            action_view(action) == scan_resume(old(self)@, answer).1,
    {
        let mut phase = Phase::Finished;
        std::mem::swap(&mut phase, &mut self.phase);
        match phase {
            Phase::Looking => self.look(),
            Phase::CheckingFile(path) => {
                if answer {
                    if let Some(img) = local_image_of(path) {
                        self.phase = Phase::Preparing(img);
                        return ScanAction::CreateTarget;
                    }
                }
                self.look()
            },
            Phase::Preparing(img) => {
                let name = file_name_candidate(img.stem.as_str(), img.ext.as_str(), 0);
                let source = img.source.clone();
                self.phase = Phase::CheckingSource(img);
                ScanAction::IsSource { name, source }
            },
            Phase::CheckingSource(img) => {
                let name = file_name_candidate(img.stem.as_str(), img.ext.as_str(), 0);
                if answer {
                    ScanAction::Found(name)
                } else {
                    self.phase = Phase::CheckingTaken(img, 0);
                    ScanAction::IsTaken(name)
                }
            },
            Phase::CheckingTaken(img, k) => {
                if answer {
                    let name = file_name_candidate(img.stem.as_str(), img.ext.as_str(), k + 1);
                    self.phase = Phase::CheckingTaken(img, k + 1);
                    ScanAction::IsTaken(name)
                } else {
                    let name = file_name_candidate(img.stem.as_str(), img.ext.as_str(), k);
                    let source = img.source.clone();
                    self.phase = Phase::Copying(img, name.clone());
                    ScanAction::Copy { source, name }
                }
            },
            Phase::Copying(_, name) => ScanAction::Found(name),
            Phase::Finished => ScanAction::NotFound,
        }
    }

    /// Goes on looking through the lines.
    fn look(&mut self) -> (action: ScanAction)
        ensures
            final(self)@ == looking_from(old(self)@.lines, old(self)@.next).0,
            action_view(action) == looking_from(old(self)@.lines, old(self)@.next).1,
    {
        let (next, phase, action) = scan(&self.lines, self.next);
        self.next = next;
        self.phase = phase;
        action
    }
}

// ---------------------------------------------------------------------------
// Loading an image link
// ---------------------------------------------------------------------------

/// Why an image link cannot be loaded.
#[derive(Debug)]
pub enum LoadError {
    /// A relative link in a note that has no path.
    NoBasePath,
    /// The note's path has no parent directory to resolve a relative link in.
    NoParentDirectory,
    /// The resolved link is not a URL.
    InvalidUrl(url::ParseError),
    /// A `file:` URL that names no local path.
    InvalidFilePath,
    /// A URL with a scheme other than `file`, `http` or `https`.
    UnsupportedScheme(String),
}

/// Links given in full: web and `file:` URLs.
pub open spec fn is_absolute_link(url: Seq<char>) -> bool {
    "http://"@.is_prefix_of(url) || "https://"@.is_prefix_of(url) || "file://"@.is_prefix_of(url)
}

/// How an image link is resolved.
pub enum LinkResolution {
    /// The link is a URL in full, to be loaded as it is.
    Absolute,
    /// The link is relative to the note's path `base`: ask whether `base`
    /// is a directory, then call [`resolve_relative_link`].
    Relative { base: String },
    /// The link cannot be resolved.
    Failed(LoadError),
}

/// The first step of resolving image link `url` in a note whose path is
/// `base_path`.
pub fn resolve_image_link(url: &str, base_path: Option<String>) -> (r: LinkResolution)
    ensures
        "http://"@.is_prefix_of(url@) ==> r is Absolute,
        "https://"@.is_prefix_of(url@) ==> r is Absolute,
        "file://"@.is_prefix_of(url@) ==> r is Absolute,
        r is Absolute ==> "http://"@.is_prefix_of(url@) || "https://"@.is_prefix_of(url@)
            || "file://"@.is_prefix_of(url@),
        is_absolute_link(url@) ==> r is Absolute,
        !is_absolute_link(url@) ==> match base_path {
            Some(b) => r matches LinkResolution::Relative { base } && base@ == b@,
            None => r matches LinkResolution::Failed(LoadError::NoBasePath),
        },
{
    let v = chars_of(url);
    let http = chars_of("http://");
    let https = chars_of("https://");
    let file = chars_of("file://");
    if starts_with(&v, &http) || starts_with(&v, &https) || starts_with(&v, &file) {
        LinkResolution::Absolute
    } else {
        match base_path {
            Some(base) => LinkResolution::Relative { base },
            None => LinkResolution::Failed(LoadError::NoBasePath),
        }
    }
}

/// The `file:` URL of relative link `url` in the directory of the note's
/// path `base` (`base` itself when it is a directory, else its parent).
pub open spec fn relative_link_url(url: Seq<char>, base: Seq<char>, base_is_dir: bool) -> Option<
    Seq<char>,
> {
    if base_is_dir {
        Some("file://"@ + path_join(base, url))
    } else {
        match path_parent(base) {
            Some(dir) => Some("file://"@ + path_join(dir, url)),
            None => None,
        }
    }
}

/// Resolves relative link `url` against the note's path `base`, told
/// whether `base` is a directory.
pub fn resolve_relative_link(url: &str, base: &str, base_is_dir: bool) -> (r: Result<String, LoadError>)
    ensures
        relative_link_url(url@, base@, base_is_dir) matches Some(u) ==> r matches Ok(s) && s@ == u,
        relative_link_url(url@, base@, base_is_dir) is None ==> r matches Err(LoadError::NoParentDirectory),
{
    let dir = if base_is_dir {
        String::from_str(base)
    } else {
        match parent_of(base) {
            Some(p) => p,
            None => return Err(LoadError::NoParentDirectory),
        }
    };
    let joined = join_paths(dir.as_str(), url);
    let mut resolved = String::from_str("file://");
    resolved.append(joined.as_str());
    Ok(resolved)
}

/// Where the bytes of an image come from.
pub enum ImageSource {
    /// A local file: the path of the resolved `file:` link.
    File(LocalFile),
    /// The web, at the link itself.
    Web,
}

/// What a URL scheme means for loading an image.
#[derive(Debug, Clone, Copy, PartialEq, Eq, Structural)]
pub enum SchemeKind {
    /// `file`: a local file.
    File,
    /// `http` or `https`: the web.
    Web,
    /// Anything else.
    Unsupported,
}

/// The kind of URL scheme `scheme` (schemes come in lower case).
pub open spec fn scheme_kind_of(scheme: Seq<char>) -> SchemeKind {
    if scheme == "file"@ {
        SchemeKind::File
    } else if scheme == "http"@ || scheme == "https"@ {
        SchemeKind::Web
    } else {
        SchemeKind::Unsupported
    }
}

/// The kind of URL scheme `scheme` (see [`scheme_kind_of`]).
pub fn scheme_kind(scheme: &str) -> (k: SchemeKind)
    ensures
        k == scheme_kind_of(scheme@),
{
    let sv = chars_of(scheme);
    if is_literal(&sv, "file") {
        SchemeKind::File
    } else if is_literal(&sv, "http") || is_literal(&sv, "https") {
        SchemeKind::Web
    } else {
        SchemeKind::Unsupported
    }
}

/// Decides where the image at the resolved link `resolved` is loaded from.
pub fn image_source(resolved: &str) -> (r: Result<ImageSource, LoadError>)
    ensures
        !url_parses(resolved@) <==> (r matches Err(LoadError::InvalidUrl(_))),
        r matches Err(LoadError::InvalidUrl(e)) ==> e == url_parse_error(resolved@),
        r matches Ok(ImageSource::File(f)) ==> f.url() == resolved@,
        url_parses(resolved@) && scheme_kind_of(url_scheme(resolved@)) == SchemeKind::File
            && url_has_file_path(resolved@) ==> (r matches Ok(ImageSource::File(_))),
        url_parses(resolved@) && scheme_kind_of(url_scheme(resolved@)) == SchemeKind::File
            && !url_has_file_path(resolved@) ==> (r matches Err(LoadError::InvalidFilePath)),
        url_parses(resolved@) && scheme_kind_of(url_scheme(resolved@)) == SchemeKind::Web ==> (r matches Ok(
            ImageSource::Web,
        )),
        url_parses(resolved@) && scheme_kind_of(url_scheme(resolved@)) == SchemeKind::Unsupported
            ==> (r matches Err(LoadError::UnsupportedScheme(s)) && s@ == url_scheme(resolved@)),
{
    let u = match parse_url(resolved) {
        Ok(u) => u,
        Err(e) => return Err(LoadError::InvalidUrl(e)),
    };
    let scheme = scheme_of(&u);
    match scheme_kind(scheme.as_str()) {
        SchemeKind::File => match file_path_of(&u) {
            Some(file) => Ok(ImageSource::File(file)),
            None => Err(LoadError::InvalidFilePath),
        },
        SchemeKind::Web => Ok(ImageSource::Web),
        SchemeKind::Unsupported => Err(LoadError::UnsupportedScheme(scheme)),
    }
}

/// A local file is an SVG image when its extension is `svg` in any case.
pub open spec fn is_svg_file(ext: Option<Seq<char>>) -> bool {
    ext matches Some(e) && eq_ascii_case(e, "svg"@)
}

/// Whether a local file with extension `ext` (if it has one that is UTF-8)
/// is an SVG image.
pub fn is_svg_extension(ext: Option<&str>) -> (b: bool)
    ensures
        b == is_svg_file(
            match ext {
                Some(e) => Some(e@),
                None => None,
            },
        ),
{
    match ext {
        Some(e) => {
            let v = chars_of(e);
            let svg = chars_of("svg");
            eq_ignore_ascii_case(&v, &svg)
        },
        None => false,
    }
}

/// A downloaded image is an SVG image when its content type mentions `svg`
/// or its link ends in `.svg` (trailing white space and case aside).
pub open spec fn is_svg_download(content_type: Option<Seq<char>>, url: Seq<char>) -> bool {
    (content_type matches Some(t) && has_substring(t, "svg"@)) || ".svg"@.is_suffix_of(
        lowercase(trim_end_by(url, white())),
    )
}

/// Whether an image downloaded from `url` with content type `content_type`
/// (if the response has one that is text) is an SVG image.
pub fn is_svg_response(content_type: Option<&str>, url: &str) -> (b: bool)
    ensures
        b == is_svg_download(
            match content_type {
                Some(t) => Some(t@),
                None => None,
            },
            url@,
        ),
{
    let by_type = match content_type {
        Some(t) => {
            let v = chars_of(t);
            let svg = chars_of("svg");
            contains(&v, &svg)
        },
        None => false,
    };
    if by_type {
        return true;
    }
    let u = chars_of(url);
    let trimmed = string_of(&trim_end(&u));
    let lower = chars_of(to_lowercase(trimmed.as_str()).as_str());
    let suffix = chars_of(".svg");
    ends_with(&lower, &suffix)
}

// ---------------------------------------------------------------------------
// Downloads in progress
// ---------------------------------------------------------------------------

/// The image links whose download has begun.
pub struct PendingDownloads {
    urls: Vec<String>,
}

impl View for PendingDownloads {
    type V = Set<Seq<char>>;

    closed spec fn view(&self) -> Set<Seq<char>> {
        self.urls@.map_values(|u: String| u@).to_set()
    }
}

/// The links among `urls` whose download begins, in order, when `pending`
/// already began: each link that is not pending yet, the first time it
/// comes; and the links pending afterwards.
pub open spec fn claim_links(pending: Set<Seq<char>>, urls: Seq<Seq<char>>) -> (
    Set<Seq<char>>,
    Seq<Seq<char>>,
)
    decreases urls.len(),
{
    if urls.len() == 0 {
        (pending, seq![])
    } else if pending.contains(urls[0]) {
        claim_links(pending, urls.drop_first())
    } else {
        let rest = claim_links(pending.insert(urls[0]), urls.drop_first());
        (rest.0, seq![urls[0]] + rest.1)
    }
}

impl PendingDownloads {
    /// No downloads.
    pub fn new() -> (p: PendingDownloads)
        ensures
            p@ == Set::<Seq<char>>::empty(),
    {
        let p = PendingDownloads { urls: Vec::new() };
        assert(p@ =~= Set::<Seq<char>>::empty());
        p
    }

    /// Whether the download of `url` has begun.
    pub fn contains(&self, url: &String) -> (b: bool)
        ensures
            b == self@.contains(url@),
    {
        let mut i: usize = 0;
        while i < self.urls.len()
            invariant
                i <= self.urls.len(),
                forall|k: int| 0 <= k < i ==> self.urls@[k]@ != url@,
            decreases self.urls.len() - i,
        {
            if self.urls[i] == *url {
                assert(self.urls@.map_values(|u: String| u@)[i as int] == url@);
                return true;
            }
            i = i + 1;
        }
        assert(!self.urls@.map_values(|u: String| u@).contains(url@));
        false
    }

    /// Records that the download of `url` begins; `true` when it had not
    /// begun before (`HashSet::insert`).
    pub fn insert(&mut self, url: String) -> (fresh: bool)
        ensures
            fresh == !old(self)@.contains(url@),
            final(self)@ == old(self)@.insert(url@),
    {
        if self.contains(&url) {
            proof {
                assert(old(self)@.insert(url@) =~= old(self)@);
            }
            false
        } else {
            let ghost before = self.urls@;
            self.urls.push(url);
            proof {
                let now = self.urls@.map_values(|u: String| u@);
                let was = before.map_values(|u: String| u@);
                assert(now =~= was.push(url@));
                assert forall|x: Seq<char>| now.contains(x) <==> was.contains(x) || x == url@ by {
                    if now.contains(x) {
                        let k = choose|k: int| 0 <= k < now.len() && now[k] == x;
                        if k < was.len() {
                            assert(was[k] == x);
                        }
                    }
                    if was.contains(x) {
                        let k = choose|k: int| 0 <= k < was.len() && was[k] == x;
                        assert(now[k] == x);
                    }
                    if x == url@ {
                        assert(now[was.len() as int] == x);
                    }
                }
                assert(self@ =~= old(self)@.insert(url@));
            }
            true
        }
    }

    /// Records the downloads of `urls` that begin now and returns their
    /// links in order (see [`claim_links`]).
    pub fn claim(&mut self, urls: Vec<String>) -> (claimed: Vec<String>)
        ensures
            final(self)@ == claim_links(old(self)@, urls@.map_values(|u: String| u@)).0,
            claimed@.map_values(|u: String| u@) == claim_links(old(self)@, urls@.map_values(|u: String| u@)).1,
    {
        let ghost all = urls@.map_values(|u: String| u@);
        let mut claimed: Vec<String> = Vec::new();
        let mut i: usize = 0;
        assert(all.skip(0) =~= all);
        assert(claimed@.map_values(|u: String| u@) =~= Seq::<Seq<char>>::empty());
        assert(Seq::<Seq<char>>::empty() + claim_links(self@, all).1 =~= claim_links(self@, all).1);
        while i < urls.len()
            invariant
                i <= urls.len(),
                all == urls@.map_values(|u: String| u@),
                claim_links(old(self)@, all) == ({
                    let rest = claim_links(self@, all.skip(i as int));
                    (rest.0, claimed@.map_values(|u: String| u@) + rest.1)
                }),
            decreases urls.len() - i,
        {
            let ghost set_before = self@;
            let ghost u = urls@[i as int]@;
            let ghost tail = all.skip(i + 1);
            assert(all.skip(i as int).drop_first() =~= tail);
            assert(all.skip(i as int)[0] == u);
            let ghost before = claimed@.map_values(|u: String| u@);
            let url = urls[i].clone();
            if self.insert(url) {
                assert(claim_links(set_before, all.skip(i as int)) == ({
                    let rest = claim_links(set_before.insert(u), tail);
                    (rest.0, seq![u] + rest.1)
                }));
                claimed.push(urls[i].clone());
                assert(claimed@.map_values(|u: String| u@) =~= before.push(u));
                assert(before + (seq![u] + claim_links(self@, tail).1) =~= before.push(u)
                    + claim_links(self@, tail).1);
            } else {
                assert(set_before.insert(u) =~= set_before);
                assert(claim_links(set_before, all.skip(i as int)) == claim_links(set_before, tail));
            }
            i = i + 1;
        }
        assert(all.skip(i as int) =~= Seq::<Seq<char>>::empty());
        assert(claimed@.map_values(|u: String| u@) + Seq::<Seq<char>>::empty() =~= claimed@.map_values(
            |u: String| u@,
        ));
        claimed
    }
}

} // verus!
