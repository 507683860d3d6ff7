//! Properties of image naming and of downloads in progress that hold for
//! every input, proved over the specifications of [`crate::images`].

use vstd::prelude::*;

use crate::images::{
    is_absolute_link, is_image_ext, is_svg_file, scheme_kind_of, SchemeKind,
    candidate_name, claim_links, scan_lines, scan_resume, looking_from, cleaned_line,
    is_skipped_line, is_web_image, local_path, local_image, LocalImageView, ScanView, ScanPhase,
    ScanStep,
};
use crate::text::{decimal, digit_char, is_white_space, ascii_lower, trim_start_by, trim_end_by, white, the_char};

verus! {

proof fn lemma_decimal_not_empty(n: nat)
    ensures
        decimal(n).len() >= 1,
    decreases n,
{
    if n >= 10 {
        lemma_decimal_not_empty(n / 10);
    }
}

proof fn lemma_digit_char_injective(a: int, b: int)
    requires
        0 <= a < 10,
        0 <= b < 10,
        digit_char(a) == digit_char(b),
    ensures
        a == b,
{
}

/// Different numbers have different decimal representations.
pub proof fn decimal_injective(a: nat, b: nat)
    requires
        decimal(a) == decimal(b),
    ensures
        a == b,
    decreases a,
{
    if a < 10 && b < 10 {
        assert(decimal(a) == seq![digit_char(a as int)]);
        assert(decimal(b) == seq![digit_char(b as int)]);
        assert(decimal(a)[0] == digit_char(a as int));
        assert(decimal(b)[0] == digit_char(b as int));
        lemma_digit_char_injective(a as int, b as int);
    } else if a < 10 {
        lemma_decimal_not_empty(b / 10);
        assert(decimal(b).len() >= 2);
    } else if b < 10 {
        lemma_decimal_not_empty(a / 10);
        assert(decimal(a).len() >= 2);
    } else {
        assert(decimal(a).drop_last() =~= decimal(a / 10));
        assert(decimal(b).drop_last() =~= decimal(b / 10));
        decimal_injective(a / 10, b / 10);
        assert(decimal(a).last() == digit_char((a % 10) as int));
        lemma_digit_char_injective((a % 10) as int, (b % 10) as int);
    }
}

/// A name search never proposes the same file name twice: the names at
/// different positions differ.
pub proof fn candidate_names_differ(stem: Seq<char>, ext: Seq<char>, i: nat, j: nat)
    requires
        i != j,
    ensures
        candidate_name(stem, ext, i) != candidate_name(stem, ext, j),
{
    let a = candidate_name(stem, ext, i);
    let b = candidate_name(stem, ext, j);
    if i == 0 || j == 0 {
        let k = if i == 0 { j } else { i };
        lemma_decimal_not_empty(k);
        assert(candidate_name(stem, ext, 0)[stem.len() as int] == '.');
        assert(candidate_name(stem, ext, k)[stem.len() as int] == '_');
    } else if decimal(i).len() != decimal(j).len() {
        assert(a.len() != b.len());
    } else {
        if a == b {
            let start = stem.len() as int + 1;
            let len = decimal(i).len() as int;
            assert(a.subrange(start, start + len) =~= decimal(i));
            assert(b.subrange(start, start + len) =~= decimal(j));
            decimal_injective(i, j);
        }
    }
}

/// Two saved images get different names: names for timestamps written the
/// same length differ when the timestamps differ, and, for one timestamp,
/// when the positions in the name search differ.
pub proof fn saved_image_names_differ(t1: Seq<char>, t2: Seq<char>, i: nat, j: nat)
    requires
        t1.len() == t2.len(),
        t1 != t2 || i != j,
    ensures
        candidate_name("image_"@ + t1, "png"@, i) != candidate_name("image_"@ + t2, "png"@, j),
{
    if t1 == t2 {
        candidate_names_differ("image_"@ + t1, "png"@, i, j);
    } else {
        if forall|k: int| 0 <= k < t1.len() ==> t1[k] == t2[k] {
            assert(t1 =~= t2);
        }
        let k = choose|k: int| 0 <= k < t1.len() && t1[k] != t2[k];
        let p = "image_"@.len() as int;
        let n1 = candidate_name("image_"@ + t1, "png"@, i);
        let n2 = candidate_name("image_"@ + t2, "png"@, j);
        assert(n1[p + k] == t1[k]);
        assert(n2[p + k] == t2[k]);
    }
}

/// A name search for `stem.ext` only proposes names that begin with
/// `stem` and end with `.` and `ext`.
pub proof fn candidate_names_keep_stem_and_extension(stem: Seq<char>, ext: Seq<char>, i: nat)
    ensures
        stem.is_prefix_of(candidate_name(stem, ext, i)),
        (seq!['.'] + ext).is_suffix_of(candidate_name(stem, ext, i)),
{
    let n = candidate_name(stem, ext, i);
    assert(n.subrange(0, stem.len() as int) =~= stem);
    let tail = seq!['.'] + ext;
    assert(n.subrange(n.len() - tail.len(), n.len() as int) =~= tail);
}

/// Each link is downloaded at most once: the links whose download begins
/// were not pending before and come once each, and afterwards exactly the
/// links pending before and the links asked for are pending.
pub proof fn claimed_links_are_new_and_distinct(pending: Set<Seq<char>>, urls: Seq<Seq<char>>)
    ensures
        claim_links(pending, urls).1.no_duplicates(),
        forall|k: int|
            0 <= k < claim_links(pending, urls).1.len() ==> !pending.contains(
                #[trigger] claim_links(pending, urls).1[k],
            ),
        claim_links(pending, urls).0 == pending + urls.to_set(),
    decreases urls.len(),
{
    if urls.len() == 0 {
        assert(urls.to_set() =~= Set::<Seq<char>>::empty());
        assert(pending + urls.to_set() =~= pending);
    } else {
        let u = urls[0];
        let rest = urls.drop_first();
        assert(urls.to_set() =~= rest.to_set().insert(u)) by {
            assert forall|x: Seq<char>| urls.to_set().contains(x) <==> rest.to_set().insert(u).contains(x) by {
                if urls.contains(x) {
                    let k = choose|k: int| 0 <= k < urls.len() && urls[k] == x;
                    if k > 0 {
                        assert(rest[k - 1] == x);
                    }
                }
                if rest.contains(x) {
                    let k = choose|k: int| 0 <= k < rest.len() && rest[k] == x;
                    assert(urls[k + 1] == x);
                }
                if x == u {
                    assert(urls[0] == x);
                }
            }
        }
        if pending.contains(u) {
            claimed_links_are_new_and_distinct(pending, rest);
            assert(pending + urls.to_set() =~= pending + rest.to_set());
        } else {
            let p2 = pending.insert(u);
            claimed_links_are_new_and_distinct(p2, rest);
            let tail = claim_links(p2, rest).1;
            let all = claim_links(pending, urls).1;
            assert(all == seq![u] + tail);
            assert forall|k: int| 0 <= k < all.len() implies !pending.contains(#[trigger] all[k]) by {
                if k > 0 {
                    assert(all[k] == tail[k - 1]);
                    assert(!p2.contains(tail[k - 1]));
                }
            }
            assert forall|a: int, b: int| 0 <= a < all.len() && 0 <= b < all.len() && a != b implies all[a] != all[b] by {
                if a > 0 && b > 0 {
                    assert(all[a] == tail[a - 1]);
                    assert(all[b] == tail[b - 1]);
                } else if a == 0 {
                    assert(all[b] == tail[b - 1]);
                    assert(!p2.contains(tail[b - 1]));
                } else {
                    assert(all[a] == tail[a - 1]);
                    assert(!p2.contains(tail[a - 1]));
                }
            }
            assert(p2 + rest.to_set() =~= pending + urls.to_set());
        }
    }
}

proof fn lemma_looking_never_copies(lines: Seq<Seq<char>>, i: nat)
    ensures
        !(scan_lines(lines, i).2 is Copy),
    decreases lines.len() - i,
{
    if i < lines.len() {
        lemma_looking_never_copies(lines, i + 1);
    }
}

/// A clipboard scan never overwrites a file: it asks for a copy only under
/// the name it has just been told is free in the target directory, and the
/// copy is of the image file it found.
pub proof fn scan_copies_only_to_free_names(s: ScanView, answer: bool)
    requires
        scan_resume(s, answer).1 is Copy,
    ensures
        s.phase matches ScanPhase::CheckingTaken(img, k) && !answer && scan_resume(s, answer).1
            == ScanStep::Copy(img.source, candidate_name(img.stem, img.ext, k)),
{
    lemma_looking_never_copies(s.lines, s.next);
}

/// What a clipboard line names, when the caller says which paths are files
/// by `is_file`: a web image, a local image file, or nothing.
pub enum LineVerdict {
    Web(Seq<char>),
    Local(LocalImageView),
    Nothing,
}

/// What clipboard line `line` names (see [`LineVerdict`]).
pub open spec fn line_verdict(line: Seq<char>, is_file: spec_fn(Seq<char>) -> bool) -> LineVerdict {
    let l = cleaned_line(line);
    if is_skipped_line(l) {
        LineVerdict::Nothing
    } else if is_web_image(l) {
        LineVerdict::Web(l)
    } else if is_file(local_path(l)) && local_image(local_path(l)) is Some {
        LineVerdict::Local(local_image(local_path(l))->0)
    } else {
        LineVerdict::Nothing
    }
}

/// What the lines from position `i` name: the verdict of the first line
/// that names something.
pub open spec fn first_verdict(lines: Seq<Seq<char>>, i: nat, is_file: spec_fn(Seq<char>) -> bool) -> LineVerdict
    decreases lines.len() - i,
{
    if i >= lines.len() {
        LineVerdict::Nothing
    } else if line_verdict(lines[i as int], is_file) is Nothing {
        first_verdict(lines, i + 1, is_file)
    } else {
        line_verdict(lines[i as int], is_file)
    }
}

proof fn lemma_scan_lines(lines: Seq<Seq<char>>, i: nat, is_file: spec_fn(Seq<char>) -> bool)
    ensures
        ({
            let r = scan_lines(lines, i);
            &&& r.2 is NotFound ==> first_verdict(lines, i, is_file) is Nothing
            &&& r.2 matches ScanStep::Found(l) ==> first_verdict(lines, i, is_file) == LineVerdict::Web(l)
            &&& r.2 matches ScanStep::IsFile(p) ==> {
                &&& r.1 == ScanPhase::CheckingFile(p)
                &&& (is_file(p) && local_image(p) is Some) ==> first_verdict(lines, i, is_file)
                    == LineVerdict::Local(local_image(p)->0)
                &&& !(is_file(p) && local_image(p) is Some) ==> first_verdict(lines, i, is_file)
                    == first_verdict(lines, r.0, is_file)
            }
            &&& r.2 is NotFound || r.2 is Found || r.2 is IsFile
        }),
    decreases lines.len() - i,
{
    if i < lines.len() {
        lemma_scan_lines(lines, i + 1, is_file);
    }
}

/// The clipboard scan follows the first line that names something. While it
/// looks through the lines, each answer to "is this path a file?" either
/// settles on that line's local image or goes on looking with the same
/// first verdict still ahead; a web image found, or nothing found, is that
/// first verdict.
pub proof fn scan_follows_first_verdict(lines: Seq<Seq<char>>, i: nat, is_file: spec_fn(Seq<char>) -> bool)
    ensures
        ({
            let (v, st) = looking_from(lines, i);
            &&& st is NotFound ==> first_verdict(lines, i, is_file) is Nothing
            &&& st matches ScanStep::Found(l) ==> first_verdict(lines, i, is_file) == LineVerdict::Web(l)
            &&& st matches ScanStep::IsFile(p) ==> {
                let (w, next) = scan_resume(v, is_file(p));
                ||| (next is CreateTarget && w.phase == ScanPhase::Preparing(local_image(p)->0)
                    && first_verdict(lines, i, is_file) == LineVerdict::Local(local_image(p)->0))
                ||| ((w, next) == looking_from(lines, v.next) && first_verdict(lines, v.next, is_file)
                    == first_verdict(lines, i, is_file))
            }
            &&& st is NotFound || st is Found || st is IsFile
        }),
{
    lemma_scan_lines(lines, i, is_file);
}

/// The lines from position `i` name nothing exactly when no line there
/// names anything.
pub proof fn nothing_found_iff_no_line_names_an_image(
    lines: Seq<Seq<char>>,
    i: nat,
    is_file: spec_fn(Seq<char>) -> bool,
)
    ensures
        first_verdict(lines, i, is_file) is Nothing <==> forall|j: int|
            i <= j < lines.len() ==> #[trigger] line_verdict(lines[j], is_file) is Nothing,
    decreases lines.len() - i,
{
    if i < lines.len() {
        nothing_found_iff_no_line_names_an_image(lines, i + 1, is_file);
        if !(line_verdict(lines[i as int], is_file) is Nothing) {
            assert(!(forall|j: int|
                i <= j < lines.len() ==> #[trigger] line_verdict(lines[j], is_file) is Nothing));
        }
    }
}

proof fn lemma_first_verdict_shifted(
    lines: Seq<Seq<char>>,
    k: int,
    extra: Seq<char>,
    j: nat,
    is_file: spec_fn(Seq<char>) -> bool,
)
    requires
        0 <= k <= lines.len(),
        k <= j <= lines.len(),
    ensures
        first_verdict(lines.insert(k, extra), j + 1, is_file) == first_verdict(lines, j, is_file),
    decreases lines.len() - j,
{
    let ins = lines.insert(k, extra);
    if j < lines.len() {
        assert(ins[j + 1int] == lines[j as int]);
        lemma_first_verdict_shifted(lines, k, extra, j + 1, is_file);
    }
}

proof fn lemma_first_verdict_before(
    lines: Seq<Seq<char>>,
    k: int,
    extra: Seq<char>,
    i: nat,
    is_file: spec_fn(Seq<char>) -> bool,
)
    requires
        0 <= k <= lines.len(),
        i <= k,
        is_skipped_line(cleaned_line(extra)),
    ensures
        first_verdict(lines.insert(k, extra), i, is_file) == first_verdict(lines, i, is_file),
    decreases k - i,
{
    let ins = lines.insert(k, extra);
    if i < k {
        assert(ins[i as int] == lines[i as int]);
        lemma_first_verdict_before(lines, k, extra, i + 1, is_file);
    } else {
        assert(ins[k] == extra);
        lemma_first_verdict_shifted(lines, k, extra, k as nat, is_file);
    }
}

/// Lines that name nothing (blank ones and the `copy` / `cut` markers) can
/// be put anywhere in clipboard text without changing what it names.
pub proof fn skipped_lines_change_nothing(
    lines: Seq<Seq<char>>,
    k: int,
    extra: Seq<char>,
    is_file: spec_fn(Seq<char>) -> bool,
)
    requires
        0 <= k <= lines.len(),
        is_skipped_line(cleaned_line(extra)),
    ensures
        first_verdict(lines.insert(k, extra), 0, is_file) == first_verdict(lines, 0, is_file),
{
    lemma_first_verdict_before(lines, k, extra, 0, is_file);
}

proof fn lemma_trim_start_past(a: Seq<char>, b: Seq<char>, p: spec_fn(char) -> bool)
    requires
        forall|i: int| 0 <= i < a.len() ==> p(#[trigger] a[i]),
        b.len() > 0,
        !p(b[0]),
    ensures
        trim_start_by(a + b, p) == b,
    decreases a.len(),
{
    if a.len() > 0 {
        assert((a + b).drop_first() =~= a.drop_first() + b);
        lemma_trim_start_past(a.drop_first(), b, p);
    } else {
        assert(a + b =~= b);
    }
}

proof fn lemma_trim_end_past(b: Seq<char>, c: Seq<char>, p: spec_fn(char) -> bool)
    requires
        forall|i: int| 0 <= i < c.len() ==> p(#[trigger] c[i]),
        b.len() > 0,
        !p(b.last()),
    ensures
        trim_end_by(b + c, p) == b,
    decreases c.len(),
{
    if c.len() > 0 {
        assert((b + c).drop_last() =~= b + c.drop_last());
        lemma_trim_end_past(b, c.drop_last(), p);
    } else {
        assert(b + c =~= b);
    }
}

/// A character that cleaning takes off the ends of a clipboard line.
pub open spec fn is_edge_char(c: char) -> bool {
    is_white_space(c) || c == '"' || c == '\''
}

/// A clipboard line that cleaning leaves as it is: not empty, and neither
/// end is white space or a quote.
pub open spec fn is_clean_line(l: Seq<char>) -> bool {
    l.len() > 0 && !is_edge_char(l[0]) && !is_edge_char(l.last())
}

/// A clean line names the same thing when it is put in double or single
/// quotes, or padded with white space on both sides.
pub proof fn quotes_and_padding_change_nothing(
    l: Seq<char>,
    pad: Seq<char>,
    is_file: spec_fn(Seq<char>) -> bool,
)
    requires
        is_clean_line(l),
        forall|i: int| 0 <= i < pad.len() ==> is_white_space(#[trigger] pad[i]),
    ensures
        cleaned_line(l) == l,
        cleaned_line(seq!['"'] + l + seq!['"']) == l,
        cleaned_line(seq!['\''] + l + seq!['\'']) == l,
        cleaned_line(pad + l + pad) == l,
        line_verdict(seq!['"'] + l + seq!['"'], is_file) == line_verdict(l, is_file),
        line_verdict(seq!['\''] + l + seq!['\''], is_file) == line_verdict(l, is_file),
        line_verdict(pad + l + pad, is_file) == line_verdict(l, is_file),
{
    let dq = seq!['"'];
    let sq = seq!['\''];
    assert(trim_start_by(l, white()) == l);
    assert(trim_end_by(l, white()) == l);
    assert(trim_start_by(l, the_char('"')) == l);
    assert(trim_end_by(l, the_char('"')) == l);
    assert(trim_start_by(l, the_char('\'')) == l);
    assert(trim_end_by(l, the_char('\'')) == l);
    // Double quotes.
    let q = dq + l + dq;
    assert(q[0] == '"');
    assert(q.last() == '"');
    assert(trim_start_by(q, white()) == q);
    assert(trim_end_by(q, white()) == q);
    assert(dq + l + dq =~= dq + (l + dq));
    lemma_trim_start_past(dq, l + dq, the_char('"'));
    lemma_trim_end_past(l, dq, the_char('"'));
    // Single quotes.
    let r = sq + l + sq;
    assert(r[0] == '\'');
    assert(r.last() == '\'');
    assert(trim_start_by(r, white()) == r);
    assert(trim_end_by(r, white()) == r);
    assert(trim_start_by(r, the_char('"')) == r);
    assert(trim_end_by(r, the_char('"')) == r);
    assert(sq + l + sq =~= sq + (l + sq));
    lemma_trim_start_past(sq, l + sq, the_char('\''));
    lemma_trim_end_past(l, sq, the_char('\''));
    // White space.
    assert(pad + l + pad =~= pad + (l + pad));
    assert(forall|i: int| 0 <= i < pad.len() ==> white()(#[trigger] pad[i]));
    lemma_trim_start_past(pad, l + pad, white());
    lemma_trim_end_past(l, pad, white());
}

/// The scan state after `k` answers that the asked name is taken.
pub open spec fn after_taken(v: ScanView, k: nat) -> ScanView
    decreases k,
{
    if k == 0 {
        v
    } else {
        scan_resume(after_taken(v, (k - 1) as nat), true).0
    }
}

/// When the first name for a local image is not the image itself, the scan
/// asks for `stem.ext`, `stem_1.ext`, ... in turn; after `k` of them are
/// reported taken it asks for the name at position `k`, and when that one
/// is free it copies the image under it.
pub proof fn scan_names_copies_in_turn(v: ScanView, img: LocalImageView, k: nat)
    requires
        v.phase == ScanPhase::CheckingTaken(img, 0),
    ensures
        after_taken(v, k).phase == ScanPhase::CheckingTaken(img, k),
        after_taken(v, k).lines == v.lines,
        k > 0 ==> scan_resume(after_taken(v, (k - 1) as nat), true).1 == ScanStep::IsTaken(
            candidate_name(img.stem, img.ext, k),
        ),
        scan_resume(after_taken(v, k), false).1 == ScanStep::Copy(
            img.source,
            candidate_name(img.stem, img.ext, k),
        ),
    decreases k,
{
    if k > 0 {
        scan_names_copies_in_turn(v, img, (k - 1) as nat);
    }
}

/// Image links given in full are exactly those that begin with `http://`,
/// `https://` or `file://`; all others are resolved against the note.
pub proof fn absolute_links_are_web_and_file_urls(url: Seq<char>)
    ensures
        is_absolute_link(url) <==> "http://"@.is_prefix_of(url) || "https://"@.is_prefix_of(url)
            || "file://"@.is_prefix_of(url),
{
}

/// The image extensions are `png`, `jpg`, `jpeg`, `gif`, `webp`, `svg`,
/// `bmp`, `ico`, `tiff` and `avif`, in lower case, and no others.
pub proof fn image_extensions_are_listed(e: Seq<char>)
    ensures
        is_image_ext(e) <==> e == "png"@ || e == "jpg"@ || e == "jpeg"@ || e == "gif"@ || e
            == "webp"@ || e == "svg"@ || e == "bmp"@ || e == "ico"@ || e == "tiff"@ || e == "avif"@,
{
}

/// Images are loaded from the disk for `file` URLs and from the web for
/// `http` and `https` URLs; no other scheme is loaded.
pub proof fn schemes_of_loaded_images(scheme: Seq<char>)
    ensures
        scheme == "file"@ ==> scheme_kind_of(scheme) == SchemeKind::File,
        scheme == "http"@ || scheme == "https"@ ==> scheme_kind_of(scheme) == SchemeKind::Web,
        scheme != "file"@ && scheme != "http"@ && scheme != "https"@ ==> scheme_kind_of(scheme)
            == SchemeKind::Unsupported,
{
    reveal_strlit("file");
    reveal_strlit("http");
    reveal_strlit("https");
    assert("file"@[0] != "http"@[0]);
    assert("file"@[0] != "https"@[0]);
}

/// A local file is an SVG image exactly when it has a three-letter
/// extension that reads `svg` in any mix of ASCII case.
pub proof fn svg_files_by_extension(ext: Option<Seq<char>>)
    ensures
        is_svg_file(ext) <==> (ext matches Some(e) && e.len() == 3 && ascii_lower(e[0]) == 's' as int
            && ascii_lower(e[1]) == 'v' as int && ascii_lower(e[2]) == 'g' as int),
{
    reveal_strlit("svg");
}

} // verus!
