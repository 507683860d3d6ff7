use cedilla::images::{scheme_kind, SchemeKind};
use std::collections::HashSet;

use cedilla::images::{
    image_source, is_image_extension, is_svg_extension, is_svg_response, is_web_image_url,
    local_path_of, resolve_image_link, resolve_relative_link, ClipboardScan, ImageSource,
    LinkResolution, LoadError, NameSearch, PendingDownloads, ScanAction,
};
use cedilla::raster::clipboard_image;

/// Drives a clipboard scan against a simulated disk of existing files
/// (paths) and a target directory.
fn copy_from_text(files: &mut HashSet<String>, target: &str, text: &str) -> Option<String> {
    let (mut scan, mut action) = ClipboardScan::new(text);
    loop {
        action = match action {
            ScanAction::Found(name) => return Some(name),
            ScanAction::NotFound => return None,
            ScanAction::IsFile(path) => scan.resume(files.contains(&path)),
            ScanAction::CreateTarget => scan.resume(true),
            ScanAction::IsSource { name, source } => {
                scan.resume(format!("{target}/{name}") == source)
            }
            ScanAction::IsTaken(name) => {
                let taken = files.contains(&format!("{target}/{name}"));
                scan.resume(taken)
            }
            ScanAction::Copy { source, name } => {
                assert!(files.contains(&source));
                files.insert(format!("{target}/{name}"));
                scan.resume(true)
            }
        };
    }
}

#[test]
fn image_extensions() {
    for ext in ["png", "jpg", "jpeg", "gif", "webp", "svg", "bmp", "ico", "tiff", "avif"] {
        assert!(is_image_extension(ext));
    }
    assert!(!is_image_extension("PNG"));
    assert!(!is_image_extension("txt"));
    assert!(!is_image_extension(""));
    assert!(!is_image_extension("pngx"));
}

#[test]
fn clipboard_paths_are_copied_under_free_names() {
    let mut files = HashSet::new();
    files.insert("/tmp/base/sample.png".to_string());
    let target = "/tmp/base/target";

    let uri = "file:///tmp/base/sample.png";
    assert_eq!(copy_from_text(&mut files, target, uri), Some("sample.png".to_string()));
    assert!(files.contains("/tmp/base/target/sample.png"));

    let plain = "/tmp/base/sample.png";
    assert_eq!(copy_from_text(&mut files, target, plain), Some("sample_1.png".to_string()));

    let gnome = format!("copy\n{uri}");
    assert_eq!(copy_from_text(&mut files, target, &gnome), Some("sample_2.png".to_string()));

    let quoted = format!("\"{plain}\"");
    assert_eq!(copy_from_text(&mut files, target, &quoted), Some("sample_3.png".to_string()));

    let web_url = "https://example.com/assets/banner.png";
    assert_eq!(copy_from_text(&mut files, target, web_url), Some(web_url.to_string()));

    let plain_text = "just some random text without images";
    assert_eq!(copy_from_text(&mut files, target, plain_text), None);
}

#[test]
fn clipboard_file_already_in_target_is_not_copied() {
    let mut files = HashSet::new();
    files.insert("/notes/img/photo.jpg".to_string());
    let found = copy_from_text(&mut files, "/notes/img", "  '/notes/img/photo.jpg'\r\n");
    assert_eq!(found, Some("photo.jpg".to_string()));
    assert_eq!(files.len(), 1);
    // An upper-case extension is written in lower case in the target.
    files.insert("/pics/Photo.JPG".to_string());
    let found = copy_from_text(&mut files, "/notes/img", "/pics/Photo.JPG");
    assert_eq!(found, Some("Photo.jpg".to_string()));
    assert!(files.contains("/notes/img/Photo.jpg"));
}

#[test]
fn clipboard_skips_missing_files_and_non_images() {
    let mut files = HashSet::new();
    files.insert("/a/notes.txt".to_string());
    files.insert("/a/pic.gif".to_string());
    let text = "cut\n/a/missing.png\n/a/notes.txt\nhttps://example.com/page\n\n/a/pic.gif\n";
    assert_eq!(copy_from_text(&mut files, "/t", text), Some("pic.gif".to_string()));
}

#[test]
fn percent_encoded_file_uri() {
    assert_eq!(local_path_of("file:///tmp/my%20pic.png"), "/tmp/my pic.png");
    assert_eq!(local_path_of("file:///tmp/bad%FF.png"), "/tmp/bad%FF.png");
    assert_eq!(local_path_of("/tmp/x%20y.png"), "/tmp/x%20y.png");
}

#[test]
fn web_image_urls() {
    assert!(is_web_image_url("https://example.com/a/b.PNG?x=1"));
    assert!(is_web_image_url("http://example.com/photo.jpeg"));
    assert!(!is_web_image_url("https://example.com/a/b"));
    assert!(!is_web_image_url("ftp://example.com/a.png"));
    assert!(!is_web_image_url("example.com/a.png"));
}

#[test]
fn name_search_for_saved_images() {
    let mut names = NameSearch::for_timestamp("20240102_030405");
    let first = names.current();
    assert_eq!(first, "image_20240102_030405.png");
    assert!(names.can_advance());
    let second = names.advance();
    assert_eq!(second, "image_20240102_030405_1.png");
    assert_ne!(first, second);
    for _ in 0..9 {
        names.advance();
    }
    assert_eq!(names.current(), "image_20240102_030405_10.png");
    assert!(names.current().starts_with("image_"));
    assert!(names.current().ends_with(".png"));
}

#[test]
fn link_resolution() {
    assert!(matches!(resolve_image_link("https://x.org/a.png", None), LinkResolution::Absolute));
    assert!(matches!(resolve_image_link("file:///a.png", None), LinkResolution::Absolute));
    assert!(matches!(
        resolve_image_link("img/a.png", None),
        LinkResolution::Failed(LoadError::NoBasePath)
    ));
    match resolve_image_link("img/a.png", Some("/notes/today.md".to_string())) {
        LinkResolution::Relative { base } => assert_eq!(base, "/notes/today.md"),
        _ => panic!("expected a relative link"),
    }
    assert_eq!(
        resolve_relative_link("img/a.png", "/notes/today.md", false).unwrap(),
        "file:///notes/img/a.png"
    );
    assert_eq!(
        resolve_relative_link("img/a.png", "/notes", true).unwrap(),
        "file:///notes/img/a.png"
    );
    assert!(matches!(
        resolve_relative_link("a.png", "/", false),
        Err(LoadError::NoParentDirectory)
    ));
}

#[test]
fn image_sources() {
    assert!(matches!(image_source("https://x.org/a.png"), Ok(ImageSource::Web)));
    assert!(matches!(image_source("http://x.org/a.png"), Ok(ImageSource::Web)));
    match image_source("file:///notes/img/a.png") {
        Ok(ImageSource::File(f)) => assert_eq!(f.path(), &std::path::PathBuf::from("/notes/img/a.png")),
        _ => panic!("expected a local file"),
    }
    match image_source("ftp://x.org/a.png") {
        Err(LoadError::UnsupportedScheme(s)) => assert_eq!(s, "ftp"),
        _ => panic!("expected an unsupported scheme"),
    }
    assert!(matches!(image_source("no scheme"), Err(LoadError::InvalidUrl(_))));
    assert!(matches!(image_source("file://host.example/a.png"), Err(LoadError::InvalidFilePath)));
}

#[test]
fn svg_detection() {
    assert!(is_svg_extension(Some("SVG")));
    assert!(is_svg_extension(Some("svg")));
    assert!(!is_svg_extension(Some("svgz")));
    assert!(!is_svg_extension(None));
    assert!(is_svg_response(Some("image/svg+xml"), "https://x.org/a"));
    assert!(is_svg_response(None, "https://x.org/A.SVG  "));
    assert!(!is_svg_response(Some("image/png"), "https://x.org/a.png"));
}

#[test]
fn downloads_begin_once_per_link() {
    let mut pending = PendingDownloads::new();
    let first = pending.claim(vec!["a".to_string(), "b".to_string(), "a".to_string()]);
    assert_eq!(first, vec!["a".to_string(), "b".to_string()]);
    let second = pending.claim(vec!["b".to_string(), "c".to_string()]);
    assert_eq!(second, vec!["c".to_string()]);
    assert!(pending.contains(&"a".to_string()));
    assert!(!pending.contains(&"d".to_string()));
    assert!(pending.insert("d".to_string()));
    assert!(!pending.insert("d".to_string()));
}

#[test]
fn clipboard_pixels() {
    let bytes: Vec<u8> = (0..16).collect();
    let img = clipboard_image(2, 2, bytes.clone()).expect("an image fits 16 bytes");
    assert_eq!(img.buffer.image.dimensions(), (2, 2));
    assert_eq!(img.buffer.image.as_raw(), &bytes);
    assert!(clipboard_image(2, 2, vec![0; 15]).is_none());
    assert!(clipboard_image(0, 5, vec![]).is_some());
}

#[test]
fn scheme_kinds() {
    assert_eq!(scheme_kind("file"), SchemeKind::File);
    assert_eq!(scheme_kind("http"), SchemeKind::Web);
    assert_eq!(scheme_kind("https"), SchemeKind::Web);
    assert_eq!(scheme_kind("ftp"), SchemeKind::Unsupported);
    assert_eq!(scheme_kind("HTTP"), SchemeKind::Unsupported);
}

#[test]
fn padded_and_quoted_lines_name_the_same_file() {
    let mut files = HashSet::new();
    files.insert("/a/pic.png".to_string());
    let a = copy_from_text(&mut files, "/t", " \t'/a/pic.png' ");
    assert_eq!(a, Some("pic.png".to_string()));
    let b = copy_from_text(&mut files, "/t", "\n\ncut\n  \"/a/pic.png\"\n");
    assert_eq!(b, Some("pic_1.png".to_string()));
}

#[test]
fn name_search_advances_to_its_last_position() {
    let mut names = NameSearch::for_timestamp("x");
    for _ in 0..3 {
        assert!(names.can_advance());
        names.advance();
    }
    assert_eq!(names.current(), "image_x_3.png");
}
