use file_transfer::assets::{generate_css, generate_js};
use file_transfer::listing::{
    generate_breadcrumbs, get_file_extension, get_file_icon, human_readable_size, parent_path,
    path_segments,
};

#[test]
fn parent_links() {
    assert_eq!(parent_path("/a/b"), "/a");
    assert_eq!(parent_path("/a/b/"), "/a");
    assert_eq!(parent_path("/a"), "/");
    assert_eq!(parent_path("/"), "/");
    assert_eq!(parent_path("a"), "/");
    assert_eq!(parent_path("a/b"), "/a");
    assert_eq!(parent_path("//x//"), "/");
}

#[test]
fn readable_sizes() {
    assert_eq!(human_readable_size(0), "0.0 B");
    assert_eq!(human_readable_size(1023), "1023.0 B");
    assert_eq!(human_readable_size(1024), "1.0 KB");
    assert_eq!(human_readable_size(1536), "1.5 KB");
    assert_eq!(human_readable_size(1048575), "1024.0 KB");
    assert_eq!(human_readable_size(10 * 1048576), "10.0 MB");
    assert_eq!(human_readable_size(3 * 1073741824 + 107374182), "3.1 GB");
    assert_eq!(human_readable_size(1099511627776), "1.0 TB");
    assert_eq!(human_readable_size(u64::MAX), "16384.0 PB");
}

#[test]
fn extensions_and_icons() {
    assert_eq!(get_file_extension("Photo.JPG"), "jpg");
    assert_eq!(get_file_extension("archive.tar.GZ"), "gz");
    assert_eq!(get_file_extension("README"), "readme");
    assert_eq!(get_file_extension("trailing."), "");
    assert_eq!(get_file_icon("pdf"), "fa-file-pdf");
    assert_eq!(get_file_icon("docx"), "fa-file-word");
    assert_eq!(get_file_icon("7z"), "fa-file-archive");
    assert_eq!(get_file_icon("rs"), "fa-file-code");
    assert_eq!(get_file_icon("toml"), "fa-file-code");
    assert_eq!(get_file_icon("csv"), "fa-file-alt");
    assert_eq!(get_file_icon("mkv"), "fa-file-video");
    assert_eq!(get_file_icon("PDF"), "fa-file");
    assert_eq!(get_file_icon(""), "fa-file");
}

#[test]
fn breadcrumbs() {
    assert_eq!(generate_breadcrumbs("/"), "<span>根目录</span>");
    assert_eq!(
        generate_breadcrumbs("/a/b"),
        "<a href='/'>根目录</a> / <a href='/a'>a</a> / <span>b</span>"
    );
    assert_eq!(
        generate_breadcrumbs("/x<y>//&z/"),
        "<a href='/'>根目录</a> / <a href='/x&lt;y&gt;'>x&lt;y&gt;</a> / <span>&amp;z</span>"
    );
    assert_eq!(path_segments("//a//bc/"), vec!["a".to_string(), "bc".to_string()]);
}

#[test]
fn page_assets() {
    let css = generate_css();
    assert!(css.contains("--bg-primary: #0a0e14;"));
    assert!(css.contains(".task-progress { width: 100px; }"));
    let js = generate_js();
    assert!(js.contains("const CONFIG = {"));
    assert!(js.trim_end().ends_with("document.head.appendChild(style);"));
}
