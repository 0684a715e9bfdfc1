use file_transfer::delete::{deleted_message, plan_delete, DeleteError, EntryKind};
use file_transfer::dispatch::{method_not_allowed_status, route, Route};
use file_transfer::download::{content_disposition, file_headers, file_name_of};
use file_transfer::resolve::{path_within, resolve, upload_dir, Lookup, ResolveError};
use file_transfer::urlpath::{decode_percent_text, relative_part};

fn p(parts: &[&str]) -> Vec<Vec<u8>> {
    parts.iter().map(|s| s.as_bytes().to_vec()).collect()
}

#[test]
fn escapes_are_refused() {
    let root = p(&["srv", "share"]);
    let outside = Lookup::Found { path: p(&["etc", "passwd"]), is_dir: false };
    let r = resolve(&root, outside);
    assert!(matches!(r, Err(ResolveError::Forbidden)));
    assert_eq!(ResolveError::Forbidden.status(), 403);
    let sibling = Lookup::Found { path: p(&["srv", "share2", "x"]), is_dir: false };
    assert!(matches!(resolve(&root, sibling), Err(ResolveError::Forbidden)));
    let parent = Lookup::Found { path: p(&["srv"]), is_dir: true };
    assert!(matches!(resolve(&root, parent), Err(ResolveError::Forbidden)));
    let missing = resolve(&root, Lookup::Missing);
    assert!(matches!(missing, Err(ResolveError::NotFound)));
    assert_eq!(ResolveError::NotFound.status(), 404);
}

#[test]
fn paths_inside_are_kept() {
    let root = p(&["srv", "share"]);
    let inside = Lookup::Found { path: p(&["srv", "share", "docs", "a.txt"]), is_dir: false };
    let t = resolve(&root, inside).ok().unwrap();
    assert_eq!(t.path, p(&["srv", "share", "docs", "a.txt"]));
    assert!(!t.is_dir);
    let itself = resolve(&root, Lookup::Found { path: root.clone(), is_dir: true }).ok().unwrap();
    assert!(itself.is_dir);
    assert!(path_within(&root, &root));
    assert!(!path_within(&root, &p(&["srv"])));
}

#[test]
fn upload_directory_choice() {
    let root = p(&["srv", "share"]);
    assert_eq!(upload_dir(&root, Lookup::Missing).ok().unwrap(), root);
    let dir = Lookup::Found { path: p(&["srv", "share", "in"]), is_dir: true };
    assert_eq!(upload_dir(&root, dir).ok().unwrap(), p(&["srv", "share", "in"]));
    let file = Lookup::Found { path: p(&["srv", "share", "in", "f.txt"]), is_dir: false };
    assert_eq!(upload_dir(&root, file).ok().unwrap(), p(&["srv", "share", "in"]));
    let out = Lookup::Found { path: p(&["tmp"]), is_dir: true };
    assert_eq!(upload_dir(&root, out).err(), Some(ResolveError::Forbidden));
}

#[test]
fn request_path_decoding() {
    assert_eq!(decode_percent_text(b"/docs/a%20b.txt"), "/docs/a b.txt");
    assert_eq!(decode_percent_text(b"/%E6%96%87%E4%BB%B6"), "/文件");
    assert_eq!(decode_percent_text(b"/100%"), "/100%");
    assert_eq!(decode_percent_text(b"/%zz%4"), "/%zz%4");
    assert_eq!(decode_percent_text(b"/%2e%2E/x"), "/../x");
    assert_eq!(decode_percent_text(b"/%FF"), "/\u{FFFD}");
    assert_eq!(relative_part("//a/b/"), "a/b/");
    assert_eq!(relative_part("/"), "");
    assert_eq!(relative_part("x"), "x");
}

#[test]
fn deleting_twice_and_deleting_root() {
    let root = p(&["srv", "share"]);
    let gone = plan_delete(&root, &Lookup::Missing);
    assert_eq!(gone, Err(DeleteError::NotFound));
    assert_eq!(DeleteError::NotFound.status(), 404);
    for is_dir in [true, false] {
        let r = plan_delete(&root, &Lookup::Found { path: root.clone(), is_dir });
        assert_eq!(r, Err(DeleteError::RootDeletion));
    }
    assert_eq!(DeleteError::RootDeletion.status(), 403);
    assert_eq!(DeleteError::RootDeletion.message(), "不能删除根目录");
    let out = plan_delete(&root, &Lookup::Found { path: p(&["etc"]), is_dir: true });
    assert_eq!(out, Err(DeleteError::Forbidden));
    assert_eq!(DeleteError::Forbidden.status(), 403);
    assert_eq!(DeleteError::NotFound.message(), "文件或目录不存在");
}

#[test]
fn deleting_inside_root() {
    let root = p(&["srv", "share"]);
    let d = plan_delete(&root, &Lookup::Found { path: p(&["srv", "share", "d"]), is_dir: true });
    assert_eq!(d, Ok(EntryKind::Directory));
    let f = plan_delete(&root, &Lookup::Found { path: p(&["srv", "share", "f"]), is_dir: false });
    assert_eq!(f, Ok(EntryKind::File));
    assert_eq!(deleted_message(EntryKind::Directory), "目录删除成功");
    assert_eq!(deleted_message(EntryKind::File), "文件删除成功");
}

#[test]
fn routing_by_method() {
    assert_eq!(route("GET"), Route::Download);
    assert_eq!(route("POST"), Route::Upload);
    assert_eq!(route("DELETE"), Route::Delete);
    assert_eq!(route("PUT"), Route::NotAllowed);
    assert_eq!(route("get"), Route::NotAllowed);
    assert_eq!(method_not_allowed_status(), 405);
}

#[test]
fn download_headers() {
    assert_eq!(
        content_disposition("a b.txt"),
        "attachment; filename=\"a b.txt\"; filename*=UTF-8''a%20b%2Etxt"
    );
    assert_eq!(
        content_disposition("文件\".txt"),
        "attachment; filename=\"___.txt\"; filename*=UTF-8''%E6%96%87%E4%BB%B6%22%2Etxt"
    );
    let h = file_headers("notes.txt", 1234);
    assert_eq!(h.content_type, "text/plain");
    assert_eq!(h.accept_ranges, "bytes");
    assert_eq!(h.file_size, "1234");
    assert_eq!(file_headers("blob.zzqq", 0).content_type, "application/octet-stream");
    assert_eq!(file_name_of(&p(&["srv", "share", "a.txt"])), "a.txt");
    assert_eq!(file_name_of(&[]), "file");
    assert_eq!(file_name_of(&[vec![0xffu8, 0xfe]]), "file");
}
