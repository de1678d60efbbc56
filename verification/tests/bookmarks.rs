use dive::bookmarks::{Bookmark, BookmarkId, BookmarkManager, Folder};

fn bm(id: u128, title: &str) -> Bookmark {
    Bookmark {
        title: title.to_string(),
        url: format!("https://example.com/{}", title),
        tags: vec!["tag".to_string()],
        keywords: vec![],
        last_visited: 0,
        id: BookmarkId { value: id },
    }
}

fn folder(id: u128, name: &str, subfolders: Vec<Folder>, bookmarks: Vec<Bookmark>) -> Folder {
    Folder { id: BookmarkId { value: id }, name: name.to_string(), subfolders, bookmarks }
}

fn sample_tree() -> BookmarkManager {
    let work = folder(2, "work", vec![], vec![bm(20, "ci"), bm(21, "docs")]);
    let deep = folder(4, "deep", vec![], vec![bm(40, "hidden")]);
    let home = folder(3, "home", vec![deep], vec![bm(30, "news")]);
    BookmarkManager::with_root(folder(1, "root", vec![work, home], vec![bm(10, "top")]))
}

#[test]
fn empty_manager_has_bare_root() {
    let b = BookmarkManager::empty();
    let root = b.root();
    assert_eq!(root.name, "root");
    assert!(root.subfolders.is_empty());
    assert!(root.bookmarks.is_empty());
}

#[test]
fn root_returns_a_copy() {
    let b = sample_tree();
    let mut copy = b.root();
    copy.name = "changed".to_string();
    assert_eq!(b.root().name, "root");
}

#[test]
fn find_folder_by_id() {
    let b = sample_tree();
    assert_eq!(b.find_folder(BookmarkId { value: 1 }).unwrap().name, "root");
    assert_eq!(b.find_folder(BookmarkId { value: 2 }).unwrap().name, "work");
    assert_eq!(b.find_folder(BookmarkId { value: 4 }).unwrap().name, "deep");
    assert!(b.find_folder(BookmarkId { value: 99 }).is_none());
}

#[test]
fn find_bookmark_by_id() {
    let b = sample_tree();
    assert_eq!(b.find_bookmark(BookmarkId { value: 10 }).unwrap().title, "top");
    assert_eq!(b.find_bookmark(BookmarkId { value: 21 }).unwrap().title, "docs");
    assert_eq!(b.find_bookmark(BookmarkId { value: 40 }).unwrap().title, "hidden");
    assert!(b.find_bookmark(BookmarkId { value: 999 }).is_none());
}

#[test]
fn lookup_is_preorder_first_match() {
    // two folders share an id: the one reached first in pre-order wins
    let first = folder(7, "first", vec![], vec![bm(70, "a")]);
    let second = folder(7, "second", vec![], vec![bm(71, "b")]);
    let b = BookmarkManager::with_root(folder(1, "root", vec![first, second], vec![]));
    assert_eq!(b.find_folder(BookmarkId { value: 7 }).unwrap().name, "first");

    // a folder's own bookmarks are searched before its subfolders
    let inner = folder(8, "inner", vec![], vec![bm(5, "in-subfolder")]);
    let c = BookmarkManager::with_root(folder(1, "root", vec![inner], vec![bm(5, "at-root")]));
    assert_eq!(c.find_bookmark(BookmarkId { value: 5 }).unwrap().title, "at-root");
}

#[test]
fn found_folder_keeps_its_contents() {
    let b = sample_tree();
    let home = b.find_folder(BookmarkId { value: 3 }).unwrap();
    assert_eq!(home.subfolders.len(), 1);
    assert_eq!(home.subfolders[0].name, "deep");
    assert_eq!(home.bookmarks.len(), 1);
    assert_eq!(home.bookmarks[0].title, "news");
    assert_eq!(home.bookmarks[0].tags, vec!["tag".to_string()]);
}
