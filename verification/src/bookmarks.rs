//! The bookmark tree: an immutable-per-load snapshot of folders and
//! bookmarks, with depth-first, pre-order, first-match lookups by id.
//! Loading the persisted file is left to the hosting shell, which hands the
//! parsed tree in as plain values.

use vstd::prelude::*;

verus! {

broadcast use
    vstd::seq::group_seq_axioms,
    vstd::std_specs::vec::group_vec_axioms,
    crate::strutil::lemma_vec_deep_view_len,
    crate::strutil::lemma_vec_deep_view_index;

/// Identifier of a folder or bookmark: the 128-bit value of its unique id.
#[derive(Clone, Copy, Debug, PartialEq, Eq, Structural)]
pub struct BookmarkId {
    pub value: u128,
}

/// One bookmark.
pub struct Bookmark {
    pub title: String,
    pub url: String,
    pub tags: Vec<String>,
    pub keywords: Vec<String>,
    pub last_visited: u64,
    pub id: BookmarkId,
}

/// Ghost mirror of `Bookmark`.
#[verifier::ext_equal]
pub struct BookmarkV {
    pub title: Seq<char>,
    pub url: Seq<char>,
    pub tags: Seq<Seq<char>>,
    pub keywords: Seq<Seq<char>>,
    pub last_visited: u64,
    pub id: u128,
}

impl DeepView for Bookmark {
    type V = BookmarkV;

    open spec fn deep_view(&self) -> BookmarkV {
        BookmarkV {
            title: self.title@,
            url: self.url@,
            tags: self.tags.deep_view(),
            keywords: self.keywords.deep_view(),
            last_visited: self.last_visited,
            id: self.id.value,
        }
    }
}

/// One folder, holding subfolders and bookmarks in order.
pub struct Folder {
    pub id: BookmarkId,
    pub name: String,
    pub subfolders: Vec<Folder>,
    pub bookmarks: Vec<Bookmark>,
}

/// Ghost mirror of `Folder`.
#[verifier::ext_equal]
pub struct FolderV {
    pub id: u128,
    pub name: Seq<char>,
    pub subfolders: Seq<FolderV>,
    pub bookmarks: Seq<BookmarkV>,
}

/// The ghost mirror of a folder and everything below it.
pub open spec fn folder_view(f: Folder) -> FolderV
    decreases f, 1int,
{
    FolderV {
        id: f.id.value,
        name: f.name@,
        subfolders: folders_view(f.subfolders@),
        bookmarks: f.bookmarks.deep_view(),
    }
}

/// The ghost mirrors of a sequence of folders, in order.
pub open spec fn folders_view(s: Seq<Folder>) -> Seq<FolderV>
    decreases s, 0int,
{
    if s.len() == 0 {
        Seq::<FolderV>::empty()
    } else {
        folders_view(s.drop_last()).push(folder_view(s.last()))
    }
}

/// `folders_view` maps the sequence elementwise.
pub proof fn lemma_folders_view_index(s: Seq<Folder>)
    ensures
        folders_view(s).len() == s.len(),
        forall|i: int| 0 <= i < s.len() ==> folders_view(s)[i] == folder_view(#[trigger] s[i]),
    decreases s,
{
    if s.len() > 0 {
        lemma_folders_view_index(s.drop_last());
        assert forall|i: int| 0 <= i < s.len() implies folders_view(s)[i] == folder_view(
            s[i],
        ) by {
            if i < s.len() - 1 {
                assert(s.drop_last()[i] == s[i]);
                assert(folders_view(s)[i] == folders_view(s.drop_last())[i]);
            }
        }
    }
}

/// Depth-first, pre-order search for a folder: the folder itself first,
/// then its subfolders left to right.
pub open spec fn find_folder_in(f: FolderV, id: u128) -> Option<FolderV>
    decreases f, 1int,
{
    if f.id == id {
        Some(f)
    } else {
        find_folder_in_seq(f.subfolders, id)
    }
}

/// First match over a sequence of folders, left to right.
pub open spec fn find_folder_in_seq(s: Seq<FolderV>, id: u128) -> Option<FolderV>
    decreases s, 0int,
{
    if s.len() == 0 {
        None
    } else {
        match find_folder_in(s[0], id) {
            Some(g) => Some(g),
            None => find_folder_in_seq(s.drop_first(), id),
        }
    }
}

/// Depth-first, pre-order search for a bookmark: this folder's own
/// bookmarks first, then its subfolders left to right.
pub open spec fn find_bookmark_in(f: FolderV, id: u128) -> Option<BookmarkV>
    decreases f, 1int,
{
    match find_bookmark_in_bookmarks(f.bookmarks, id) {
        Some(b) => Some(b),
        None => find_bookmark_in_seq(f.subfolders, id),
    }
}

/// First bookmark with the given id in a flat list.
pub open spec fn find_bookmark_in_bookmarks(s: Seq<BookmarkV>, id: u128) -> Option<BookmarkV>
    decreases s,
{
    if s.len() == 0 {
        None
    } else if s[0].id == id {
        Some(s[0])
    } else {
        find_bookmark_in_bookmarks(s.drop_first(), id)
    }
}

/// First match over a sequence of folders, left to right.
pub open spec fn find_bookmark_in_seq(s: Seq<FolderV>, id: u128) -> Option<BookmarkV>
    decreases s, 0int,
{
    if s.len() == 0 {
        None
    } else {
        match find_bookmark_in(s[0], id) {
            Some(b) => Some(b),
            None => find_bookmark_in_seq(s.drop_first(), id),
        }
    }
}

/// Skipping a prefix in which no folder matches does not change the result.
proof fn lemma_find_folder_skip(s: Seq<FolderV>, id: u128, i: int)
    requires
        0 <= i <= s.len(),
        forall|j: int| 0 <= j < i ==> find_folder_in(#[trigger] s[j], id) is None,
    ensures
        find_folder_in_seq(s, id) == find_folder_in_seq(s.skip(i), id),
    decreases i,
{
    if i > 0 {
        assert(find_folder_in(s[0], id) is None);
        lemma_find_folder_skip(s.drop_first(), id, i - 1);
        assert(s.drop_first().skip(i - 1) =~= s.skip(i));
    } else {
        assert(s.skip(0) =~= s);
    }
}

/// Skipping a prefix in which no folder holds the bookmark does not change
/// the result.
proof fn lemma_find_bookmark_seq_skip(s: Seq<FolderV>, id: u128, i: int)
    requires
        0 <= i <= s.len(),
        forall|j: int| 0 <= j < i ==> find_bookmark_in(#[trigger] s[j], id) is None,
    ensures
        find_bookmark_in_seq(s, id) == find_bookmark_in_seq(s.skip(i), id),
    decreases i,
{
    if i > 0 {
        assert(find_bookmark_in(s[0], id) is None);
        lemma_find_bookmark_seq_skip(s.drop_first(), id, i - 1);
        assert(s.drop_first().skip(i - 1) =~= s.skip(i));
    } else {
        assert(s.skip(0) =~= s);
    }
}

/// Skipping a prefix of non-matching bookmarks does not change the result.
proof fn lemma_find_bookmark_flat_skip(s: Seq<BookmarkV>, id: u128, i: int)
    requires
        0 <= i <= s.len(),
        forall|j: int| 0 <= j < i ==> #[trigger] s[j].id != id,
    ensures
        find_bookmark_in_bookmarks(s, id) == find_bookmark_in_bookmarks(s.skip(i), id),
    decreases i,
{
    if i > 0 {
        lemma_find_bookmark_flat_skip(s.drop_first(), id, i - 1);
        assert(s.drop_first().skip(i - 1) =~= s.skip(i));
    } else {
        assert(s.skip(0) =~= s);
    }
}

/// A value-equal copy of a bookmark.
fn duplicate_bookmark(b: &Bookmark) -> (r: Bookmark)
    ensures
        r.deep_view() == b.deep_view(),
{
    let tags = b.tags.clone();
    let keywords = b.keywords.clone();
    proof {
        assert forall|i: int| 0 <= i < b.tags@.len() implies tags@[i]@ == b.tags@[i]@ by {
            assert(cloned(b.tags[i], tags[i]));
        }
        assert forall|i: int| 0 <= i < b.keywords@.len() implies keywords@[i]@ == b.keywords@[i]@ by {
            assert(cloned(b.keywords[i], keywords[i]));
        }
        assert(tags.deep_view() =~= b.tags.deep_view());
        assert(keywords.deep_view() =~= b.keywords.deep_view());
    }
    Bookmark {
        title: b.title.clone(),
        url: b.url.clone(),
        tags,
        keywords,
        last_visited: b.last_visited,
        id: b.id,
    }
}

/// A value-equal copy of a folder and everything below it.
fn duplicate_folder(f: &Folder) -> (r: Folder)
    ensures
        folder_view(r) == folder_view(*f),
    decreases *f,
{
    let mut subfolders: Vec<Folder> = Vec::new();
    let mut i: usize = 0;
    proof {
        assert(f.subfolders@.take(0) =~= Seq::<Folder>::empty());
    }
    while i < f.subfolders.len()
        invariant
            i <= f.subfolders@.len(),
            folders_view(subfolders@) == folders_view(f.subfolders@.take(i as int)),
        decreases f.subfolders@.len() - i,
    {
        let ghost prev = subfolders@;
        subfolders.push(duplicate_folder(&f.subfolders[i]));
        i = i + 1;
        proof {
            let pre = f.subfolders@.take(i as int);
            assert(pre.drop_last() =~= f.subfolders@.take(i as int - 1));
            assert(pre.last() == f.subfolders@[i as int - 1]);
            assert(subfolders@.drop_last() =~= prev);
        }
    }
    let mut bookmarks: Vec<Bookmark> = Vec::new();
    let mut j: usize = 0;
    while j < f.bookmarks.len()
        invariant
            j <= f.bookmarks@.len(),
            bookmarks.deep_view() == f.bookmarks.deep_view().take(j as int),
        decreases f.bookmarks@.len() - j,
    {
        let ghost prevb = bookmarks.deep_view();
        bookmarks.push(duplicate_bookmark(&f.bookmarks[j]));
        j = j + 1;
        proof {
            assert(bookmarks.deep_view() =~= prevb.push(f.bookmarks@[j - 1].deep_view()));
            assert(f.bookmarks.deep_view()[j - 1] == f.bookmarks@[j - 1].deep_view());
            assert(f.bookmarks.deep_view().take(j as int) =~= prevb.push(
                f.bookmarks@[j - 1].deep_view(),
            ));
        }
    }
    let r = Folder { id: f.id, name: f.name.clone(), subfolders, bookmarks };
    proof {
        assert(f.subfolders@.take(f.subfolders@.len() as int) =~= f.subfolders@);
        assert(f.bookmarks.deep_view().take(f.bookmarks@.len() as int) =~= f.bookmarks.deep_view());
        assert(r.bookmarks.deep_view() =~= f.bookmarks.deep_view());
    }
    r
}

/// Pre-order search below `f`, returning a copy of the first folder whose
/// id matches.
fn find_folder_node(f: &Folder, id: BookmarkId) -> (r: Option<Folder>)
    ensures
        match find_folder_in(folder_view(*f), id.value) {
            Some(gv) => r is Some && folder_view(r->0) == gv,
            None => r is None,
        },
    decreases *f,
{
    if f.id == id {
        return Some(duplicate_folder(f));
    }
    let ghost subs = folder_view(*f).subfolders;
    proof {
        lemma_folders_view_index(f.subfolders@);
    }
    let mut i: usize = 0;
    while i < f.subfolders.len()
        invariant
            i <= subs.len(),
            subs.len() == f.subfolders@.len(),
            subs == folder_view(*f).subfolders,
            forall|j: int| 0 <= j < i ==> find_folder_in(#[trigger] subs[j], id.value) is None,
            forall|j: int|
                0 <= j < subs.len() ==> subs[j] == folder_view(#[trigger] f.subfolders@[j]),
            f.id.value != id.value,
        decreases f.subfolders@.len() - i,
    {
        let found = find_folder_node(&f.subfolders[i], id);
        if found.is_some() {
            proof {
                lemma_find_folder_skip(subs, id.value, i as int);
                assert(subs.skip(i as int)[0] == subs[i as int]);
            }
            return found;
        }
        i = i + 1;
    }
    proof {
        lemma_find_folder_skip(subs, id.value, subs.len() as int);
        assert(subs.skip(subs.len() as int) =~= Seq::<FolderV>::empty());
    }
    None
}

/// Pre-order search below `f`, returning a copy of the first bookmark whose
/// id matches.
fn find_bookmark_node(f: &Folder, id: BookmarkId) -> (r: Option<Bookmark>)
    ensures
        match find_bookmark_in(folder_view(*f), id.value) {
            Some(bv) => r is Some && r->0.deep_view() == bv,
            None => r is None,
        },
    decreases *f,
{
    let ghost bms = folder_view(*f).bookmarks;
    let mut k: usize = 0;
    while k < f.bookmarks.len()
        invariant
            k <= bms.len(),
            bms.len() == f.bookmarks@.len(),
            bms == folder_view(*f).bookmarks,
            forall|j: int| 0 <= j < k ==> #[trigger] bms[j].id != id.value,
            forall|j: int| 0 <= j < bms.len() ==> bms[j] == f.bookmarks@[j].deep_view(),
        decreases f.bookmarks@.len() - k,
    {
        if f.bookmarks[k].id == id {
            proof {
                lemma_find_bookmark_flat_skip(bms, id.value, k as int);
                assert(bms.skip(k as int)[0] == bms[k as int]);
            }
            return Some(duplicate_bookmark(&f.bookmarks[k]));
        }
        k = k + 1;
    }
    proof {
        lemma_find_bookmark_flat_skip(bms, id.value, bms.len() as int);
        assert(bms.skip(bms.len() as int) =~= Seq::<BookmarkV>::empty());
    }
    let ghost subs = folder_view(*f).subfolders;
    proof {
        lemma_folders_view_index(f.subfolders@);
    }
    let mut i: usize = 0;
    while i < f.subfolders.len()
        invariant
            i <= subs.len(),
            subs.len() == f.subfolders@.len(),
            subs == folder_view(*f).subfolders,
            forall|j: int| 0 <= j < i ==> find_bookmark_in(#[trigger] subs[j], id.value) is None,
            forall|j: int|
                0 <= j < subs.len() ==> subs[j] == folder_view(#[trigger] f.subfolders@[j]),
            find_bookmark_in_bookmarks(folder_view(*f).bookmarks, id.value) is None,
        decreases f.subfolders@.len() - i,
    {
        let found = find_bookmark_node(&f.subfolders[i], id);
        if found.is_some() {
            proof {
                lemma_find_bookmark_seq_skip(subs, id.value, i as int);
                assert(subs.skip(i as int)[0] == subs[i as int]);
            }
            return found;
        }
        i = i + 1;
    }
    proof {
        lemma_find_bookmark_seq_skip(subs, id.value, subs.len() as int);
        assert(subs.skip(subs.len() as int) =~= Seq::<FolderV>::empty());
    }
    None
}

/// The bookmark tree as loaded at startup. Lookups return value copies, so
/// no caller can mutate the live tree through them.
pub struct BookmarkManager {
    pub root: Folder,
}

impl BookmarkManager {
    /// A tree holding only an empty root folder named "root". This is the
    /// fallback when the persisted file is absent or malformed.
    pub fn empty() -> (b: BookmarkManager)
        ensures
            folder_view(b.root).name == "root"@,
            folder_view(b.root).subfolders == Seq::<FolderV>::empty(),
            folder_view(b.root).bookmarks == Seq::<BookmarkV>::empty(),
    {
        let r = BookmarkManager {
            root: Folder {
                id: BookmarkId { value: 0 },
                name: "root".to_owned(),
                subfolders: Vec::new(),
                bookmarks: Vec::new(),
            },
        };
        proof {
            assert(folder_view(r.root).bookmarks =~= Seq::<BookmarkV>::empty());
        }
        r
    }

    /// A tree with the given root, as parsed from the persisted file.
    pub fn with_root(root: Folder) -> (b: BookmarkManager)
        ensures
            b.root == root,
    {
        BookmarkManager { root }
    }

    /// A copy of the root folder.
    pub fn root(&self) -> (r: Folder)
        ensures
            folder_view(r) == folder_view(self.root),
    {
        duplicate_folder(&self.root)
    }

    /// A copy of the first folder with this id, in pre-order.
    pub fn find_folder(&self, id: BookmarkId) -> (r: Option<Folder>)
        ensures
            match find_folder_in(folder_view(self.root), id.value) {
                Some(gv) => r is Some && folder_view(r->0) == gv,
                None => r is None,
            },
    {
        find_folder_node(&self.root, id)
    }

    /// A copy of the first bookmark with this id, in pre-order.
    pub fn find_bookmark(&self, id: BookmarkId) -> (r: Option<Bookmark>)
        ensures
            match find_bookmark_in(folder_view(self.root), id.value) {
                Some(bv) => r is Some && r->0.deep_view() == bv,
                None => r is None,
            },
    {
        find_bookmark_node(&self.root, id)
    }
}

} // verus!
