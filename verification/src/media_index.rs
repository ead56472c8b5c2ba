//! The index of the media directories: every file under three keys, and
//! the rules by which it is refreshed and asked.
use crate::text::{
    clone_texts, copy_str, drop_empty, first_index_of, from_chars, index_from, lemma_first_index_of,
    lower, same_texts, text3, texts_equal, to_chars, to_lower, trim, trimmed,
};
use crate::utils::{
    hash_filename, hidden_name, name_hash, same_filename, same_name_text, strip_filename,
    stripped_name, PRIVACY_HIDDEN_FILENAME,
};
use vstd::multiset::Multiset;
use vstd::prelude::*;

verus! {

/// How long the whole scan may take, in milliseconds.
pub const MEDIA_INDEX_TIMEOUT: u64 = 20000;

/// How long the first look into a directory may take, in milliseconds.
pub const MEDIA_INDEX_FIRST_FILE_TIMEOUT: u64 = 25000;

/// The paths that the index holds under one key, in the order in which
/// they were found.
#[derive(Debug)]
pub struct IndexEntry {
    pub key: String,
    pub paths: Vec<String>,
}

pub struct IndexEntryView {
    pub key: Seq<char>,
    pub paths: Seq<Seq<char>>,
}

impl View for IndexEntry {
    type V = IndexEntryView;

    open spec fn view(&self) -> IndexEntryView {
        IndexEntryView { key: self.key@, paths: self.paths.deep_view() }
    }
}

pub open spec fn entry_views(entries: Seq<IndexEntry>) -> Seq<IndexEntryView> {
    Seq::new(entries.len(), |i: int| entries[i]@)
}

pub open spec fn entry_keys(entries: Seq<IndexEntryView>) -> Seq<Seq<char>> {
    Seq::new(entries.len(), |i: int| entries[i].key)
}

/// The paths that a mapping holds under a key; none where it has no such
/// key.
pub open spec fn paths_under(entries: Seq<IndexEntryView>, key: Seq<char>) -> Seq<Seq<char>> {
    let i = first_index_of(entry_keys(entries), key);
    if i >= 0 {
        entries[i].paths
    } else {
        Seq::empty()
    }
}

/// Every path of a mapping, each as often as the mapping holds it.
pub open spec fn all_paths(entries: Seq<IndexEntryView>) -> Multiset<Seq<char>>
    decreases entries.len(),
{
    if entries.len() == 0 {
        Multiset::empty()
    } else {
        all_paths(entries.drop_last()).add(entries.last().paths.to_multiset())
    }
}

/// A mapping with one more path under a key: behind the paths that the key
/// has, or under a new key behind the others.
pub open spec fn with_path(entries: Seq<IndexEntryView>, key: Seq<char>, path: Seq<char>) -> Seq<
    IndexEntryView,
> {
    let i = first_index_of(entry_keys(entries), key);
    if i >= 0 {
        entries.update(i, IndexEntryView { key, paths: entries[i].paths.push(path) })
    } else {
        entries.push(IndexEntryView { key, paths: seq![path] })
    }
}

/// No key stands twice in a mapping.
pub open spec fn keys_distinct(entries: Seq<IndexEntryView>) -> bool {
    forall|i: int, j: int|
        0 <= i < j < entries.len() ==> (#[trigger] entries[i]).key != (#[trigger] entries[j]).key
}

proof fn lemma_all_paths_update(entries: Seq<IndexEntryView>, i: int, path: Seq<char>)
    requires
        0 <= i < entries.len(),
    ensures
        all_paths(
            entries.update(
                i,
                IndexEntryView { key: entries[i].key, paths: entries[i].paths.push(path) },
            ),
        ) == all_paths(entries).insert(path),
    decreases entries.len(),
{
    let e = IndexEntryView { key: entries[i].key, paths: entries[i].paths.push(path) };
    let after = entries.update(i, e);
    if i == entries.len() - 1 {
        assert(after.drop_last() =~= entries.drop_last());
        entries[i].paths.to_multiset_ensures();
        assert(entries[i].paths.push(path).to_multiset() =~= entries[i].paths.to_multiset().insert(
            path,
        ));
        assert(all_paths(after) =~= all_paths(entries).insert(path));
    } else {
        lemma_all_paths_update(entries.drop_last(), i, path);
        assert(after.drop_last() =~= entries.drop_last().update(i, e));
        assert(after.last() == entries.last());
        assert(all_paths(after) =~= all_paths(entries).insert(path));
    }
}

/// A path more under a key is that path more in the mapping, and no key
/// comes to stand twice.
pub proof fn lemma_with_path(entries: Seq<IndexEntryView>, key: Seq<char>, path: Seq<char>)
    ensures
        all_paths(with_path(entries, key, path)) == all_paths(entries).insert(path),
        keys_distinct(entries) ==> keys_distinct(with_path(entries, key, path)),
        paths_under(with_path(entries, key, path), key) == paths_under(entries, key).push(path),
{
    let keys = entry_keys(entries);
    let i = first_index_of(keys, key);
    let after = with_path(entries, key, path);
    lemma_first_index_of(keys, key);
    if i >= 0 {
        assert(keys[i] == key);
        lemma_all_paths_update(entries, i, path);
        assert(entry_keys(after) =~= keys);
    } else {
        let e = IndexEntryView { key, paths: seq![path] };
        assert(after.drop_last() =~= entries);
        Seq::<Seq<char>>::empty().to_multiset_ensures();
        assert(Seq::<Seq<char>>::empty().to_multiset() =~= Multiset::<Seq<char>>::empty()) by {
            assert(Seq::<Seq<char>>::empty().to_multiset().len() == 0);
        }
        assert(seq![path] =~= Seq::<Seq<char>>::empty().push(path));
        assert(seq![path].to_multiset() =~= Multiset::<Seq<char>>::empty().insert(path));
        assert(all_paths(after) =~= all_paths(entries).insert(path));
        assert(entry_keys(after) =~= keys.push(key));
        lemma_first_index_of(keys.push(key), key);
        assert(keys.push(key)[keys.len() as int] == key);
        assert forall|j: int| 0 <= j < keys.len() implies keys.push(key)[j] != key by {
            assert(keys.contains(keys[j]));
        }
        assert(first_index_of(keys.push(key), key) == keys.len());
        assert(paths_under(after, key) =~= paths_under(entries, key).push(path));
        if keys_distinct(entries) {
            assert forall|a: int, b: int| 0 <= a < b < after.len() implies (#[trigger] after[a]).key
                != (#[trigger] after[b]).key by {
                if b < entries.len() {
                    assert(after[a] == entries[a] && after[b] == entries[b]);
                } else {
                    assert(keys.contains(keys[a]));
                }
            }
        }
    }
}

fn clone_with(paths: &Vec<String>, path: &str) -> (r: Vec<String>)
    ensures
        r.deep_view() == paths.deep_view().push(path@),
{
    let mut r = clone_texts(paths.as_slice());
    let ghost before = r.deep_view();
    r.push(copy_str(path));
    assert(r.deep_view() =~= before.push(path@));
    r
}

fn find_key(entries: &Vec<IndexEntry>, key: &str) -> (r: Option<usize>)
    ensures
        match r {
            Some(i) => i < entries.len() && i == first_index_of(
                entry_keys(entry_views(entries@)),
                key@,
            ),
            None => first_index_of(entry_keys(entry_views(entries@)), key@) == -1,
        },
{
    let ghost keys = entry_keys(entry_views(entries@));
    let mut i: usize = 0;
    while i < entries.len()
        invariant
            i <= entries.len(),
            keys == entry_keys(entry_views(entries@)),
            first_index_of(keys, key@) == index_from(keys, key@, i as int),
        decreases entries.len() - i,
    {
        assert(keys[i as int] == entries@[i as int].key@);
        if texts_equal(&entries[i].key, key) {
            return Some(i);
        }
        i = i + 1;
    }
    None
}

fn put_path(entries: &mut Vec<IndexEntry>, key: String, path: &str)
    ensures
        entry_views(final(entries)@) == with_path(entry_views(old(entries)@), key@, path@),
{
    let ghost before = entry_views(entries@);
    match find_key(entries, key.as_str()) {
        Some(i) => {
            let paths = clone_with(&entries[i].paths, path);
            proof {
                lemma_first_index_of(entry_keys(before), key@);
            }
            entries.set(i, IndexEntry { key, paths });
            assert(entry_views(entries@) =~= with_path(before, key@, path@));
        },
        None => {
            let mut paths: Vec<String> = Vec::new();
            paths.push(copy_str(path));
            assert(paths.deep_view() =~= seq![path@]);
            entries.push(IndexEntry { key, paths });
            assert(entry_views(entries@) =~= with_path(before, key@, path@));
        },
    }
}

fn paths_of(entries: &Vec<IndexEntry>, key: &str) -> (r: Vec<String>)
    ensures
        r.deep_view() == paths_under(entry_views(entries@), key@),
{
    match find_key(entries, key) {
        Some(i) => {
            proof {
                lemma_first_index_of(entry_keys(entry_views(entries@)), key@);
            }
            clone_texts(entries[i].paths.as_slice())
        },
        None => {
            let r: Vec<String> = Vec::new();
            assert(r.deep_view() =~= Seq::<Seq<char>>::empty());
            r
        },
    }
}

/// The first of some paths that is marked as a file on disk, from a given
/// index on. A path without a mark counts as absent.
pub open spec fn existing_from(paths: Seq<Seq<char>>, is_file: Seq<bool>, from: int) -> Option<
    Seq<char>,
>
    decreases paths.len() - from,
{
    if from < 0 || from >= paths.len() || from >= is_file.len() {
        None
    } else if is_file[from] {
        Some(paths[from])
    } else {
        existing_from(paths, is_file, from + 1)
    }
}

/// The first of some paths that is marked as a file on disk.
pub open spec fn first_existing(paths: Seq<Seq<char>>, is_file: Seq<bool>) -> Option<Seq<char>> {
    existing_from(paths, is_file, 0)
}

/// The first of some paths that is a file on disk, as the marks say.
pub fn find_existing(paths: &Vec<String>, is_file: &[bool]) -> (r: Option<String>)
    ensures
        crate::text::opt_view(r) == first_existing(paths.deep_view(), is_file@),
{
    let mut i: usize = 0;
    while i < paths.len() && i < is_file.len()
        invariant
            i <= paths.len(),
            i <= is_file.len(),
            first_existing(paths.deep_view(), is_file@) == existing_from(
                paths.deep_view(),
                is_file@,
                i as int,
            ),
        decreases paths.len() - i,
    {
        if is_file[i] {
            assert(paths.deep_view()[i as int] == paths@[i as int]@);
            return Some(copy_str(paths[i].as_str()));
        }
        i = i + 1;
    }
    None
}

/// Three mappings to the paths of the files that were found: from the
/// lower-case name, from the name without punctuation, and from the hash of
/// the name.
pub struct MediaIndexCache {
    by_lower: Vec<IndexEntry>,
    by_stripped: Vec<IndexEntry>,
    by_hash: Vec<IndexEntry>,
}

pub struct MediaIndexCacheView {
    pub by_lower: Seq<IndexEntryView>,
    pub by_stripped: Seq<IndexEntryView>,
    pub by_hash: Seq<IndexEntryView>,
}

/// The three mappings hold the same paths, each as often as the others,
/// and none has a key twice.
pub open spec fn balanced(c: MediaIndexCacheView) -> bool {
    all_paths(c.by_lower) == all_paths(c.by_stripped) && all_paths(c.by_stripped) == all_paths(
        c.by_hash,
    ) && keys_distinct(c.by_lower) && keys_distinct(c.by_stripped) && keys_distinct(c.by_hash)
}

/// The index with one more file: its path under each of its three keys.
pub open spec fn with_file(c: MediaIndexCacheView, filename: Seq<char>, path: Seq<char>) -> MediaIndexCacheView {
    MediaIndexCacheView {
        by_lower: with_path(c.by_lower, lower(filename), path),
        by_stripped: with_path(c.by_stripped, stripped_name(filename, false), path),
        by_hash: with_path(c.by_hash, name_hash(filename, false), path),
    }
}

/// The paths that may be the file of a name: those under its lower-case
/// form, then those under its form without punctuation, then those under
/// its hash.
pub open spec fn candidates_of(c: MediaIndexCacheView, filename: Seq<char>) -> Seq<Seq<char>> {
    paths_under(c.by_lower, lower(filename)) + paths_under(
        c.by_stripped,
        stripped_name(filename, false),
    ) + paths_under(c.by_hash, name_hash(filename, false))
}

/// A file that is added stands under each of the three keys, once more
/// than before, and the three mappings still hold the same paths.
pub proof fn lemma_index_stays_balanced(c: MediaIndexCacheView, filename: Seq<char>, path: Seq<char>)
    requires
        balanced(c),
    ensures
        balanced(with_file(c, filename, path)),
        all_paths(with_file(c, filename, path).by_lower) == all_paths(c.by_lower).insert(path),
        all_paths(with_file(c, filename, path).by_stripped) == all_paths(c.by_lower).insert(path),
        all_paths(with_file(c, filename, path).by_hash) == all_paths(c.by_lower).insert(path),
{
    lemma_with_path(c.by_lower, lower(filename), path);
    lemma_with_path(c.by_stripped, stripped_name(filename, false), path);
    lemma_with_path(c.by_hash, name_hash(filename, false), path);
}

impl View for MediaIndexCache {
    type V = MediaIndexCacheView;

    closed spec fn view(&self) -> MediaIndexCacheView {
        MediaIndexCacheView {
            by_lower: entry_views(self.by_lower@),
            by_stripped: entry_views(self.by_stripped@),
            by_hash: entry_views(self.by_hash@),
        }
    }
}

impl MediaIndexCache {
    /// The three mappings hold the same paths.
    pub open spec fn wf(&self) -> bool {
        balanced(self@)
    }

    /// An index without files.
    pub fn new() -> (r: MediaIndexCache)
        ensures
            r.wf(),
            r@.by_lower.len() == 0,
            r@.by_stripped.len() == 0,
            r@.by_hash.len() == 0,
    {
        MediaIndexCache { by_lower: Vec::new(), by_stripped: Vec::new(), by_hash: Vec::new() }
    }

    /// Adds a file under its three keys.
    pub fn insert(&mut self, filename: &str, path: &str)
        ensures
            final(self)@ == with_file(old(self)@, filename@, path@),
            old(self).wf() ==> final(self).wf(),
    {
        proof {
            if self.wf() {
                lemma_index_stays_balanced(self@, filename@, path@);
            }
        }
        let low = from_chars(&to_lower(&to_chars(filename)));
        put_path(&mut self.by_lower, low, path);
        let stripped = strip_filename(filename, false);
        put_path(&mut self.by_stripped, stripped, path);
        let hash = hash_filename(filename, false);
        put_path(&mut self.by_hash, hash, path);
    }

    /// The paths that may be the file of a name, in the order in which
    /// they are tried.
    pub fn candidates(&self, filename: &str) -> (r: Vec<String>)
        ensures
            r.deep_view() == candidates_of(self@, filename@),
    {
        let low = from_chars(&to_lower(&to_chars(filename)));
        let mut all = paths_of(&self.by_lower, low.as_str());
        let stripped = strip_filename(filename, false);
        let mut second = paths_of(&self.by_stripped, stripped.as_str());
        let hash = hash_filename(filename, false);
        let mut third = paths_of(&self.by_hash, hash.as_str());
        let ghost a = all.deep_view();
        let ghost b = second.deep_view();
        let ghost c = third.deep_view();
        all.append(&mut second);
        assert(all.deep_view() =~= a + b);
        all.append(&mut third);
        assert(all.deep_view() =~= a + b + c);
        all
    }

    /// The file of a name: the first of its candidates that is a file on
    /// disk, as the marks say, one mark for each candidate.
    pub fn resolve(&self, filename: &str, is_file: &[bool]) -> (r: Option<String>)
        ensures
            crate::text::opt_view(r) == first_existing(candidates_of(self@, filename@), is_file@),
    {
        let all = self.candidates(filename);
        find_existing(&all, is_file)
    }
}

/// The directories that are scanned: each without the white space around
/// it, the empty ones left out.
pub open spec fn cleaned(list: Seq<Seq<char>>) -> Seq<Seq<char>> {
    drop_empty(Seq::new(list.len(), |i: int| trim(list[i])))
}

pub fn clean_directories(list: &Vec<String>) -> (r: Vec<String>)
    ensures
        r.deep_view() == cleaned(list.deep_view()),
{
    let ghost mapped = Seq::new(list.deep_view().len(), |i: int| trim(list.deep_view()[i]));
    let mut r: Vec<String> = Vec::new();
    let mut i: usize = 0;
    assert(mapped.take(0) =~= Seq::<Seq<char>>::empty());
    assert(r.deep_view() =~= Seq::<Seq<char>>::empty());
    while i < list.len()
        invariant
            i <= list.len(),
            mapped == Seq::new(list.deep_view().len(), |i: int| trim(list.deep_view()[i])),
            r.deep_view() == drop_empty(mapped.take(i as int)),
        decreases list.len() - i,
    {
        let t = trimmed(&to_chars(list[i].as_str()));
        proof {
            assert(mapped.take(i + 1).drop_last() =~= mapped.take(i as int));
            assert(list.deep_view()[i as int] == list@[i as int]@);
            assert(mapped.take(i + 1).last() == t@);
        }
        if t.len() > 0 {
            let ghost before = r.deep_view();
            r.push(from_chars(&t));
            assert(r.deep_view() =~= before.push(t@));
        }
        i = i + 1;
    }
    assert(mapped.take(list.len() as int) =~= mapped);
    r
}

/// What the index tells the rest of the client.
#[derive(Debug)]
pub enum IndexEvent {
    /// A scan has begun or ended.
    Refreshing(bool),
    /// The index holds the files of a new scan.
    Updated,
    /// A scan has failed, with the words for the user.
    Error(String),
}

pub enum IndexEventView {
    Refreshing(bool),
    Updated,
    Error(Seq<char>),
}

impl View for IndexEvent {
    type V = IndexEventView;

    open spec fn view(&self) -> IndexEventView {
        match self {
            IndexEvent::Refreshing(b) => IndexEventView::Refreshing(*b),
            IndexEvent::Updated => IndexEventView::Updated,
            IndexEvent::Error(m) => IndexEventView::Error(m@),
        }
    }
}

/// Why a scan has ended without an index.
#[derive(Debug)]
pub enum ScanError {
    /// There is no directory to scan.
    NoDirectories,
    /// The first look into a directory took too long.
    FirstFileTimeout(String),
    /// The scan as a whole took too long; it stopped in this directory.
    ScanTimeout(String),
    /// A directory could not be read.
    Io,
}

pub enum ScanErrorView {
    NoDirectories,
    FirstFileTimeout(Seq<char>),
    ScanTimeout(Seq<char>),
    Io,
}

impl View for ScanError {
    type V = ScanErrorView;

    open spec fn view(&self) -> ScanErrorView {
        match self {
            ScanError::NoDirectories => ScanErrorView::NoDirectories,
            ScanError::FirstFileTimeout(d) => ScanErrorView::FirstFileTimeout(d@),
            ScanError::ScanTimeout(d) => ScanErrorView::ScanTimeout(d@),
            ScanError::Io => ScanErrorView::Io,
        }
    }
}

pub open spec fn roots_outcome(r: Result<Vec<String>, ScanError>) -> Result<
    Seq<Seq<char>>,
    ScanErrorView,
> {
    match r {
        Ok(v) => Ok(v.deep_view()),
        Err(e) => Err(e@),
    }
}

/// The directories that a scan visits: those that are named, or the error
/// that none is.
pub fn scan_roots(directories: &Vec<String>) -> (r: Result<Vec<String>, ScanError>)
    ensures
        roots_outcome(r) == (if directories.len() == 0 {
            Err::<Seq<Seq<char>>, ScanErrorView>(ScanErrorView::NoDirectories)
        } else {
            Ok(cleaned(directories.deep_view()))
        }),
{
    if directories.len() == 0 {
        return Err(ScanError::NoDirectories);
    }
    Ok(clean_directories(directories))
}

pub open spec fn check_outcome(r: Result<(), ScanError>) -> Option<ScanErrorView> {
    match r {
        Ok(_) => None,
        Err(e) => Some(e@),
    }
}

/// Whether the first look into a directory came back in time.
pub fn check_first_entry(directory: &str, elapsed: u64) -> (r: Result<(), ScanError>)
    ensures
        check_outcome(r) == (if elapsed > MEDIA_INDEX_FIRST_FILE_TIMEOUT {
            Some(ScanErrorView::FirstFileTimeout(directory@))
        } else {
            None
        }),
{
    if elapsed > MEDIA_INDEX_FIRST_FILE_TIMEOUT {
        Err(ScanError::FirstFileTimeout(copy_str(directory)))
    } else {
        Ok(())
    }
}

/// Whether the scan may go on in a directory, by the time it has taken as
/// a whole.
pub fn check_scan_time(directory: &str, elapsed: u64) -> (r: Result<(), ScanError>)
    ensures
        check_outcome(r) == (if elapsed > MEDIA_INDEX_TIMEOUT {
            Some(ScanErrorView::ScanTimeout(directory@))
        } else {
            None
        }),
{
    if elapsed > MEDIA_INDEX_TIMEOUT {
        Err(ScanError::ScanTimeout(copy_str(directory)))
    } else {
        Ok(())
    }
}

/// What a scan finds in a directory.
#[derive(Clone, Copy, Debug, PartialEq, Eq, Structural)]
pub enum EntryKind {
    Directory,
    File,
    Other,
}

/// What the index is after a scan has met an entry: a regular file with a
/// name that can be written as text is added, nothing else.
pub open spec fn scanned(
    c: MediaIndexCacheView,
    kind: EntryKind,
    filename: Option<Seq<char>>,
    path: Seq<char>,
) -> MediaIndexCacheView {
    match filename {
        Some(name) if kind == EntryKind::File => with_file(c, name, path),
        _ => c,
    }
}

/// One entry of a scan: a directory is visited later, a regular file is
/// added, anything else passed over. Tells whether the entry is to be
/// visited.
pub fn scan_entry(
    cache: &mut MediaIndexCache,
    kind: EntryKind,
    filename: Option<&str>,
    path: &str,
) -> (descend: bool)
    ensures
        descend == (kind == EntryKind::Directory),
        final(cache)@ == scanned(old(cache)@, kind, crate::text::opt_view(filename), path@),
        old(cache).wf() ==> final(cache).wf(),
{
    match kind {
        EntryKind::Directory => true,
        EntryKind::Other => false,
        EntryKind::File => {
            match filename {
                Some(name) => {
                    cache.insert(name, path);
                },
                None => {},
            }
            false
        },
    }
}

/// The index of the media directories with its two latches: `updating` while
/// a scan runs, `disabled` after a scan that took too long.
pub struct MediaIndex {
    cache: MediaIndexCache,
    directories: Vec<String>,
    updating: bool,
    disabled: bool,
}

pub struct MediaIndexView {
    pub cache: MediaIndexCacheView,
    pub directories: Seq<Seq<char>>,
    pub updating: bool,
    pub disabled: bool,
}

impl View for MediaIndex {
    type V = MediaIndexView;

    closed spec fn view(&self) -> MediaIndexView {
        MediaIndexView {
            cache: self.cache@,
            directories: self.directories.deep_view(),
            updating: self.updating,
            disabled: self.disabled,
        }
    }
}

/// What is to be done for a refresh, and what is told.
pub struct RefreshPlan {
    /// The directories to scan; nothing where no scan is to run.
    pub scan: Option<Vec<String>>,
    pub events: Vec<IndexEvent>,
}

pub struct RefreshPlanView {
    pub scan: Option<Seq<Seq<char>>>,
    pub events: Seq<IndexEventView>,
}

impl View for RefreshPlan {
    type V = RefreshPlanView;

    open spec fn view(&self) -> RefreshPlanView {
        RefreshPlanView {
            scan: match self.scan {
                Some(d) => Some(d.deep_view()),
                None => None,
            },
            events: event_views(self.events@),
        }
    }
}

pub open spec fn event_views(events: Seq<IndexEvent>) -> Seq<IndexEventView> {
    Seq::new(events.len(), |i: int| events[i]@)
}

/// A refresh runs a scan unless the index is disabled, a scan is running,
/// or no directory is set.
pub open spec fn refresh_plan(m: MediaIndexView) -> RefreshPlanView {
    if m.disabled || m.updating {
        RefreshPlanView { scan: None, events: Seq::empty() }
    } else if m.directories.len() == 0 {
        RefreshPlanView {
            scan: None,
            events: seq![IndexEventView::Refreshing(true), IndexEventView::Refreshing(false)],
        }
    } else {
        RefreshPlanView {
            scan: Some(m.directories),
            events: seq![IndexEventView::Refreshing(true)],
        }
    }
}

/// The index once a scan has ended: with the files that the scan found, or
/// as it was, and disabled where the scan took too long.
pub open spec fn after_scan(m: MediaIndexView, outcome: Result<MediaIndexCacheView, ScanErrorView>) -> MediaIndexView {
    MediaIndexView {
        cache: match outcome {
            Ok(c) => c,
            Err(_) => m.cache,
        },
        directories: m.directories,
        updating: false,
        disabled: match outcome {
            Err(ScanErrorView::FirstFileTimeout(_)) | Err(ScanErrorView::ScanTimeout(_)) => true,
            _ => m.disabled,
        },
    }
}

/// What is told once a scan has ended.
pub open spec fn scan_events(outcome: Result<MediaIndexCacheView, ScanErrorView>) -> Seq<
    IndexEventView,
> {
    (match outcome {
        Ok(_) => seq![IndexEventView::Updated],
        Err(ScanErrorView::FirstFileTimeout(d)) => seq![
            IndexEventView::Error(
                "Media directory scan timed out while accessing '"@ + d + "'"@,
            ),
        ],
        Err(ScanErrorView::ScanTimeout(d)) => seq![
            IndexEventView::Error("Media directory scan timed out in '"@ + d + "'"@),
        ],
        Err(ScanErrorView::NoDirectories) => Seq::empty(),
        Err(ScanErrorView::Io) => seq![IndexEventView::Error("Media directory scan failed"@)],
    }).push(IndexEventView::Refreshing(false))
}

pub open spec fn outcome_view(outcome: Result<MediaIndexCache, ScanError>) -> Result<
    MediaIndexCacheView,
    ScanErrorView,
> {
    match outcome {
        Ok(c) => Ok(c@),
        Err(e) => Err(e@),
    }
}

/// The path of a name: none for the hidden name; the name itself where it
/// is an absolute path to a file; else what the index finds.
pub open spec fn resolved(
    m: MediaIndexView,
    filename: Seq<char>,
    absolute_file: bool,
    is_file: Seq<bool>,
) -> Option<Seq<char>> {
    if filename == hidden_name() {
        None
    } else if absolute_file {
        Some(filename)
    } else {
        first_existing(candidates_of(m.cache, filename), is_file)
    }
}

impl MediaIndex {
    /// The three mappings of the index hold the same paths.
    pub open spec fn wf(&self) -> bool {
        balanced(self@.cache)
    }

    /// An index without directories or files.
    pub fn new() -> (r: MediaIndex)
        ensures
            r.wf(),
            r@.directories.len() == 0,
            !r@.updating,
            !r@.disabled,
            r@.cache.by_lower.len() == 0,
            r@.cache.by_stripped.len() == 0,
            r@.cache.by_hash.len() == 0,
    {
        let r = MediaIndex {
            cache: MediaIndexCache::new(),
            directories: Vec::new(),
            updating: false,
            disabled: false,
        };
        assert(r.directories.deep_view() =~= Seq::<Seq<char>>::empty());
        r
    }

    /// Sets the directories. Tells whether they differ from those that were
    /// set; if they do, the index is enabled again.
    pub fn update_directories(&mut self, directories: Vec<String>) -> (changed: bool)
        ensures
            changed == (cleaned(directories.deep_view()) != old(self)@.directories),
            final(self)@ == (MediaIndexView {
                directories: cleaned(directories.deep_view()),
                disabled: old(self)@.disabled && !changed,
                ..old(self)@
            }),
    {
        let list = clean_directories(&directories);
        if same_texts(self.directories.as_slice(), list.as_slice()) {
            assert(self.directories.deep_view() =~= list.deep_view());
            return false;
        }
        self.directories = list;
        self.disabled = false;
        true
    }

    /// The candidates of a name, for the marks that `resolve_path` takes.
    pub fn candidates(&self, filename: &str) -> (r: Vec<String>)
        ensures
            r.deep_view() == candidates_of(self@.cache, filename@),
    {
        self.cache.candidates(filename)
    }

    /// The path of a name. `absolute_file` says that the name is an
    /// absolute path to a file on disk; `is_file` marks the candidates that
    /// are files on disk.
    pub fn resolve_path(&self, filename: &str, absolute_file: bool, is_file: &[bool]) -> (r: Option<
        String,
    >)
        ensures
            crate::text::opt_view(r) == resolved(self@, filename@, absolute_file, is_file@),
    {
        if texts_equal(&copy_str(filename), PRIVACY_HIDDEN_FILENAME) {
            return None;
        }
        if absolute_file {
            return Some(copy_str(filename));
        }
        self.cache.resolve(filename, is_file)
    }

    /// Whether a name has a path.
    pub fn is_available(&self, filename: &str, absolute_file: bool, is_file: &[bool]) -> (r: bool)
        ensures
            r == resolved(self@, filename@, absolute_file, is_file@).is_some(),
    {
        self.resolve_path(filename, absolute_file, is_file).is_some()
    }

    /// Whether a scan is running.
    pub fn is_refreshing(&self) -> (r: bool)
        ensures
            r == self@.updating,
    {
        self.updating
    }

    /// Begins a refresh: the scan to run, if any, and what is told.
    pub fn request_refresh(&mut self) -> (plan: RefreshPlan)
        ensures
            plan@ == refresh_plan(old(self)@),
            final(self)@ == (MediaIndexView {
                updating: old(self)@.updating || refresh_plan(old(self)@).scan.is_some(),
                ..old(self)@
            }),
    {
        let mut events: Vec<IndexEvent> = Vec::new();
        if self.disabled || self.updating {
            assert(event_views(events@) =~= Seq::<IndexEventView>::empty());
            return RefreshPlan { scan: None, events };
        }
        events.push(IndexEvent::Refreshing(true));
        if self.directories.len() == 0 {
            events.push(IndexEvent::Refreshing(false));
            assert(event_views(events@) =~= seq![
                IndexEventView::Refreshing(true),
                IndexEventView::Refreshing(false),
            ]);
            return RefreshPlan { scan: None, events };
        }
        self.updating = true;
        assert(event_views(events@) =~= seq![IndexEventView::Refreshing(true)]);
        RefreshPlan { scan: Some(clone_texts(self.directories.as_slice())), events }
    }

    /// Begins a refresh also where the index is disabled.
    pub fn request_refresh_force(&mut self) -> (plan: RefreshPlan)
        ensures
            plan@ == refresh_plan((MediaIndexView { disabled: false, ..old(self)@ })),
            final(self)@ == (MediaIndexView {
                disabled: false,
                updating: old(self)@.updating || plan@.scan.is_some(),
                ..old(self)@
            }),
    {
        self.disabled = false;
        self.request_refresh()
    }

    /// Ends a scan: takes what it found, and says what is told.
    pub fn finish_refresh(&mut self, outcome: Result<MediaIndexCache, ScanError>) -> (events: Vec<
        IndexEvent,
    >)
        ensures
            final(self)@ == after_scan(old(self)@, outcome_view(outcome)),
            event_views(events@) == scan_events(outcome_view(outcome)),
            old(self).wf() && (match outcome {
                Ok(c) => c.wf(),
                Err(_) => true,
            }) ==> final(self).wf(),
    {
        let mut events: Vec<IndexEvent> = Vec::new();
        let ghost target = scan_events(outcome_view(outcome));
        match outcome {
            Ok(cache) => {
                self.cache = cache;
                events.push(IndexEvent::Updated);
            },
            Err(ScanError::FirstFileTimeout(dir)) => {
                self.disabled = true;
                events.push(
                    IndexEvent::Error(
                        text3(
                            "Media directory scan timed out while accessing '",
                            dir.as_str(),
                            "'",
                        ),
                    ),
                );
            },
            Err(ScanError::ScanTimeout(dir)) => {
                self.disabled = true;
                events.push(
                    IndexEvent::Error(
                        text3("Media directory scan timed out in '", dir.as_str(), "'"),
                    ),
                );
            },
            Err(ScanError::NoDirectories) => {},
            Err(ScanError::Io) => {
                events.push(IndexEvent::Error(copy_str("Media directory scan failed")));
            },
        }
        self.updating = false;
        events.push(IndexEvent::Refreshing(false));
        assert(event_views(events@) =~= target);
        events
    }
}

/// The name that is looked for in the media directories: the last part of
/// the name that is asked for, or the whole of it; nothing for the hidden
/// name.
pub open spec fn target_of(filename: Seq<char>, last_part: Option<Seq<char>>) -> Option<Seq<char>> {
    if filename == hidden_name() {
        None
    } else {
        match last_part {
            Some(p) => Some(p),
            None => Some(filename),
        }
    }
}

/// Where a name was found in the media directories.
#[derive(Clone, Copy, Debug, PartialEq, Eq, Structural)]
pub enum MediaPath {
    /// The name itself stands in the directory with this index.
    Joined { directory: usize },
    /// A file of that directory goes by a name that is taken for the same.
    Listed { directory: usize, entry: usize },
}

/// The first directory, from an index on, that is named and in which the
/// name stands; -1 where there is none.
pub open spec fn joined_from(directories: Seq<Seq<char>>, exists: Seq<bool>, from: int) -> int
    decreases directories.len() - from,
{
    if from < 0 || from >= directories.len() {
        -1
    } else if trim(directories[from]).len() > 0 && from < exists.len() && exists[from] {
        from
    } else {
        joined_from(directories, exists, from + 1)
    }
}

/// The first name of a listing, from an index on, that is taken for the
/// same as the target; -1 where there is none.
pub open spec fn entry_from(names: Seq<Seq<char>>, target: Seq<char>, from: int) -> int
    decreases names.len() - from,
{
    if from < 0 || from >= names.len() {
        -1
    } else if same_name_text(target, names[from]) {
        from
    } else {
        entry_from(names, target, from + 1)
    }
}

/// The first file, from a directory on, that goes by a name taken for the
/// same as the target, in a directory that is named.
pub open spec fn listed_from(
    directories: Seq<Seq<char>>,
    listings: Seq<Seq<Seq<char>>>,
    target: Seq<char>,
    from: int,
) -> Option<MediaPath>
    decreases directories.len() - from,
{
    if from < 0 || from >= directories.len() || from > usize::MAX {
        None
    } else if trim(directories[from]).len() > 0 && from < listings.len() && entry_from(
        listings[from],
        target,
        0,
    ) >= 0 && entry_from(listings[from], target, 0) <= usize::MAX {
        Some(
            MediaPath::Listed {
                directory: from as usize,
                entry: entry_from(listings[from], target, 0) as usize,
            },
        )
    } else {
        listed_from(directories, listings, target, from + 1)
    }
}

/// Where a name is found in the media directories: in the first directory
/// that holds it under its own name; failing that, as the first file, in
/// the order of the directories, whose name is taken for the same.
pub open spec fn media_path(
    directories: Seq<Seq<char>>,
    filename: Seq<char>,
    last_part: Option<Seq<char>>,
    exists: Seq<bool>,
    listings: Seq<Seq<Seq<char>>>,
) -> Option<MediaPath> {
    match target_of(filename, last_part) {
        None => None,
        Some(target) => if joined_from(directories, exists, 0) >= 0 && joined_from(
            directories,
            exists,
            0,
        ) <= usize::MAX {
            Some(MediaPath::Joined { directory: joined_from(directories, exists, 0) as usize })
        } else {
            listed_from(directories, listings, target, 0)
        },
    }
}

pub open spec fn listing_views(listings: Seq<Vec<String>>) -> Seq<Seq<Seq<char>>> {
    Seq::new(listings.len(), |i: int| listings[i].deep_view())
}

fn named(directory: &str) -> (r: bool)
    ensures
        r == (trim(directory@).len() > 0),
{
    trimmed(&to_chars(directory)).len() > 0
}

fn find_entry(names: &Vec<String>, target: &str) -> (r: Option<usize>)
    ensures
        match r {
            Some(j) => j == entry_from(names.deep_view(), target@, 0),
            None => entry_from(names.deep_view(), target@, 0) == -1,
        },
{
    let mut j: usize = 0;
    while j < names.len()
        invariant
            j <= names.len(),
            entry_from(names.deep_view(), target@, 0) == entry_from(
                names.deep_view(),
                target@,
                j as int,
            ),
        decreases names.len() - j,
    {
        assert(names.deep_view()[j as int] == names@[j as int]@);
        if same_filename(Some(target), Some(names[j].as_str())) {
            return Some(j);
        }
        j = j + 1;
    }
    None
}

/// Looks for a name in the media directories. `last_part` is the last part
/// of the name where it is a path; `exists` says for each directory whether
/// that part stands in it; `listings` holds for each directory the names of
/// its regular files.
pub fn resolve_media_path(
    media_directories: &[String],
    filename: &str,
    last_part: Option<&str>,
    exists: &[bool],
    listings: &[Vec<String>],
) -> (r: Option<MediaPath>)
    ensures
        r == media_path(
            media_directories.deep_view(),
            filename@,
            crate::text::opt_view(last_part),
            exists@,
            listing_views(listings@),
        ),
{
    let ghost dirs = media_directories.deep_view();
    let ghost lists = listing_views(listings@);
    if texts_equal(&copy_str(filename), PRIVACY_HIDDEN_FILENAME) {
        return None;
    }
    let target = match last_part {
        Some(p) => p,
        None => filename,
    };
    assert(target_of(filename@, crate::text::opt_view(last_part)) == Some(target@));
    let mut i: usize = 0;
    while i < media_directories.len()
        invariant
            i <= media_directories.len(),
            dirs == media_directories.deep_view(),
            joined_from(dirs, exists@, 0) == joined_from(dirs, exists@, i as int),
            dirs == media_directories.deep_view(),
            target_of(filename@, crate::text::opt_view(last_part)) == Some(target@),
        decreases media_directories.len() - i,
    {
        assert(dirs[i as int] == media_directories@[i as int]@);
        if named(media_directories[i].as_str()) && i < exists.len() && exists[i] {
            assert(joined_from(dirs, exists@, i as int) == i);
            return Some(MediaPath::Joined { directory: i });
        }
        i = i + 1;
    }
    let mut k: usize = 0;
    while k < media_directories.len()
        invariant
            k <= media_directories.len(),
            dirs == media_directories.deep_view(),
            lists == listing_views(listings@),
            joined_from(dirs, exists@, 0) == -1,
            target_of(filename@, crate::text::opt_view(last_part)) == Some(target@),
            listed_from(dirs, lists, target@, 0) == listed_from(dirs, lists, target@, k as int),
        decreases media_directories.len() - k,
    {
        assert(dirs[k as int] == media_directories@[k as int]@);
        if named(media_directories[k].as_str()) && k < listings.len() {
            assert(lists[k as int] == listings@[k as int].deep_view());
            match find_entry(&listings[k], target) {
                Some(j) => {
                    assert(listed_from(dirs, lists, target@, k as int) == Some(
                        MediaPath::Listed { directory: k, entry: j },
                    ));
                    return Some(MediaPath::Listed { directory: k, entry: j });
                },
                None => {},
            }
        }
        k = k + 1;
    }
    None
}

// ---------------------------------------------------------------------------
// A whole scan
// ---------------------------------------------------------------------------

/// What a walk has met below a directory: its kind, its name where that
/// can be written as text, its path, and how long the scan had run when it
/// was met, in milliseconds.
#[derive(Debug)]
pub struct ScannedEntry {
    pub kind: EntryKind,
    pub filename: Option<String>,
    pub path: String,
    pub elapsed: u64,
}

pub struct ScannedEntryView {
    pub kind: EntryKind,
    pub filename: Option<Seq<char>>,
    pub path: Seq<char>,
    pub elapsed: u64,
}

impl View for ScannedEntry {
    type V = ScannedEntryView;

    open spec fn view(&self) -> ScannedEntryView {
        ScannedEntryView {
            kind: self.kind,
            filename: crate::text::opt_view(self.filename),
            path: self.path@,
            elapsed: self.elapsed,
        }
    }
}

/// What a walk has found of one media directory: whether it is a
/// directory, whether it could be read, how long the first look into it
/// took, and everything that was met below it, in the order of the walk.
#[derive(Debug)]
pub struct ScannedRoot {
    pub directory: String,
    pub is_dir: bool,
    pub readable: bool,
    pub first_entry_time: u64,
    pub entries: Vec<ScannedEntry>,
}

pub struct ScannedRootView {
    pub directory: Seq<char>,
    pub is_dir: bool,
    pub readable: bool,
    pub first_entry_time: u64,
    pub entries: Seq<ScannedEntryView>,
}

pub open spec fn scanned_views(entries: Seq<ScannedEntry>) -> Seq<ScannedEntryView> {
    Seq::new(entries.len(), |i: int| entries[i]@)
}

impl View for ScannedRoot {
    type V = ScannedRootView;

    open spec fn view(&self) -> ScannedRootView {
        ScannedRootView {
            directory: self.directory@,
            is_dir: self.is_dir,
            readable: self.readable,
            first_entry_time: self.first_entry_time,
            entries: scanned_views(self.entries@),
        }
    }
}

pub open spec fn root_views(roots: Seq<ScannedRoot>) -> Seq<ScannedRootView> {
    Seq::new(roots.len(), |i: int| roots[i]@)
}

/// A directory of the walk counts: it is one of the media directories and
/// it is a directory.
pub open spec fn root_counts(root: ScannedRootView, directories: Seq<Seq<char>>) -> bool {
    root.is_dir && directories.contains(root.directory)
}

/// What goes wrong at the first look into the directories, from one of
/// them on: the first that counts and cannot be read, or whose first entry
/// took more than twenty-five seconds.
pub open spec fn first_look_from(
    roots: Seq<ScannedRootView>,
    directories: Seq<Seq<char>>,
    from: int,
) -> Option<ScanErrorView>
    decreases roots.len() - from,
{
    if from < 0 || from >= roots.len() {
        None
    } else if root_counts(roots[from], directories) && !roots[from].readable {
        Some(ScanErrorView::Io)
    } else if root_counts(roots[from], directories) && roots[from].first_entry_time
        > MEDIA_INDEX_FIRST_FILE_TIMEOUT {
        Some(ScanErrorView::FirstFileTimeout(roots[from].directory))
    } else {
        first_look_from(roots, directories, from + 1)
    }
}

/// The index after the entries of one directory, from one of them on, or
/// the error that the scan had run for more than twenty seconds when it
/// met one of them.
pub open spec fn entries_from(
    c: MediaIndexCacheView,
    entries: Seq<ScannedEntryView>,
    directory: Seq<char>,
    from: int,
) -> Result<MediaIndexCacheView, ScanErrorView>
    decreases entries.len() - from,
{
    if from < 0 || from >= entries.len() {
        Ok(c)
    } else if entries[from].elapsed > MEDIA_INDEX_TIMEOUT {
        Err(ScanErrorView::ScanTimeout(directory))
    } else {
        entries_from(
            scanned(c, entries[from].kind, entries[from].filename, entries[from].path),
            entries,
            directory,
            from + 1,
        )
    }
}

/// The index after the directories of a walk, from one of them on, or the
/// error that ended the scan.
pub open spec fn walk_from(
    c: MediaIndexCacheView,
    roots: Seq<ScannedRootView>,
    directories: Seq<Seq<char>>,
    from: int,
) -> Result<MediaIndexCacheView, ScanErrorView>
    decreases roots.len() - from,
{
    if from < 0 || from >= roots.len() {
        Ok(c)
    } else if root_counts(roots[from], directories) {
        match entries_from(c, roots[from].entries, roots[from].directory, 0) {
            Ok(after) => walk_from(after, roots, directories, from + 1),
            Err(e) => Err(e),
        }
    } else {
        walk_from(c, roots, directories, from + 1)
    }
}

/// An index without files.
pub open spec fn empty_index() -> MediaIndexCacheView {
    MediaIndexCacheView { by_lower: Seq::empty(), by_stripped: Seq::empty(), by_hash: Seq::empty() }
}

/// What a scan comes to. Without directories there is nothing to scan. A
/// directory that cannot be read, or whose first entry is too long in
/// coming, ends the scan before anything is indexed; so does the time that
/// the scan as a whole may take. Else the index holds the regular files
/// with a name that can be written as text, found below the media
/// directories that are directories.
pub open spec fn scan_outcome(directories: Seq<Seq<char>>, roots: Seq<ScannedRootView>) -> Result<
    MediaIndexCacheView,
    ScanErrorView,
> {
    if directories.len() == 0 {
        Err(ScanErrorView::NoDirectories)
    } else {
        match first_look_from(roots, cleaned(directories), 0) {
            Some(e) => Err(e),
            None => walk_from(empty_index(), roots, cleaned(directories), 0),
        }
    }
}

/// The paths of the regular files with a name among some entries, from one
/// of them on, each as often as it was met.
pub open spec fn files_from(entries: Seq<ScannedEntryView>, from: int) -> Multiset<Seq<char>>
    decreases entries.len() - from,
{
    if from < 0 || from >= entries.len() {
        Multiset::empty()
    } else if entries[from].kind == EntryKind::File && entries[from].filename.is_some() {
        files_from(entries, from + 1).insert(entries[from].path)
    } else {
        files_from(entries, from + 1)
    }
}

/// The paths of the regular files with a name below the directories that
/// count, from one of them on: each file once for every directory that
/// reaches it.
pub open spec fn files_under(
    roots: Seq<ScannedRootView>,
    directories: Seq<Seq<char>>,
    from: int,
) -> Multiset<Seq<char>>
    decreases roots.len() - from,
{
    if from < 0 || from >= roots.len() {
        Multiset::empty()
    } else if root_counts(roots[from], directories) {
        files_from(roots[from].entries, 0).add(files_under(roots, directories, from + 1))
    } else {
        files_under(roots, directories, from + 1)
    }
}

/// The entries of a directory put their files into the index, each under
/// its three keys, and nothing else.
pub proof fn lemma_entries_indexed(
    c: MediaIndexCacheView,
    entries: Seq<ScannedEntryView>,
    directory: Seq<char>,
    from: int,
)
    requires
        balanced(c),
        0 <= from,
    ensures
        match entries_from(c, entries, directory, from) {
            Ok(after) => balanced(after) && all_paths(after.by_lower) == all_paths(c.by_lower).add(
                files_from(entries, from),
            ),
            Err(_) => true,
        },
    decreases entries.len() - from,
{
    if from < entries.len() && entries[from].elapsed <= MEDIA_INDEX_TIMEOUT {
        let e = entries[from];
        let next = scanned(c, e.kind, e.filename, e.path);
        if e.kind == EntryKind::File && e.filename.is_some() {
            lemma_index_stays_balanced(c, e.filename.unwrap(), e.path);
        }
        lemma_entries_indexed(next, entries, directory, from + 1);
        match entries_from(c, entries, directory, from) {
            Ok(after) => {
                assert(all_paths(after.by_lower) =~= all_paths(c.by_lower).add(
                    files_from(entries, from),
                ));
            },
            Err(_) => {},
        }
    } else if from >= entries.len() {
        assert(all_paths(c.by_lower).add(Multiset::empty()) =~= all_paths(c.by_lower));
    }
}

/// A walk that ends well leaves an index whose three mappings hold the
/// same paths: those of the regular files with a name below the
/// directories that count, each once for every directory that reaches it.
pub proof fn lemma_walk_indexed(
    c: MediaIndexCacheView,
    roots: Seq<ScannedRootView>,
    directories: Seq<Seq<char>>,
    from: int,
)
    requires
        balanced(c),
        0 <= from,
    ensures
        match walk_from(c, roots, directories, from) {
            Ok(after) => balanced(after) && all_paths(after.by_lower) == all_paths(c.by_lower).add(
                files_under(roots, directories, from),
            ),
            Err(_) => true,
        },
    decreases roots.len() - from,
{
    if from < roots.len() {
        if root_counts(roots[from], directories) {
            lemma_entries_indexed(c, roots[from].entries, roots[from].directory, 0);
            match entries_from(c, roots[from].entries, roots[from].directory, 0) {
                Ok(mid) => {
                    lemma_walk_indexed(mid, roots, directories, from + 1);
                    match walk_from(mid, roots, directories, from + 1) {
                        Ok(after) => {
                            assert(all_paths(after.by_lower) =~= all_paths(c.by_lower).add(
                                files_under(roots, directories, from),
                            ));
                        },
                        Err(_) => {},
                    }
                },
                Err(_) => {},
            }
        } else {
            lemma_walk_indexed(c, roots, directories, from + 1);
        }
    } else {
        assert(all_paths(c.by_lower).add(Multiset::empty()) =~= all_paths(c.by_lower));
    }
}

/// The index of a scan that ends well holds, under each of its three
/// kinds of key, exactly the regular files with a name that the walk met
/// below the media directories that are directories.
pub proof fn lemma_scan_indexes_the_files(
    directories: Seq<Seq<char>>,
    roots: Seq<ScannedRootView>,
)
    ensures
        match scan_outcome(directories, roots) {
            Ok(c) => {
                &&& balanced(c)
                &&& all_paths(c.by_lower) == files_under(roots, cleaned(directories), 0)
                &&& all_paths(c.by_stripped) == files_under(roots, cleaned(directories), 0)
                &&& all_paths(c.by_hash) == files_under(roots, cleaned(directories), 0)
            },
            Err(_) => true,
        },
{
    assert(all_paths(empty_index().by_lower) =~= Multiset::empty());
    assert(balanced(empty_index()));
    lemma_walk_indexed(empty_index(), roots, cleaned(directories), 0);
    match scan_outcome(directories, roots) {
        Ok(c) => {
            assert(Multiset::<Seq<char>>::empty().add(files_under(roots, cleaned(directories), 0))
                =~= files_under(roots, cleaned(directories), 0));
        },
        Err(_) => {},
    }
}

fn counts(root: &ScannedRoot, directories: &Vec<String>) -> (r: bool)
    ensures
        r == root_counts(root@, directories.deep_view()),
{
    proof {
        lemma_first_index_of(directories.deep_view(), root.directory@);
    }
    if !root.is_dir {
        return false;
    }
    match crate::text::index_of_text(directories.as_slice(), root.directory.as_str()) {
        Some(i) => {
            assert(directories.deep_view()[i as int] == root.directory@);
            true
        },
        None => false,
    }
}

fn first_look(tree: &Vec<ScannedRoot>, directories: &Vec<String>) -> (r: Result<(), ScanError>)
    ensures
        check_outcome(r) == first_look_from(root_views(tree@), directories.deep_view(), 0),
{
    let ghost roots = root_views(tree@);
    let ghost dirs = directories.deep_view();
    let mut i: usize = 0;
    while i < tree.len()
        invariant
            i <= tree.len(),
            roots == root_views(tree@),
            dirs == directories.deep_view(),
            first_look_from(roots, dirs, 0) == first_look_from(roots, dirs, i as int),
        decreases tree.len() - i,
    {
        assert(roots[i as int] == tree@[i as int]@);
        if counts(&tree[i], directories) {
            if !tree[i].readable {
                return Err(ScanError::Io);
            }
            match check_first_entry(tree[i].directory.as_str(), tree[i].first_entry_time) {
                Ok(_) => {},
                Err(e) => {
                    return Err(e);
                },
            }
        }
        i = i + 1;
    }
    Ok(())
}

fn index_entries(cache: &mut MediaIndexCache, root: &ScannedRoot) -> (r: Result<(), ScanError>)
    requires
        old(cache).wf(),
    ensures
        match r {
            Ok(_) => entries_from(old(cache)@, root@.entries, root@.directory, 0) == Ok::<
                MediaIndexCacheView,
                ScanErrorView,
            >(final(cache)@),
            Err(e) => entries_from(old(cache)@, root@.entries, root@.directory, 0) == Err::<
                MediaIndexCacheView,
                ScanErrorView,
            >(e@),
        },
        final(cache).wf(),
{
    let ghost start = cache@;
    let ghost entries = root@.entries;
    let ghost directory = root@.directory;
    let mut j: usize = 0;
    while j < root.entries.len()
        invariant
            j <= root.entries.len(),
            entries == scanned_views(root.entries@),
            entries == root@.entries,
            directory == root@.directory,
            start == old(cache)@,
            cache.wf(),
            entries_from(start, entries, directory, 0) == entries_from(
                cache@,
                entries,
                directory,
                j as int,
            ),
        decreases root.entries.len() - j,
    {
        let e = &root.entries[j];
        assert(entries[j as int] == e@);
        match check_scan_time(root.directory.as_str(), e.elapsed) {
            Ok(_) => {},
            Err(err) => {
                assert(entries_from(cache@, entries, directory, j as int) == Err::<
                    MediaIndexCacheView,
                    ScanErrorView,
                >(err@));
                return Err(err);
            },
        }
        let name: Option<&str> = match &e.filename {
            Some(n) => Some(n.as_str()),
            None => None,
        };
        let _ = scan_entry(cache, e.kind, name, e.path.as_str());
        j = j + 1;
    }
    Ok(())
}

pub open spec fn scan_view(r: Result<MediaIndexCache, ScanError>) -> Result<
    MediaIndexCacheView,
    ScanErrorView,
> {
    match r {
        Ok(c) => Ok(c@),
        Err(e) => Err(e@),
    }
}

/// Makes the index from what a walk through the media directories has
/// found, or tells why there is none. The walk itself, and the clock by
/// which its times were taken, are not part of this crate.
pub fn scan_directories(directories: &Vec<String>, tree: &Vec<ScannedRoot>) -> (r: Result<
    MediaIndexCache,
    ScanError,
>)
    ensures
        scan_view(r) == scan_outcome(directories.deep_view(), root_views(tree@)),
        match r {
            Ok(c) => c.wf() && all_paths(c@.by_lower) == files_under(
                root_views(tree@),
                cleaned(directories.deep_view()),
                0,
            ),
            Err(_) => true,
        },
{
    proof {
        lemma_scan_indexes_the_files(directories.deep_view(), root_views(tree@));
    }
    if directories.len() == 0 {
        assert(directories.deep_view().len() == 0);
        return Err(ScanError::NoDirectories);
    }
    assert(directories.deep_view().len() == directories@.len());
    let named = clean_directories(directories);
    match first_look(tree, &named) {
        Ok(_) => {},
        Err(e) => {
            return Err(e);
        },
    }
    let ghost roots = root_views(tree@);
    let ghost dirs = named.deep_view();
    let mut cache = MediaIndexCache::new();
    assert(cache@ =~= empty_index()) by {
        assert(cache@.by_lower =~= Seq::empty());
        assert(cache@.by_stripped =~= Seq::empty());
        assert(cache@.by_hash =~= Seq::empty());
    }
    let mut i: usize = 0;
    while i < tree.len()
        invariant
            i <= tree.len(),
            roots == root_views(tree@),
            dirs == named.deep_view(),
            cache.wf(),
            dirs == cleaned(directories.deep_view()),
            directories.deep_view().len() > 0,
            first_look_from(roots, dirs, 0).is_none(),
            walk_from(empty_index(), roots, dirs, 0) == walk_from(cache@, roots, dirs, i as int),
        decreases tree.len() - i,
    {
        assert(roots[i as int] == tree@[i as int]@);
        let ghost before = cache@;
        if counts(&tree[i], &named) {
            match index_entries(&mut cache, &tree[i]) {
                Ok(_) => {},
                Err(e) => {
                    assert(walk_from(before, roots, dirs, i as int) == Err::<
                        MediaIndexCacheView,
                        ScanErrorView,
                    >(e@));
                    return Err(e);
                },
            }
        }
        i = i + 1;
    }
    Ok(cache)
}

} // verus!
