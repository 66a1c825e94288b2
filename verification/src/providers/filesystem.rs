//! The filesystem resource provider: the sandbox, the listing and reading of
//! files, and the table of active watches. The file system itself is reached
//! by the caller, who hands in what it answered.

use crate::providers::{IoFailure, IoFailureKind, ResourceError, ResourceErrorView};
use crate::text::{chars_of, concat, concat4, matches_at, str_eq, string_of_range};
use crate::types::{
    opt_text, Resource, ResourceContents, ResourceContentsView, ResourceView, TextResourceContents,
};
use std::path::Path;
use vstd::prelude::*;

verus! {

/// What `Path::join` gives for `base` and `rel`.
pub uninterp spec fn joined_path(base: Seq<char>, rel: Seq<char>) -> Seq<char>;

/// Whether `Path::starts_with` holds of `path` and `base`: whether the
/// components of `base` are the first components of `path`.
pub uninterp spec fn path_within(path: Seq<char>, base: Seq<char>) -> bool;

/// What `Path::strip_prefix` gives for `path` and `base`: the rest of `path`
/// after the components of `base`, where there is such a rest.
pub uninterp spec fn path_relative(path: Seq<char>, base: Seq<char>) -> Option<Seq<char>>;

/// What `Url::from_file_path` gives for `path`, as text: the `file` address
/// of the path, where it has one.
pub uninterp spec fn file_url(path: Seq<char>) -> Option<Seq<char>>;

/// What `mime_guess` gives for `path`: the first media type known for its
/// extension, or the type of arbitrary bytes.
pub uninterp spec fn guessed_mime(path: Seq<char>) -> Seq<char>;

/// `Path::join`: `rel` resolved against `base`. The result is named, not
/// described.
#[verifier::external_body]
pub(crate) fn join_path(base: &str, rel: &str) -> (r: String)
    ensures
        r@ == joined_path(base@, rel@),
{
    Path::new(base).join(rel).to_string_lossy().into_owned()
}

/// `Path::starts_with`: whether `path` lies under `base`, component by
/// component. The result is named, not described.
#[verifier::external_body]
fn path_starts_with(path: &str, base: &str) -> (r: bool)
    ensures
        r == path_within(path@, base@),
{
    Path::new(path).starts_with(base)
}

/// `Path::strip_prefix`: `path` without its leading `base`, where `path`
/// starts with it. The result is named, not described.
#[verifier::external_body]
fn strip_base(path: &str, base: &str) -> (r: Option<String>)
    ensures
        opt_text(r) == path_relative(path@, base@),
{
    match Path::new(path).strip_prefix(base) {
        Ok(rest) => match rest.to_str() {
            Some(text) => Some(text.to_owned()),
            None => None,
        },
        Err(_) => None,
    }
}

/// `url::Url::from_file_path`, then the address as text. The result is
/// named, not described; the call fails for a path that is not absolute.
#[verifier::external_body]
fn file_url_of(path: &str) -> (r: Option<String>)
    ensures
        opt_text(r) == file_url(path@),
{
    match url::Url::from_file_path(path) {
        Ok(url) => Some(url.to_string()),
        Err(_) => None,
    }
}

/// `mime_guess::from_path` and `first_or_octet_stream`, then the media type
/// as text. The result is named, not described.
#[verifier::external_body]
fn guess_mime(path: &str) -> (r: String)
    ensures
        r@ == guessed_mime(path@),
{
    mime_guess::from_path(path).first_or_octet_stream().to_string()
}

/// The scheme that may stand before a path.
pub open spec fn file_scheme() -> Seq<char> {
    seq!['f', 'i', 'l', 'e', ':', '/', '/']
}

/// `path` without any `file://` at its start.
pub open spec fn without_scheme(path: Seq<char>) -> Seq<char>
    decreases path.len(),
{
    if crate::text::has_prefix(path, file_scheme()) {
        without_scheme(path.skip(7))
    } else {
        path
    }
}

/// `path` without any `file://` at its start.
pub fn strip_scheme(path: &str) -> (r: String)
    ensures
        r@ == without_scheme(path@),
{
    let chars = chars_of(path);
    let scheme = chars_of("file://");
    proof {
        reveal_strlit("file://");
        assert(scheme@ =~= file_scheme());
        assert(chars@.skip(0) =~= chars@);
    }
    let mut start: usize = 0;
    while matches_at(&chars, start, &scheme)
        invariant
            start <= chars.len(),
            scheme@ == file_scheme(),
            without_scheme(chars@) == without_scheme(chars@.skip(start as int)),
        decreases chars.len() - start,
    {
        assert(chars@.skip(start as int).skip(7) =~= chars@.skip(start + 7));
        start = start + 7;
    }
    assert(chars@.subrange(start as int, chars.len() as int) =~= chars@.skip(start as int));
    string_of_range(&chars, start, chars.len())
}

/// Whether `path` begins with `file://`.
pub fn has_scheme(path: &str) -> (r: bool)
    ensures
        r == crate::text::has_prefix(path@, file_scheme()),
{
    let chars = chars_of(path);
    let scheme = chars_of("file://");
    proof {
        reveal_strlit("file://");
        assert(scheme@ =~= file_scheme());
        assert(chars@.skip(0) =~= chars@);
    }
    matches_at(&chars, 0, &scheme)
}

/// The path that a request means, before the file system resolves it: the
/// root for `.`, and otherwise the request joined to the root.
pub open spec fn requested_path(root: Seq<char>, path: Seq<char>) -> Seq<char> {
    let plain = without_scheme(path);
    if plain == seq!['.'] {
        root
    } else {
        joined_path(root, plain)
    }
}

/// The text of the error for a resolved path that lies outside the root.
pub open spec fn outside_message(canonical: Seq<char>, root: Seq<char>) -> Seq<char> {
    "Path "@ + canonical + " is outside root directory "@ + root
}

/// What the sandbox decides of a path that the file system resolved to
/// `canonical`, or failed to resolve.
pub open spec fn sandbox_verdict(root: Seq<char>, canonical: Result<Seq<char>, Seq<char>>)
    -> Result<Seq<char>, ResourceErrorView> {
    match canonical {
        Err(e) => Err(ResourceErrorView::InvalidPath(e)),
        Ok(c) => if path_within(c, root) {
            Ok(c)
        } else {
            Err(ResourceErrorView::AccessDenied(outside_message(c, root)))
        },
    }
}

/// Whatever is asked for and however it is spelled, a path that resolves to a
/// place outside the root is refused as access denied.
pub proof fn lemma_outside_is_denied(root: Seq<char>, canonical: Seq<char>)
    requires
        !path_within(canonical, root),
    ensures
        sandbox_verdict(root, Ok(canonical)) == Err::<Seq<char>, ResourceErrorView>(
            ResourceErrorView::AccessDenied(outside_message(canonical, root)),
        ),
{
}

/// A resolved path that the sandbox has let through: it lies under the root
/// that it was checked against. Only `validate_path` makes one.
pub struct SandboxedPath {
    path: String,
    root: String,
}

impl SandboxedPath {
    #[verifier::type_invariant]
    spec fn inside(&self) -> bool {
        path_within(self.path@, self.root@)
    }

    /// The resolved path.
    pub closed spec fn text(&self) -> Seq<char> {
        self.path@
    }

    /// The root that the path was checked against.
    pub closed spec fn root(&self) -> Seq<char> {
        self.root@
    }

    /// The resolved path, which lies under the root.
    pub fn as_str(&self) -> (r: &str)
        ensures
            r@ == self.text(),
            path_within(self.text(), self.root()),
    {
        proof {
            use_type_invariant(self);
        }
        self.path.as_str()
    }
}

/// What the file system said of one entry of a directory.
#[derive(Debug, Clone, Copy, PartialEq, Eq, Structural)]
pub enum EntryKind {
    File,
    Directory,
    Other,
}

/// One entry of a directory as the file system gave it: its name, its path,
/// and its kind, or why the kind could not be had.
#[derive(Debug, PartialEq, Eq)]
pub struct DirEntry {
    pub name: String,
    pub path: String,
    pub kind: Result<EntryKind, IoFailure>,
}

/// What the file system said of a path that is to be read.
#[derive(Debug, PartialEq, Eq)]
pub enum FileProbe {
    /// Nothing could be learned of the path.
    Unreachable(IoFailure),
    /// The path names a directory.
    Directory,
    /// The path names a file, which was read, or failed to be.
    File(Result<String, IoFailure>),
}

/// The view of `FileProbe`: what the contracts see of it, with texts as sequences of
/// characters.
pub enum FileProbeView {
    Unreachable(IoFailureKind, Seq<char>),
    Directory,
    Text(Seq<char>),
    Unreadable(IoFailureKind, Seq<char>),
}

impl View for FileProbe {
    type V = FileProbeView;

    open spec fn view(&self) -> FileProbeView {
        match self {
            FileProbe::Unreachable(f) => FileProbeView::Unreachable(f.kind, f.message@),
            FileProbe::Directory => FileProbeView::Directory,
            FileProbe::File(Ok(text)) => FileProbeView::Text(text@),
            FileProbe::File(Err(f)) => FileProbeView::Unreadable(f.kind, f.message@),
        }
    }
}

/// The error for a file that could not be read.
pub open spec fn read_failure(path: Seq<char>, kind: IoFailureKind, message: Seq<char>)
    -> ResourceErrorView {
    match kind {
        IoFailureKind::NotFound => ResourceErrorView::NotFound("File not found: "@ + path),
        IoFailureKind::PermissionDenied => ResourceErrorView::AccessDenied(
            "Permission denied: "@ + path,
        ),
        IoFailureKind::Other => ResourceErrorView::IoError(message),
    }
}

/// The address of `path`, or the error for a path that has none.
pub open spec fn uri_of(path: Seq<char>) -> Result<Seq<char>, ResourceErrorView> {
    match file_url(path) {
        Some(uri) => Ok(uri),
        None => Err(ResourceErrorView::InvalidPath("Invalid file path"@)),
    }
}

/// The contents of the file at `path`, given what the file system said of
/// it. A directory has no contents; a file's contents are its text.
pub open spec fn file_contents(path: Seq<char>, probe: FileProbeView) -> Result<
    ResourceContentsView,
    ResourceErrorView,
> {
    match probe {
        FileProbeView::Unreachable(_, message) => Err(ResourceErrorView::IoError(message)),
        FileProbeView::Directory => Err(ResourceErrorView::InvalidPath("Path is a directory"@)),
        FileProbeView::Text(text) => match uri_of(path) {
            Ok(uri) => Ok(
                ResourceContentsView::Text { uri, mime_type: Some(guessed_mime(path)), text },
            ),
            Err(e) => Err(e),
        },
        FileProbeView::Unreadable(kind, message) => match uri_of(path) {
            Ok(_) => Err(read_failure(path, kind, message)),
            Err(e) => Err(e),
        },
    }
}

/// The path of an entry relative to the root; empty where it is not under
/// the root.
pub open spec fn relative_path(root: Seq<char>, path: Seq<char>) -> Seq<char> {
    match path_relative(path, root) {
        Some(rest) => rest,
        None => Seq::empty(),
    }
}

/// The view of `DirEntry`: what the contracts see of it, with texts as sequences of
/// characters.
pub struct DirEntryView {
    pub name: Seq<char>,
    pub path: Seq<char>,
    pub kind: Result<EntryKind, Seq<char>>,
}

impl View for DirEntry {
    type V = DirEntryView;

    open spec fn view(&self) -> DirEntryView {
        DirEntryView {
            name: self.name@,
            path: self.path@,
            kind: match self.kind {
                Ok(k) => Ok(k),
                Err(f) => Err(f.message@),
            },
        }
    }
}

/// The view of what the file system gave for one place in a directory: an
/// entry, or the text of a failure.
pub open spec fn slot_view(slot: Result<DirEntry, IoFailure>) -> Result<DirEntryView, Seq<char>> {
    match slot {
        Ok(entry) => Ok(entry@),
        Err(f) => Err(f.message@),
    }
}

/// The views of what the file system gave for a directory, place by place.
pub open spec fn slot_views(slots: Seq<Result<DirEntry, IoFailure>>) -> Seq<
    Result<DirEntryView, Seq<char>>,
> {
    slots.map_values(|s: Result<DirEntry, IoFailure>| slot_view(s))
}

/// The resource that stands for one place in a directory: the entry's name
/// and address, its path relative to the root as its description, and a media
/// type where it is a file.
pub open spec fn listed_resource(root: Seq<char>, slot: Result<DirEntryView, Seq<char>>) -> Result<
    ResourceView,
    ResourceErrorView,
> {
    match slot {
        Err(message) => Err(ResourceErrorView::IoError(message)),
        Ok(entry) => match entry.kind {
            Err(message) => Err(ResourceErrorView::IoError(message)),
            Ok(kind) => match uri_of(entry.path) {
                Err(e) => Err(e),
                Ok(uri) => Ok(
                    ResourceView {
                        name: entry.name,
                        uri,
                        description: Some(relative_path(root, entry.path)),
                        mime_type: if kind == EntryKind::File {
                            Some(guessed_mime(entry.path))
                        } else {
                            None
                        },
                        annotations: None,
                    },
                ),
            },
        },
    }
}

/// The listing of a directory: one resource for each place, in order, or the
/// error of the first place that has one.
pub open spec fn listed(root: Seq<char>, slots: Seq<Result<DirEntryView, Seq<char>>>) -> Result<
    Seq<ResourceView>,
    ResourceErrorView,
>
    decreases slots.len(),
{
    if slots.len() == 0 {
        Ok(Seq::empty())
    } else {
        match listed(root, slots.drop_last()) {
            Err(e) => Err(e),
            Ok(before) => match listed_resource(root, slots.last()) {
                Err(e) => Err(e),
                Ok(resource) => Ok(before.push(resource)),
            },
        }
    }
}

/// What an operation gives for a path that the sandbox let through: `inner`
/// where the path was checked against this provider's root, and a refusal
/// where it was checked against another.
pub open spec fn guarded<T>(
    root: Seq<char>,
    path: &SandboxedPath,
    inner: Result<T, ResourceErrorView>,
) -> Result<T, ResourceErrorView> {
    if path.root() == root {
        inner
    } else {
        Err(ResourceErrorView::AccessDenied(outside_message(path.text(), root)))
    }
}

/// The view of the outcome of reading one file.
pub open spec fn contents_result_view(r: Result<ResourceContents, ResourceError>) -> Result<
    ResourceContentsView,
    ResourceErrorView,
> {
    match r {
        Ok(c) => Ok(c@),
        Err(e) => Err(e@),
    }
}

/// The view of the outcome of a read.
pub open spec fn read_result_view(r: Result<Vec<ResourceContents>, ResourceError>) -> Result<
    Seq<ResourceContentsView>,
    ResourceErrorView,
> {
    match r {
        Ok(v) => Ok(crate::providers::contents_views(v@)),
        Err(e) => Err(e@),
    }
}

/// The view of the outcome of a listing.
pub open spec fn list_result_view(r: Result<Vec<Resource>, ResourceError>) -> Result<
    Seq<ResourceView>,
    ResourceErrorView,
> {
    match r {
        Ok(v) => Ok(crate::providers::resource_views(v@)),
        Err(e) => Err(e@),
    }
}

/// What reading a path gives: the contents of the file, as the only item.
pub open spec fn read_outcome(path: Seq<char>, probe: FileProbeView) -> Result<
    Seq<ResourceContentsView>,
    ResourceErrorView,
> {
    match file_contents(path, probe) {
        Ok(c) => Ok(seq![c]),
        Err(e) => Err(e),
    }
}

/// The view of what the file system gave for a directory.
pub open spec fn listing_view(listing: Result<Vec<Result<DirEntry, IoFailure>>, IoFailure>)
    -> Result<Seq<Result<DirEntryView, Seq<char>>>, Seq<char>> {
    match listing {
        Ok(slots) => Ok(slot_views(slots@)),
        Err(f) => Err(f.message@),
    }
}

/// What listing a directory gives, given what the file system gave for it.
pub open spec fn list_outcome(
    root: Seq<char>,
    listing: Result<Seq<Result<DirEntryView, Seq<char>>>, Seq<char>>,
) -> Result<Seq<ResourceView>, ResourceErrorView> {
    match listing {
        Ok(slots) => listed(root, slots),
        Err(message) => Err(ResourceErrorView::IoError(message)),
    }
}

/// Once a listing has failed, it stays failed however many places follow.
proof fn lemma_listed_error_stays(
    root: Seq<char>,
    slots: Seq<Result<DirEntryView, Seq<char>>>,
    n: int,
)
    requires
        0 <= n <= slots.len(),
    ensures
        listed(root, slots.subrange(0, n)) is Err ==> listed(root, slots) == listed(
            root,
            slots.subrange(0, n),
        ),
    decreases slots.len() - n,
{
    if listed(root, slots.subrange(0, n)) is Ok {
    } else if n < slots.len() {
        assert(slots.subrange(0, n + 1).drop_last() =~= slots.subrange(0, n));
        lemma_listed_error_stays(root, slots, n + 1);
    } else {
        assert(slots.subrange(0, n) =~= slots);
    }
}

/// One active watch: the path that is watched, and what keeps the watch
/// alive.
pub struct WatchEntry<W> {
    pub path: String,
    pub watcher: W,
}

/// The paths of a list of watches.
pub open spec fn watch_paths<W>(entries: Seq<WatchEntry<W>>) -> Seq<Seq<char>> {
    entries.map_values(|e: WatchEntry<W>| e.path@)
}

/// The active watches once a watch on `path` was asked for: unchanged where
/// the path is watched already or the watch could not be started, and with
/// `path` added otherwise.
pub open spec fn after_watch(watched: Seq<Seq<char>>, path: Seq<char>, started: bool) -> Seq<
    Seq<char>,
> {
    if watched.contains(path) || !started {
        watched
    } else {
        watched.push(path)
    }
}

/// The active watches once the watch on `path` was taken away.
pub open spec fn after_unwatch(watched: Seq<Seq<char>>, path: Seq<char>) -> Seq<Seq<char>> {
    if watched.contains(path) {
        watched.remove(watched.index_of(path))
    } else {
        watched
    }
}

/// How often `path` occurs among `watched`.
pub open spec fn count_watches(watched: Seq<Seq<char>>, path: Seq<char>) -> nat
    decreases watched.len(),
{
    if watched.len() == 0 {
        0
    } else {
        count_watches(watched.drop_last(), path) + if watched.last() == path {
            1nat
        } else {
            0nat
        }
    }
}

/// A path that does not occur is counted zero times.
pub proof fn lemma_count_absent(watched: Seq<Seq<char>>, path: Seq<char>)
    requires
        !watched.contains(path),
    ensures
        count_watches(watched, path) == 0,
    decreases watched.len(),
{
    if watched.len() > 0 {
        assert(watched.last() == watched[watched.len() - 1]);
        assert forall|k: int| 0 <= k < watched.drop_last().len() implies watched.drop_last()[k]
            != path by {
            assert(watched.drop_last()[k] == watched[k]);
        }
        lemma_count_absent(watched.drop_last(), path);
    }
}

/// Among paths that are all different, a path that occurs is counted once.
pub proof fn lemma_count_present(watched: Seq<Seq<char>>, path: Seq<char>)
    requires
        watched.no_duplicates(),
        watched.contains(path),
    ensures
        count_watches(watched, path) == 1,
    decreases watched.len(),
{
    let before = watched.drop_last();
    assert(before.no_duplicates()) by {
        assert forall|i: int, j: int| 0 <= i < before.len() && 0 <= j < before.len() && i != j
            implies before[i] != before[j] by {
            assert(before[i] == watched[i]);
            assert(before[j] == watched[j]);
        }
    }
    if watched.last() == path {
        if before.contains(path) {
            let k = choose|k: int| 0 <= k < before.len() && before[k] == path;
            assert(watched[k] == path);
            assert(watched[watched.len() - 1] == path);
        }
        lemma_count_absent(before, path);
    } else {
        let k = choose|k: int| 0 <= k < watched.len() && watched[k] == path;
        assert(before[k] == path);
        lemma_count_present(before, path);
    }
}

/// Watching is idempotent: a second watch on a path changes nothing, and
/// after the first that started the path is watched exactly once.
pub proof fn lemma_watch_twice(
    watched: Seq<Seq<char>>,
    path: Seq<char>,
    started_first: bool,
    started_second: bool,
)
    requires
        watched.no_duplicates(),
        started_first,
    ensures
        after_watch(after_watch(watched, path, started_first), path, started_second)
            == after_watch(watched, path, started_first),
        after_watch(watched, path, started_first).no_duplicates(),
        count_watches(after_watch(watched, path, started_first), path) == 1,
{
    let once = after_watch(watched, path, started_first);
    if !watched.contains(path) {
        assert(once[once.len() - 1] == path);
        assert forall|i: int, j: int| 0 <= i < once.len() && 0 <= j < once.len() && i != j
            implies once[i] != once[j] by {
            if i < watched.len() {
                assert(once[i] == watched[i]);
            }
            if j < watched.len() {
                assert(once[j] == watched[j]);
            }
        }
    }
    assert(once.contains(path));
    lemma_count_present(once, path);
}

/// The filesystem resource provider: a root directory that bounds what can
/// be reached, and the watches that are active. `W` is whatever keeps a
/// watch alive; the provider only holds it.
pub struct FileSystemProvider<W> {
    root_path: String,
    watchers: Vec<WatchEntry<W>>,
}

impl<W> FileSystemProvider<W> {
    #[verifier::type_invariant]
    spec fn well_formed(&self) -> bool {
        watch_paths(self.watchers@).no_duplicates()
    }

    /// The root directory.
    pub closed spec fn root(&self) -> Seq<char> {
        self.root_path@
    }

    /// The paths that are watched, in the order in which the watches began.
    pub closed spec fn watched(&self) -> Seq<Seq<char>> {
        watch_paths(self.watchers@)
    }

    /// A provider for the directory `root_path`, with no active watch.
    pub fn new(root_path: String) -> (r: Self)
        ensures
            r.root() == root_path@,
            r.watched() == Seq::<Seq<char>>::empty(),
    {
        let r = FileSystemProvider { root_path, watchers: Vec::new() };
        assert(r.watched() =~= Seq::<Seq<char>>::empty());
        r
    }

    /// The name of this kind of provider.
    pub fn name(&self) -> (r: &'static str)
        ensures
            r@ == "filesystem"@,
    {
        "filesystem"
    }

    /// The root directory.
    pub fn root_path(&self) -> (r: &str)
        ensures
            r@ == self.root(),
    {
        self.root_path.as_str()
    }

    /// The path that a request means, to be resolved by the file system: any
    /// `file://` at its start is dropped, `.` is the root itself, and
    /// anything else is joined to the root.
    pub fn resolve_path(&self, path: &str) -> (r: String)
        ensures
            r@ == requested_path(self.root(), path@),
    {
        let plain = strip_scheme(path);
        proof {
            reveal_strlit(".");
            assert("."@ =~= seq!['.']);
        }
        if str_eq(plain.as_str(), ".") {
            self.root_path.clone()
        } else {
            join_path(self.root_path.as_str(), plain.as_str())
        }
    }

    /// Lets a resolved path through if it lies under the root. `canonical` is
    /// what the file system resolved the requested path to, with links and
    /// `..` followed, or the text of its failure to do so.
    pub fn validate_path(&self, canonical: Result<String, String>) -> (r: Result<
        SandboxedPath,
        ResourceError,
    >)
        ensures
            match r {
                Ok(p) => canonical matches Ok(c) && sandbox_verdict(self.root(), Ok(c@)) == Ok::<
                    Seq<char>,
                    ResourceErrorView,
                >(p.text()) && p.root() == self.root(),
                Err(e) => match canonical {
                    Ok(c) => sandbox_verdict(self.root(), Ok(c@)) == Err::<
                        Seq<char>,
                        ResourceErrorView,
                    >(e@),
                    Err(m) => sandbox_verdict(self.root(), Err(m@)) == Err::<
                        Seq<char>,
                        ResourceErrorView,
                    >(e@),
                },
            },
            canonical matches Ok(c) && !path_within(c@, self.root()) ==> r matches Err(
                ResourceError::AccessDenied(_),
            ),
    {
        match canonical {
            Err(message) => Err(ResourceError::InvalidPath(message)),
            Ok(path) => {
                if path_starts_with(path.as_str(), self.root_path.as_str()) {
                    Ok(SandboxedPath { path, root: self.root_path.clone() })
                } else {
                    Err(
                        ResourceError::AccessDenied(
                            concat4(
                                "Path ",
                                path.as_str(),
                                " is outside root directory ",
                                self.root_path.as_str(),
                            ),
                        ),
                    )
                }
            },
        }
    }

    /// The refusal for a path that was checked against another root.
    fn foreign(&self, path: &SandboxedPath) -> (r: Option<ResourceError>)
        ensures
            match r {
                Some(e) => path.root() != self.root() && e@ == ResourceErrorView::AccessDenied(
                    outside_message(path.text(), self.root()),
                ),
                None => path.root() == self.root(),
            },
    {
        if str_eq(path.root.as_str(), self.root_path.as_str()) {
            None
        } else {
            Some(
                ResourceError::AccessDenied(
                    concat4(
                        "Path ",
                        path.path.as_str(),
                        " is outside root directory ",
                        self.root_path.as_str(),
                    ),
                ),
            )
        }
    }

    /// The `file` address of `path`.
    pub fn path_to_uri(&self, path: &str) -> (r: Result<String, ResourceError>)
        ensures
            match r {
                Ok(uri) => uri_of(path@) == Ok::<Seq<char>, ResourceErrorView>(uri@),
                Err(e) => uri_of(path@) == Err::<Seq<char>, ResourceErrorView>(e@),
            },
    {
        match file_url_of(path) {
            Some(uri) => Ok(uri),
            None => Err(ResourceError::InvalidPath("Invalid file path".to_owned())),
        }
    }

    /// The contents of the file at `path`, given what the file system said of
    /// it. The contents are always handed out as text.
    pub fn read_file_contents(&self, path: &SandboxedPath, probe: FileProbe) -> (r: Result<
        ResourceContents,
        ResourceError,
    >)
        ensures
            contents_result_view(r) == guarded(
                self.root(),
                path,
                file_contents(path.text(), probe@),
            ),
    {
        if let Some(e) = self.foreign(path) {
            return Err(e);
        }
        match probe {
            FileProbe::Unreachable(failure) => Err(ResourceError::IoError(failure.message)),
            FileProbe::Directory => Err(
                ResourceError::InvalidPath("Path is a directory".to_owned()),
            ),
            FileProbe::File(read) => {
                let uri = match self.path_to_uri(path.as_str()) {
                    Ok(uri) => uri,
                    Err(e) => {
                        return Err(e);
                    },
                };
                let mime_type = guess_mime(path.as_str());
                match read {
                    Ok(text) => Ok(
                        ResourceContents::Text(
                            TextResourceContents { uri, mime_type: Some(mime_type), text },
                        ),
                    ),
                    Err(failure) => match failure.kind {
                        IoFailureKind::NotFound => Err(
                            ResourceError::NotFound(concat("File not found: ", path.as_str())),
                        ),
                        IoFailureKind::PermissionDenied => Err(
                            ResourceError::AccessDenied(
                                concat("Permission denied: ", path.as_str()),
                            ),
                        ),
                        IoFailureKind::Other => Err(ResourceError::IoError(failure.message)),
                    },
                }
            },
        }
    }

    /// Reads the file at `path`, given what the file system said of it.
    pub fn read(&self, path: &SandboxedPath, probe: FileProbe) -> (r: Result<
        Vec<ResourceContents>,
        ResourceError,
    >)
        ensures
            read_result_view(r) == guarded(self.root(), path, read_outcome(path.text(), probe@)),
    {
        match self.read_file_contents(path, probe) {
            Ok(contents) => {
                let mut out: Vec<ResourceContents> = Vec::new();
                out.push(contents);
                assert(crate::providers::contents_views(out@) =~= seq![contents@]);
                Ok(out)
            },
            Err(e) => Err(e),
        }
    }

    /// Lists the directory at `dir`, given what the file system gave for it:
    /// its entries in the order in which they came, or its failure.
    pub fn list(
        &self,
        dir: &SandboxedPath,
        listing: Result<Vec<Result<DirEntry, IoFailure>>, IoFailure>,
    ) -> (r: Result<Vec<Resource>, ResourceError>)
        ensures
            list_result_view(r) == guarded(
                self.root(),
                dir,
                list_outcome(self.root(), listing_view(listing)),
            ),
    {
        if let Some(e) = self.foreign(dir) {
            return Err(e);
        }
        let slots = match listing {
            Ok(slots) => slots,
            Err(failure) => {
                return Err(ResourceError::IoError(failure.message));
            },
        };
        let ghost all = slot_views(slots@);
        let mut entries: Vec<Resource> = Vec::new();
        let mut i: usize = 0;
        assert(all.subrange(0, 0) =~= Seq::empty());
        assert(crate::providers::resource_views(entries@) =~= Seq::<ResourceView>::empty());
        while i < slots.len()
            invariant
                i <= slots.len(),
                all == slot_views(slots@),
                dir.root() == self.root(),
                listing_view(listing) == Ok::<Seq<Result<DirEntryView, Seq<char>>>, Seq<char>>(all),
                listed(self.root(), all.subrange(0, i as int)) == Ok::<
                    Seq<ResourceView>,
                    ResourceErrorView,
                >(crate::providers::resource_views(entries@)),
            decreases slots.len() - i,
        {
            proof {
                assert(all.subrange(0, i + 1).drop_last() =~= all.subrange(0, i as int));
                assert(all.subrange(0, i + 1).last() == slot_view(slots@[i as int]));
                lemma_listed_error_stays(self.root(), all, i + 1);
            }
            let entry = match &slots[i] {
                Ok(entry) => entry,
                Err(failure) => {
                    return Err(ResourceError::IoError(failure.message.clone()));
                },
            };
            let kind = match &entry.kind {
                Ok(kind) => *kind,
                Err(failure) => {
                    return Err(ResourceError::IoError(failure.message.clone()));
                },
            };
            let uri = match self.path_to_uri(entry.path.as_str()) {
                Ok(uri) => uri,
                Err(e) => {
                    return Err(e);
                },
            };
            let relative = self.get_relative_path(entry.path.as_str());
            let mime_type = match kind {
                EntryKind::File => Some(guess_mime(entry.path.as_str())),
                _ => None,
            };
            let resource = Resource {
                name: entry.name.clone(),
                uri,
                mime_type,
                description: Some(relative),
                annotations: None,
            };
            let ghost before = entries@;
            entries.push(resource);
            assert(crate::providers::resource_views(entries@)
                =~= crate::providers::resource_views(before).push(resource@));
            i = i + 1;
        }
        assert(all.subrange(0, slots.len() as int) =~= all);
        Ok(entries)
    }

    /// Where the watch on `path` stands in the table, if it is there.
    fn find_watch(&self, path: &str) -> (r: Option<usize>)
        ensures
            match r {
                Some(i) => i < self.watchers.len() && self.watched()[i as int] == path@,
                None => !self.watched().contains(path@),
            },
    {
        let mut i: usize = 0;
        while i < self.watchers.len()
            invariant
                i <= self.watchers.len(),
                forall|k: int| 0 <= k < i ==> self.watched()[k] != path@,
            decreases self.watchers.len() - i,
        {
            if str_eq(self.watchers[i].path.as_str(), path) {
                return Some(i);
            }
            i = i + 1;
        }
        None
    }

    /// Whether `path` is watched.
    pub fn is_watching(&self, path: &str) -> (r: bool)
        ensures
            r == self.watched().contains(path@),
    {
        self.find_watch(path).is_some()
    }

    /// Hands out the watches and leaves the table empty, to be filled again
    /// by the caller.
    fn take_watchers(&mut self) -> (r: Vec<WatchEntry<W>>)
        ensures
            r == old(self).watchers,
            final(self).watchers@ == Seq::<WatchEntry<W>>::empty(),
            final(self).root_path == old(self).root_path,
            watch_paths(r@).no_duplicates(),
    {
        proof {
            use_type_invariant(&*self);
        }
        let mut watchers: Vec<WatchEntry<W>> = Vec::new();
        std::mem::swap(&mut self.watchers, &mut watchers);
        watchers
    }

    /// Starts to watch `path`. Where the path is watched already, nothing
    /// changes and the call succeeds, whatever `watcher` is. Otherwise
    /// `watcher` is what setting up the watch gave: the watch is entered, or
    /// the failure is reported.
    pub fn watch(&mut self, path: &SandboxedPath, watcher: Result<W, String>) -> (r: Result<
        (),
        ResourceError,
    >)
        ensures
            final(self).root() == old(self).root(),
            path.root() != old(self).root() ==> {
                &&& final(self).watched() == old(self).watched()
                &&& r matches Err(e) && e@ == ResourceErrorView::AccessDenied(
                    outside_message(path.text(), old(self).root()),
                )
            },
            path.root() == old(self).root() ==> {
                &&& final(self).watched() == after_watch(
                    old(self).watched(),
                    path.text(),
                    watcher is Ok,
                )
                &&& r is Ok <==> old(self).watched().contains(path.text()) || watcher is Ok
                &&& r matches Err(e) ==> watcher matches Err(m) && e@
                    == ResourceErrorView::WatchError(m@)
            },
    {
        if let Some(e) = self.foreign(path) {
            return Err(e);
        }
        if self.is_watching(path.as_str()) {
            return Ok(());
        }
        match watcher {
            Err(message) => Err(ResourceError::WatchError(message)),
            Ok(watcher) => {
                let mut watchers = self.take_watchers();
                let ghost before = watchers@;
                watchers.push(WatchEntry { path: path.path.clone(), watcher });
                proof {
                    assert(watch_paths(watchers@) =~= watch_paths(before).push(path.text()));
                    lemma_watch_twice(watch_paths(before), path.text(), true, true);
                }
                self.watchers = watchers;
                Ok(())
            },
        }
    }

    /// Stops watching `path`. A path that is not watched is an error.
    pub fn unwatch(&mut self, path: &SandboxedPath) -> (r: Result<(), ResourceError>)
        ensures
            final(self).root() == old(self).root(),
            path.root() != old(self).root() ==> {
                &&& final(self).watched() == old(self).watched()
                &&& r matches Err(e) && e@ == ResourceErrorView::AccessDenied(
                    outside_message(path.text(), old(self).root()),
                )
            },
            path.root() == old(self).root() ==> {
                &&& final(self).watched() == after_unwatch(old(self).watched(), path.text())
                &&& !final(self).watched().contains(path.text())
                &&& r is Ok <==> old(self).watched().contains(path.text())
                &&& r matches Err(e) ==> e@ == ResourceErrorView::NotFound(
                    "No watcher found for path"@,
                )
            },
    {
        if let Some(e) = self.foreign(path) {
            return Err(e);
        }
        match self.find_watch(path.as_str()) {
            None => Err(ResourceError::NotFound("No watcher found for path".to_owned())),
            Some(i) => {
                let mut watchers = self.take_watchers();
                let ghost before = watch_paths(watchers@);
                watchers.remove(i);
                proof {
                    let after = watch_paths(watchers@);
                    assert(before.contains(path.text()));
                    assert(before.index_of(path.text()) == i);
                    assert(after =~= before.remove(i as int));
                    assert forall|a: int, b: int|
                        0 <= a < after.len() && 0 <= b < after.len() && a != b implies after[a]
                        != after[b] by {
                        let a2 = if a < i { a } else { a + 1 };
                        let b2 = if b < i { b } else { b + 1 };
                        assert(after[a] == before[a2]);
                        assert(after[b] == before[b2]);
                    }
                    assert forall|k: int| 0 <= k < after.len() implies after[k] != path.text() by {
                        let k2 = if k < i { k } else { k + 1 };
                        assert(after[k] == before[k2]);
                    }
                }
                self.watchers = watchers;
                Ok(())
            },
        }
    }

    /// `path` relative to the root; empty where it is not under the root.
    pub fn get_relative_path(&self, path: &str) -> (r: String)
        ensures
            r@ == relative_path(self.root(), path@),
    {
        match strip_base(path, self.root_path.as_str()) {
            Some(rest) => rest,
            None => String::new(),
        }
    }
}

} // verus!
