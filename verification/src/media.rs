//! The listing of the media folder.
//!
//! Walking the folder and looking up metadata is left to the caller: it
//! reports each entry of the walk as a [`Walked`], and the functions here
//! decide what is listed and when the scan fails.

use crate::extension::extension;
use crate::extension::extension_of;
use crate::extension::follows_final_dot;
use crate::extension::lemma_extension_follows_final_dot;
use crate::paths::file_name;
use crate::paths::final_component;
use crate::sequences::lemma_filter_map_permutation;
use vstd::prelude::*;

verus! {

/// The record of one file found under the media folder.
#[derive(Debug, Clone, PartialEq, Eq)]
pub struct MediaFile {
    /// The file's base name, extension included.
    pub name: String,
    /// The file's length in bytes when it was listed.
    pub size: u64,
    /// What follows the final `.` of `name`; empty if it has none.
    pub extension: String,
    /// The fully resolved path of the file, as the walk reported it.
    pub path: String,
}

/// The mathematical value of a [`MediaFile`].
pub struct MediaFileView {
    pub name: Seq<char>,
    pub size: u64,
    pub extension: Seq<char>,
    pub path: Seq<char>,
}

impl View for MediaFile {
    type V = MediaFileView;

    open spec fn view(&self) -> MediaFileView {
        MediaFileView {
            name: self.name@,
            size: self.size,
            extension: self.extension@,
            path: self.path@,
        }
    }
}

/// Whether the text can be the name of a file: it is not empty and holds no
/// `/`.
pub open spec fn is_file_name(name: Seq<char>) -> bool {
    name.len() > 0 && !name.contains('/')
}

impl MediaFileView {
    /// What every record of a listing satisfies: its name can be the name of
    /// a file and is the final component of its path, and its extension is
    /// that of the name.
    pub open spec fn wf(self) -> bool {
        &&& is_file_name(self.name)
        &&& self.name == final_component(self.path)
        &&& self.extension == extension_of(self.name)
    }
}

/// The kind of failure of a metadata lookup.
#[derive(Debug, Clone, Copy, PartialEq, Eq, Structural)]
pub enum FailureKind {
    /// Nothing was found at the path.
    NotFound,
    /// The path may not be looked at.
    PermissionDenied,
    /// The lookup was not made, as for an entry that is no regular file.
    NotRead,
    /// Any other failure.
    Other,
}

/// Why a metadata lookup gave no size: the kind of the failure, its number
/// and what the system said of it.
#[derive(Debug, Clone, PartialEq, Eq)]
pub struct LookupFailure {
    pub kind: FailureKind,
    /// The number that the operating system gave the failure, if it gave
    /// one.
    pub os_code: Option<i32>,
    pub message: String,
}

/// The mathematical value of a [`LookupFailure`].
pub struct FailedLookupView {
    pub kind: FailureKind,
    pub os_code: Option<i32>,
    pub message: Seq<char>,
}

impl View for LookupFailure {
    type V = FailedLookupView;

    open spec fn view(&self) -> FailedLookupView {
        FailedLookupView { kind: self.kind, os_code: self.os_code, message: self.message@ }
    }
}

/// What a metadata lookup gave.
#[derive(Debug, Clone, PartialEq, Eq)]
pub enum Lookup {
    /// The length in bytes of what was looked up.
    Size(u64),
    /// No length, and why.
    Failed(LookupFailure),
}

/// The mathematical value of a [`Lookup`].
pub enum LookupView {
    Size(u64),
    Failed(FailedLookupView),
}

impl View for Lookup {
    type V = LookupView;

    open spec fn view(&self) -> LookupView {
        match self {
            Lookup::Size(size) => LookupView::Size(*size),
            Lookup::Failed(failure) => LookupView::Failed(failure@),
        }
    }
}

/// What the walk of the media folder reports of one entry: that it could
/// not be read, or its path, whether it is a regular file, and what the
/// lookup of its metadata gave.
///
/// A regular file is only ever reported under a path that ends in what can
/// be the name of a file; see [`Walked::entry`].
#[derive(Debug, PartialEq, Eq)]
pub struct Walked {
    report: Report,
}

#[derive(Debug, Clone, PartialEq, Eq)]
enum Report {
    Unreadable,
    Entry { path: String, is_file: bool, metadata: Lookup },
}

/// The mathematical value of a [`Walked`].
pub enum WalkedView {
    Unreadable,
    Entry { path: Seq<char>, is_file: bool, metadata: LookupView },
}

impl View for Walked {
    type V = WalkedView;

    closed spec fn view(&self) -> WalkedView {
        match self.report {
            Report::Unreadable => WalkedView::Unreadable,
            Report::Entry { path, is_file, metadata } => WalkedView::Entry {
                path: path@,
                is_file,
                metadata: metadata@,
            },
        }
    }
}

impl Clone for Walked {
    fn clone(&self) -> (copy: Walked)
        ensures
            copy@ == self@,
    {
        proof {
            use_type_invariant(self);
        }
        match &self.report {
            Report::Unreadable => Walked { report: Report::Unreadable },
            Report::Entry { path, is_file, metadata } => {
                let metadata = match metadata {
                    Lookup::Size(size) => Lookup::Size(*size),
                    Lookup::Failed(failure) => Lookup::Failed(
                        LookupFailure {
                            kind: failure.kind,
                            os_code: failure.os_code,
                            message: failure.message.clone(),
                        },
                    ),
                };
                Walked { report: Report::Entry { path: path.clone(), is_file: *is_file, metadata } }
            },
        }
    }
}

impl Walked {
    #[verifier::type_invariant]
    spec fn names_its_file(self) -> bool {
        is_regular_file(self@) ==> self@.is_named_file()
    }

    /// The report of an entry that the walk could not read.
    pub fn unreadable() -> (walked: Walked)
        ensures
            walked@ == WalkedView::Unreadable,
    {
        Walked { report: Report::Unreadable }
    }

    /// The report of an entry that the walk read: its fully resolved path,
    /// whether it is a regular file, and so neither a directory, a symbolic
    /// link nor a special file, and what a metadata lookup at the entry gave.
    /// The lookup is looked at for regular files only.
    ///
    /// A regular file is found in a directory under a name, so its path ends
    /// in what can be the name of a file. Where the path of what is said to
    /// be a regular file does not, the entry is taken as one that the walk
    /// could not read.
    pub fn entry(path: String, is_file: bool, metadata: Lookup) -> (walked: Walked)
        ensures
            walked@ == if is_file && !is_file_name(final_component(path@)) {
                WalkedView::Unreadable
            } else {
                WalkedView::Entry { path: path@, is_file, metadata: metadata@ }
            },
    {
        if is_file {
            let name = file_name(path.as_str());
            if !can_name_a_file(name.as_str()) {
                return Walked { report: Report::Unreadable };
            }
        }
        Walked { report: Report::Entry { path, is_file, metadata } }
    }
}

/// The failure of a scan: the metadata of the regular file at `path` could
/// not be read, for the reason that `kind`, `os_code` and `message` give.
#[derive(Debug, Clone, PartialEq, Eq)]
pub struct ScanIOError {
    pub path: String,
    pub kind: FailureKind,
    pub os_code: Option<i32>,
    pub message: String,
}

/// The mathematical value of a [`ScanIOError`].
pub struct ScanIOErrorView {
    pub path: Seq<char>,
    pub kind: FailureKind,
    pub os_code: Option<i32>,
    pub message: Seq<char>,
}

impl View for ScanIOError {
    type V = ScanIOErrorView;

    open spec fn view(&self) -> ScanIOErrorView {
        ScanIOErrorView {
            path: self.path@,
            kind: self.kind,
            os_code: self.os_code,
            message: self.message@,
        }
    }
}

impl WalkedView {
    /// The failure that the entry brings on the scan, if any: that of the
    /// metadata lookup of a regular file.
    pub open spec fn failure(self) -> Option<ScanIOErrorView> {
        match self {
            WalkedView::Entry { path, is_file: true, metadata: LookupView::Failed(failure) } => Some(
                ScanIOErrorView {
                    path,
                    kind: failure.kind,
                    os_code: failure.os_code,
                    message: failure.message,
                },
            ),
            _ => None,
        }
    }

    /// Whether the entry makes the scan fail: it is a regular file whose
    /// metadata could not be read.
    pub open spec fn fails(self) -> bool {
        self.failure() is Some
    }

    /// Whether the entry is a regular file whose path ends in what can be
    /// the name of a file, as the path of a file found in a directory does.
    pub open spec fn is_named_file(self) -> bool {
        self matches WalkedView::Entry { path, is_file: true, .. } && is_file_name(
            final_component(path),
        )
    }

    /// The record that the entry contributes to the listing, if any: a
    /// regular file whose metadata was read and whose path ends in what can
    /// be the name of a file is listed under that name; nothing else is.
    pub open spec fn record(self) -> Option<MediaFileView> {
        match self {
            WalkedView::Entry { path, is_file: true, metadata: LookupView::Size(size) } => {
                if is_file_name(final_component(path)) {
                    Some(
                        MediaFileView {
                            name: final_component(path),
                            size,
                            extension: extension_of(final_component(path)),
                            path,
                        },
                    )
                } else {
                    None
                }
            },
            _ => None,
        }
    }
}

/// The values of the entries of a walk.
pub open spec fn walk_view(walk: Seq<Walked>) -> Seq<WalkedView> {
    walk.map_values(|entry: Walked| entry@)
}

/// The values of the records of a listing.
pub open spec fn listing_view(files: Seq<MediaFile>) -> Seq<MediaFileView> {
    files.map_values(|file: MediaFile| file@)
}

/// The records that a walk contributes, in the order of the walk.
pub open spec fn records(walk: Seq<WalkedView>) -> Seq<MediaFileView> {
    walk.filter_map(|entry: WalkedView| entry.record())
}

/// Whether `at` is the first entry of `walk` that makes the scan fail.
pub open spec fn is_first_failure(walk: Seq<WalkedView>, at: int) -> bool {
    &&& 0 <= at < walk.len()
    &&& walk[at].fails()
    &&& forall|j: int| 0 <= j < at ==> !walk[j].fails()
}

/// Whether no entry of `walk` makes the scan fail.
pub open spec fn no_failure(walk: Seq<WalkedView>) -> bool {
    forall|j: int| 0 <= j < walk.len() ==> !walk[j].fails()
}

/// Whether the path of every regular file of the walk ends in what can be
/// the name of a file.
pub open spec fn files_are_named(walk: Seq<WalkedView>) -> bool {
    forall|i: int|
        0 <= i < walk.len() && is_regular_file(#[trigger] walk[i]) ==> walk[i].is_named_file()
}

/// Whether the entry is a regular file.
pub open spec fn is_regular_file(entry: WalkedView) -> bool {
    entry matches WalkedView::Entry { is_file, .. } && is_file
}

/// The regular files of a walk, in the order of the walk.
pub open spec fn regular_files(walk: Seq<WalkedView>) -> Seq<WalkedView> {
    walk.filter(|entry: WalkedView| is_regular_file(entry))
}

/// What a record is compared by when two listings are held against each
/// other: its name, its size and its extension.
pub open spec fn key_of(record: MediaFileView) -> (Seq<char>, u64, Seq<char>) {
    (record.name, record.size, record.extension)
}

/// The keys of the records of a listing, in its order.
pub open spec fn keys(listing: Seq<MediaFileView>) -> Seq<(Seq<char>, u64, Seq<char>)> {
    listing.map_values(|record: MediaFileView| key_of(record))
}

/// Tells whether the text can be the name of a file.
pub fn can_name_a_file(name: &str) -> (can: bool)
    ensures
        can == is_file_name(name@),
{
    let mut empty = true;
    let mut slash = false;
    for c in it: name.chars()
        invariant
            it.seq() == name@,
            empty == (it.index() == 0),
            slash == name@.take(it.index()).contains('/'),
    {
        let ghost seen = it.index();
        proof {
            let before = name@.take(seen);
            let after = name@.take(seen + 1);
            assert(after.drop_last() == before);
            assert(after.last() == c);
            if before.contains('/') {
                let j = choose|j: int| 0 <= j < before.len() && before[j] == '/';
                assert(after[j] == '/');
            }
            if c == '/' {
                assert(after[seen] == '/');
            }
            if after.contains('/') && c != '/' {
                let j = choose|j: int| 0 <= j < after.len() && after[j] == '/';
                assert(before[j] == '/');
            }
        }
        empty = false;
        if c == '/' {
            slash = true;
        }
    }
    proof {
        assert(name@.take(name@.len() as int) == name@);
    }
    !empty && !slash
}

/// Takes one entry of the walk into the listing `files`.
///
/// An entry that the walk could not read and one that is no regular file
/// leave the listing as it is. A regular file whose metadata could not be
/// read fails the scan: the listing is left as it is, and the error holds the
/// file's path and the failure of the lookup. A regular file whose metadata
/// was read is added at the end, under the final component of its path.
pub fn visit_entry(files: &mut Vec<MediaFile>, entry: Walked) -> (result: Result<(), ScanIOError>)
    ensures
        is_regular_file(entry@) ==> entry@.is_named_file(),
        match result {
            Ok(()) => {
                &&& entry@.failure() is None
                &&& listing_view(final(files)@) == match entry@.record() {
                    Some(record) => listing_view(old(files)@).push(record),
                    None => listing_view(old(files)@),
                }
            },
            Err(e) => {
                &&& entry@.failure() == Some(e@)
                &&& *final(files) == *old(files)
            },
        },
{
    proof {
        use_type_invariant(&entry);
    }
    match entry.report {
        Report::Unreadable => Ok(()),
        Report::Entry { path, is_file, metadata } => {
            if !is_file {
                return Ok(());
            }
            match metadata {
                Lookup::Failed(failure) => Err(
                    ScanIOError {
                        path,
                        kind: failure.kind,
                        os_code: failure.os_code,
                        message: failure.message,
                    },
                ),
                Lookup::Size(size) => {
                    let name = file_name(path.as_str());
                    let extension = extension(name.as_str());
                    let file = MediaFile { name, size, extension, path };
                    files.push(file);
                    proof {
                        assert(listing_view(files@) == listing_view(old(files)@).push(file@));
                    }
                    Ok(())
                },
            }
        },
    }
}

/// Lists the regular files that a walk of the media folder reported.
///
/// The scan succeeds exactly when no regular file of the walk lacks its
/// metadata, and then lists each of its regular files once and nothing else,
/// in the order of the walk, with the size that the metadata gave. Otherwise
/// nothing is listed, and the error is that of the first regular file whose
/// metadata could not be read: its path and the failure of its lookup.
pub fn scan_media_files(walk: Vec<Walked>) -> (result: Result<Vec<MediaFile>, ScanIOError>)
    ensures
        result is Ok <==> no_failure(walk_view(walk@)),
        match result {
            Ok(files) => {
                &&& listing_view(files@) == records(walk_view(walk@))
                &&& files.len() == regular_files(walk_view(walk@)).len()
                &&& files_are_named(walk_view(walk@))
                &&& forall|k: int| 0 <= k < files.len() ==> (#[trigger] files[k])@.wf()
            },
            Err(e) => exists|at: int|
                {
                    &&& is_first_failure(walk_view(walk@), at)
                    &&& (#[trigger] walk_view(walk@)[at]).failure() == Some(e@)
                },
        },
{
    let ghost entries = walk_view(walk@);
    let mut files: Vec<MediaFile> = Vec::new();
    for entry in it: walk
        invariant
            walk_view(it.seq()) == entries,
            no_failure(entries.take(it.index())),
            files_are_named(entries.take(it.index())),
            listing_view(files@) == records(entries.take(it.index())),
    {
        let ghost seen = it.index();
        let ghost before = entries.take(seen);
        let ghost after = entries.take(seen + 1);
        proof {
            assert(entries[seen] == entry@);
            assert(after.drop_last() == before);
            assert(after.last() == entry@);
        }
        match visit_entry(&mut files, entry) {
            Ok(()) => {},
            Err(e) => {
                proof {
                    assert(is_first_failure(entries, seen)) by {
                        assert forall|j: int| 0 <= j < seen implies !entries[j].fails() by {
                            assert(before[j] == entries[j]);
                        }
                    }
                }
                return Err(e);
            },
        }
        proof {
            assert forall|j: int| 0 <= j < after.len() implies !after[j].fails() by {
                if j < seen {
                    assert(before[j] == after[j]);
                }
            }
            assert forall|j: int|
                0 <= j < after.len() && is_regular_file(
                    #[trigger] after[j],
                ) implies after[j].is_named_file() by {
                if j < seen {
                    assert(before[j] == after[j]);
                }
            }
        }
    }
    proof {
        assert(entries.take(entries.len() as int) == entries);
        lemma_records_wf(entries);
        lemma_scan_lists_every_file(entries);
        assert(listing_view(files@).len() == files@.len());
        assert forall|k: int| 0 <= k < files.len() implies (#[trigger] files[k])@.wf() by {
            assert(listing_view(files@)[k] == files[k]@);
        }
    }
    Ok(files)
}

/// Every record that a walk contributes has a name that can be the name of a
/// file and is the final component of its path, and the extension of that
/// name.
pub proof fn lemma_records_wf(walk: Seq<WalkedView>)
    ensures
        forall|k: int| 0 <= k < records(walk).len() ==> (#[trigger] records(walk)[k]).wf(),
    decreases walk.len(),
{
    if walk.len() > 0 {
        let rest = walk.drop_last();
        lemma_records_wf(rest);
        assert forall|k: int| 0 <= k < records(walk).len() implies (#[trigger] records(
            walk,
        )[k]).wf() by {
            if k < records(rest).len() {
                assert(records(walk)[k] == records(rest)[k]);
            } else {
                assert(walk.last().record() == Some(records(walk)[k]));
            }
        }
    }
}

/// A walk in which no metadata lookup failed, and which reports its regular
/// files under paths that end in file names, as the values of all [`Walked`]
/// do, yields one record for each of its regular files and no other: as many records as the walk has regular
/// files, the record at each place being that of the regular file at the same
/// place among them, with the file's path, the size that its metadata gave,
/// the final component of the path as its name, and as its extension what
/// follows the final `.` of the name, empty where the name has none.
pub proof fn lemma_scan_lists_every_file(walk: Seq<WalkedView>)
    requires
        no_failure(walk),
        files_are_named(walk),
    ensures
        records(walk).len() == regular_files(walk).len(),
        forall|k: int|
            0 <= k < records(walk).len() ==> {
                &&& (#[trigger] regular_files(walk)[k]) matches WalkedView::Entry {
                    path,
                    is_file: true,
                    metadata: LookupView::Size(size),
                }
                &&& records(walk)[k].path == path
                &&& records(walk)[k].size == size
                &&& records(walk)[k].name == final_component(path)
                &&& records(walk)[k].extension == extension_of(final_component(path))
                &&& follows_final_dot(final_component(path), records(walk)[k].extension)
            },
    decreases walk.len(),
{
    reveal(Seq::filter);
    assert forall|name: Seq<char>| #[trigger] follows_final_dot(name, extension_of(name)) by {
        lemma_extension_follows_final_dot(name);
    }
    if walk.len() > 0 {
        let rest = walk.drop_last();
        let last = walk.last();
        assert(no_failure(rest)) by {
            assert forall|j: int| 0 <= j < rest.len() implies !rest[j].fails() by {
                assert(rest[j] == walk[j]);
            }
        }
        assert(files_are_named(rest)) by {
            assert forall|i: int|
                0 <= i < rest.len() && is_regular_file(
                    #[trigger] rest[i],
                ) implies rest[i].is_named_file() by {
                assert(rest[i] == walk[i]);
            }
        }
        lemma_scan_lists_every_file(rest);
        assert(last == walk[walk.len() - 1]);
        assert(!last.fails());
        assert(is_regular_file(last) ==> last.is_named_file());
    }
}

/// Two walks that report the same entries, in whatever order, are scanned
/// alike: either both fail or neither does, and the records they contribute
/// are the same, counted without regard to order, both as whole records and
/// by name, size and extension.
pub proof fn lemma_scan_order_independent(first: Seq<WalkedView>, second: Seq<WalkedView>)
    requires
        first.to_multiset() == second.to_multiset(),
    ensures
        no_failure(first) <==> no_failure(second),
        records(first).to_multiset() == records(second).to_multiset(),
        keys(records(first)).to_multiset() == keys(records(second)).to_multiset(),
{
    lemma_failure_is_shared(first, second);
    lemma_failure_is_shared(second, first);
    lemma_filter_map_permutation(first, second, |entry: WalkedView| entry.record());
    let key = |entry: WalkedView|
        match entry.record() {
            Some(record) => Some(key_of(record)),
            None => None,
        };
    lemma_filter_map_permutation(first, second, key);
    lemma_keys_of_records(first);
    lemma_keys_of_records(second);
}

/// A failing entry of one walk fails every walk that reports the same
/// entries.
proof fn lemma_failure_is_shared(first: Seq<WalkedView>, second: Seq<WalkedView>)
    requires
        first.to_multiset() == second.to_multiset(),
    ensures
        no_failure(second) ==> no_failure(first),
{
    broadcast use vstd::seq_lib::group_to_multiset_ensures;

    if no_failure(second) {
        assert forall|i: int| 0 <= i < first.len() implies !first[i].fails() by {
            assert(first.contains(first[i]));
            assert(second.to_multiset().count(first[i]) > 0);
            assert(second.contains(first[i]));
        }
    }
}

/// The keys of the records of a walk are what is kept of the walk when each
/// entry is mapped to the key of its record.
proof fn lemma_keys_of_records(walk: Seq<WalkedView>)
    ensures
        keys(records(walk)) == walk.filter_map(
            |entry: WalkedView|
                match entry.record() {
                    Some(record) => Some(key_of(record)),
                    None => None,
                },
        ),
    decreases walk.len(),
{
    let key = |entry: WalkedView|
        match entry.record() {
            Some(record) => Some(key_of(record)),
            None => None,
        };
    if walk.len() == 0 {
        assert(keys(records(walk)) == walk.filter_map(key));
    } else {
        lemma_keys_of_records(walk.drop_last());
        assert(keys(records(walk)) == walk.filter_map(key));
    }
}

} // verus!
