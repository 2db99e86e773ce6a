//! A value model of one directory subtree, and the errors a scan of it can
//! surface.
//!
//! The scanner itself never touches the filesystem: a caller that walks the
//! real disk records what it saw as a [`DirListing`] — including the places
//! where listing a directory or probing an entry's type failed — and the
//! library decides, entirely over that value, which files are config files
//! and which failure (if any) ends the scan.

use vstd::prelude::*;

use crate::paths::join_path;
use crate::paths::join_spec;
use crate::paths::matches_config_name;
use crate::paths::name_matches;

verus! {

/// One entry of a directory, as the walk saw it.
#[derive(Debug)]
pub enum DirEntry {
    /// A plain file.
    File { name: String },
    /// A subdirectory, together with what listing it yielded.
    Subdir { name: String, listing: DirListing },
    /// An entry whose type probe succeeded but matched neither a plain file
    /// nor a directory (a special file, for instance).
    Other { name: String },
    /// An entry whose type probe itself failed.
    Unprobed { name: String },
}

/// What listing one directory yielded.
#[derive(Debug)]
pub enum DirListing {
    /// The directory does not exist.
    Missing,
    /// The directory exists but enumerating its entries failed.
    Unreadable,
    /// The directory's entries, in the order the walk produced them.
    Entries(Vec<DirEntry>),
}

/// A fatal failure of one scan, tagged with the offending path.
#[derive(Debug, Clone, PartialEq, Eq)]
pub enum ScanError {
    /// Enumerating the entries of the directory at `path` failed.
    ReadDirFailed { path: String },
    /// Probing the file type of the entry at `path` failed.
    FileTypeFailed { path: String },
}

/// The mathematical value of a [`ScanError`].
pub enum ScanErrorView {
    ReadDirFailed { path: Seq<char> },
    FileTypeFailed { path: Seq<char> },
}

impl View for ScanError {
    type V = ScanErrorView;

    open spec fn view(&self) -> ScanErrorView {
        match self {
            ScanError::ReadDirFailed { path } => ScanErrorView::ReadDirFailed { path: path@ },
            ScanError::FileTypeFailed { path } => ScanErrorView::FileTypeFailed { path: path@ },
        }
    }
}

/// The outcome of scanning the directory at `dir` whose listing is
/// `listing`: every config-format file path of the subtree, in pre-order
/// (a directory's own matching files before those of its subdirectories),
/// or the first failure met.
pub open spec fn spec_scan(pkl: bool, dir: Seq<char>, listing: DirListing) -> Result<
    Seq<Seq<char>>,
    ScanErrorView,
>
    decreases listing,
{
    match listing {
        DirListing::Missing => Ok(Seq::empty()),
        DirListing::Unreadable => Err(ScanErrorView::ReadDirFailed { path: dir }),
        DirListing::Entries(entries) => spec_scan_entries(pkl, dir, entries@),
    }
}

/// The outcome of scanning the entries of the directory at `dir`, in
/// order, concatenating their files; the first failure wins.
pub open spec fn spec_scan_entries(pkl: bool, dir: Seq<char>, entries: Seq<DirEntry>) -> Result<
    Seq<Seq<char>>,
    ScanErrorView,
>
    decreases entries,
{
    if entries.len() == 0 {
        Ok(Seq::empty())
    } else {
        spec_scan_combine(
            spec_scan_entry(pkl, dir, entries[0]),
            spec_scan_entries(pkl, dir, entries.drop_first()),
        )
    }
}

/// The outcome of one entry of the directory at `dir`: a matching file
/// contributes its path, a subdirectory contributes its whole scan, a
/// failed type probe is fatal, everything else contributes nothing.
pub open spec fn spec_scan_entry(pkl: bool, dir: Seq<char>, entry: DirEntry) -> Result<
    Seq<Seq<char>>,
    ScanErrorView,
>
    decreases entry,
{
    match entry {
        DirEntry::File { name } => if name_matches(pkl, name@) {
            Ok(seq![join_spec(dir, name@)])
        } else {
            Ok(Seq::empty())
        },
        DirEntry::Subdir { name, listing } => spec_scan(pkl, join_spec(dir, name@), listing),
        DirEntry::Other { name: _ } => Ok(Seq::empty()),
        DirEntry::Unprobed { name } => Err(
            ScanErrorView::FileTypeFailed { path: join_spec(dir, name@) },
        ),
    }
}

/// A missing directory is not an error: its scan succeeds with no files.
pub proof fn lemma_scan_missing(pkl: bool, dir: Seq<char>)
    ensures
        spec_scan(pkl, dir, DirListing::Missing) == Ok::<Seq<Seq<char>>, ScanErrorView>(
            Seq::empty(),
        ),
{
}

/// A directory whose entries cannot be enumerated fails its whole scan,
/// and the failure carries that directory's own path.
pub proof fn lemma_scan_unreadable(pkl: bool, dir: Seq<char>)
    ensures
        spec_scan(pkl, dir, DirListing::Unreadable) == Err::<Seq<Seq<char>>, ScanErrorView>(
            ScanErrorView::ReadDirFailed { path: dir },
        ),
{
}

/// A scan aggregates entry by entry: scanning the entries `s.push(e)`
/// scans `s` first and `e` after it, keeps the files of both in that
/// order, and surfaces the earlier of their failures.
pub proof fn lemma_scan_entries_snoc(pkl: bool, dir: Seq<char>, s: Seq<DirEntry>, e: DirEntry)
    ensures
        spec_scan_entries(pkl, dir, s.push(e)) == spec_scan_combine(
            spec_scan_entries(pkl, dir, s),
            spec_scan_entry(pkl, dir, e),
        ),
    decreases s.len(),
{
    if s.len() == 0 {
        assert(s.push(e)[0] == e);
        assert(s.push(e).drop_first() =~= s);
        match spec_scan_entry(pkl, dir, e) {
            Ok(t) => {
                assert(t + Seq::<Seq<char>>::empty() =~= Seq::<Seq<char>>::empty() + t);
            },
            Err(_) => {},
        }
    } else {
        assert(s.push(e)[0] == s[0]);
        assert(s.push(e).drop_first() =~= s.drop_first().push(e));
        lemma_scan_entries_snoc(pkl, dir, s.drop_first(), e);
        match spec_scan_entry(pkl, dir, s[0]) {
            Ok(h) => {
                match spec_scan_entries(pkl, dir, s.drop_first()) {
                    Ok(t1) => {
                        match spec_scan_entry(pkl, dir, e) {
                            Ok(t2) => {
                                assert(h + (t1 + t2) =~= (h + t1) + t2);
                            },
                            Err(_) => {},
                        }
                    },
                    Err(_) => {},
                }
            },
            Err(_) => {},
        }
    }
}

/// A failure met on a prefix of a directory's entries settles the scan of
/// all of them: nothing after the failing entry is reached.
pub proof fn lemma_scan_entries_err_prefix(pkl: bool, dir: Seq<char>, s: Seq<DirEntry>, i: int)
    requires
        0 <= i <= s.len(),
        spec_scan_entries(pkl, dir, s.take(i)) is Err,
    ensures
        spec_scan_entries(pkl, dir, s) == spec_scan_entries(pkl, dir, s.take(i)),
    decreases i,
{
    if i == 0 {
        assert(s.take(0) =~= Seq::<DirEntry>::empty());
    } else {
        assert(s.take(i)[0] == s[0]);
        assert(s.len() > 0);
        match spec_scan_entry(pkl, dir, s[0]) {
            Err(_) => {},
            Ok(_) => {
                assert(s.take(i).drop_first() =~= s.drop_first().take(i - 1));
                lemma_scan_entries_err_prefix(pkl, dir, s.drop_first(), i - 1);
            },
        }
    }
}

/// Joins the outcome of a scanned prefix with the outcome of what follows
/// it: the prefix's failure first, then the follower's, else the
/// concatenation of their files.
pub open spec fn spec_scan_combine(
    head: Result<Seq<Seq<char>>, ScanErrorView>,
    tail: Result<Seq<Seq<char>>, ScanErrorView>,
) -> Result<Seq<Seq<char>>, ScanErrorView> {
    match head {
        Err(e) => Err(e),
        Ok(h) => match tail {
            Err(e) => Err(e),
            Ok(t) => Ok(h + t),
        },
    }
}

/// Scans the directory at `dir` whose recorded listing is `listing`,
/// depth-first and pre-order, exactly as [`spec_scan`] describes.
pub(crate) fn scan_listing(pkl: bool, dir: &str, listing: &DirListing) -> (r: Result<
    Vec<String>,
    ScanError,
>)
    ensures
        (match r {
            Ok(files) => spec_scan(pkl, dir@, *listing) == Ok::<_, ScanErrorView>(
                files.deep_view(),
            ),
            Err(e) => spec_scan(pkl, dir@, *listing) == Err::<Seq<Seq<char>>, _>(e@),
        }),
    decreases *listing,
{
    match listing {
        DirListing::Missing => {
            let files: Vec<String> = Vec::new();
            proof {
                assert(files.deep_view() =~= Seq::<Seq<char>>::empty());
            }
            Ok(files)
        },
        DirListing::Unreadable => Err(ScanError::ReadDirFailed { path: dir.to_owned() }),
        DirListing::Entries(entries) => {
            let mut files: Vec<String> = Vec::new();
            let mut i: usize = 0;
            proof {
                assert(entries@.take(0) =~= Seq::<DirEntry>::empty());
                assert(files.deep_view() =~= Seq::<Seq<char>>::empty());
            }
            while i < entries.len()
                invariant
                    i <= entries@.len(),
                    *listing == DirListing::Entries(*entries),
                    spec_scan_entries(pkl, dir@, entries@.take(i as int)) == Ok::<
                        _,
                        ScanErrorView,
                    >(files.deep_view()),
                decreases entries@.len() - i,
            {
                let ghost pre = files.deep_view();
                let ghost done = entries@.take(i as int);
                let entry = &entries[i];
                match entry {
                    DirEntry::File { name } => {
                        if matches_config_name(pkl, name.as_str()) {
                            files.push(join_path(dir, name.as_str()));
                            proof {
                                assert(files.deep_view() =~= pre + seq![
                                    join_spec(dir@, name@),
                                ]);
                            }
                        } else {
                            proof {
                                assert(pre + Seq::<Seq<char>>::empty() =~= pre);
                            }
                        }
                    },
                    DirEntry::Subdir { name, listing: sub } => {
                        let sub_dir = join_path(dir, name.as_str());
                        proof {
                            assert(*entry == entries@[i as int]);
                            assert(listing->Entries_0 == *entries);
                            assert(decreases_to!(*listing => listing->Entries_0));
                            assert(decreases_to!(*entries => entries@));
                            assert(decreases_to!(entries@ => entries@[i as int]));
                            assert(entry->listing == *sub);
                            assert(decreases_to!(*entry => entry->listing));
                        }
                        match scan_listing(pkl, sub_dir.as_str(), sub) {
                            Ok(mut more) => {
                                let ghost got = more.deep_view();
                                files.append(&mut more);
                                proof {
                                    assert(files.deep_view() =~= pre + got);
                                }
                            },
                            Err(e) => {
                                proof {
                                    lemma_scan_entries_snoc(
                                        pkl,
                                        dir@,
                                        done,
                                        entries@[i as int],
                                    );
                                    assert(entries@.take(i as int + 1) =~= done.push(
                                        entries@[i as int],
                                    ));
                                    lemma_scan_entries_err_prefix(
                                        pkl,
                                        dir@,
                                        entries@,
                                        i as int + 1,
                                    );
                                }
                                return Err(e);
                            },
                        }
                    },
                    DirEntry::Other { name: _ } => {
                        proof {
                            assert(pre + Seq::<Seq<char>>::empty() =~= pre);
                        }
                    },
                    DirEntry::Unprobed { name } => {
                        let path = join_path(dir, name.as_str());
                        proof {
                            lemma_scan_entries_snoc(pkl, dir@, done, entries@[i as int]);
                            assert(entries@.take(i as int + 1) =~= done.push(
                                entries@[i as int],
                            ));
                            lemma_scan_entries_err_prefix(pkl, dir@, entries@, i as int + 1);
                        }
                        return Err(ScanError::FileTypeFailed { path });
                    },
                }
                proof {
                    lemma_scan_entries_snoc(pkl, dir@, done, entries@[i as int]);
                    assert(entries@.take(i as int + 1) =~= done.push(entries@[i as int]));
                }
                i += 1;
            }
            proof {
                assert(entries@.take(entries@.len() as int) =~= entries@);
            }
            Ok(files)
        },
    }
}

} // verus!
