//! Discovery of candidate audio files.
//!
//! The binary enumerates paths with a recursive glob; everything decided
//! about those paths lives here: which glob patterns to run, which paths
//! carry an allow-listed audio extension, and how a matched path is split
//! into its containing directory and its stem.
use vstd::prelude::*;
use vstd::string::StrSliceExecFns;
use vstd::string::StringExecFns;

use crate::text::ends_with;
use crate::text::find_last;
use crate::text::last_index_of;
use crate::text::str_ends_with;
use crate::text::views_of;

verus! {

/// One discovered candidate: the matched path, its containing directory and
/// its file name without the trailing extension.
pub struct FileRecord {
    pub path: String,
    pub directory: String,
    pub stem: String,
}

/// The prefix of `path` before its last separator, empty when `path` has no
/// separator.
pub open spec fn dir_of(path: Seq<char>) -> Seq<char> {
    let k = last_index_of(path, '/');
    if k >= 0 {
        path.take(k)
    } else {
        Seq::empty()
    }
}

/// The part of `path` after its last separator (the whole of `path` when it
/// has none).
pub open spec fn file_name_of(path: Seq<char>) -> Seq<char> {
    path.skip(last_index_of(path, '/') + 1)
}

/// The file name of `path` without its trailing extension. A leading dot
/// does not begin an extension, so a name that is nothing but `.` plus an
/// extension is kept whole.
pub open spec fn stem_of(path: Seq<char>) -> Seq<char> {
    let name = file_name_of(path);
    let j = last_index_of(name, '.');
    if j > 0 {
        name.take(j)
    } else {
        name
    }
}

/// A record is well formed when its directory and stem are the ones its path
/// determines.
pub open spec fn record_wf(r: FileRecord) -> bool {
    r.directory@ == dir_of(r.path@) && r.stem@ == stem_of(r.path@)
}

/// Splits a path into its containing directory and its stem.
pub fn split_path(path: &str) -> (r: (String, String))
    ensures
        r.0@ == dir_of(path@),
        r.1@ == stem_of(path@),
{
    let n = path.unicode_len();
    let (directory, name) = match find_last(path, '/') {
        Some(k) => (
            path.substring_char(0, k).to_owned(),
            path.substring_char(k + 1, n).to_owned(),
        ),
        None => (String::new(), path.to_owned()),
    };
    proof {
        assert(name@ =~= file_name_of(path@));
        assert(dir_of(path@) =~= directory@);
    }
    let stem = match find_last(name.as_str(), '.') {
        Some(j) if j > 0 => name.as_str().substring_char(0, j).to_owned(),
        _ => name,
    };
    (directory, stem)
}

/// Builds the record for one matched path.
pub fn record_for(path: String) -> (r: FileRecord)
    ensures
        r.path == path,
        record_wf(r),
{
    let (directory, stem) = split_path(path.as_str());
    FileRecord { path, directory, stem }
}

/// The fixed, case-sensitive allow-list of audio file extensions.
pub open spec fn allowed_extensions() -> Seq<Seq<char>> {
    seq!["aif"@, "aiff"@, "mp3"@, "flac"@, "ogg"@, "aac"@, "m4a"@, "wma"@]
}

/// True when `path` ends in a dot followed by an allow-listed extension.
pub open spec fn has_audio_extension(path: Seq<char>) -> bool {
    exists|i: int|
        0 <= i < allowed_extensions().len() && ends_with(
            path,
            seq!['.'] + allowed_extensions()[i],
        )
}

/// Each dotted extension literal is the dot followed by the bare extension.
proof fn lemma_dotted_extensions()
    ensures
        ".aif"@ == seq!['.'] + allowed_extensions()[0],
        ".aiff"@ == seq!['.'] + allowed_extensions()[1],
        ".mp3"@ == seq!['.'] + allowed_extensions()[2],
        ".flac"@ == seq!['.'] + allowed_extensions()[3],
        ".ogg"@ == seq!['.'] + allowed_extensions()[4],
        ".aac"@ == seq!['.'] + allowed_extensions()[5],
        ".m4a"@ == seq!['.'] + allowed_extensions()[6],
        ".wma"@ == seq!['.'] + allowed_extensions()[7],
{
    reveal_strlit("aif");
    reveal_strlit("aiff");
    reveal_strlit("mp3");
    reveal_strlit("flac");
    reveal_strlit("ogg");
    reveal_strlit("aac");
    reveal_strlit("m4a");
    reveal_strlit("wma");
    reveal_strlit(".aif");
    reveal_strlit(".aiff");
    reveal_strlit(".mp3");
    reveal_strlit(".flac");
    reveal_strlit(".ogg");
    reveal_strlit(".aac");
    reveal_strlit(".m4a");
    reveal_strlit(".wma");
    assert(".aif"@ =~= seq!['.'] + "aif"@);
    assert(".aiff"@ =~= seq!['.'] + "aiff"@);
    assert(".mp3"@ =~= seq!['.'] + "mp3"@);
    assert(".flac"@ =~= seq!['.'] + "flac"@);
    assert(".ogg"@ =~= seq!['.'] + "ogg"@);
    assert(".aac"@ =~= seq!['.'] + "aac"@);
    assert(".m4a"@ =~= seq!['.'] + "m4a"@);
    assert(".wma"@ =~= seq!['.'] + "wma"@);
}

/// Whether `path` carries one of the allow-listed audio extensions,
/// case-sensitively.
pub fn is_audio_path(path: &str) -> (r: bool)
    ensures
        r == has_audio_extension(path@),
{
    proof {
        lemma_dotted_extensions();
    }
    let r = str_ends_with(path, ".aif") || str_ends_with(path, ".aiff") || str_ends_with(
        path,
        ".mp3",
    ) || str_ends_with(path, ".flac") || str_ends_with(path, ".ogg") || str_ends_with(path, ".aac")
        || str_ends_with(path, ".m4a") || str_ends_with(path, ".wma");
    proof {
        if r {
            assert(has_audio_extension(path@));
        } else {
            assert(forall|i: int|
                0 <= i < allowed_extensions().len() ==> !ends_with(
                    path@,
                    seq!['.'] + #[trigger] allowed_extensions()[i],
                )) by {
                lemma_dotted_extensions();
            };
        }
    }
    r
}

/// The glob pattern that enumerates files under `dir` with extension `ext`.
pub open spec fn glob_pattern_of(dir: Seq<char>, ext: Seq<char>) -> Seq<char> {
    dir + "/**/*."@ + ext
}

/// The glob patterns for one run: one recursive pattern per allow-listed
/// extension, in the allow-list's order.
pub fn glob_patterns(dir: &str) -> (pats: Vec<String>)
    ensures
        pats@.len() == allowed_extensions().len(),
        forall|i: int|
            0 <= i < pats@.len() ==> pats@[i]@ == glob_pattern_of(
                dir@,
                #[trigger] allowed_extensions()[i],
            ),
{
    let exts = ["aif", "aiff", "mp3", "flac", "ogg", "aac", "m4a", "wma"];
    let mut pats: Vec<String> = Vec::new();
    let mut i: usize = 0;
    while i < 8
        invariant
            i <= 8,
            exts@.len() == 8,
            forall|j: int| 0 <= j < 8 ==> (#[trigger] exts@[j])@ == allowed_extensions()[j],
            pats@.len() == i,
            forall|j: int|
                0 <= j < i as int ==> pats@[j]@ == glob_pattern_of(
                    dir@,
                    #[trigger] allowed_extensions()[j],
                ),
        decreases 8 - i,
    {
        let mut p = dir.to_owned();
        p.append("/**/*.");
        p.append(exts[i]);
        pats.push(p);
        i = i + 1;
    }
    pats
}

/// The subsequence of `paths` that carries an allow-listed extension.
pub open spec fn audio_paths(paths: Seq<Seq<char>>) -> Seq<Seq<char>> {
    paths.filter(|p: Seq<char>| has_audio_extension(p))
}

/// Keeps exactly the paths with an allow-listed extension, in order, and
/// builds the record each determines. Paths with other extensions never
/// contribute a record.
pub fn select_audio(paths: &Vec<String>) -> (records: Vec<FileRecord>)
    ensures
        records@.len() == audio_paths(views_of(paths@)).len(),
        forall|i: int|
            0 <= i < records@.len() ==> (#[trigger] records@[i]).path@ == audio_paths(
                views_of(paths@),
            )[i] && record_wf(records@[i]),
{
    let ghost pv = views_of(paths@);
    let mut records: Vec<FileRecord> = Vec::new();
    let mut i: usize = 0;
    proof {
        assert(pv.take(0) =~= Seq::<Seq<char>>::empty());
        reveal(Seq::filter);
    }
    while i < paths.len()
        invariant
            i <= paths.len(),
            pv == views_of(paths@),
            records@.len() == audio_paths(pv.take(i as int)).len(),
            forall|j: int|
                0 <= j < records@.len() ==> (#[trigger] records@[j]).path@ == audio_paths(
                    pv.take(i as int),
                )[j] && record_wf(records@[j]),
        decreases paths.len() - i,
    {
        proof {
            reveal(Seq::filter);
            assert(pv.take(i as int + 1).drop_last() =~= pv.take(i as int));
            assert(pv.take(i as int + 1).last() == pv[i as int]);
        }
        if is_audio_path(paths[i].as_str()) {
            let record = record_for(paths[i].clone());
            records.push(record);
        }
        i = i + 1;
    }
    proof {
        assert(pv.take(paths@.len() as int) =~= pv);
    }
    records
}

/// Discovery completeness: filtering a list of candidate paths yields a
/// record for every path with an allow-listed extension and for nothing
/// else — every selected path comes from the candidates and matches the
/// allow-list, and every matching candidate is selected.
pub proof fn lemma_discovery_completeness(paths: Seq<Seq<char>>)
    ensures
        audio_paths(paths).len() <= paths.len(),
        forall|i: int|
            0 <= i < audio_paths(paths).len() ==> has_audio_extension(
                #[trigger] audio_paths(paths)[i],
            ) && paths.contains(audio_paths(paths)[i]),
        forall|j: int|
            0 <= j < paths.len() && has_audio_extension(#[trigger] paths[j]) ==> audio_paths(
                paths,
            ).contains(paths[j]),
{
    broadcast use vstd::seq_lib::group_filter_ensures;

    assert forall|i: int| 0 <= i < audio_paths(paths).len() implies paths.contains(
        audio_paths(paths)[i],
    ) by {
        paths.lemma_filter_contains_rev(
            |p: Seq<char>| has_audio_extension(p),
            audio_paths(paths)[i],
        );
        assert(audio_paths(paths).contains(audio_paths(paths)[i]));
    }
}

} // verus!
