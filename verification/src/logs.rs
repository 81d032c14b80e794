//! The log files of the game: where they lie and in which order they are
//! searched.
use vstd::prelude::*;
use vstd::string::{StrSliceExecFns, StringExecFns};

verus! {

/// The name of the process of the launcher.
pub const LAUNCHER_PROCESS: &'static str = "launcher.exe";

/// The name of the process of the game.
pub const GAME_PROCESS: &'static str = "Wuthering Waves.exe";

/// The log directory, seen from the directory of the launcher.
pub open spec fn launcher_log_dir_of(launcher_dir: Seq<char>) -> Seq<char> {
    launcher_dir + "\\Wuthering Waves Game\\Client\\Saved\\Logs"@
}

/// The log directory, seen from the directory of the game.
pub open spec fn game_log_dir_of(game_dir: Seq<char>) -> Seq<char> {
    game_dir + "\\Client\\Saved\\Logs"@
}

/// The log directory, seen from the directory of the launcher.
pub fn launcher_log_dir(launcher_dir: &str) -> (path: String)
    ensures
        path@ == launcher_log_dir_of(launcher_dir@),
{
    launcher_dir.to_owned().concat("\\Wuthering Waves Game\\Client\\Saved\\Logs")
}

/// The log directory, seen from the directory of the game.
pub fn game_log_dir(game_dir: &str) -> (path: String)
    ensures
        path@ == game_log_dir_of(game_dir@),
{
    game_dir.to_owned().concat("\\Client\\Saved\\Logs")
}

/// A directory that may hold the logs, and whether it exists.
#[derive(Debug)]
pub struct Candidate {
    pub path: String,
    pub exists: bool,
}

/// The mathematical value of a [`Candidate`].
pub struct CandidateView {
    pub path: Seq<char>,
    pub exists: bool,
}

impl View for Candidate {
    type V = CandidateView;

    open spec fn view(&self) -> CandidateView {
        CandidateView { path: self.path@, exists: self.exists }
    }
}

impl DeepView for Candidate {
    type V = CandidateView;

    open spec fn deep_view(&self) -> CandidateView {
        self@
    }
}

/// The last of the candidates that exists.
pub open spec fn last_existing(candidates: Seq<CandidateView>) -> Option<Seq<char>>
    decreases candidates.len(),
{
    if candidates.len() == 0 {
        None
    } else if candidates.last().exists {
        Some(candidates.last().path)
    } else {
        last_existing(candidates.drop_last())
    }
}

/// `last_existing` is the path of the candidate of the highest position
/// that exists; there is none exactly when no candidate exists.
pub proof fn lemma_last_existing(candidates: Seq<CandidateView>)
    ensures
        match last_existing(candidates) {
            Some(path) => exists|at: int|
                {
                    &&& 0 <= at < candidates.len()
                    &&& (#[trigger] candidates[at]).exists
                    &&& candidates[at].path == path
                    &&& forall|later: int|
                        at < later < candidates.len() ==> !(#[trigger] candidates[later]).exists
                },
            None => forall|at: int| 0 <= at < candidates.len() ==> !(#[trigger] candidates[at]).exists,
        },
    decreases candidates.len(),
{
    if candidates.len() > 0 {
        let last = candidates.len() - 1;
        if candidates.last().exists {
            assert(candidates[last] == candidates.last());
        } else {
            let earlier = candidates.drop_last();
            lemma_last_existing(earlier);
            match last_existing(earlier) {
                Some(path) => {
                    let at = choose|at: int|
                        {
                            &&& 0 <= at < earlier.len()
                            &&& (#[trigger] earlier[at]).exists
                            &&& earlier[at].path == path
                            &&& forall|later: int|
                                at < later < earlier.len() ==> !(#[trigger] earlier[later]).exists
                        };
                    assert(candidates[at] == earlier[at]);
                    assert forall|later: int| at < later < candidates.len() implies !(
                    #[trigger] candidates[later]).exists by {
                        if later < last {
                            assert(candidates[later] == earlier[later]);
                        }
                    }
                },
                None => {
                    assert forall|at: int| 0 <= at < candidates.len() implies !(
                    #[trigger] candidates[at]).exists by {
                        if at < last {
                            assert(candidates[at] == earlier[at]);
                        }
                    }
                },
            }
        }
    }
}

/// The log directory to use: the last one that exists among those found
/// through the launcher, and only where there is none, the last one that
/// exists among those found through the game itself.
pub open spec fn log_dir_of(
    by_launcher: Seq<CandidateView>,
    by_game: Seq<CandidateView>,
) -> Option<Seq<char>> {
    match last_existing(by_launcher) {
        Some(path) => Some(path),
        None => last_existing(by_game),
    }
}

/// Finds the last of the candidates that exists.
pub fn find_last_existing(candidates: &Vec<Candidate>) -> (found: Option<String>)
    ensures
        match last_existing(candidates.deep_view()) {
            Some(path) => found matches Some(name) && name@ == path,
            None => found is None,
        },
{
    let mut i: usize = candidates.len();
    assert(candidates.deep_view().take(i as int) =~= candidates.deep_view());
    while i > 0
        invariant
            i <= candidates.len(),
            last_existing(candidates.deep_view()) == last_existing(
                candidates.deep_view().take(i as int),
            ),
        decreases i,
    {
        i -= 1;
        proof {
            let seen = candidates.deep_view().take(i + 1);
            assert(seen.drop_last() =~= candidates.deep_view().take(i as int));
            assert(seen.last() == candidates[i as int]@);
        }
        if candidates[i].exists {
            return Some(candidates[i].path.clone());
        }
    }
    None
}

/// Chooses the log directory among the candidates found through the
/// launcher and those found through the game.
pub fn choose_log_dir(by_launcher: &Vec<Candidate>, by_game: &Vec<Candidate>) -> (found: Option<
    String,
>)
    ensures
        match log_dir_of(by_launcher.deep_view(), by_game.deep_view()) {
            Some(path) => found matches Some(name) && name@ == path,
            None => found is None,
        },
{
    match find_last_existing(by_launcher) {
        Some(path) => Some(path),
        None => find_last_existing(by_game),
    }
}

/// A log file and the time it was last modified, counted from a fixed
/// moment; a file whose time is unknown counts as modified at that moment.
#[derive(Debug)]
pub struct LogFile {
    pub path: String,
    pub modified: u128,
}

/// The mathematical value of a [`LogFile`].
pub struct LogFileView {
    pub path: Seq<char>,
    pub modified: u128,
}

impl View for LogFile {
    type V = LogFileView;

    open spec fn view(&self) -> LogFileView {
        LogFileView { path: self.path@, modified: self.modified }
    }
}

impl DeepView for LogFile {
    type V = LogFileView;

    open spec fn deep_view(&self) -> LogFileView {
        self@
    }
}

impl Clone for LogFile {
    fn clone(&self) -> (copy: Self)
        ensures
            copy == *self,
    {
        LogFile { path: self.path.clone(), modified: self.modified }
    }
}

/// An ordered list with one more file: the file stands behind every file
/// that is at least as new, and before every older one.
pub open spec fn placed(ordered: Seq<LogFileView>, file: LogFileView) -> Seq<LogFileView>
    decreases ordered.len(),
{
    if ordered.len() == 0 {
        seq![file]
    } else if ordered.last().modified >= file.modified {
        ordered.push(file)
    } else {
        placed(ordered.drop_last(), file).push(ordered.last())
    }
}

/// The files with the most recently modified first; files modified at the
/// same time keep the order they came in.
pub open spec fn newest_first_of(files: Seq<LogFileView>) -> Seq<LogFileView>
    decreases files.len(),
{
    if files.len() == 0 {
        Seq::empty()
    } else {
        placed(newest_first_of(files.drop_last()), files.last())
    }
}

/// Whether no file stands before one modified later.
pub open spec fn descending(files: Seq<LogFileView>) -> bool {
    forall|i: int, j: int| 0 <= i < j < files.len() ==> files[i].modified >= files[j].modified
}

/// Placing a file is putting it in at the one position that keeps the list
/// ordered and the file behind its equals.
pub proof fn lemma_placed_is_insert(ordered: Seq<LogFileView>, file: LogFileView, at: int)
    requires
        0 <= at <= ordered.len(),
        at > 0 ==> ordered[at - 1].modified >= file.modified,
        forall|i: int| at <= i < ordered.len() ==> ordered[i].modified < file.modified,
    ensures
        placed(ordered, file) == ordered.insert(at, file),
    decreases ordered.len(),
{
    if ordered.len() == 0 {
        assert(ordered.insert(at, file) =~= seq![file]);
    } else if ordered.last().modified >= file.modified {
        assert(at == ordered.len());
        assert(ordered.insert(at, file) =~= ordered.push(file));
    } else {
        assert(at < ordered.len());
        lemma_placed_is_insert(ordered.drop_last(), file, at);
        assert(ordered.insert(at, file) =~= ordered.drop_last().insert(at, file).push(
            ordered.last(),
        ));
    }
}

/// Placing a file keeps an ordered list ordered and adds the file to what
/// it holds, nothing else.
pub proof fn lemma_placed(ordered: Seq<LogFileView>, file: LogFileView)
    requires
        descending(ordered),
    ensures
        descending(placed(ordered, file)),
        placed(ordered, file).to_multiset() == ordered.to_multiset().insert(file),
        placed(ordered, file).len() == ordered.len() + 1,
    decreases ordered.len(),
{
    broadcast use vstd::seq_lib::group_to_multiset_ensures;

    if ordered.len() == 0 {
        assert(ordered =~= Seq::empty());
        assert(seq![file] =~= Seq::<LogFileView>::empty().push(file));
    } else if ordered.last().modified >= file.modified {
        assert forall|i: int, j: int| 0 <= i < j < ordered.push(file).len() implies ordered.push(
            file,
        )[i].modified >= ordered.push(file)[j].modified by {
            if j == ordered.len() {
                if i < ordered.len() - 1 {
                    assert(ordered[i].modified >= ordered[ordered.len() - 1].modified);
                }
            }
        }
    } else {
        let rest = ordered.drop_last();
        assert(descending(rest));
        lemma_placed(rest, file);
        let inner = placed(rest, file);
        let whole = inner.push(ordered.last());
        assert(ordered =~= rest.push(ordered.last()));
        assert forall|i: int, j: int| 0 <= i < j < whole.len() implies whole[i].modified
            >= whole[j].modified by {
            if j == inner.len() {
                // Every file of `inner` is `file` or a file of `rest`, and each is
                // at least as new as the last of `ordered`.
                assert(inner.to_multiset().count(inner[i]) > 0);
                if inner[i] != file {
                    assert(rest.to_multiset().count(inner[i]) > 0);
                    assert(rest.contains(inner[i]));
                    let k = rest.index_of(inner[i]);
                    assert(ordered[k].modified >= ordered[ordered.len() - 1].modified);
                }
            }
        }
        assert(whole.to_multiset() =~= ordered.to_multiset().insert(file));
    }
}

/// The order of search holds exactly the files given, each as often as it
/// was given, and none of them stands before one modified later.
pub proof fn lemma_newest_first(files: Seq<LogFileView>)
    ensures
        descending(newest_first_of(files)),
        newest_first_of(files).to_multiset() == files.to_multiset(),
        newest_first_of(files).len() == files.len(),
    decreases files.len(),
{
    broadcast use vstd::seq_lib::group_to_multiset_ensures;

    if files.len() == 0 {
        assert(files =~= Seq::empty());
    } else {
        lemma_newest_first(files.drop_last());
        lemma_placed(newest_first_of(files.drop_last()), files.last());
        assert(files =~= files.drop_last().push(files.last()));
    }
}

/// Whether a file was modified at the given time.
pub open spec fn modified_at(time: u128) -> spec_fn(LogFileView) -> bool {
    |file: LogFileView| file.modified == time
}

/// Placing a file puts it behind the files modified at the same time and
/// leaves the files of every other time as they stand.
pub proof fn lemma_placed_behind_equals(ordered: Seq<LogFileView>, file: LogFileView, time: u128)
    ensures
        placed(ordered, file).filter(modified_at(time)) == if file.modified == time {
            ordered.filter(modified_at(time)).push(file)
        } else {
            ordered.filter(modified_at(time))
        },
    decreases ordered.len(),
{
    reveal(Seq::filter);
    let at = modified_at(time);
    if ordered.len() == 0 {
        assert(seq![file].drop_last() =~= ordered);
        assert(seq![file].last() == file);
    } else if ordered.last().modified >= file.modified {
        assert(ordered.push(file).drop_last() =~= ordered);
    } else {
        let rest = ordered.drop_last();
        lemma_placed_behind_equals(rest, file, time);
        let whole = placed(rest, file).push(ordered.last());
        assert(whole.drop_last() =~= placed(rest, file));
        assert(whole.last() == ordered.last());
        assert(!at(ordered.last()) || file.modified != time);
    }
}

/// Files modified at the same time keep the order they came in.
pub proof fn lemma_newest_first_is_stable(files: Seq<LogFileView>, time: u128)
    ensures
        newest_first_of(files).filter(modified_at(time)) == files.filter(modified_at(time)),
    decreases files.len(),
{
    reveal(Seq::filter);
    if files.len() > 0 {
        lemma_newest_first_is_stable(files.drop_last(), time);
        lemma_placed_behind_equals(newest_first_of(files.drop_last()), files.last(), time);
    }
}

/// The paths of the files, in their order.
pub open spec fn paths_of(files: Seq<LogFileView>) -> Seq<Seq<char>> {
    files.map_values(|file: LogFileView| file.path)
}

/// Orders the log files for the search: the most recently modified first,
/// files modified at the same time in the order they came in.
pub fn newest_first(files: &Vec<LogFile>) -> (paths: Vec<String>)
    ensures
        paths.deep_view() == paths_of(newest_first_of(files.deep_view())),
{
    let mut ordered: Vec<LogFile> = Vec::new();
    let mut i: usize = 0;
    assert(files.deep_view().take(0) =~= Seq::empty());
    assert(ordered.deep_view() =~= Seq::empty());
    while i < files.len()
        invariant
            i <= files.len(),
            ordered.deep_view() == newest_first_of(files.deep_view().take(i as int)),
        decreases files.len() - i,
    {
        let file = files[i].clone();
        let mut at: usize = ordered.len();
        while at > 0 && ordered[at - 1].modified < file.modified
            invariant
                at <= ordered.len(),
                forall|k: int| at <= k < ordered.len() ==> ordered[k].modified < file.modified,
            decreases at,
        {
            at -= 1;
        }
        let ghost before = ordered.deep_view();
        let ghost kept = ordered@;
        ordered.insert(at, file);
        proof {
            let seen = files.deep_view().take(i + 1);
            assert(seen.drop_last() =~= files.deep_view().take(i as int));
            assert(seen.last() == file@);
            assert(before.len() == kept.len());
            assert forall|k: int| 0 <= k < kept.len() implies before[k] == kept[k]@ by {}
            lemma_placed_is_insert(before, file@, at as int);
            assert(ordered.deep_view() =~= before.insert(at as int, file@)) by {
                assert forall|k: int| 0 <= k < ordered.len() implies ordered.deep_view()[k]
                    == before.insert(at as int, file@)[k] by {
                    if k < at {
                        assert(ordered@[k] == kept[k]);
                    } else if k > at {
                        assert(ordered@[k] == kept[k - 1]);
                    }
                }
            }
        }
        i += 1;
    }
    assert(files.deep_view().take(i as int) =~= files.deep_view());
    let mut paths: Vec<String> = Vec::new();
    let mut j: usize = 0;
    while j < ordered.len()
        invariant
            j <= ordered.len(),
            paths.len() == j,
            forall|k: int| 0 <= k < j ==> paths[k]@ == ordered[k]@.path,
        decreases ordered.len() - j,
    {
        paths.push(ordered[j].path.clone());
        j += 1;
    }
    assert(paths.deep_view() =~= paths_of(ordered.deep_view()));
    paths
}

/// The part of a path that is shown for a log file: what follows the last
/// backslash, and for a path without one, what follows its first
/// character.
pub open spec fn shown_name_of(path: Seq<char>) -> Seq<char> {
    let cut = if path.contains('\\') {
        path.index_of_last('\\')->0 + 1
    } else {
        1
    };
    if cut <= path.len() {
        path.skip(cut)
    } else {
        Seq::empty()
    }
}

/// The part of a path that is shown for a log file.
pub fn shown_name(path: &str) -> (name: String)
    ensures
        name@ == shown_name_of(path@),
{
    let len = path.unicode_len();
    let mut at: usize = len;
    proof {
        path@.index_of_last_ensures('\\');
    }
    while at > 0 && path.get_char(at - 1) != '\\'
        invariant
            at <= len,
            len == path@.len(),
            forall|k: int| at <= k < len ==> path@[k] != '\\',
        decreases at,
    {
        at -= 1;
    }
    proof {
        path@.index_of_last_ensures('\\');
        if at > 0 {
            assert(path@[at - 1] == '\\');
            assert(path@.contains('\\'));
            assert(path@.index_of_last('\\')->0 == at - 1);
        } else {
            assert(!path@.contains('\\'));
        }
    }
    let cut: usize = if at > 0 {
        at
    } else {
        1
    };
    if cut <= len {
        let name = path.substring_char(cut, len);
        assert(name@ =~= path@.skip(cut as int));
        name.to_owned()
    } else {
        String::new()
    }
}

} // verus!
