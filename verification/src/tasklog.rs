use vstd::prelude::*;
use crate::clock::{now_parts, DateTimeParts};
use crate::render::{log_filename, log_filename_spec, log_line, log_line_spec};

verus! {

/// The lines of one calendar day's log file, keyed by the day number
/// `year * 10000 + month * 100 + day`.
pub struct DayLog {
    pub day_key: u64,
    pub lines: Vec<String>,
}

/// A model of the task log on disk: whether the log directory exists, and
/// the contents of each day's append-only file.  It states what one writer
/// step does to the on-disk log whenever the file system cooperates, so
/// what is proved of it holds of the real log under that condition.
pub struct LogStore {
    pub dir_created: bool,
    pub files: Vec<DayLog>,
}

impl LogStore {
    /// Each day has at most one file.
    pub open spec fn wf(self) -> bool {
        forall|i: int, j: int|
            0 <= i < j < self.files@.len() ==> (#[trigger] self.files@[i]).day_key != (
            #[trigger] self.files@[j]).day_key
    }

    /// Whether a file for `day_key` exists.
    pub open spec fn has_day(self, day_key: u64) -> bool {
        exists|i: int| 0 <= i < self.files@.len() && (#[trigger] self.files@[i]).day_key == day_key
    }

    /// The lines of the file for `day_key`, in order; empty when the file
    /// does not exist yet.
    pub open spec fn lines_of(self, day_key: u64) -> Seq<Seq<char>> {
        if self.has_day(day_key) {
            let i = choose|i: int|
                0 <= i < self.files@.len() && (#[trigger] self.files@[i]).day_key == day_key;
            self.files@[i].lines.deep_view()
        } else {
            Seq::empty()
        }
    }

    /// How one append call relates the model before it to the model after
    /// it: the directory exists afterwards (creating it is idempotent, so
    /// there is never a second one), the day's file carries its old lines
    /// with the new line appended, and every other day's file is untouched.
    pub open spec fn appended(pre: LogStore, post: LogStore, day_key: u64, line: Seq<char>) -> bool {
        &&& post.dir_created
        &&& post.has_day(day_key)
        &&& post.lines_of(day_key) == pre.lines_of(day_key).push(line)
        &&& forall|k: u64| k != day_key ==> #[trigger] post.lines_of(k) == pre.lines_of(k)
        &&& forall|k: u64| k != day_key ==> #[trigger] post.has_day(k) == pre.has_day(k)
    }

    /// An empty log: no directory yet, no files.
    pub fn new() -> (s: LogStore)
        ensures
            s.wf(),
            !s.dir_created,
            forall|k: u64| !(#[trigger] s.has_day(k)),
    {
        LogStore { dir_created: false, files: Vec::new() }
    }

    /// Appends one line to the day's file, creating the directory and the
    /// file as needed.
    pub fn append(&mut self, day_key: u64, line: String)
        requires
            old(self).wf(),
        ensures
            final (self).wf(),
            LogStore::appended(*old(self), *final (self), day_key, line@),
    {
        self.dir_created = true;
        match find_day(&self.files, day_key) {
            Some(i) => {
                let mut f = self.files.remove(i);
                f.lines.push(line);
                let ghost fg = f;
                self.files.push(f);
                proof {
                    let pre = *old(self);
                    pre.files@.remove_ensures(i as int);
                    let n = pre.files@.len() as int;
                    assert forall|a: int| 0 <= a < n implies #[trigger] self.files@[a] == (if a
                        < i {
                        pre.files@[a]
                    } else if a < n - 1 {
                        pre.files@[a + 1]
                    } else {
                        fg
                    }) by {
                        if a < n - 1 {
                            assert(self.files@[a] == pre.files@.remove(i as int)[a]);
                        }
                    }
                    lemma_append_shift(pre, *self, i as int, fg, day_key, line);
                }
            },
            None => {
                let mut lines: Vec<String> = Vec::new();
                lines.push(line);
                self.files.push(DayLog { day_key, lines });
                proof {
                    let pre = *old(self);
                    lemma_append_fresh(pre, *self, day_key, line);
                }
            },
        }
    }
}

/// Finds the file for a day, if one exists.
fn find_day(files: &Vec<DayLog>, day_key: u64) -> (r: Option<usize>)
    ensures
        match r {
            Some(i) => i < files@.len() && files@[i as int].day_key == day_key,
            None => forall|t: int|
                0 <= t < files@.len() ==> (#[trigger] files@[t]).day_key != day_key,
        },
{
    let n = files.len();
    let mut i: usize = 0;
    while i < n
        invariant
            n == files@.len(),
            i <= n,
            forall|t: int| 0 <= t < i ==> (#[trigger] files@[t]).day_key != day_key,
        decreases n - i,
    {
        if files[i].day_key == day_key {
            return Some(i);
        }
        i = i + 1;
    }
    None
}

/// In a well-formed store, the file at index `i` is the one and only file
/// for its day.
proof fn lemma_lines_of_at(s: LogStore, i: int)
    requires
        s.wf(),
        0 <= i < s.files@.len(),
    ensures
        s.has_day(s.files@[i].day_key),
        s.lines_of(s.files@[i].day_key) == s.files@[i].lines.deep_view(),
{
    let k = s.files@[i].day_key;
    assert(s.has_day(k));
    let j = choose|j: int| 0 <= j < s.files@.len() && (#[trigger] s.files@[j]).day_key == k;
    if i < j {
        assert(s.files@[i].day_key != s.files@[j].day_key);
        assert(false);
    } else if j < i {
        assert(s.files@[j].day_key != s.files@[i].day_key);
        assert(false);
    }
}

/// The append relation holds when the day already had a file at index `i`
/// and that file, with the new line pushed, moved to the end of the store.
proof fn lemma_append_shift(pre: LogStore, post: LogStore, i: int, f: DayLog, day_key: u64, line: String)
    requires
        pre.wf(),
        post.dir_created,
        0 <= i < pre.files@.len(),
        pre.files@[i].day_key == day_key,
        f.day_key == day_key,
        f.lines@ == pre.files@[i].lines@.push(line),
        post.files@.len() == pre.files@.len(),
        forall|a: int|
            0 <= a < post.files@.len() ==> #[trigger] post.files@[a] == (if a < i {
                pre.files@[a]
            } else if a < post.files@.len() - 1 {
                pre.files@[a + 1]
            } else {
                f
            }),
    ensures
        post.wf(),
        LogStore::appended(pre, post, day_key, line@),
{
    let n = pre.files@.len() as int;
    assert forall|a: int, b: int|
        0 <= a < b < n implies (#[trigger] post.files@[a]).day_key != (
    #[trigger] post.files@[b]).day_key by {
        if b < n - 1 {
            let a2 = if a < i { a } else { a + 1 };
            let b2 = if b < i { b } else { b + 1 };
            assert(pre.files@[a2].day_key != pre.files@[b2].day_key);
        } else {
            let a2 = if a < i { a } else { a + 1 };
            if a2 < i {
                assert(pre.files@[a2].day_key != pre.files@[i].day_key);
            } else {
                assert(pre.files@[i].day_key != pre.files@[a2].day_key);
            }
        }
    }
    assert(post.wf());
    assert(post.files@[n - 1] == f);
    assert(post.has_day(day_key));
    lemma_lines_of_at(post, n - 1);
    lemma_lines_of_at(pre, i);
    assert(f.lines.deep_view() =~= pre.files@[i].lines.deep_view().push(line.deep_view()));
    assert(post.lines_of(day_key) == pre.lines_of(day_key).push(line@));
    assert forall|k: u64|
        #![trigger post.lines_of(k)]
        #![trigger post.has_day(k)]
        k != day_key implies post.lines_of(k) == pre.lines_of(k) && post.has_day(k)
        == pre.has_day(k) by {
        if pre.has_day(k) {
            let j = choose|j: int|
                0 <= j < pre.files@.len() && (#[trigger] pre.files@[j]).day_key == k;
            lemma_lines_of_at(pre, j);
            let j2 = if j < i { j } else { j - 1 };
            assert(post.files@[j2] == pre.files@[j]);
            lemma_lines_of_at(post, j2);
        } else {
            if post.has_day(k) {
                let j = choose|j: int|
                    0 <= j < post.files@.len() && (#[trigger] post.files@[j]).day_key == k;
                if j < n - 1 {
                    let j2 = if j < i { j } else { j + 1 };
                    assert(pre.files@[j2].day_key == k);
                }
                assert(false);
            }
        }
    }
}

/// The append relation holds when the day had no file yet and a fresh file
/// holding the one line joined the end of the store.
proof fn lemma_append_fresh(pre: LogStore, post: LogStore, day_key: u64, line: String)
    requires
        pre.wf(),
        post.dir_created,
        forall|t: int| 0 <= t < pre.files@.len() ==> (#[trigger] pre.files@[t]).day_key != day_key,
        post.files@.len() == pre.files@.len() + 1,
        forall|a: int| 0 <= a < pre.files@.len() ==> #[trigger] post.files@[a] == pre.files@[a],
        post.files@[pre.files@.len() as int].day_key == day_key,
        post.files@[pre.files@.len() as int].lines@ == seq![line],
    ensures
        post.wf(),
        LogStore::appended(pre, post, day_key, line@),
{
    let n = pre.files@.len() as int;
    assert forall|a: int, b: int|
        0 <= a < b < n + 1 implies (#[trigger] post.files@[a]).day_key != (
    #[trigger] post.files@[b]).day_key by {
        if b < n {
            assert(pre.files@[a].day_key != pre.files@[b].day_key);
        } else {
            assert(pre.files@[a].day_key != day_key);
        }
    }
    assert(post.wf());
    assert(post.has_day(day_key));
    lemma_lines_of_at(post, n);
    if pre.has_day(day_key) {
        let t = choose|t: int|
            0 <= t < pre.files@.len() && (#[trigger] pre.files@[t]).day_key == day_key;
        assert(false);
    }
    assert(post.files@[n].lines.deep_view() =~= Seq::<Seq<char>>::empty().push(line@));
    assert(post.lines_of(day_key) == pre.lines_of(day_key).push(line@));
    assert forall|k: u64|
        #![trigger post.lines_of(k)]
        #![trigger post.has_day(k)]
        k != day_key implies post.lines_of(k) == pre.lines_of(k) && post.has_day(k)
        == pre.has_day(k) by {
        if pre.has_day(k) {
            let j = choose|j: int|
                0 <= j < pre.files@.len() && (#[trigger] pre.files@[j]).day_key == k;
            lemma_lines_of_at(pre, j);
            assert(post.files@[j] == pre.files@[j]);
            lemma_lines_of_at(post, j);
        } else {
            if post.has_day(k) {
                let j = choose|j: int|
                    0 <= j < post.files@.len() && (#[trigger] post.files@[j]).day_key == k;
                if j < n {
                    assert(pre.files@[j].day_key == k);
                }
                assert(false);
            }
        }
    }
}

/// The task-log writer is idempotent with respect to directory creation and
/// append-only within a day: two appends on the same day leave a single
/// directory and a single file for that day, and that file holds both
/// lines, in call order, after whatever was there before.
pub proof fn lemma_same_day_appends(
    pre: LogStore,
    mid: LogStore,
    post: LogStore,
    day_key: u64,
    first: Seq<char>,
    second: Seq<char>,
)
    requires
        LogStore::appended(pre, mid, day_key, first),
        LogStore::appended(mid, post, day_key, second),
    ensures
        post.dir_created,
        post.has_day(day_key),
        post.lines_of(day_key) == pre.lines_of(day_key).push(first).push(second),
{
}

/// The day number `year * 10000 + month * 100 + day` that keys a log file.
pub open spec fn day_key_spec(year: int, month: int, day: int) -> int {
    year * 10000 + month * 100 + day
}

/// One record ready to be written: the key of the day, the name of the
/// day's file, and the line to append to it.
pub struct LogEntry {
    pub day_key: u64,
    pub filename: String,
    pub line: String,
}

/// The field ranges that the clock promises of every reading.
pub open spec fn clock_ranges(t: DateTimeParts) -> bool {
    &&& 1 <= t.month <= 12
    &&& 1 <= t.day <= 31
    &&& t.hour < 24
    &&& t.minute < 60
    &&& t.second < 60
}

/// A clock reading whose year also fits a four-digit file name.
pub open spec fn loggable_date(t: DateTimeParts) -> bool {
    &&& clock_ranges(t)
    &&& 0 <= t.year <= 9999
}

/// Renders the record of a completed task from one clock reading: the
/// record is built exactly when the year fits four digits, and then the
/// day key, the file name `YYYYMMDD.txt` and the line `HH:MM:SS | <task>`
/// are the exact renderings of that reading.
pub fn log_entry_for_parts(t: DateTimeParts, task: &str) -> (r: Option<LogEntry>)
    requires
        clock_ranges(t),
    ensures
        0 <= t.year <= 9999 ==> match r {
            Some(e) => {
                &&& e.day_key == day_key_spec(t.year as int, t.month as int, t.day as int)
                &&& e.filename@ == log_filename_spec(t.year as int, t.month as int, t.day as int)
                &&& e.line@ == log_line_spec(t.hour as int, t.minute as int, t.second as int, task@)
            },
            None => false,
        },
        !(0 <= t.year <= 9999) ==> r is None,
{
    if t.year < 0 || t.year > 9999 {
        return None;
    }
    let y = t.year as u64;
    let filename = log_filename(y, t.month, t.day);
    let line = log_line(t.hour, t.minute, t.second, task);
    let day_key = y * 10000 + t.month * 100 + t.day;
    Some(LogEntry { day_key, filename, line })
}

/// Reads the wall clock and renders the record of a just-completed task
/// through `log_entry_for_parts`.  Whatever moment the clock returned,
/// both strings are the exact renderings for that moment; only a year
/// outside four digits leaves the record unbuilt.
pub fn log_entry_for_now(task: &str) -> (r: Option<LogEntry>)
    ensures
        match r {
            Some(e) => exists|t: DateTimeParts|
                {
                    &&& #[trigger] loggable_date(t)
                    &&& e.day_key == day_key_spec(t.year as int, t.month as int, t.day as int)
                    &&& e.filename@ == log_filename_spec(
                        t.year as int,
                        t.month as int,
                        t.day as int,
                    )
                    &&& e.line@ == log_line_spec(
                        t.hour as int,
                        t.minute as int,
                        t.second as int,
                        task@,
                    )
                },
            None => exists|t: DateTimeParts|
                #[trigger] clock_ranges(t) && (t.year < 0 || t.year > 9999),
        },
{
    let t = now_parts();
    let r = log_entry_for_parts(t, task);
    proof {
        if 0 <= t.year <= 9999 {
            assert(loggable_date(t));
        } else {
            assert(clock_ranges(t) && (t.year < 0 || t.year > 9999));
        }
    }
    r
}

} // verus!
