//! The toolbar handler's document logic: watching the open file and
//! reloading it, debounced, when it changes on disk; the title a loaded file
//! gets; and the page that a reload returns to.

use vstd::prelude::*;

use crate::pdf_view::opt_view;

verus! {

/// What a look at the watched file found.
#[derive(Debug, Clone, Copy, PartialEq, Eq, Structural)]
pub enum FileStatus {
    /// The file's metadata cannot be read (it was removed or moved away).
    Missing,
    /// The metadata holds no modification time.
    NoModificationTime,
    /// The file was last modified at this time, in nanoseconds from the
    /// Unix epoch.
    Modified(i128),
}

/// Whether a look at the watched file that found `status` reloads the
/// document: only a modification time other than the one seen last does.
pub open spec fn reload_decision(watching: bool, last_mtime: Option<i128>, status: FileStatus) -> bool {
    watching && match status {
        FileStatus::Modified(t) => last_mtime != Some(t),
        _ => false,
    }
}

/// The generation that follows `g`; it wraps around after `u64::MAX`.
pub open spec fn next_generation(g: u64) -> u64 {
    if g == u64::MAX { 0 } else { (g + 1) as u64 }
}

/// The watch on the open document. `W` is the system's watch source, which
/// stops watching when it is dropped.
#[derive(Debug)]
pub struct FileWatch<W> {
    watch_source: Option<W>,
    watched_path: Option<String>,
    file_mtime: Option<i128>,
    reload_generation: u64,
}

impl<W> FileWatch<W> {
    /// The system watch source, if a file is watched.
    pub closed spec fn source_view(&self) -> Option<W> {
        self.watch_source
    }

    /// The path of the watched file.
    pub closed spec fn path_view(&self) -> Option<Seq<char>> {
        opt_view(self.watched_path)
    }

    /// The modification time of the file as last seen.
    pub closed spec fn mtime_view(&self) -> Option<i128> {
        self.file_mtime
    }

    /// The generation of the latest scheduled reload; a scheduled reload
    /// of an older generation is stale and does nothing when it fires.
    pub closed spec fn generation_view(&self) -> u64 {
        self.reload_generation
    }

    /// A path is watched exactly when a watch source runs, and a modification
    /// time is only known for a watched file.
    pub open spec fn wf(&self) -> bool {
        &&& (self.path_view() is Some <==> self.source_view() is Some)
        &&& (self.path_view() is None ==> self.mtime_view() is None)
    }

    /// Nothing is watched.
    pub open spec fn stopped(&self) -> bool {
        &&& self.source_view() is None
        &&& self.path_view() is None
        &&& self.mtime_view() is None
    }

    /// No watch, generation zero.
    pub fn new() -> (r: Self)
        ensures
            r.wf(),
            r.stopped(),
            r.generation_view() == 0,
    {
        FileWatch { watch_source: None, watched_path: None, file_mtime: None, reload_generation: 0 }
    }

    /// Moves to the next generation, which makes every reload scheduled so
    /// far stale, and returns it.
    pub fn next_reload_generation(&mut self) -> (g: u64)
        ensures
            g == next_generation(old(self).generation_view()),
            final(self).generation_view() == g,
            final(self).source_view() == old(self).source_view(),
            final(self).path_view() == old(self).path_view(),
            final(self).mtime_view() == old(self).mtime_view(),
    {
        let next = self.reload_generation.wrapping_add(1);
        self.reload_generation = next;
        next
    }

    /// Whether a reload scheduled with `generation` is still the latest one.
    pub fn is_reload_generation_current(&self, generation: u64) -> (r: bool)
        ensures
            r == (self.generation_view() == generation),
    {
        self.reload_generation == generation
    }

    /// Stops watching: the pending reloads become stale, the watch source is
    /// dropped and the path and modification time are forgotten.
    pub fn stop_file_watch(&mut self)
        ensures
            final(self).wf(),
            final(self).stopped(),
            final(self).generation_view() == next_generation(old(self).generation_view()),
    {
        self.next_reload_generation();
        self.watch_source = None;
        self.watched_path = None;
        self.file_mtime = None;
    }

    /// Starts watching a file anew. Any earlier watch stops first; `opened`
    /// is the file's path, its modification time if it has one, and the
    /// watch source on it, or `None` when the file could not be opened or
    /// watched, in which case nothing is watched.
    pub fn start_file_watch(&mut self, opened: Option<(String, Option<i128>, W)>)
        ensures
            final(self).wf(),
            final(self).generation_view() == next_generation(old(self).generation_view()),
            match opened {
                Some((path, mtime, source)) => {
                    &&& final(self).path_view() == Some(path@)
                    &&& final(self).mtime_view() == mtime
                    &&& final(self).source_view() == Some(source)
                },
                None => final(self).stopped(),
            },
    {
        self.stop_file_watch();
        match opened {
            Some((path, mtime, source)) => {
                self.watched_path = Some(path);
                self.file_mtime = mtime;
                self.watch_source = Some(source);
            },
            None => {},
        }
    }

    /// The path of the watched file.
    pub fn watched_path(&self) -> (r: Option<&String>)
        ensures
            match r {
                Some(p) => self.path_view() == Some(p@),
                None => self.path_view() is None,
            },
    {
        match &self.watched_path {
            Some(p) => Some(p),
            None => None,
        }
    }

    /// The file changed on disk: returns the generation of the reload to
    /// schedule, which makes every earlier pending reload stale, or `None`
    /// when no file is watched.
    pub fn schedule_debounced_reload(&mut self) -> (r: Option<u64>)
        ensures
            final(self).source_view() == old(self).source_view(),
            final(self).path_view() == old(self).path_view(),
            final(self).mtime_view() == old(self).mtime_view(),
            old(self).path_view() is None ==> r is None
                && final(self).generation_view() == old(self).generation_view(),
            old(self).path_view() is Some ==> r == Some(next_generation(old(self).generation_view()))
                && final(self).generation_view() == next_generation(old(self).generation_view()),
    {
        if self.watched_path.is_none() {
            return None;
        }
        Some(self.next_reload_generation())
    }

    /// A scheduled reload fired and the watched file was looked at:
    /// returns whether the document must be reloaded. A file that is gone
    /// stops the watch; a file whose modification time is the one seen
    /// last, or has none, is left alone; otherwise the new time is recorded
    /// and the document reloads.
    pub fn reload_document_if_needed(&mut self, status: FileStatus) -> (r: bool)
        requires
            old(self).wf(),
        ensures
            final(self).wf(),
            r == reload_decision(old(self).path_view() is Some, old(self).mtime_view(), status),
            old(self).path_view() is None ==> *final(self) == *old(self),
            old(self).path_view() is Some ==> match status {
                FileStatus::Missing => !r && final(self).stopped()
                    && final(self).generation_view() == next_generation(old(self).generation_view()),
                FileStatus::NoModificationTime => !r && *final(self) == *old(self),
                FileStatus::Modified(t) => if old(self).mtime_view() == Some(t) {
                    !r && *final(self) == *old(self)
                } else {
                    &&& r
                    &&& final(self).mtime_view() == Some(t)
                    &&& final(self).path_view() == old(self).path_view()
                    &&& final(self).source_view() == old(self).source_view()
                    &&& final(self).generation_view() == old(self).generation_view()
                },
            },
    {
        if self.watched_path.is_none() {
            return false;
        }
        match status {
            FileStatus::Missing => {
                self.stop_file_watch();
                false
            },
            FileStatus::NoModificationTime => false,
            FileStatus::Modified(t) => {
                let same = match self.file_mtime {
                    Some(old_t) => old_t == t,
                    None => false,
                };
                if same {
                    false
                } else {
                    self.file_mtime = Some(t);
                    true
                }
            },
        }
    }
}

/// Index of the last `/` in `p`, or -1 when there is none.
pub open spec fn last_slash(p: Seq<char>) -> int
    decreases p.len(),
{
    if p.len() == 0 {
        -1
    } else if p.last() == '/' {
        p.len() - 1
    } else {
        last_slash(p.drop_last())
    }
}

/// `last_slash` is an index of `p` holding the last `/`, or -1.
pub proof fn lemma_last_slash(p: Seq<char>)
    ensures
        -1 <= last_slash(p) < p.len(),
        last_slash(p) >= 0 ==> p[last_slash(p)] == '/',
        forall|i: int| last_slash(p) < i < p.len() ==> p[i] != '/',
    decreases p.len(),
{
    if p.len() > 0 && p.last() != '/' {
        lemma_last_slash(p.drop_last());
        assert forall|i: int| last_slash(p) < i < p.len() implies p[i] != '/' by {
            if i < p.len() - 1 {
                assert(p[i] == p.drop_last()[i]);
            }
        }
    }
}

/// The final component of a Unix path, as `std::path::Path::file_name` gives
/// it: separators and `.` components at the end are skipped; the last
/// component left is the name, unless it is `..`; a path with no component
/// left (empty, `/`, `.`) has no name.
pub open spec fn unix_file_name(p: Seq<char>) -> Option<Seq<char>>
    decreases p.len(),
{
    if p.len() == 0 {
        None
    } else {
        proof { lemma_last_slash(p); }
        let k = last_slash(p);
        let seg = p.subrange(k + 1, p.len() as int);
        let rest = if k < 0 { Seq::<char>::empty() } else { p.subrange(0, k) };
        if seg.len() == 0 || seg == seq!['.'] {
            unix_file_name(rest)
        } else if seg == seq!['.', '.'] {
            None
        } else {
            Some(seg)
        }
    }
}

/// `last_slash(q)` is `j` when `q[j]` is the last `/` of `q` (`j == -1`: `q`
/// has no `/`).
pub proof fn lemma_last_slash_at(q: Seq<char>, j: int)
    requires
        -1 <= j < q.len(),
        j >= 0 ==> q[j] == '/',
        forall|i: int| j < i < q.len() ==> q[i] != '/',
    ensures
        last_slash(q) == j,
    decreases q.len(),
{
    if q.len() > 0 && q.last() != '/' {
        let r = q.drop_last();
        assert forall|i: int| j < i < r.len() implies r[i] != '/' by {
            assert(r[i] == q[i]);
        }
        if j >= 0 {
            assert(r[j] == q[j]);
        }
        lemma_last_slash_at(r, j);
    }
}

/// The final component of the Unix path `path`, as
/// `std::path::Path::file_name` gives it: trailing separators and `.`
/// components are skipped, a final `..` has no name.
fn file_name(path: &str) -> (r: Option<String>)
    ensures
        opt_view(r) == unix_file_name(path@),
{
    let n = path.unicode_len();
    let mut end: usize = n;
    assert(path@.subrange(0, n as int) =~= path@);
    while end > 0
        invariant
            end <= n,
            n == path@.len(),
            unix_file_name(path@) == unix_file_name(path@.subrange(0, end as int)),
        decreases end,
    {
        let ghost q = path@.subrange(0, end as int);
        let mut j: usize = end;
        while j > 0 && path.get_char(j - 1) != '/'
            invariant
                j <= end,
                end <= n,
                n == path@.len(),
                forall|i: int| j <= i < end ==> path@[i] != '/',
            decreases j,
        {
            j = j - 1;
        }
        proof {
            assert forall|i: int| j - 1 < i < q.len() implies q[i] != '/' by {
                assert(q[i] == path@[i]);
            }
            if j > 0 {
                assert(q[j - 1] == path@[j - 1]);
            }
            lemma_last_slash_at(q, j - 1);
            lemma_last_slash(q);
            assert(q.subrange(j as int, end as int) =~= path@.subrange(j as int, end as int));
        }
        let seg_len = end - j;
        if seg_len == 0 || (seg_len == 1 && path.get_char(j) == '.') {
            let new_end: usize = if j == 0 { 0 } else { j - 1 };
            proof {
                let seg = q.subrange(j as int, end as int);
                if seg_len == 1 {
                    assert(seg =~= seq!['.']);
                } else {
                    assert(seg.len() == 0);
                }
                if j == 0 {
                    assert(path@.subrange(0, new_end as int) =~= Seq::<char>::empty());
                } else {
                    assert(q.subrange(0, j - 1) =~= path@.subrange(0, new_end as int));
                }
            }
            end = new_end;
        } else if seg_len == 2 && path.get_char(j) == '.' && path.get_char(j + 1) == '.' {
            proof {
                assert(q.subrange(j as int, end as int) =~= seq!['.', '.']);
            }
            return None;
        } else {
            let name = path.substring_char(j, end);
            let r = String::from_str(name);
            proof {
                let seg = q.subrange(j as int, end as int);
                assert(seg.len() == seg_len);
                assert(seg.len() > 0);
                if seg_len == 1 {
                    assert(seg[0] == path@[j as int]);
                    assert(seg != seq!['.']);
                }
                if seg_len == 2 {
                    assert(seg[0] == path@[j as int]);
                    assert(seg[1] == path@[j + 1]);
                    assert(seg != seq!['.', '.']);
                }
                assert(seg != seq!['.']);
                assert(seg != seq!['.', '.']);
            }
            return Some(r);
        }
    }
    assert(path@.subrange(0, 0) =~= Seq::<char>::empty());
    None
}

/// The title of a document whose path has the final component `file_name`:
/// that name, or `Document` when there is none.
pub fn name_or_default(file_name: Option<String>) -> (r: String)
    ensures
        r@ == match file_name {
            Some(n) => n@,
            None => "Document"@,
        },
{
    match file_name {
        Some(n) => n,
        None => String::from_str("Document"),
    }
}

/// The title that a tab shows for the document at `path`.
pub fn display_name(path: &String) -> (r: String)
    ensures
        r@ == match unix_file_name(path@) {
            Some(n) => n,
            None => "Document"@,
        },
{
    name_or_default(file_name(path.as_str()))
}

/// The page that a reloaded document opens at: the page that was current,
/// or the last page when the document became shorter.
pub fn restore_page_index(index: usize, page_count: usize) -> (r: usize)
    ensures
        r == if page_count == 0 { 0 } else if index < page_count { index } else { (page_count - 1) as usize },
{
    let last = page_count.saturating_sub(1);
    if index < last { index } else { last }
}

} // verus!
