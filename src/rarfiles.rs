//! Archive sets: which files of a directory form one split RAR archive, the
//! lifecycle of one extraction job, and the removal of the set's files.
use vstd::prelude::*;
use crate::output::Output;
use crate::progress::{parse_progress, progress_of};
use vstd::string::StringSliceAdditionalSpecFns;

verus! {

/// What `std::path::Path::extension` gives for a path, as raw bytes.
pub uninterp spec fn extension_of(path: Seq<char>) -> Option<Seq<u8>>;

/// What a `regex::bytes::Regex` built from `pattern` says of `hay`; `None`
/// when the pattern does not compile.
pub uninterp spec fn regex_match_of(pattern: Seq<char>, hay: Seq<u8>) -> Option<bool>;

/// Relies on `std::path::Path::extension`: the part of the file name after its
/// last dot, if the name has one that is not its first character.
#[verifier::external_body]
fn path_extension(path: &str) -> (r: Option<Vec<u8>>)
    ensures
        match r {
            Some(e) => extension_of(path@) == Some(e@),
            None => extension_of(path@) is None,
        },
{
    std::path::Path::new(path).extension().map(|e| e.as_encoded_bytes().to_vec())
}

/// Relies on `regex::bytes::Regex::new` and `regex::bytes::Regex::is_match`:
/// compiles `pattern` and tests whether it matches somewhere in `hay`.
#[verifier::external_body]
fn regex_is_match(pattern: &str, hay: &[u8]) -> (r: Option<bool>)
    ensures
        r == regex_match_of(pattern@, hay@),
{
    match regex::bytes::Regex::new(pattern) {
        Ok(re) => Some(re.is_match(hay)),
        Err(_) => None,
    }
}

/// The extension of a primary archive.
pub open spec fn rar_extension() -> Seq<u8> {
    seq![114u8, 97u8, 114u8]
}

/// Pattern that the extension of a secondary volume matches: `r` and two digits.
pub const VOLUME_PATTERN: &'static str = "r\\d\\d";

/// One entry of a directory listing.
pub struct DirEntryInfo {
    pub path: String,
    pub is_file: bool,
}

pub open spec fn is_primary(e: DirEntryInfo) -> bool {
    e.is_file && extension_of(e.path@) == Some(rar_extension())
}

pub open spec fn is_volume(e: DirEntryInfo) -> bool {
    e.is_file && match extension_of(e.path@) {
        Some(x) => x != rar_extension() && regex_match_of(VOLUME_PATTERN@, x) == Some(true),
        None => false,
    }
}

/// The paths of the entries that satisfy `f`, in listing order.
pub open spec fn paths_where(es: Seq<DirEntryInfo>, f: spec_fn(DirEntryInfo) -> bool) -> Seq<String>
    decreases es.len(),
{
    if es.len() == 0 {
        Seq::empty()
    } else {
        let rest = paths_where(es.drop_last(), f);
        if f(es.last()) {
            rest.push(es.last().path)
        } else {
            rest
        }
    }
}

/// The path of the first primary archive of the listing.
pub open spec fn first_primary(es: Seq<DirEntryInfo>) -> Option<String> {
    let ps = paths_where(es, |e: DirEntryInfo| is_primary(e));
    if ps.len() > 0 {
        Some(ps[0])
    } else {
        None
    }
}

/// The primary archives after the first one of the listing.
pub open spec fn extra_primaries(es: Seq<DirEntryInfo>) -> Seq<String> {
    let ps = paths_where(es, |e: DirEntryInfo| is_primary(e));
    if ps.len() > 0 {
        ps.drop_first()
    } else {
        ps
    }
}

/// No primary archive of a listing is lost: the chosen one followed by the
/// ones set aside are exactly the listing's primary archives, in order. With a
/// single primary archive, it is the chosen one and none is set aside.
pub proof fn lemma_no_primary_dropped(es: Seq<DirEntryInfo>)
    ensures
        ({
            let ps = paths_where(es, |e: DirEntryInfo| is_primary(e));
            &&& ps.len() == 0 ==> first_primary(es) is None && extra_primaries(es).len() == 0
            &&& ps.len() > 0 ==> first_primary(es) == Some(ps[0]) && seq![ps[0]] + extra_primaries(es) == ps
            &&& ps.len() == 1 ==> extra_primaries(es).len() == 0
        }),
{
    let ps = paths_where(es, |e: DirEntryInfo| is_primary(e));
    if ps.len() > 0 {
        assert(seq![ps[0]] + ps.drop_first() =~= ps);
    }
}

/// The archive set found in one directory.
pub struct RarFiles {
    main_rar: Option<String>,
    other_rars: Vec<String>,
    extra_rars: Vec<String>,
}

impl RarFiles {
    pub closed spec fn main_rar(&self) -> Option<String> {
        self.main_rar
    }

    pub closed spec fn other_rars(&self) -> Seq<String> {
        self.other_rars@
    }

    pub closed spec fn extra_rars(&self) -> Seq<String> {
        self.extra_rars@
    }

    /// Classifies the entries of one directory listing: the first file with the
    /// primary extension is the primary archive, later ones are kept aside as
    /// anomalies, and files whose extension matches the volume pattern are the
    /// secondary volumes, in listing order. Everything else is ignored.
    pub fn new(entries: &Vec<DirEntryInfo>) -> (r: RarFiles)
        ensures
            r.main_rar() == first_primary(entries@),
            r.other_rars() == paths_where(entries@, |e: DirEntryInfo| is_volume(e)),
            r.extra_rars() == extra_primaries(entries@),
    {
        let mut main_rar: Option<String> = None;
        let mut other_rars: Vec<String> = Vec::new();
        let mut extra_rars: Vec<String> = Vec::new();
        let mut i: usize = 0;
        while i < entries.len()
            invariant
                0 <= i <= entries@.len(),
                main_rar == first_primary(entries@.subrange(0, i as int)),
                other_rars@ == paths_where(entries@.subrange(0, i as int), |e: DirEntryInfo| is_volume(e)),
                extra_rars@ == extra_primaries(entries@.subrange(0, i as int)),
            decreases entries@.len() - i,
        {
            let ghost pre = entries@.subrange(0, i as int);
            let ghost next = entries@.subrange(0, i + 1);
            assert(next.drop_last() =~= pre);
            let e = &entries[i];
            if e.is_file {
                let ext = path_extension(e.path.as_str());
                match ext {
                    Some(x) => {
                        if x.len() == 3 && x[0] == 114u8 && x[1] == 97u8 && x[2] == 114u8 {
                            assert(x@ =~= rar_extension());
                            if main_rar.is_none() {
                                main_rar = Some(e.path.clone());
                            } else {
                                extra_rars.push(e.path.clone());
                            }
                        } else {
                            assert(x@ != rar_extension());
                            let m = regex_is_match(VOLUME_PATTERN, x.as_slice());
                            if m == Some(true) {
                                other_rars.push(e.path.clone());
                            }
                        }
                    },
                    None => {},
                }
            }
            proof {
                let ps_pre = paths_where(pre, |e: DirEntryInfo| is_primary(e));
                let ps_next = paths_where(next, |e: DirEntryInfo| is_primary(e));
                if ps_pre.len() > 0 {
                    assert(ps_next[0] == ps_pre[0]);
                    if is_primary(entries@[i as int]) {
                        assert(ps_next.drop_first() =~= ps_pre.drop_first().push(entries@[i as int].path));
                    }
                }
            }
            i = i + 1;
        }
        assert(entries@.subrange(0, entries@.len() as int) =~= entries@);
        RarFiles { main_rar, other_rars, extra_rars }
    }

    /// True when the set has a primary archive, and so can be extracted.
    pub fn has_primary(&self) -> (r: bool)
        ensures
            r == self.main_rar() is Some,
    {
        self.main_rar.is_some()
    }

    pub fn get_main_rar(&self) -> (r: String)
        requires
            self.main_rar() is Some,
        ensures
            Some(r) == self.main_rar(),
    {
        match &self.main_rar {
            Some(p) => p.clone(),
            None => String::new(),
        }
    }

    pub fn get_main_rar_opt(&self) -> (r: Option<String>)
        ensures
            r == self.main_rar(),
    {
        match &self.main_rar {
            Some(p) => Some(p.clone()),
            None => None,
        }
    }

    /// The secondary volumes, in listing order.
    pub fn get_other_rars(&self) -> (r: Vec<String>)
        ensures
            r@ == self.other_rars(),
    {
        self.other_rars.clone()
    }

    /// Primary archives found after the first one, which extraction ignores.
    pub fn get_extra_rars(&self) -> (r: Vec<String>)
        ensures
            r@ == self.extra_rars(),
    {
        self.extra_rars.clone()
    }

    /// Starts extracting the primary archive as job `id`: the returned job is
    /// running and the returned event announces it.
    pub fn unrar(&self, id: usize) -> (r: (ExtractionJob, Output))
        requires
            self.main_rar() is Some,
        ensures
            r.0.wf(),
            r.0.state() == JobState::Running,
            r.0.id() == id,
            Some(r.0.path()) == self.main_rar(),
            r.0.events() == seq![r.1],
            r.1 == (Output::New { path: r.0.path(), id }),
    {
        let path = self.get_main_rar();
        let started = Output::New { path: path.clone(), id };
        let ghost first = seq![started];
        let job = ExtractionJob { id, path, state: JobState::Running, log: Ghost(first) };
        (job, started)
    }

    /// The files to delete once the set was extracted: the primary archive,
    /// then every secondary volume.
    pub fn remove_rars(self) -> (r: Cleanup)
        ensures
            r.wf(),
            r.targets() == match self.main_rar() {
                Some(p) => seq![p] + self.other_rars(),
                None => self.other_rars(),
            },
            r.removed() == Seq::<String>::empty(),
            !r.stopped(),
    {
        let mut targets: Vec<String> = Vec::new();
        match self.main_rar {
            Some(p) => targets.push(p),
            None => {},
        }
        let mut others = self.other_rars;
        targets.append(&mut others);
        Cleanup { targets, done: 0, stopped: false }
    }
}

/// The state of an extraction job. A finished job stays finished.
#[derive(PartialEq, Eq, Structural, Clone, Copy, Debug)]
pub enum JobState {
    Running,
    Succeeded,
    Failed,
}

/// How the extraction tool ended.
#[derive(Debug, Clone, PartialEq, Eq)]
pub enum ToolExit {
    /// It exited with status zero.
    Success,
    /// It exited with another status, or was killed (no code).
    Failure { code: Option<i32> },
    /// Spawning or reading it failed.
    IoError { message: String },
}

/// Why an extraction failed.
#[derive(Debug, Clone, PartialEq, Eq)]
pub enum ExtractionError {
    ToolFailed { exit_code: Option<i32> },
    Io { message: String },
}

pub open spec fn is_progress_of(o: Output, id: usize) -> bool {
    match o {
        Output::Progress { id: i, procent } => i == id && procent <= 100,
        _ => false,
    }
}

/// One extraction of an archive set, with the events it has emitted so far.
pub struct ExtractionJob {
    id: usize,
    path: String,
    state: JobState,
    log: Ghost<Seq<Output>>,
}

impl ExtractionJob {
    pub closed spec fn id(&self) -> usize {
        self.id
    }

    pub closed spec fn path(&self) -> String {
        self.path
    }

    pub closed spec fn state(&self) -> JobState {
        self.state
    }

    /// Every event that the job has emitted, in order.
    pub closed spec fn events(&self) -> Seq<Output> {
        self.log@
    }

    /// The job announced itself first, then only reported progress, and ended
    /// with a completion exactly when it succeeded.
    pub closed spec fn wf(&self) -> bool {
        let log = self.log@;
        &&& log.len() >= 1
        &&& log[0] == (Output::New { path: self.path, id: self.id })
        &&& match self.state {
            JobState::Succeeded => {
                &&& log.len() >= 2
                &&& log.last() == (Output::Done { id: self.id })
                &&& forall|k: int| 1 <= k < log.len() - 1 ==> is_progress_of(#[trigger] log[k], self.id)
            },
            _ => forall|k: int| 1 <= k < log.len() ==> is_progress_of(#[trigger] log[k], self.id),
        }
    }

    pub fn get_id(&self) -> (r: usize)
        ensures
            r == self.id(),
    {
        self.id
    }

    pub fn get_state(&self) -> (r: JobState)
        ensures
            r == self.state(),
    {
        self.state
    }

    /// Handles one line of the tool's output: a line announcing a percentage
    /// gives a progress event for this job, any other line gives nothing.
    pub fn on_line(&mut self, line: &str) -> (r: Option<Output>)
        requires
            old(self).wf(),
            old(self).state() == JobState::Running,
        ensures
            final(self).wf(),
            final(self).id() == old(self).id(),
            final(self).path() == old(self).path(),
            final(self).state() == JobState::Running,
            r == match progress_of(line.spec_bytes()) {
                Some(p) => Some(Output::Progress { id: old(self).id(), procent: p }),
                None => None,
            },
            final(self).events() == match r {
                Some(o) => old(self).events().push(o),
                None => old(self).events(),
            },
    {
        match parse_progress(line) {
            Some(p) => {
                let o = Output::Progress { id: self.id, procent: p };
                self.log = Ghost(self.log@.push(o));
                Some(o)
            },
            None => None,
        }
    }

    /// Ends the job with the tool's outcome: on success it completes and
    /// returns the completion event; otherwise it fails with the matching error
    /// and emits nothing.
    pub fn finish(&mut self, exit: ToolExit) -> (r: Result<Output, ExtractionError>)
        requires
            old(self).wf(),
            old(self).state() == JobState::Running,
        ensures
            final(self).wf(),
            final(self).id() == old(self).id(),
            final(self).path() == old(self).path(),
            match exit {
                ToolExit::Success => {
                    &&& r == Ok::<Output, ExtractionError>(Output::Done { id: old(self).id() })
                    &&& final(self).state() == JobState::Succeeded
                    &&& final(self).events() == old(self).events().push(Output::Done { id: old(self).id() })
                },
                ToolExit::Failure { code } => {
                    &&& r == Err::<Output, ExtractionError>(ExtractionError::ToolFailed { exit_code: code })
                    &&& final(self).state() == JobState::Failed
                    &&& final(self).events() == old(self).events()
                },
                ToolExit::IoError { message } => {
                    &&& r == Err::<Output, ExtractionError>(ExtractionError::Io { message })
                    &&& final(self).state() == JobState::Failed
                    &&& final(self).events() == old(self).events()
                },
            },
    {
        match exit {
            ToolExit::Success => {
                let o = Output::Done { id: self.id };
                self.log = Ghost(self.log@.push(o));
                self.state = JobState::Succeeded;
                Ok(o)
            },
            ToolExit::Failure { code } => {
                self.state = JobState::Failed;
                Err(ExtractionError::ToolFailed { exit_code: code })
            },
            ToolExit::IoError { message } => {
                self.state = JobState::Failed;
                Err(ExtractionError::Io { message })
            },
        }
    }
}

/// A successful job emitted exactly one start event, first, then progress
/// events of its own id with percentages up to 100, and exactly one completion
/// event, last.
pub proof fn lemma_successful_job_events(job: ExtractionJob)
    requires
        job.wf(),
        job.state() == JobState::Succeeded,
    ensures
        job.events().len() >= 2,
        job.events()[0] == (Output::New { path: job.path(), id: job.id() }),
        job.events().last() == (Output::Done { id: job.id() }),
        forall|k: int|
            1 <= k < job.events().len() - 1 ==> is_progress_of(#[trigger] job.events()[k], job.id()),
        forall|k: int| 1 <= k < job.events().len() ==> !(#[trigger] job.events()[k] is New),
        forall|k: int| 0 <= k < job.events().len() - 1 ==> !(#[trigger] job.events()[k] is Done),
{
    let log = job.events();
    assert forall|k: int| 1 <= k < log.len() implies !(#[trigger] log[k] is New) by {
        if k < log.len() - 1 {
            assert(is_progress_of(log[k], job.id()));
        }
    }
    assert forall|k: int| 0 <= k < log.len() - 1 implies !(#[trigger] log[k] is Done) by {
        if k >= 1 {
            assert(is_progress_of(log[k], job.id()));
        }
    }
}

/// A job that failed emitted no completion event.
pub proof fn lemma_failed_job_never_completes(job: ExtractionJob)
    requires
        job.wf(),
        job.state() == JobState::Failed,
    ensures
        forall|k: int| 0 <= k < job.events().len() ==> !(#[trigger] job.events()[k] is Done),
{
    let log = job.events();
    assert forall|k: int| 0 <= k < log.len() implies !(#[trigger] log[k] is Done) by {
        if k >= 1 {
            assert(is_progress_of(log[k], job.id()));
        }
    }
}

/// The removal of an archive set's files, one at a time, that stops at the
/// first failure.
pub struct Cleanup {
    targets: Vec<String>,
    done: usize,
    stopped: bool,
}

impl Cleanup {
    /// The files to remove, in order.
    pub closed spec fn targets(&self) -> Seq<String> {
        self.targets@
    }

    /// The files removed so far.
    pub closed spec fn removed(&self) -> Seq<String> {
        self.targets@.subrange(0, self.done as int)
    }

    /// Whether a removal failed.
    pub closed spec fn stopped(&self) -> bool {
        self.stopped
    }

    pub closed spec fn wf(&self) -> bool {
        self.done <= self.targets@.len()
    }

    /// True when nothing is left to try: every file is gone or a removal failed.
    pub open spec fn is_finished(&self) -> bool {
        self.stopped() || self.removed().len() == self.targets().len()
    }

    /// The next file to remove, or `None` when the cleanup is finished.
    pub fn next_target(&self) -> (r: Option<String>)
        requires
            self.wf(),
        ensures
            self.is_finished() <==> r is None,
            r matches Some(p) ==> p == self.targets()[self.removed().len() as int],
    {
        if self.stopped || self.done >= self.targets.len() {
            None
        } else {
            Some(self.targets[self.done].clone())
        }
    }

    /// Records the outcome of removing the file `next_target` gave: a success
    /// counts it as removed, a failure stops the cleanup.
    pub fn record(&mut self, removed: bool)
        requires
            old(self).wf(),
            !old(self).is_finished(),
        ensures
            final(self).wf(),
            final(self).targets() == old(self).targets(),
            removed ==> final(self).removed() == old(self).removed().push(
                old(self).targets()[old(self).removed().len() as int],
            ) && final(self).stopped() == old(self).stopped(),
            !removed ==> final(self).removed() == old(self).removed() && final(self).stopped(),
    {
        assert(old(self).removed().len() == self.done);
        let n = self.targets.len();
        if removed && self.done < n {
            proof {
                assert(self.targets@.subrange(0, self.done + 1) =~= self.targets@.subrange(0, self.done as int).push(self.targets@[self.done as int]));
            }
            self.done = self.done + 1;
        } else if !removed {
            self.stopped = true;
        }
    }

    /// Whether every file was removed.
    pub fn all_removed(&self) -> (r: bool)
        requires
            self.wf(),
        ensures
            r == (self.removed() == self.targets()),
    {
        proof {
            assert(self.targets@.subrange(0, self.targets@.len() as int) =~= self.targets@);
        }
        self.done == self.targets.len()
    }
}

} // verus!
