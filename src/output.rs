//! Events sent from extraction jobs to the output sink, and the sink's handlers.
use vstd::prelude::*;
use std::collections::HashMap;

verus! {

broadcast use vstd::std_specs::hash::group_hash_axioms;

/// An event of the extraction pipeline.
#[derive(Debug, Clone, PartialEq, Eq)]
pub enum Output {
    /// A directory holding an archive set is being visited.
    Visit(String),
    /// Extraction of the archive at `path` started under job `id`.
    New { path: String, id: usize },
    /// Job `id` completed successfully.
    Done { id: usize },
    /// Job `id` reported `procent` percent.
    Progress { id: usize, procent: u8 },
}

/// A message on the channel to the sink: an event, or the request to stop.
pub enum RealOutput {
    Exit,
    Output(Output),
}

impl From<Output> for RealOutput {
    fn from(o: Output) -> (r: RealOutput)
        ensures
            r == RealOutput::Output(o),
    {
        RealOutput::Output(o)
    }
}

impl vstd::std_specs::convert::FromSpecImpl<Output> for RealOutput {
    open spec fn obeys_from_spec() -> bool {
        true
    }

    open spec fn from_spec(o: Output) -> RealOutput {
        RealOutput::Output(o)
    }
}

/// What a handler shows for one event.
#[derive(Debug, Clone, PartialEq, Eq)]
pub enum Report {
    Visiting { path: String },
    Unraring { path: String },
    /// A job completed: its path, or `None` when no start was seen for its id.
    DoneWith(Option<String>),
    Progress { id: usize, procent: u8 },
}

/// The jobs in flight after `o`, given those in flight before it.
pub open spec fn working_after(working: Map<usize, String>, o: Output) -> Map<usize, String> {
    match o {
        Output::New { path, id } => working.insert(id, path),
        Output::Done { id } => working.remove(id),
        _ => working,
    }
}

/// What is reported for `o`, given the jobs in flight before it.
pub open spec fn report_of(working: Map<usize, String>, o: Output) -> Report {
    match o {
        Output::Visit(path) => Report::Visiting { path },
        Output::New { path, id } => Report::Unraring { path },
        Output::Done { id } => Report::DoneWith(
            if working.contains_key(id) {
                Some(working[id])
            } else {
                None
            },
        ),
        Output::Progress { id, procent } => Report::Progress { id, procent },
    }
}

fn track(working: &mut HashMap<usize, String>, o: Output) -> (r: Report)
    ensures
        final(working)@ == working_after(old(working)@, o),
        r == report_of(old(working)@, o),
{
    match o {
        Output::Visit(path) => Report::Visiting { path },
        Output::New { path, id } => {
            working.insert(id, path.clone());
            Report::Unraring { path }
        },
        Output::Done { id } => Report::DoneWith(working.remove(&id)),
        Output::Progress { id, procent } => Report::Progress { id, procent },
    }
}

/// Something that consumes the pipeline's events.
pub trait HandleOutput {
    fn handle(&mut self, o: Output) -> Report;
}

/// Prints each event as a line.
pub struct StdoutHandler {
    working: HashMap<usize, String>,
}

impl StdoutHandler {
    pub closed spec fn working(&self) -> Map<usize, String> {
        self.working@
    }

    pub fn new() -> (r: StdoutHandler)
        ensures
            r.working() == Map::<usize, String>::empty(),
    {
        StdoutHandler { working: HashMap::new() }
    }

    pub fn handle(&mut self, o: Output) -> (r: Report)
        ensures
            final(self).working() == working_after(old(self).working(), o),
            r == report_of(old(self).working(), o),
    {
        track(&mut self.working, o)
    }
}

impl HandleOutput for StdoutHandler {
    fn handle(&mut self, o: Output) -> Report {
        StdoutHandler::handle(self, o)
    }
}

/// Sends each event to the leveled log.
pub struct LogHandler {
    working: HashMap<usize, String>,
}

impl LogHandler {
    pub closed spec fn working(&self) -> Map<usize, String> {
        self.working@
    }

    pub fn new() -> (r: LogHandler)
        ensures
            r.working() == Map::<usize, String>::empty(),
    {
        LogHandler { working: HashMap::new() }
    }

    pub fn handle(&mut self, o: Output) -> (r: Report)
        ensures
            final(self).working() == working_after(old(self).working(), o),
            r == report_of(old(self).working(), o),
    {
        track(&mut self.working, o)
    }
}

impl HandleOutput for LogHandler {
    fn handle(&mut self, o: Output) -> Report {
        LogHandler::handle(self, o)
    }
}

/// What the interactive display knows of one job in flight.
pub struct Info {
    pub path: String,
    pub percent: u8,
}

/// The jobs in flight after `o`, as the interactive display tracks them.
pub open spec fn infos_after(working: Map<usize, Info>, o: Output) -> Map<usize, Info> {
    match o {
        Output::New { path, id } => working.insert(id, Info { path, percent: 0 }),
        Output::Done { id } => working.remove(id),
        Output::Progress { id, procent } => if working.contains_key(id) {
            working.insert(id, Info { path: working[id].path, percent: procent })
        } else {
            working
        },
        _ => working,
    }
}

pub open spec fn paths_of(working: Map<usize, Info>) -> Map<usize, String> {
    Map::new(|id: usize| working.contains_key(id), |id: usize| working[id].path)
}

/// The display's view of the jobs in flight follows the same paths as the
/// other handlers.
pub proof fn lemma_paths_of_infos_after(working: Map<usize, Info>, o: Output)
    ensures
        paths_of(infos_after(working, o)) == working_after(paths_of(working), o),
{
    assert(paths_of(infos_after(working, o)) =~= working_after(paths_of(working), o));
}

/// Redraws a view of every job in flight on each event.
pub struct FancyHandler {
    working: HashMap<usize, Info>,
}

impl FancyHandler {
    pub closed spec fn working(&self) -> Map<usize, Info> {
        self.working@
    }

    pub fn new() -> (r: FancyHandler)
        ensures
            r.working() == Map::<usize, Info>::empty(),
    {
        FancyHandler { working: HashMap::new() }
    }

    pub fn handle(&mut self, o: Output) -> (r: Report)
        ensures
            final(self).working() == infos_after(old(self).working(), o),
            r == report_of(paths_of(old(self).working()), o),
    {
        let ghost w0 = self.working@;
        match o {
            Output::Visit(path) => Report::Visiting { path },
            Output::New { path, id } => {
                self.working.insert(id, Info { path: path.clone(), percent: 0 });
                Report::Unraring { path }
            },
            Output::Done { id } => {
                let r = self.working.remove(&id);
                match r {
                    Some(info) => Report::DoneWith(Some(info.path)),
                    None => Report::DoneWith(None),
                }
            },
            Output::Progress { id, procent } => {
                let cur = self.working.remove(&id);
                match cur {
                    Some(info) => {
                        self.working.insert(id, Info { path: info.path, percent: procent });
                        assert(self.working@ =~= w0.insert(id, Info { path: w0[id].path, percent: procent }));
                    },
                    None => {
                        assert(self.working@ =~= w0);
                    },
                }
                Report::Progress { id, procent }
            },
        }
    }

    /// The percentage last reported for job `id`, if it is in flight.
    pub fn percent_of(&self, id: usize) -> (r: Option<u8>)
        ensures
            r == (if self.working().contains_key(id) {
                Some(self.working()[id].percent)
            } else {
                None
            }),
    {
        match self.working.get(&id) {
            Some(info) => Some(info.percent),
            None => None,
        }
    }
}

impl HandleOutput for FancyHandler {
    fn handle(&mut self, o: Output) -> Report {
        FancyHandler::handle(self, o)
    }
}

/// The sink variant chosen at startup.
pub enum Handler {
    Stdout(StdoutHandler),
    Log(LogHandler),
    Fancy(FancyHandler),
}

impl Handler {
    /// The jobs in flight, by id, with their paths.
    pub open spec fn paths(&self) -> Map<usize, String> {
        match self {
            Handler::Stdout(h) => h.working(),
            Handler::Log(h) => h.working(),
            Handler::Fancy(h) => paths_of(h.working()),
        }
    }

    /// Handles one event with the chosen variant.
    pub fn handle(&mut self, o: Output) -> (r: Report)
        ensures
            r == report_of(old(self).paths(), o),
            final(self).paths() == working_after(old(self).paths(), o),
            (*final(self) is Stdout) <==> (*old(self) is Stdout),
            (*final(self) is Log) <==> (*old(self) is Log),
            (*final(self) is Fancy) <==> (*old(self) is Fancy),
    {
        match self {
            Handler::Stdout(h) => h.handle(o),
            Handler::Log(h) => h.handle(o),
            Handler::Fancy(h) => {
                let ghost w0 = h.working();
                let r = h.handle(o);
                proof {
                    lemma_paths_of_infos_after(w0, o);
                }
                r
            },
        }
    }
}

/// The output sink: the handler that consumes every event.
pub struct Data {
    pub output: Handler,
}

impl Data {
    /// The sink worker's step for one message: an event is handled and its
    /// report returned; the exit request gives `None`, and the worker stops.
    pub fn accept(&mut self, m: RealOutput) -> (r: Option<Report>)
        ensures
            match m {
                RealOutput::Exit => r is None && final(self).output.paths() == old(self).output.paths(),
                RealOutput::Output(o) => {
                    &&& r == Some(report_of(old(self).output.paths(), o))
                    &&& final(self).output.paths() == working_after(old(self).output.paths(), o)
                },
            },
    {
        match m {
            RealOutput::Exit => None,
            RealOutput::Output(o) => Some(self.output.handle(o)),
        }
    }
}

impl HandleOutput for Data {
    fn handle(&mut self, o: Output) -> Report {
        self.output.handle(o)
    }
}

/// The sink variants that can be asked for.
#[derive(PartialEq, Eq, Structural, Clone, Copy, Debug)]
pub enum OutputType {
    Stdout,
    Log,
    Fancy,
}

impl OutputType {
    /// A fresh handler of this variant, tracking no job.
    pub fn into_output(&self) -> (r: Handler)
        ensures
            match *self {
                OutputType::Stdout => r is Stdout,
                OutputType::Log => r is Log,
                OutputType::Fancy => r is Fancy,
            },
            r.paths().is_empty(),
    {
        match self {
            OutputType::Stdout => Handler::Stdout(StdoutHandler::new()),
            OutputType::Log => Handler::Log(LogHandler::new()),
            OutputType::Fancy => Handler::Fancy(FancyHandler::new()),
        }
    }
}

} // verus!
