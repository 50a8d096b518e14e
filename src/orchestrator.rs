//! The decisions of the tree walk: which directories are extracted, under
//! which job id, and whether their files are removed afterwards.
use vstd::prelude::*;
use vstd::string::StringSliceAdditionalSpecFns;
use crate::output::{Data, Handler, Output, OutputType, RealOutput};
use crate::rarfiles::{ExtractionError, RarFiles};

verus! {

/// True when a file name marks a hidden entry: it starts with a dot.
pub fn is_hidden(name: &str) -> (r: bool)
    ensures
        r == (name.spec_bytes().len() > 0 && name.spec_bytes()[0] == 46u8),
{
    let b = name.as_bytes();
    b.len() > 0 && b[0] == 46u8
}

/// The run's options.
pub struct Opt {
    /// Root of the walk.
    pub path: String,
    /// Whether to remove an archive set's files after it was extracted.
    pub remove: bool,
    /// The sink variant; standard output when not given.
    pub output: Option<OutputType>,
}

impl Opt {
    /// Takes the chosen sink variant out of the options, standard output when
    /// none was chosen, and builds the sink.
    pub fn get_output(&mut self) -> (r: Data)
        ensures
            final(self).output is None,
            final(self).path == old(self).path,
            final(self).remove == old(self).remove,
            match old(self).output {
                Some(OutputType::Log) => r.output is Log,
                Some(OutputType::Fancy) => r.output is Fancy,
                _ => r.output is Stdout,
            },
            r.output.paths().is_empty(),
    {
        let kind = match self.output.take() {
            Some(k) => k,
            None => OutputType::Stdout,
        };
        Data { output: kind.into_output() }
    }
}

/// What to do with one visited directory.
pub enum Step {
    /// The directory holds no primary archive: nothing is extracted or sent.
    Skip,
    /// Send `visit`, then extract the set as job `id`.
    Extract { visit: Output, id: usize },
}

/// The walk's state: the next job id and whether sets are removed after
/// extraction.
pub struct Orchestrator {
    next_id: usize,
    remove: bool,
}

impl Orchestrator {
    pub closed spec fn next_id(&self) -> usize {
        self.next_id
    }

    pub closed spec fn remove(&self) -> bool {
        self.remove
    }

    pub fn new(remove: bool) -> (r: Orchestrator)
        ensures
            r.next_id() == 0,
            r.remove() == remove,
    {
        Orchestrator { next_id: 0, remove }
    }

    /// Whether another job id can be handed out.
    pub fn ids_left(&self) -> (r: bool)
        ensures
            r == (self.next_id() < usize::MAX),
    {
        self.next_id < usize::MAX
    }

    /// Decides on a visited directory: a set with a primary archive is
    /// extracted under the next id, which is then used up; any other set is
    /// skipped.
    pub fn visit(&mut self, path: String, rars: &RarFiles) -> (r: Step)
        requires
            old(self).next_id() < usize::MAX,
        ensures
            final(self).remove() == old(self).remove(),
            rars.main_rar() is None ==> r is Skip && final(self).next_id() == old(self).next_id(),
            rars.main_rar() is Some ==> r == (Step::Extract { visit: Output::Visit(path), id: old(self).next_id() })
                && final(self).next_id() == old(self).next_id() + 1,
    {
        if rars.has_primary() {
            let id = self.next_id;
            self.next_id = self.next_id + 1;
            Step::Extract { visit: Output::Visit(path), id }
        } else {
            Step::Skip
        }
    }

    /// Whether the set's files are removed after extraction ended with
    /// `result`: only after a success, and only when removal was asked for.
    pub fn should_remove(&self, result: &Result<Output, ExtractionError>) -> (r: bool)
        ensures
            r == (self.remove() && result is Ok),
    {
        self.remove && result.is_ok()
    }

    /// The message that ends the sink worker once the walk is over.
    pub fn finish(&self) -> (r: RealOutput)
        ensures
            r is Exit,
    {
        RealOutput::Exit
    }
}

} // verus!
