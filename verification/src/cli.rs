use vstd::prelude::*;

verus! {

/// The configuration the command line yields, parsed once and then fixed
/// for the life of the process.
pub struct Config {
    /// Directory to scan and watch for source documents.
    pub input: Vec<u8>,
    /// Directory the PNG rasters are written into, flat.
    pub output: Vec<u8>,
    /// Run a batch pass over the input directory before watching.
    pub convert_existing: bool,
    /// Run only the batch pass; never watch.
    pub no_watch: bool,
    /// Print the program name and version, and do nothing else.
    pub version: bool,
}

/// What a run with a given configuration is to do, in order: print the
/// version line, create the two directories, run a batch pass, watch.
#[derive(PartialEq, Eq, Structural)]
pub struct AppPlan {
    pub print_version: bool,
    pub create_dirs: bool,
    pub run_batch: bool,
    pub start_watch: bool,
}

/// The dispatch rule. A version request short-circuits everything. Anything
/// else first creates the directories; a batch pass runs when it was asked
/// for or when watching is declined (a no-watch run without a batch pass
/// would do nothing at all); the watch loop starts unless declined.
pub open spec fn dispatch_of(c: Config) -> AppPlan {
    AppPlan {
        print_version: c.version,
        create_dirs: !c.version,
        run_batch: !c.version && (c.convert_existing || c.no_watch),
        start_watch: !c.version && !c.no_watch,
    }
}

/// Decides what a run with configuration `c` does.
pub fn make_plan(c: &Config) -> (r: AppPlan)
    ensures
        r == dispatch_of(*c),
{
    AppPlan {
        print_version: c.version,
        create_dirs: !c.version,
        run_batch: !c.version && (c.convert_existing || c.no_watch),
        start_watch: !c.version && !c.no_watch,
    }
}

/// Under no-watch, asking for a batch pass on top changes nothing: two
/// configurations that both decline watching and agree on the version flag
/// are dispatched identically, whatever their convert-existing flags say —
/// no-watch already forces the one batch pass.
pub proof fn lemma_convert_existing_redundant_under_no_watch(a: Config, b: Config)
    requires
        a.no_watch,
        b.no_watch,
        a.version == b.version,
    ensures
        dispatch_of(a) == dispatch_of(b),
{
}

/// The program name and semantic version, as the version flag prints them.
pub fn version_line() -> (r: &'static str)
    ensures
        r@ == "svg-to-png 0.1.0"@,
{
    "svg-to-png 0.1.0"
}

} // verus!
