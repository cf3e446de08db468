use vstd::prelude::*;

verus! {

/// A log level, as the logger knows them.
#[derive(Clone, Copy, Debug, PartialEq, Eq, Structural)]
pub enum Level {
    Critical,
    Error,
    Warning,
    Info,
    Debug,
    Trace,
}

/// The order in which verbosity switches levels on: each further `-v`
/// adds the next one.
pub open spec fn verbosity_order() -> Seq<Level> {
    seq![Level::Info, Level::Warning, Level::Error, Level::Critical, Level::Debug, Level::Trace]
}

/// How many levels a verbosity switches on: one per `-v` up to six; any
/// other count (none, or more than six) gives the default of four.
pub open spec fn verbosity_count(verbosity: u64) -> nat {
    if 1 <= verbosity <= 6 {
        verbosity as nat
    } else {
        4
    }
}

/// The levels that a verbosity allows.
pub open spec fn verbosity_levels(verbosity: u64) -> Seq<Level> {
    verbosity_order().take(verbosity_count(verbosity) as int)
}

/// Maps the number of `-v` flags to the list of allowed log levels.
pub fn parse_verbosity(verbosity: u64) -> (levels: Vec<Level>)
    ensures
        levels@ == verbosity_levels(verbosity),
{
    let count: u64 = if 1 <= verbosity && verbosity <= 6 {
        verbosity
    } else {
        4
    };
    let mut levels: Vec<Level> = Vec::new();
    levels.push(Level::Info);
    if count >= 2 {
        levels.push(Level::Warning);
    }
    if count >= 3 {
        levels.push(Level::Error);
    }
    if count >= 4 {
        levels.push(Level::Critical);
    }
    if count >= 5 {
        levels.push(Level::Debug);
    }
    if count >= 6 {
        levels.push(Level::Trace);
    }
    assert(levels@ =~= verbosity_levels(verbosity));
    levels
}

/// Whether a record of `level` passes a filter that allows `levels`.
pub fn level_allowed(levels: &Vec<Level>, level: Level) -> (allowed: bool)
    ensures
        allowed == levels@.contains(level),
{
    let mut i: usize = 0;
    while i < levels.len()
        invariant
            i <= levels@.len(),
            forall|k: int| 0 <= k < i ==> levels@[k] != level,
        decreases levels@.len() - i,
    {
        if levels[i] == level {
            assert(levels@[i as int] == level);
            return true;
        }
        i = i + 1;
    }
    false
}

/// Info is always allowed, and it is the first level of every list.
pub proof fn lemma_info_always_allowed(verbosity: u64)
    ensures
        verbosity_levels(verbosity).len() >= 1,
        verbosity_levels(verbosity)[0] == Level::Info,
        verbosity_levels(verbosity).contains(Level::Info),
{
    assert(verbosity_levels(verbosity)[0] == Level::Info);
}

/// Each further `-v` (up to six) keeps every level allowed before and adds
/// one: the lists are prefixes of each other.
pub proof fn lemma_verbosity_grows(v: u64, w: u64)
    requires
        1 <= v <= w <= 6,
    ensures
        verbosity_levels(v).len() == v,
        verbosity_levels(w).len() == w,
        verbosity_levels(v) == verbosity_levels(w).take(v as int),
        forall|l: Level| verbosity_levels(v).contains(l) ==> verbosity_levels(w).contains(l),
{
    assert(verbosity_levels(v) =~= verbosity_levels(w).take(v as int));
    assert forall|l: Level| verbosity_levels(v).contains(l) implies verbosity_levels(w).contains(
        l,
    ) by {
        let k = choose|k: int| 0 <= k < verbosity_levels(v).len() && verbosity_levels(v)[k] == l;
        assert(verbosity_levels(w)[k] == l);
    }
}

/// No verbosity, or more than six, means the same as four: Info, Warning,
/// Error and Critical.
pub proof fn lemma_default_verbosity(verbosity: u64)
    requires
        verbosity == 0 || verbosity > 6,
    ensures
        verbosity_levels(verbosity) == verbosity_levels(4),
        verbosity_levels(verbosity) == seq![
            Level::Info,
            Level::Warning,
            Level::Error,
            Level::Critical,
        ],
{
    assert(verbosity_levels(verbosity) =~= seq![
        Level::Info,
        Level::Warning,
        Level::Error,
        Level::Critical,
    ]);
}

/// No level is listed twice, and Trace is allowed only at verbosity six.
pub proof fn lemma_verbosity_levels_distinct(verbosity: u64)
    ensures
        verbosity_levels(verbosity).no_duplicates(),
        verbosity_levels(verbosity).contains(Level::Trace) <==> verbosity == 6,
        verbosity_levels(verbosity).contains(Level::Debug) <==> verbosity >= 5 && verbosity <= 6,
{
    let s = verbosity_levels(verbosity);
    let o = verbosity_order();
    assert(o[0] == Level::Info && o[1] == Level::Warning && o[2] == Level::Error);
    assert(o[3] == Level::Critical && o[4] == Level::Debug && o[5] == Level::Trace);
    if verbosity == 6 {
        assert(s[5] == Level::Trace);
    }
    if 5 <= verbosity <= 6 {
        assert(s[4] == Level::Debug);
    }
}

/// A filter built from a verbosity lets a record through exactly when its
/// level is one that the verbosity allows; raising the verbosity (up to
/// six) never stops a record that passed before.
pub proof fn lemma_filter_monotone(v: u64, w: u64, level: Level)
    requires
        1 <= v <= w <= 6,
        verbosity_levels(v).contains(level),
    ensures
        verbosity_levels(w).contains(level),
{
    lemma_verbosity_grows(v, w);
}

} // verus!
