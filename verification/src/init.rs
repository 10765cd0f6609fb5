use vstd::prelude::*;

use crate::error::InitError;
use crate::level::spec_parse_level;
use crate::level::parse_level;

verus! {

/// What became of the rotating file sink when it was opened.
#[derive(Clone, Copy, Debug, PartialEq, Eq, Structural)]
pub enum SinkStatus {
    /// The sink opened and is ready to take records.
    Ready,
    /// The sink could not be opened (permissions, missing parent
    /// directory, disk full at creation time).
    OpenFailed,
}

/// How a successful initialization attempt ended.
#[derive(Clone, Copy, Debug, PartialEq, Eq, Structural)]
pub enum InitOutcome {
    /// This attempt installed the logger; the caller keeps the one flush
    /// guard alive for the life of the process.
    Installed,
    /// A logger was already installed; the attempt changed nothing, owes
    /// the caller no guards, and owes a diagnostic notice instead.
    DuplicateIgnored,
}

/// The process-wide logger slot: a single global place a logger can be
/// installed into, at most once. This models the registry the surrounding
/// program keeps; the real slot lives in the ambient logging facade.
#[derive(Clone, Copy, Debug, PartialEq, Eq, Structural)]
pub struct LoggerSlot {
    pub installed: bool,
}

impl LoggerSlot {
    /// A slot with no logger installed yet.
    pub fn new() -> (s: LoggerSlot)
        ensures
            !s.installed,
    {
        LoggerSlot { installed: false }
    }

    /// One attempt to claim the slot: it is claimed exactly when it was
    /// still free, and is occupied ever after.
    pub fn install(&mut self) -> (claimed: bool)
        ensures
            final(self).installed,
            claimed == !old(self).installed,
    {
        let was_installed = self.installed;
        self.installed = true;
        !was_installed
    }
}

/// One whole initialization attempt over the abstract slot: given whether a
/// logger was already installed, the threshold string, and whether the sink
/// opened, the new slot state and the result the caller sees.
pub open spec fn spec_attempt(
    installed: bool,
    level: Seq<char>,
    sink_ok: bool,
) -> (bool, Result<InitOutcome, InitError>) {
    if spec_parse_level(level) is None {
        (installed, Err(InitError::InvalidLevel))
    } else if !sink_ok {
        (installed, Err(InitError::SinkCreationFailed))
    } else if installed {
        (true, Ok(InitOutcome::DuplicateIgnored))
    } else {
        (true, Ok(InitOutcome::Installed))
    }
}

/// Settles an initialization attempt once the threshold has parsed and the
/// sink has been attempted: a failed sink is a typed error and leaves the
/// slot alone; otherwise the attempt succeeds, installing only into a free
/// slot. Callers that must not touch the filesystem on a bad threshold call
/// `parse_level` first and only then open the sink.
pub fn complete_attempt(slot: &mut LoggerSlot, sink: SinkStatus) -> (r: Result<
    InitOutcome,
    InitError,
>)
    ensures
        sink is OpenFailed ==> r == Err::<InitOutcome, InitError>(InitError::SinkCreationFailed)
            && *final(slot) == *old(slot),
        sink is Ready && old(slot).installed ==> r == Ok::<InitOutcome, InitError>(
            InitOutcome::DuplicateIgnored,
        ) && *final(slot) == *old(slot),
        sink is Ready && !old(slot).installed ==> r == Ok::<InitOutcome, InitError>(
            InitOutcome::Installed,
        ) && final(slot).installed,
{
    match sink {
        SinkStatus::OpenFailed => Err(InitError::SinkCreationFailed),
        SinkStatus::Ready => {
            if slot.install() {
                Ok(InitOutcome::Installed)
            } else {
                Ok(InitOutcome::DuplicateIgnored)
            }
        },
    }
}

/// Decides one whole initialization attempt, exactly as `spec_attempt`
/// abstracts it: parse the threshold first, then settle the sink and the
/// slot.
pub fn attempt(slot: &mut LoggerSlot, level: &str, sink: SinkStatus) -> (r: Result<
    InitOutcome,
    InitError,
>)
    ensures
        ({
            let (state, res) = spec_attempt(old(slot).installed, level@, sink is Ready);
            final(slot).installed == state && r == res
        }),
{
    match parse_level(level) {
        Err(e) => Err(e),
        Ok(_) => complete_attempt(slot, sink),
    }
}

/// Repeating initialization with valid, identical arguments is safe: both
/// attempts succeed, the first installs and yields the flush guard, the
/// second installs nothing, yields no guards, and leaves the slot as the
/// first attempt left it.
pub proof fn lemma_repeated_init_is_safe(level: Seq<char>, sink_ok: bool)
    requires
        spec_parse_level(level) is Some,
        sink_ok,
    ensures
        ({
            let (s1, r1) = spec_attempt(false, level, sink_ok);
            let (s2, r2) = spec_attempt(s1, level, sink_ok);
            r1 == Ok::<InitOutcome, InitError>(InitOutcome::Installed) && r2 == Ok::<
                InitOutcome,
                InitError,
            >(InitOutcome::DuplicateIgnored) && s1 && s2
        }),
{
}

/// An unrecognized threshold is reported as `InvalidLevel` and installs
/// nothing, whatever state the slot was in.
pub proof fn lemma_invalid_level_installs_nothing(installed: bool, level: Seq<char>, sink_ok: bool)
    requires
        spec_parse_level(level) is None,
    ensures
        spec_attempt(installed, level, sink_ok).0 == installed,
        spec_attempt(installed, level, sink_ok).1 == Err::<InitOutcome, InitError>(
            InitError::InvalidLevel,
        ),
{
}

} // verus!
