//! The Update Pipeline: one tick of fetch, download, atomic replace and
//! apply, as a machine from state and event to next state and action.
use vstd::prelude::*;
use crate::paths::{cached_image_path, path_join, staged_image_path, wallpaper_uri};
use crate::source::{
    fail_at, failure, is_absolute_url, latest_reference, reference_spec, ListingOutcome,
    TickFailure, TickStage,
};

verus! {

/// What stays fixed across ticks: the source's base location and the two
/// files of the Cached Image.
pub struct TickContext {
    pub base: String,
    pub cached_path: String,
    pub staged_path: String,
}

impl TickContext {
    /// The staged copy is a file of its own: renaming it replaces the
    /// Cached Image.
    pub open spec fn wf(&self) -> bool {
        self.staged_path@ != self.cached_path@
    }

    /// The context for the state directory `dir` and the source at `base`.
    pub fn new(dir: &str, base: &str) -> (r: TickContext)
        ensures
            r.base@ == base@,
            r.cached_path@ == path_join(dir@, "current_wallpaper.jpg"@),
            r.staged_path@ == path_join(dir@, "current_wallpaper.jpg.part"@),
            r.wf(),
    {
        let r = TickContext {
            base: String::from_str(base),
            cached_path: cached_image_path(dir),
            staged_path: staged_image_path(dir),
        };
        proof {
            reveal_strlit("current_wallpaper.jpg");
            reveal_strlit("current_wallpaper.jpg.part");
            assert(r.staged_path@.len() == r.cached_path@.len() + 5);
        }
        r
    }

    pub fn is_wf(&self) -> (r: bool)
        ensures
            r == self.wf(),
    {
        self.staged_path != self.cached_path
    }
}

#[derive(Clone, Copy, Debug, PartialEq, Eq, Structural)]
pub enum TickState {
    AwaitingListing,
    AwaitingDownload,
    AwaitingStage,
    AwaitingReplace,
    AwaitingPrimary,
    AwaitingVariants,
    Finished,
}

/// The work a tick asks for next.
#[derive(Debug)]
pub enum TickAction {
    /// Request the source's listing.
    FetchListing,
    /// Download the image at this absolute reference.
    Download(String),
    /// Write these bytes, whole, to the staged path.
    WriteStaged(Vec<u8>),
    /// Rename the staged file over the Cached Image, in one step.
    ReplaceCached,
    /// Set the desktop background to this URI; this one must succeed.
    ApplyPrimary(String),
    /// Set the dark and lock-screen variants to this URI, best effort.
    ApplyVariants(String),
    /// The tick is over, with this outcome.
    Finish(Result<(), TickFailure>),
}

/// What the work asked for gave.
#[derive(Debug)]
pub enum TickEvent {
    ListingFetched(ListingOutcome),
    /// The image bytes, or the failure: a transport error (`None`) or a
    /// non-success status.
    Downloaded(Result<Vec<u8>, Option<u16>>),
    /// Whether the staged file was written in full.
    Staged(bool),
    /// Whether the rename succeeded.
    Replaced(bool),
    /// Whether the primary background setting succeeded.
    PrimaryApplied(bool),
    /// The variants were attempted; their outcome does not matter.
    VariantsApplied,
}

/// The event that a state waits for.
pub open spec fn awaits(state: TickState, event: TickEvent) -> bool {
    match state {
        TickState::AwaitingListing => event is ListingFetched,
        TickState::AwaitingDownload => event is Downloaded,
        TickState::AwaitingStage => event is Staged,
        TickState::AwaitingReplace => event is Replaced,
        TickState::AwaitingPrimary => event is PrimaryApplied,
        TickState::AwaitingVariants => event is VariantsApplied,
        TickState::Finished => false,
    }
}

pub fn accepts(state: TickState, event: &TickEvent) -> (r: bool)
    ensures
        r == awaits(state, *event),
{
    match state {
        TickState::AwaitingListing => matches!(event, TickEvent::ListingFetched(_)),
        TickState::AwaitingDownload => matches!(event, TickEvent::Downloaded(_)),
        TickState::AwaitingStage => matches!(event, TickEvent::Staged(_)),
        TickState::AwaitingReplace => matches!(event, TickEvent::Replaced(_)),
        TickState::AwaitingPrimary => matches!(event, TickEvent::PrimaryApplied(_)),
        TickState::AwaitingVariants => matches!(event, TickEvent::VariantsApplied),
        TickState::Finished => false,
    }
}

/// A tick starts by requesting the listing.
pub fn begin_tick() -> (r: (TickState, TickAction))
    ensures
        r.0 == TickState::AwaitingListing,
        r.1 is FetchListing,
{
    (TickState::AwaitingListing, TickAction::FetchListing)
}

/// The tick ends, failed at `stage`.
pub open spec fn failed(stage: TickStage, status: Option<u16>) -> (TickState, TickAction) {
    (TickState::Finished, TickAction::Finish(Err(failure(stage, status))))
}

/// One transition of a tick: each stage either hands on to the next or ends
/// the tick with a failure that names it.
pub open spec fn tick_transition(ctx: TickContext, event: TickEvent, r: (TickState, TickAction)) -> bool {
    match event {
        TickEvent::ListingFetched(l) => match reference_spec(ctx.base@, l) {
            Ok(u) => r.0 == TickState::AwaitingDownload && (r.1 matches TickAction::Download(x)
                && x@ == u && is_absolute_url(x@)),
            Err(f) => r == (TickState::Finished, TickAction::Finish(Err(f))),
        },
        TickEvent::Downloaded(d) => match d {
            Ok(b) => r.0 == TickState::AwaitingStage && (r.1 matches TickAction::WriteStaged(x)
                && x@ == b@),
            Err(status) => r == failed(TickStage::Download, status),
        },
        TickEvent::Staged(ok) => if ok {
            r.0 == TickState::AwaitingReplace && r.1 is ReplaceCached
        } else {
            r == failed(TickStage::Write, None)
        },
        TickEvent::Replaced(ok) => if ok {
            r.0 == TickState::AwaitingPrimary && (r.1 matches TickAction::ApplyPrimary(u) && u@
                == "file://"@ + ctx.cached_path@)
        } else {
            r == failed(TickStage::Replace, None)
        },
        TickEvent::PrimaryApplied(ok) => if ok {
            r.0 == TickState::AwaitingVariants && (r.1 matches TickAction::ApplyVariants(u) && u@
                == "file://"@ + ctx.cached_path@)
        } else {
            r == failed(TickStage::Apply, None)
        },
        TickEvent::VariantsApplied => r == (TickState::Finished, TickAction::Finish(Ok(()))),
    }
}

/// Advances a tick by one event.
pub fn tick_step(ctx: &TickContext, state: TickState, event: TickEvent) -> (r: (
    TickState,
    TickAction,
))
    requires
        ctx.wf(),
        awaits(state, event),
    ensures
        tick_transition(*ctx, event, r),
{
    match event {
        TickEvent::ListingFetched(l) => match latest_reference(ctx.base.as_str(), &l) {
            Ok(u) => (TickState::AwaitingDownload, TickAction::Download(u)),
            Err(f) => (TickState::Finished, TickAction::Finish(Err(f))),
        },
        TickEvent::Downloaded(d) => match d {
            Ok(b) => (TickState::AwaitingStage, TickAction::WriteStaged(b)),
            Err(status) => (
                TickState::Finished,
                TickAction::Finish(Err(fail_at(TickStage::Download, status))),
            ),
        },
        TickEvent::Staged(ok) => if ok {
            (TickState::AwaitingReplace, TickAction::ReplaceCached)
        } else {
            (TickState::Finished, TickAction::Finish(Err(fail_at(TickStage::Write, None))))
        },
        TickEvent::Replaced(ok) => if ok {
            (
                TickState::AwaitingPrimary,
                TickAction::ApplyPrimary(wallpaper_uri(ctx.cached_path.as_str())),
            )
        } else {
            (TickState::Finished, TickAction::Finish(Err(fail_at(TickStage::Replace, None))))
        },
        TickEvent::PrimaryApplied(ok) => if ok {
            (
                TickState::AwaitingVariants,
                TickAction::ApplyVariants(wallpaper_uri(ctx.cached_path.as_str())),
            )
        } else {
            (TickState::Finished, TickAction::Finish(Err(fail_at(TickStage::Apply, None))))
        },
        TickEvent::VariantsApplied => (TickState::Finished, TickAction::Finish(Ok(()))),
    }
}

/// The Cached Image and its staged copy, as (canonical contents, staged
/// contents), once `action` has been carried out in full.
pub open spec fn files_after(files: (Option<Seq<u8>>, Option<Seq<u8>>), action: TickAction) -> (
    Option<Seq<u8>>,
    Option<Seq<u8>>,
) {
    match action {
        TickAction::WriteStaged(b) => (files.0, Some(b@)),
        TickAction::ReplaceCached => match files.1 {
            Some(x) => (Some(x), None),
            None => files,
        },
        _ => files,
    }
}

/// The same files when the process is stopped while `action` runs: a write
/// may leave any prefix of its bytes, a rename happens entirely or not at all.
pub open spec fn files_interrupted(
    files: (Option<Seq<u8>>, Option<Seq<u8>>),
    action: TickAction,
    written: Seq<u8>,
) -> (Option<Seq<u8>>, Option<Seq<u8>>) {
    match action {
        TickAction::WriteStaged(_) => (files.0, Some(written)),
        _ => files,
    }
}

/// Whatever action a tick step asks for, the Cached Image keeps its
/// contents if the process is stopped during it; the only action that
/// changes it, the rename, is asked for only once the staged copy was
/// reported written in full.
pub proof fn lemma_cached_image_never_partial(
    ctx: TickContext,
    state: TickState,
    event: TickEvent,
    r: (TickState, TickAction),
    files: (Option<Seq<u8>>, Option<Seq<u8>>),
    written: Seq<u8>,
)
    requires
        awaits(state, event),
        tick_transition(ctx, event, r),
    ensures
        files_interrupted(files, r.1, written).0 == files.0,
        !(r.1 is ReplaceCached) ==> files_after(files, r.1).0 == files.0,
        r.1 is ReplaceCached ==> state == TickState::AwaitingStage && event == TickEvent::Staged(
            true,
        ),
{
}

/// A download that is staged and then renamed into place leaves the Cached
/// Image holding exactly the downloaded bytes.
pub proof fn lemma_download_becomes_cached(
    ctx: TickContext,
    bytes: Vec<u8>,
    r1: (TickState, TickAction),
    r2: (TickState, TickAction),
    files: (Option<Seq<u8>>, Option<Seq<u8>>),
)
    requires
        tick_transition(ctx, TickEvent::Downloaded(Ok(bytes)), r1),
        tick_transition(ctx, TickEvent::Staged(true), r2),
    ensures
        r1.0 == TickState::AwaitingStage,
        r2.1 is ReplaceCached,
        files_after(files_after(files, r1.1), r2.1).0 == Some(bytes@),
{
}

} // verus!
