//! The hot-reload loop's decisions: the loader state, the events the
//! embedding harness feeds it, and the action it asks of the harness in
//! return. The harness itself does the loading, printing and key reading and
//! reports what happened as the next event.

use vstd::prelude::*;

verus! {

/// State of the hot-reload loop.
#[derive(Debug, Copy, Clone, PartialEq, Eq, Structural)]
pub struct Loader {
    /// Accumulated session time.
    pub time: u64,
    /// The session time at which the last reload was started.
    pub last_reload: u64,
    /// How much time must pass after a reload before the next one starts.
    pub reload_interval: u64,
    /// Whether the last load attempt failed; while set, no reload is started
    /// until the reload key clears it.
    pub got_error: bool,
}

/// One thing that happened in the embedding harness.
#[derive(Debug, Copy, Clone, PartialEq, Eq, Structural)]
pub enum LoaderEvent {
    /// The frame advanced by `dt`.
    Update { dt: u64 },
    /// A reload succeeded; the freshly loaded settings carry this reload
    /// interval.
    LoadOk { reload_interval: u64 },
    /// A reload failed.
    LoadErr,
    /// The reload key was pressed.
    ReloadKeyPressed,
}

/// What the harness is asked to do next.
#[derive(Debug, Copy, Clone, PartialEq, Eq, Structural)]
pub enum LoaderAction {
    /// Nothing.
    Idle,
    /// Load the source anew and report back with `LoadOk` or `LoadErr`.
    StartReload,
    /// Tell the user that the load failed and how to retry.
    ShowError,
    /// Swap the freshly loaded module and settings in.
    UseNewModule,
    /// Announce that a reload was forced by hand.
    AnnounceReload,
}

/// It is time to reload: the last attempt did not fail, and more than the
/// reload interval has passed since the last reload started.
pub open spec fn spec_should_reload(l: Loader) -> bool {
    !l.got_error && l.last_reload + l.reload_interval < l.time
}

/// The next loader state, and the action asked of the harness, for one
/// event.
pub open spec fn spec_loader_step(l: Loader, ev: LoaderEvent) -> (Loader, LoaderAction) {
    match ev {
        LoaderEvent::Update { dt } => {
            let bumped = Loader { time: (l.time + dt) as u64, ..l };
            if spec_should_reload(bumped) {
                (Loader { last_reload: bumped.time, ..bumped }, LoaderAction::StartReload)
            } else {
                (bumped, LoaderAction::Idle)
            }
        },
        LoaderEvent::LoadErr => (Loader { got_error: true, ..l }, LoaderAction::ShowError),
        LoaderEvent::LoadOk { reload_interval } => (
            Loader { got_error: false, reload_interval, ..l },
            LoaderAction::UseNewModule,
        ),
        LoaderEvent::ReloadKeyPressed => (
            Loader { got_error: false, ..l },
            LoaderAction::AnnounceReload,
        ),
    }
}

/// Creates the loader state of a fresh session with the given reload
/// interval.
pub fn new_loader_interval(interval: u64) -> (l: Loader)
    ensures
        l == (Loader { time: 0, last_reload: 0, reload_interval: interval, got_error: false }),
{
    Loader { time: 0, last_reload: 0, reload_interval: interval, got_error: false }
}

/// It is time to reload; see [`spec_should_reload`].
pub fn should_reload(loader: &Loader) -> (r: bool)
    ensures
        r == spec_should_reload(*loader),
{
    !loader.got_error && (loader.last_reload as u128 + loader.reload_interval as u128) < (
    loader.time as u128)
}

/// Feeds one harness event to the loader.
///
/// On a frame update the clock advances and, once more than the reload
/// interval has passed since the last reload, a reload is started. A failed
/// load parks the loader in its error state until the reload key clears it;
/// a successful load clears the error state and adopts the fresh reload
/// interval.
pub fn event_loader_source_settings_module(loader: &mut Loader, ev: &LoaderEvent) -> (a:
    LoaderAction)
    requires
        *ev matches LoaderEvent::Update { dt } ==> old(loader).time + dt <= u64::MAX,
    ensures
        (*final(loader), a) == spec_loader_step(*old(loader), *ev),
{
    match *ev {
        LoaderEvent::Update { dt } => {
            loader.time = loader.time + dt;
            let bumped = *loader;
            if should_reload(&bumped) {
                loader.last_reload = loader.time;
                LoaderAction::StartReload
            } else {
                LoaderAction::Idle
            }
        }
        LoaderEvent::LoadErr => {
            loader.got_error = true;
            LoaderAction::ShowError
        }
        LoaderEvent::LoadOk { reload_interval } => {
            loader.got_error = false;
            loader.reload_interval = reload_interval;
            LoaderAction::UseNewModule
        }
        LoaderEvent::ReloadKeyPressed => {
            loader.got_error = false;
            LoaderAction::AnnounceReload
        }
    }
}

} // verus!
