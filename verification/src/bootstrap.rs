//! Making sure the formatter executable is at hand before the window opens:
//! the decisions of the start-up sequence. Probing, directory creation, the
//! download and the write to disk are the caller's work; each of their
//! results comes back as an event.

use vstd::prelude::*;
use vstd::string::*;

verus! {

/// Where the start-up sequence stands.
#[derive(Clone, Copy, Debug, PartialEq, Eq, Structural)]
pub enum Stage {
    /// The probe of the installed tool is under way.
    Probing,
    /// The probe of the executable in the cache is under way.
    ProbingCache,
    /// The cache directory is being looked up or created.
    PreparingCache,
    /// The download is under way.
    Fetching,
    /// The downloaded bytes are being written to the cache.
    Persisting,
    /// The installed tool answered the probe.
    Installed,
    /// The executable in the cache is the tool: an earlier start put it
    /// there, or this one did.
    Cached,
    /// Start-up was given up.
    Failed,
}

/// What the start-up sequence needs to know of the machine.
#[derive(Clone, Debug, PartialEq, Eq)]
pub struct Platform {
    pub windows: bool,
    pub arch: String,
    /// The user's home directory, where the environment names one.
    pub home: Option<String>,
}

pub struct PlatformView {
    pub windows: bool,
    pub arch: Seq<char>,
    pub home: Option<Seq<char>>,
}

impl View for Platform {
    type V = PlatformView;

    open spec fn view(&self) -> PlatformView {
        PlatformView {
            windows: self.windows,
            arch: self.arch@,
            home: match self.home {
                Some(home) => Some(home@),
                None => None,
            },
        }
    }
}

/// The name under which an installed formatter is found.
pub open spec fn tool_name() -> Seq<char> {
    "luau-format"@
}

/// The per-user cache directory below `home`.
pub open spec fn cache_dir(home: Seq<char>) -> Seq<char> {
    home + "/.luau-format-gui"@
}

/// The place of the downloaded executable below `home`.
pub open spec fn cache_path(home: Seq<char>) -> Seq<char> {
    cache_dir(home) + "/luau-format"@
}

/// The address of the latest release: one fixed address on Windows, elsewhere
/// one that ends in the processor architecture.
pub open spec fn download_url(platform: PlatformView) -> Seq<char> {
    if platform.windows {
        "https://github.com/TechHog8984/luau-format/releases/latest/download/luau-format.exe"@
    } else {
        "https://github.com/TechHog8984/luau-format/releases/latest/download/luau-format-"@
            + platform.arch
    }
}

/// The body with which the release server answers for a file it does not
/// have: the nine ASCII bytes of `Not Found`.
pub open spec fn not_found_body() -> Seq<u8> {
    seq![78u8, 111u8, 116u8, 32u8, 70u8, 111u8, 117u8, 110u8, 100u8]
}

/// The message with which start-up ends when the cache is needed and the
/// environment names no home directory.
pub open spec fn no_home_message() -> Seq<char> {
    "failed to get HOME environment variable"@
}

/// The message with which start-up ends when the server has no build.
pub open spec fn unsupported_message(url: Seq<char>) -> Seq<char> {
    "invalid file at url "@ + url + "! is your architecture supported?"@
}

pub fn cache_dir_of(home: &str) -> (dir: String)
    ensures
        dir@ == cache_dir(home@),
{
    String::from_str(home).concat("/.luau-format-gui")
}

pub fn cache_path_of(home: &str) -> (path: String)
    ensures
        path@ == cache_path(home@),
{
    cache_dir_of(home).concat("/luau-format")
}

pub fn download_url_of(platform: &Platform) -> (url: String)
    ensures
        url@ == download_url(platform@),
{
    if platform.windows {
        String::from_str(
            "https://github.com/TechHog8984/luau-format/releases/latest/download/luau-format.exe",
        )
    } else {
        String::from_str(
            "https://github.com/TechHog8984/luau-format/releases/latest/download/luau-format-",
        ).concat(platform.arch.as_str())
    }
}

/// Whether a downloaded body is the server's "not found" answer.
pub fn is_not_found(body: &[u8]) -> (missing: bool)
    ensures
        missing == (body@ == not_found_body()),
{
    let missing = body.len() == 9 && body[0] == 78 && body[1] == 111 && body[2] == 116 && body[3]
        == 32 && body[4] == 70 && body[5] == 111 && body[6] == 117 && body[7] == 110 && body[8]
        == 100;
    proof {
        if missing {
            assert(body@ =~= not_found_body());
        } else if body@.len() == 9 {
            assert(not_found_body()[0] == 78 && not_found_body()[1] == 111 && not_found_body()[2]
                == 116 && not_found_body()[3] == 32 && not_found_body()[4] == 70
                && not_found_body()[5] == 111 && not_found_body()[6] == 117 && not_found_body()[7]
                == 110 && not_found_body()[8] == 100);
        } else {
            assert(not_found_body().len() == 9);
        }
    }
    missing
}

/// The result of one piece of outside work of the start-up sequence.
#[derive(Clone, Debug, PartialEq, Eq)]
pub enum BootstrapEvent {
    /// The installed tool could be run.
    ProbeSucceeded,
    /// The installed tool could not be run.
    ProbeFailed,
    /// The cache directory exists, found or created.
    CacheDirReady,
    /// The cache directory could not be looked up.
    StatFailed,
    /// The cache directory could not be created.
    CreateDirFailed,
    /// The request could not be made.
    RequestFailed,
    /// The response's body could not be read.
    BodyFailed,
    /// The response's body arrived.
    Fetched(Vec<u8>),
    /// The executable was written.
    Persisted,
    /// The executable could not be written.
    WriteFailed,
}

pub enum BootstrapEventView {
    ProbeSucceeded,
    ProbeFailed,
    CacheDirReady,
    StatFailed,
    CreateDirFailed,
    RequestFailed,
    BodyFailed,
    Fetched(Seq<u8>),
    Persisted,
    WriteFailed,
}

impl View for BootstrapEvent {
    type V = BootstrapEventView;

    open spec fn view(&self) -> BootstrapEventView {
        match *self {
            BootstrapEvent::ProbeSucceeded => BootstrapEventView::ProbeSucceeded,
            BootstrapEvent::ProbeFailed => BootstrapEventView::ProbeFailed,
            BootstrapEvent::CacheDirReady => BootstrapEventView::CacheDirReady,
            BootstrapEvent::StatFailed => BootstrapEventView::StatFailed,
            BootstrapEvent::CreateDirFailed => BootstrapEventView::CreateDirFailed,
            BootstrapEvent::RequestFailed => BootstrapEventView::RequestFailed,
            BootstrapEvent::BodyFailed => BootstrapEventView::BodyFailed,
            BootstrapEvent::Fetched(body) => BootstrapEventView::Fetched(body@),
            BootstrapEvent::Persisted => BootstrapEventView::Persisted,
            BootstrapEvent::WriteFailed => BootstrapEventView::WriteFailed,
        }
    }
}

/// The outside work that the start-up sequence asks for next.
#[derive(Clone, Debug, PartialEq, Eq)]
pub enum BootstrapAction {
    /// Try to run the program of this name.
    Probe(String),
    /// Make sure that this directory exists.
    EnsureDir(String),
    /// Request this address and read the body.
    Fetch(String),
    /// Write these bytes to this path, as a file that can be executed.
    Persist { path: String, bytes: Vec<u8> },
    /// Open the window; the formatter is the program at this path.
    Start(String),
    /// End the process with this message.
    Abort(String),
    /// Nothing is to be done.
    Nothing,
}

pub enum BootstrapActionView {
    Probe(Seq<char>),
    EnsureDir(Seq<char>),
    Fetch(Seq<char>),
    Persist { path: Seq<char>, bytes: Seq<u8> },
    Start(Seq<char>),
    Abort(Seq<char>),
    Nothing,
}

impl View for BootstrapAction {
    type V = BootstrapActionView;

    open spec fn view(&self) -> BootstrapActionView {
        match *self {
            BootstrapAction::Probe(program) => BootstrapActionView::Probe(program@),
            BootstrapAction::EnsureDir(dir) => BootstrapActionView::EnsureDir(dir@),
            BootstrapAction::Fetch(url) => BootstrapActionView::Fetch(url@),
            BootstrapAction::Persist { path, bytes } => BootstrapActionView::Persist {
                path: path@,
                bytes: bytes@,
            },
            BootstrapAction::Start(tool) => BootstrapActionView::Start(tool@),
            BootstrapAction::Abort(message) => BootstrapActionView::Abort(message@),
            BootstrapAction::Nothing => BootstrapActionView::Nothing,
        }
    }
}

/// The start-up sequence on one machine.
pub struct Bootstrap {
    platform: Platform,
    stage: Stage,
}

pub struct BootstrapView {
    pub platform: PlatformView,
    pub stage: Stage,
}

impl View for Bootstrap {
    type V = BootstrapView;

    closed spec fn view(&self) -> BootstrapView {
        BootstrapView { platform: self.platform@, stage: self.stage }
    }
}

impl BootstrapView {
    /// The resolved executable, once there is one.
    pub open spec fn tool(self) -> Option<Seq<char>> {
        match (self.stage, self.platform.home) {
            (Stage::Installed, _) => Some(tool_name()),
            (Stage::Cached, Some(home)) => Some(cache_path(home)),
            _ => None,
        }
    }

    /// Whether the state can occur: past the first probe the home directory
    /// is known, since without one the sequence ends there.
    pub open spec fn well_formed(self) -> bool {
        self.platform.home.is_none() ==> self.stage == Stage::Probing || self.stage
            == Stage::Installed || self.stage == Stage::Failed
    }

    /// This sequence at another stage.
    pub open spec fn at(self, stage: Stage) -> BootstrapView {
        BootstrapView { stage, ..self }
    }

    /// The stage reached by `event`, and the work asked for. An event that
    /// does not answer the work of the current stage changes nothing.
    ///
    /// The installed tool is probed first and the executable in the cache
    /// second; only where neither can be run is the tool downloaded. The home
    /// directory is needed from the second probe on.
    pub open spec fn step(self, event: BootstrapEventView) -> (BootstrapView, BootstrapActionView) {
        match (self.stage, event, self.platform.home) {
            (Stage::Probing, BootstrapEventView::ProbeSucceeded, _) => (
                self.at(Stage::Installed),
                BootstrapActionView::Start(tool_name()),
            ),
            (Stage::Probing, BootstrapEventView::ProbeFailed, Some(home)) => (
                self.at(Stage::ProbingCache),
                BootstrapActionView::Probe(cache_path(home)),
            ),
            (Stage::Probing, BootstrapEventView::ProbeFailed, None) => (
                self.at(Stage::Failed),
                BootstrapActionView::Abort(no_home_message()),
            ),
            (Stage::ProbingCache, BootstrapEventView::ProbeSucceeded, Some(home)) => (
                self.at(Stage::Cached),
                BootstrapActionView::Start(cache_path(home)),
            ),
            (Stage::ProbingCache, BootstrapEventView::ProbeFailed, Some(home)) => (
                self.at(Stage::PreparingCache),
                BootstrapActionView::EnsureDir(cache_dir(home)),
            ),
            (Stage::PreparingCache, BootstrapEventView::CacheDirReady, Some(home)) => (
                self.at(Stage::Fetching),
                BootstrapActionView::Fetch(download_url(self.platform)),
            ),
            (Stage::PreparingCache, BootstrapEventView::StatFailed, Some(home)) => (
                self.at(Stage::Failed),
                BootstrapActionView::Abort("failed to stat "@ + cache_dir(home)),
            ),
            (Stage::PreparingCache, BootstrapEventView::CreateDirFailed, Some(home)) => (
                self.at(Stage::Failed),
                BootstrapActionView::Abort("failed to create dir "@ + cache_dir(home)),
            ),
            (Stage::Fetching, BootstrapEventView::RequestFailed, Some(home)) => (
                self.at(Stage::Failed),
                BootstrapActionView::Abort("failed to make request to github releases"@),
            ),
            (Stage::Fetching, BootstrapEventView::BodyFailed, Some(home)) => (
                self.at(Stage::Failed),
                BootstrapActionView::Abort("failed to get body from github releases request"@),
            ),
            (Stage::Fetching, BootstrapEventView::Fetched(body), Some(home)) => if body
                == not_found_body() {
                (
                    self.at(Stage::Failed),
                    BootstrapActionView::Abort(unsupported_message(download_url(self.platform))),
                )
            } else {
                (
                    self.at(Stage::Persisting),
                    BootstrapActionView::Persist { path: cache_path(home), bytes: body },
                )
            },
            (Stage::Persisting, BootstrapEventView::Persisted, Some(home)) => (
                self.at(Stage::Cached),
                BootstrapActionView::Start(cache_path(home)),
            ),
            (Stage::Persisting, BootstrapEventView::WriteFailed, Some(home)) => (
                self.at(Stage::Failed),
                BootstrapActionView::Abort("failed to write to "@ + cache_path(home)),
            ),
            _ => (self, BootstrapActionView::Nothing),
        }
    }

    /// The state after the events of `events`, in order.
    pub open spec fn run(self, events: Seq<BootstrapEventView>) -> BootstrapView
        decreases events.len(),
    {
        if events.len() == 0 {
            self
        } else {
            self.run(events.drop_last()).step(events.last()).0
        }
    }

    /// How many downloads the reactions to `events` asked for.
    pub open spec fn fetches(self, events: Seq<BootstrapEventView>) -> nat
        decreases events.len(),
    {
        if events.len() == 0 {
            0
        } else {
            let before = self.fetches(events.drop_last());
            if self.run(events.drop_last()).step(events.last()).1 is Fetch {
                before + 1
            } else {
                before
            }
        }
    }

    /// How many writes to the cache the reactions to `events` asked for.
    pub open spec fn persists(self, events: Seq<BootstrapEventView>) -> nat
        decreases events.len(),
    {
        if events.len() == 0 {
            0
        } else {
            let before = self.persists(events.drop_last());
            if self.run(events.drop_last()).step(events.last()).1 is Persist {
                before + 1
            } else {
                before
            }
        }
    }

    /// Whether, in the course of `events`, one of the two probes was
    /// answered with success.
    pub open spec fn probe_succeeded(self, events: Seq<BootstrapEventView>) -> bool
        decreases events.len(),
    {
        if events.len() == 0 {
            false
        } else {
            let before = self.run(events.drop_last());
            self.probe_succeeded(events.drop_last()) || (events.last() is ProbeSucceeded
                && before.step(events.last()).1 is Start)
        }
    }
}

impl Bootstrap {
    /// Begins the sequence: the first work is the probe of the installed tool.
    pub fn begin(platform: Platform) -> (started: (Bootstrap, BootstrapAction))
        ensures
            started.0@ == (BootstrapView { platform: platform@, stage: Stage::Probing }),
            started.0@.well_formed(),
            started.1@ == BootstrapActionView::Probe(tool_name()),
    {
        (
            Bootstrap { platform, stage: Stage::Probing },
            BootstrapAction::Probe(String::from_str("luau-format")),
        )
    }

    pub fn stage(&self) -> (stage: Stage)
        ensures
            stage == self@.stage,
    {
        self.stage
    }

    /// The resolved executable, once there is one.
    pub fn tool(&self) -> (tool: Option<String>)
        ensures
            tool.is_some() == self@.tool().is_some(),
            tool matches Some(path) ==> self@.tool() == Some(path@),
    {
        match self.stage {
            Stage::Installed => Some(String::from_str("luau-format")),
            Stage::Cached => match &self.platform.home {
                Some(home) => Some(cache_path_of(home.as_str())),
                None => None,
            },
            _ => None,
        }
    }

    /// Takes the result of the work last asked for and says what to do next.
    pub fn step(&mut self, event: BootstrapEvent) -> (action: BootstrapAction)
        ensures
            final(self)@ == old(self)@.step(event@).0,
            action@ == old(self)@.step(event@).1,
            old(self)@.well_formed() ==> final(self)@.well_formed(),
    {
        if let Stage::Probing = self.stage {
            if let BootstrapEvent::ProbeSucceeded = event {
                self.stage = Stage::Installed;
                return BootstrapAction::Start(String::from_str("luau-format"));
            }
        }
        let home = match &self.platform.home {
            Some(home) => home.clone(),
            None => {
                if let Stage::Probing = self.stage {
                    if let BootstrapEvent::ProbeFailed = event {
                        self.stage = Stage::Failed;
                        return BootstrapAction::Abort(
                            String::from_str("failed to get HOME environment variable"),
                        );
                    }
                }
                return BootstrapAction::Nothing;
            },
        };
        match self.stage {
            Stage::Probing => match event {
                BootstrapEvent::ProbeFailed => {
                    self.stage = Stage::ProbingCache;
                    BootstrapAction::Probe(cache_path_of(home.as_str()))
                },
                _ => BootstrapAction::Nothing,
            },
            Stage::ProbingCache => match event {
                BootstrapEvent::ProbeSucceeded => {
                    self.stage = Stage::Cached;
                    BootstrapAction::Start(cache_path_of(home.as_str()))
                },
                BootstrapEvent::ProbeFailed => {
                    self.stage = Stage::PreparingCache;
                    BootstrapAction::EnsureDir(cache_dir_of(home.as_str()))
                },
                _ => BootstrapAction::Nothing,
            },
            Stage::PreparingCache => match event {
                BootstrapEvent::CacheDirReady => {
                    self.stage = Stage::Fetching;
                    BootstrapAction::Fetch(download_url_of(&self.platform))
                },
                BootstrapEvent::StatFailed => {
                    self.stage = Stage::Failed;
                    let dir = cache_dir_of(home.as_str());
                    BootstrapAction::Abort(String::from_str("failed to stat ").concat(dir.as_str()))
                },
                BootstrapEvent::CreateDirFailed => {
                    self.stage = Stage::Failed;
                    let dir = cache_dir_of(home.as_str());
                    BootstrapAction::Abort(
                        String::from_str("failed to create dir ").concat(dir.as_str()),
                    )
                },
                _ => BootstrapAction::Nothing,
            },
            Stage::Fetching => match event {
                BootstrapEvent::RequestFailed => {
                    self.stage = Stage::Failed;
                    BootstrapAction::Abort(
                        String::from_str("failed to make request to github releases"),
                    )
                },
                BootstrapEvent::BodyFailed => {
                    self.stage = Stage::Failed;
                    BootstrapAction::Abort(
                        String::from_str("failed to get body from github releases request"),
                    )
                },
                BootstrapEvent::Fetched(body) => {
                    if is_not_found(body.as_slice()) {
                        self.stage = Stage::Failed;
                        let url = download_url_of(&self.platform);
                        BootstrapAction::Abort(
                            String::from_str("invalid file at url ").concat(url.as_str()).concat(
                                "! is your architecture supported?",
                            ),
                        )
                    } else {
                        self.stage = Stage::Persisting;
                        BootstrapAction::Persist { path: cache_path_of(home.as_str()), bytes: body }
                    }
                },
                _ => BootstrapAction::Nothing,
            },
            Stage::Persisting => match event {
                BootstrapEvent::Persisted => {
                    self.stage = Stage::Cached;
                    BootstrapAction::Start(cache_path_of(home.as_str()))
                },
                BootstrapEvent::WriteFailed => {
                    self.stage = Stage::Failed;
                    let path = cache_path_of(home.as_str());
                    BootstrapAction::Abort(
                        String::from_str("failed to write to ").concat(path.as_str()),
                    )
                },
                _ => BootstrapAction::Nothing,
            },
            _ => BootstrapAction::Nothing,
        }
    }
}

/// How far a stage lies along the sequence.
pub open spec fn stage_rank(stage: Stage) -> int {
    match stage {
        Stage::Probing => 0,
        Stage::ProbingCache => 1,
        Stage::PreparingCache => 2,
        Stage::Fetching => 3,
        Stage::Persisting => 4,
        Stage::Installed => 5,
        Stage::Cached => 5,
        Stage::Failed => 5,
    }
}

/// No event leads out of the states that can occur.
pub proof fn lemma_step_keeps_well_formed(state: BootstrapView, event: BootstrapEventView)
    requires
        state.well_formed(),
    ensures
        state.step(event).0.well_formed(),
{
}

/// Once the executable is resolved it stays as it is: whatever comes in
/// afterwards, a repeated probe result included, changes nothing and asks
/// for no download.
pub proof fn lemma_resolved_is_final(state: BootstrapView, event: BootstrapEventView)
    requires
        state.tool().is_some(),
    ensures
        state.step(event).0 == state,
        state.step(event).1 == BootstrapActionView::Nothing,
        state.step(event).0.tool() == state.tool(),
{
}

/// A successful probe of the installed tool resolves it at once, with no
/// download and no write.
pub proof fn lemma_installed_tool_needs_no_fetch(state: BootstrapView)
    requires
        state.stage == Stage::Probing,
    ensures
        state.step(BootstrapEventView::ProbeSucceeded).0.tool() == Some(tool_name()),
        state.step(BootstrapEventView::ProbeSucceeded).1 == BootstrapActionView::Start(tool_name()),
{
}

/// On a machine where an earlier start left the executable in the cache and
/// no tool is installed, the second probe finds it: the window starts with the
/// cached path after two probes, with no download and no write.
pub proof fn lemma_cached_tool_needs_no_fetch(state: BootstrapView, home: Seq<char>)
    requires
        state.stage == Stage::Probing,
        state.platform.home == Some(home),
    ensures
        ({
            let first = state.step(BootstrapEventView::ProbeFailed);
            let second = first.0.step(BootstrapEventView::ProbeSucceeded);
            &&& first.1 == BootstrapActionView::Probe(cache_path(home))
            &&& second.1 == BootstrapActionView::Start(cache_path(home))
            &&& second.0.tool() == Some(cache_path(home))
        }),
{
}

/// What holds of every run from the start: the stage tells how far the
/// downloads and writes have come, and whether a probe succeeded.
proof fn lemma_run_from_start(state: BootstrapView, events: Seq<BootstrapEventView>)
    requires
        state.stage == Stage::Probing,
    ensures
        state.run(events).platform == state.platform,
        state.fetches(events) <= 1,
        state.persists(events) <= 1,
        state.persists(events) <= state.fetches(events),
        state.fetches(events) == 1 ==> stage_rank(state.run(events).stage) >= 3,
        state.persists(events) == 1 ==> stage_rank(state.run(events).stage) >= 4,
        state.run(events).stage == Stage::Fetching ==> state.fetches(events) == 1,
        stage_rank(state.run(events).stage) <= 2 ==> state.fetches(events) == 0
            && !state.probe_succeeded(events),
        state.probe_succeeded(events) ==> state.fetches(events) == 0 && state.run(
            events,
        ).tool().is_some(),
        stage_rank(state.run(events).stage) == 3 || stage_rank(state.run(events).stage) == 4
            ==> !state.probe_succeeded(events),
    decreases events.len(),
{
    if events.len() > 0 {
        lemma_run_from_start(state, events.drop_last());
    }
}

/// Over any sequence of events from the start, a download is asked for at
/// most once and a write at most once, the write only after the download.
/// The machine the sequence runs on stays the same.
pub proof fn lemma_at_most_one_fetch(state: BootstrapView, events: Seq<BootstrapEventView>)
    requires
        state.stage == Stage::Probing,
    ensures
        state.fetches(events) <= 1,
        state.persists(events) <= state.fetches(events),
        state.run(events).platform == state.platform,
{
    lemma_run_from_start(state, events);
}

/// A run from the start in which either probe succeeded, that of the
/// installed tool or that of the executable in the cache, asks for no download
/// and no write, and ends with the tool resolved.
pub proof fn lemma_probe_success_skips_download(
    state: BootstrapView,
    events: Seq<BootstrapEventView>,
)
    requires
        state.stage == Stage::Probing,
        state.probe_succeeded(events),
    ensures
        state.fetches(events) == 0,
        state.persists(events) == 0,
        state.run(events).tool().is_some(),
{
    lemma_run_from_start(state, events);
}

/// A "not found" body ends start-up: the sequence fails with the message that
/// names the address, asks for no write, and nothing that follows can make it
/// ask for one.
pub proof fn lemma_not_found_is_fatal(
    state: BootstrapView,
    body: Seq<u8>,
    later: BootstrapEventView,
)
    requires
        state.well_formed(),
        state.stage == Stage::Fetching,
        body == not_found_body(),
    ensures
        state.step(BootstrapEventView::Fetched(body)).0.stage == Stage::Failed,
        state.step(BootstrapEventView::Fetched(body)).1 == BootstrapActionView::Abort(
            unsupported_message(download_url(state.platform)),
        ),
        state.step(BootstrapEventView::Fetched(body)).0.tool().is_none(),
        state.step(BootstrapEventView::Fetched(body)).0.step(later).1
            == BootstrapActionView::Nothing,
{
}

} // verus!
