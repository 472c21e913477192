//! The per-podcast orchestrator and the batch driver, as state machines.
//!
//! The library decides; the surrounding application performs. A
//! [`PodcastRun`] starts by asking for the feed, then for the cover art if
//! the feed names one, then for each selected episode in feed order: the
//! application performs each requested action and reports its outcome back.
//! A failed episode download is recorded and the run continues with the next
//! episode; a failed feed fetch ends the run without touching the
//! checkpoint. Tagging outcomes are ignored entirely: absence and failure of
//! the tagging tool are both "skip, warn, continue".

use vstd::prelude::*;
use crate::config::{Config, PodcastConfig};
use crate::download::{extract_extension, generate_filename, spec_extract_extension,
    spec_generate_filename};
use crate::feed::{Episode, EpisodeModel, episode_models, select, spec_select};
use crate::state::State;
use crate::tagger::TagJob;
use crate::text::{join_path, spec_join_path, str_models};
use crate::time::now_timestamp;

verus! {

broadcast use {Seq::lemma_push_map_commute};

/// The cap that applies to a run: the invocation-level cap where one is
/// given, else the subscription's own.
pub open spec fn spec_effective_cap(run_cap: Option<usize>, sub_cap: Option<usize>) -> Option<
    usize,
> {
    if run_cap is Some {
        run_cap
    } else {
        sub_cap
    }
}

/// The extension used for an episode file: the one its URL yields, or the
/// default.
pub open spec fn spec_extension_or_default(url: Seq<char>) -> Seq<char> {
    match spec_extract_extension(url) {
        Some(e) => e,
        None => "mp3"@,
    }
}

/// The destination path of an episode: the generated filename inside the
/// subscription's output directory.
pub open spec fn spec_episode_dest(output_dir: Seq<char>, e: EpisodeModel) -> Seq<char> {
    spec_join_path(output_dir, spec_generate_filename(e.title, spec_extension_or_default(e.url)))
}

/// One download the application is asked to perform.
pub struct DownloadJob {
    pub url: String,
    pub dest_path: String,
    pub title: String,
}

/// Plans one episode download: the source URL, and a destination derived
/// from the title and the URL's extension.
pub fn plan_episode(output_dir: &str, episode: &Episode) -> (j: DownloadJob)
    ensures
        j.url@ == episode.url@,
        j.title@ == episode.title@,
        j.dest_path@ == spec_episode_dest(output_dir@, episode@),
{
    let ext = match extract_extension(episode.url.as_str()) {
        Some(e) => e,
        None => "mp3".to_owned(),
    };
    let filename = generate_filename(episode.title.as_str(), ext.as_str());
    DownloadJob {
        url: episode.url.clone(),
        dest_path: join_path(output_dir, filename.as_str()),
        title: episode.title.clone(),
    }
}

/// Where a podcast run stands.
#[derive(Clone, Copy, Debug, PartialEq, Eq, Structural)]
pub enum RunPhase {
    /// The feed document is being fetched.
    FetchingFeed,
    /// The feed is in; the cover art it names is being fetched.
    FetchingCover,
    /// The episode at `next_idx` is being downloaded.
    Downloading,
    /// The episode at `next_idx` was downloaded and is being tagged.
    Tagging,
    /// Every selected episode was attempted.
    Done,
    /// The feed fetch failed; nothing was attempted.
    FeedFailed,
}

/// What the application is asked to do next.
pub enum RunAction {
    /// Fetch the feed document at this URL and report the parsed result.
    FetchFeed(String),
    /// Fetch and convert the cover art at this URL; report the saved path.
    FetchCover(String),
    /// Download one episode; report success or an error message.
    DownloadEpisode(DownloadJob),
    /// Tag the downloaded file, best-effort; the outcome is not inspected.
    TagEpisode(TagJob),
    /// The run is over; read its outcome from the fields.
    Report,
}

/// The state of one podcast's processing.
pub struct PodcastRun {
    pub name: String,
    pub output_dir: String,
    pub feed_url: String,
    pub since: Option<i64>,
    pub cap: Option<usize>,
    pub phase: RunPhase,
    pub cover_url: Option<String>,
    pub cover_art_path: Option<String>,
    pub selected: Vec<Episode>,
    pub next_idx: usize,
    pub downloaded: usize,
    pub errors: Vec<String>,
    pub fatal_error: Option<String>,
}

/// The error string recorded for one failed episode download.
pub open spec fn spec_download_error(title: Seq<char>, msg: Seq<char>) -> Seq<char> {
    "Failed to download episode '"@ + title + "': "@ + msg
}

/// The error string recorded for a podcast whose feed fetch failed.
pub open spec fn spec_process_error(name: Seq<char>, msg: Seq<char>) -> Seq<char> {
    "Failed to process "@ + name + ": "@ + msg
}

/// Whether a finished run advances the podcast's checkpoint: it does
/// exactly when the feed was fetched and at least one episode was selected.
pub open spec fn spec_advances_checkpoint(run: PodcastRun) -> bool {
    run.phase is Done && run.selected@.len() > 0
}

impl PodcastRun {
    /// The machine's invariant: the phase matches the bookkeeping, and
    /// every attempted episode was either downloaded or recorded as failed.
    pub open spec fn wf(&self) -> bool {
        &&& self.next_idx <= self.selected@.len()
        &&& (self.phase is Downloading ==> self.next_idx < self.selected@.len())
        &&& (self.phase is Tagging ==> self.next_idx < self.selected@.len())
        &&& (self.phase is FetchingCover ==> self.cover_url is Some && self.next_idx == 0
            && self.downloaded == 0 && self.errors@.len() == 0 && self.cover_art_path is None)
        &&& self.downloaded + self.errors@.len() == self.next_idx + (if self.phase is Tagging {
            1int
        } else {
            0
        })
        &&& (self.phase is FetchingFeed ==> self.selected@.len() == 0 && self.next_idx == 0
            && self.cover_url is None && self.cover_art_path is None)
        &&& (self.phase is Done ==> self.next_idx == self.selected@.len())
        &&& (self.fatal_error is Some <==> self.phase is FeedFailed)
        &&& (self.phase is FeedFailed ==> self.selected@.len() == 0 && self.downloaded == 0
            && self.errors@.len() == 0)
    }

    /// Starts a run for one subscription: nothing attempted yet, the cap
    /// resolved with invocation-level precedence, the checkpoint as given.
    pub fn new(sub: &PodcastConfig, since: Option<i64>, run_cap: Option<usize>) -> (r: PodcastRun)
        ensures
            r.wf(),
            r.phase is FetchingFeed,
            r.name@ == sub.name@,
            r.output_dir@ == sub.output_dir@,
            r.feed_url@ == sub.url@,
            r.since == since,
            r.cap == spec_effective_cap(run_cap, sub.max_episodes),
            r.downloaded == 0,
            r.errors@.len() == 0,
            r.selected@.len() == 0,
    {
        let cap = match run_cap {
            Some(n) => Some(n),
            None => sub.max_episodes,
        };
        PodcastRun {
            name: sub.name.clone(),
            output_dir: sub.output_dir.clone(),
            feed_url: sub.url.clone(),
            since,
            cap,
            phase: RunPhase::FetchingFeed,
            cover_url: None,
            cover_art_path: None,
            selected: Vec::new(),
            next_idx: 0,
            downloaded: 0,
            errors: Vec::new(),
            fatal_error: None,
        }
    }

    /// What the application must do next, determined by the phase.
    pub fn next_action(&self) -> (a: RunAction)
        requires
            self.wf(),
        ensures
            self.phase is FetchingFeed ==> (a matches RunAction::FetchFeed(u) && u@
                == self.feed_url@),
            self.phase is FetchingCover ==> (a matches RunAction::FetchCover(u) && u@
                == self.cover_url.unwrap()@),
            self.phase is Downloading ==> (a matches RunAction::DownloadEpisode(j) && j.url@
                == self.selected@[self.next_idx as int].url@ && j.title@
                == self.selected@[self.next_idx as int].title@ && j.dest_path@
                == spec_episode_dest(self.output_dir@, self.selected@[self.next_idx as int]@)),
            self.phase is Tagging ==> (a matches RunAction::TagEpisode(t) && t.file_path@
                == spec_episode_dest(self.output_dir@, self.selected@[self.next_idx as int]@)
                && t.album@ == self.name@ && t.title@
                == self.selected@[self.next_idx as int].title@ && t.cover_art.deep_view()
                == self.cover_art_path.deep_view()),
            self.phase is Done || self.phase is FeedFailed ==> a is Report,
    {
        match self.phase {
            RunPhase::FetchingFeed => RunAction::FetchFeed(self.feed_url.clone()),
            RunPhase::FetchingCover => match &self.cover_url {
                Some(u) => RunAction::FetchCover(u.clone()),
                None => {
                    proof {
                        assert(false);
                    }
                    RunAction::Report
                },
            },
            RunPhase::Downloading => RunAction::DownloadEpisode(
                plan_episode(self.output_dir.as_str(), &self.selected[self.next_idx]),
            ),
            RunPhase::Tagging => {
                let job = plan_episode(self.output_dir.as_str(), &self.selected[self.next_idx]);
                RunAction::TagEpisode(
                    TagJob {
                        file_path: job.dest_path,
                        album: self.name.clone(),
                        title: job.title,
                        cover_art: match &self.cover_art_path {
                            Some(c) => Some(c.clone()),
                            None => None,
                        },
                    },
                )
            },
            RunPhase::Done => RunAction::Report,
            RunPhase::FeedFailed => RunAction::Report,
        }
    }

    /// Takes the feed outcome. A failure is fatal for this podcast: the run
    /// ends with the error recorded and nothing attempted. On success the
    /// new episodes are selected; the cover art is fetched first where the
    /// feed names one.
    pub fn on_feed(&mut self, outcome: Result<(Vec<Episode>, Option<String>), String>)
        requires
            old(self).wf(),
            old(self).phase is FetchingFeed,
        ensures
            final(self).wf(),
            final(self).name@ == old(self).name@,
            final(self).output_dir@ == old(self).output_dir@,
            final(self).feed_url@ == old(self).feed_url@,
            final(self).since == old(self).since,
            final(self).cap == old(self).cap,
            final(self).downloaded == 0,
            final(self).errors@.len() == 0,
            final(self).next_idx == 0,
            final(self).cover_art_path is None,
            match outcome {
                Result::Err(msg) => {
                    &&& final(self).phase is FeedFailed
                    &&& final(self).fatal_error matches Some(m) && m@ == msg@
                    &&& final(self).selected@.len() == 0
                },
                Result::Ok(payload) => {
                    &&& episode_models(final(self).selected@) == spec_select(
                        episode_models(payload.0@),
                        old(self).since,
                        old(self).cap,
                    )
                    &&& final(self).cover_url.deep_view() == payload.1.deep_view()
                    &&& final(self).fatal_error is None
                    &&& (payload.1 is Some ==> final(self).phase is FetchingCover)
                    &&& (payload.1 is None && final(self).selected@.len() == 0 ==> final(self).phase is Done)
                    &&& (payload.1 is None && final(self).selected@.len() > 0 ==> final(self).phase is Downloading)
                },
            },
    {
        match outcome {
            Result::Err(msg) => {
                self.phase = RunPhase::FeedFailed;
                self.fatal_error = Some(msg);
            },
            Result::Ok(payload) => {
                let (episodes, cover) = payload;
                let picked = select(episodes, self.since, self.cap);
                self.selected = picked;
                let has_cover = match &cover {
                    Some(_) => true,
                    None => false,
                };
                self.cover_url = cover;
                if has_cover {
                    self.phase = RunPhase::FetchingCover;
                } else if self.selected.len() == 0 {
                    self.phase = RunPhase::Done;
                } else {
                    self.phase = RunPhase::Downloading;
                }
            },
        }
    }

    /// Takes the cover-art outcome. Failure is best-effort: it is neither
    /// counted nor recorded, and processing continues without cover art.
    pub fn on_cover(&mut self, outcome: Result<String, String>)
        requires
            old(self).wf(),
            old(self).phase is FetchingCover,
        ensures
            final(self).wf(),
            final(self).name@ == old(self).name@,
            final(self).output_dir@ == old(self).output_dir@,
            final(self).feed_url@ == old(self).feed_url@,
            final(self).since == old(self).since,
            final(self).cap == old(self).cap,
            final(self).selected@ == old(self).selected@,
            final(self).downloaded == 0,
            final(self).errors@.len() == 0,
            final(self).next_idx == 0,
            final(self).fatal_error is None,
            match outcome {
                Result::Ok(p) => final(self).cover_art_path matches Some(cp) && cp@ == p@,
                Result::Err(_) => final(self).cover_art_path is None,
            },
            old(self).selected@.len() == 0 ==> final(self).phase is Done,
            old(self).selected@.len() > 0 ==> final(self).phase is Downloading,
    {
        match outcome {
            Result::Ok(p) => {
                self.cover_art_path = Some(p);
            },
            Result::Err(_) => {},
        }
        if self.selected.len() == 0 {
            self.phase = RunPhase::Done;
        } else {
            self.phase = RunPhase::Downloading;
        }
    }

    /// Takes one episode's download outcome. Success is counted and the
    /// file goes on to tagging; failure is recorded in the error list and
    /// the run continues with the next episode.
    pub fn on_download(&mut self, outcome: Result<(), String>)
        requires
            old(self).wf(),
            old(self).phase is Downloading,
        ensures
            final(self).wf(),
            final(self).name@ == old(self).name@,
            final(self).output_dir@ == old(self).output_dir@,
            final(self).feed_url@ == old(self).feed_url@,
            final(self).since == old(self).since,
            final(self).cap == old(self).cap,
            final(self).selected@ == old(self).selected@,
            final(self).cover_art_path.deep_view() == old(self).cover_art_path.deep_view(),
            final(self).fatal_error is None,
            match outcome {
                Result::Ok(_) => {
                    &&& final(self).downloaded == old(self).downloaded + 1
                    &&& final(self).errors@ == old(self).errors@
                    &&& final(self).next_idx == old(self).next_idx
                    &&& final(self).phase is Tagging
                },
                Result::Err(msg) => {
                    &&& final(self).downloaded == old(self).downloaded
                    &&& str_models(final(self).errors@) == str_models(old(self).errors@).push(
                        spec_download_error(
                            old(self).selected@[old(self).next_idx as int].title@,
                            msg@,
                        ),
                    )
                    &&& final(self).next_idx == old(self).next_idx + 1
                    &&& (old(self).next_idx + 1 < old(self).selected@.len() ==> final(self).phase is Downloading)
                    &&& (old(self).next_idx + 1 == old(self).selected@.len() ==> final(self).phase is Done)
                },
            },
    {
        let _len = self.selected.len();
        match outcome {
            Result::Ok(_) => {
                self.downloaded = self.downloaded + 1;
                self.phase = RunPhase::Tagging;
            },
            Result::Err(msg) => {
                let e = "Failed to download episode '".to_owned().concat(
                    self.selected[self.next_idx].title.as_str(),
                ).concat("': ").concat(msg.as_str());
                self.errors.push(e);
                self.next_idx = self.next_idx + 1;
                if self.next_idx < self.selected.len() {
                    self.phase = RunPhase::Downloading;
                } else {
                    self.phase = RunPhase::Done;
                }
            },
        }
    }

    /// Takes the tagging step as finished. The tool's outcome is ignored:
    /// the episode counts as downloaded either way, and the run moves to
    /// the next episode.
    pub fn on_tag(&mut self)
        requires
            old(self).wf(),
            old(self).phase is Tagging,
        ensures
            final(self).wf(),
            final(self).name@ == old(self).name@,
            final(self).output_dir@ == old(self).output_dir@,
            final(self).feed_url@ == old(self).feed_url@,
            final(self).since == old(self).since,
            final(self).cap == old(self).cap,
            final(self).selected@ == old(self).selected@,
            final(self).cover_art_path.deep_view() == old(self).cover_art_path.deep_view(),
            final(self).fatal_error is None,
            final(self).downloaded == old(self).downloaded,
            final(self).errors@ == old(self).errors@,
            final(self).next_idx == old(self).next_idx + 1,
            old(self).next_idx + 1 < old(self).selected@.len() ==> final(self).phase
                is Downloading,
            old(self).next_idx + 1 == old(self).selected@.len() ==> final(self).phase is Done,
    {
        let len = self.selected.len();
        self.next_idx = self.next_idx + 1;
        if self.next_idx < len {
            self.phase = RunPhase::Downloading;
        } else {
            self.phase = RunPhase::Done;
        }
    }
}

/// Partial-failure isolation, as an invariant of every finished run: each
/// selected episode was either downloaded or recorded as a failure, so the
/// download count and the error list always account for the whole
/// selection.
pub proof fn lemma_run_accounting(run: PodcastRun)
    requires
        run.wf(),
        run.phase is Done,
    ensures
        run.downloaded + run.errors@.len() == run.selected@.len(),
{
}

/// Writes a finished run's checkpoint: the podcast's entry is set to `now`
/// exactly when the run fetched its feed and selected at least one episode;
/// in every other case — a failed feed fetch, or an empty selection — the
/// store is left untouched.
pub fn finish_podcast(run: &PodcastRun, state: &mut State, now: i64)
    requires
        old(state).wf(),
        run.phase is Done || run.phase is FeedFailed,
    ensures
        final(state).wf(),
        spec_advances_checkpoint(*run) ==> final(state)@ == old(state)@.insert(
            run.name@,
            now as int,
        ),
        !spec_advances_checkpoint(*run) ==> final(state)@ == old(state)@,
{
    if run.phase == RunPhase::Done && run.selected.len() > 0 {
        state.set_last_check(run.name.clone(), now);
    }
}

/// The batch driver's state: the configured subscriptions in order, how
/// many have been processed, and the fatal errors recorded so far.
pub struct BatchRun {
    pub podcasts: Vec<PodcastConfig>,
    pub run_cap: Option<usize>,
    pub next: usize,
    pub errors: Vec<String>,
}

impl BatchRun {
    /// The driver's invariant: the cursor stays within the list.
    pub open spec fn wf(&self) -> bool {
        self.next <= self.podcasts@.len()
    }

    /// Starts a batch over the configured subscriptions, with an optional
    /// invocation-level episode cap.
    pub fn new(config: Config, run_cap: Option<usize>) -> (r: BatchRun)
        ensures
            r.wf(),
            r.podcasts@ == config.podcasts@,
            r.run_cap == run_cap,
            r.next == 0,
            r.errors@.len() == 0,
    {
        BatchRun { podcasts: config.podcasts, run_cap, next: 0, errors: Vec::new() }
    }

    /// Whether every subscription has been processed.
    pub fn is_done(&self) -> (r: bool)
        requires
            self.wf(),
        ensures
            r == (self.next == self.podcasts@.len()),
    {
        self.next == self.podcasts.len()
    }

    /// Starts the next subscription's run, with its checkpoint looked up in
    /// the store; none is left when the batch is done.
    pub fn begin_next(&self, state: &State) -> (r: Option<PodcastRun>)
        requires
            self.wf(),
            state.wf(),
        ensures
            self.next == self.podcasts@.len() ==> r is None,
            self.next < self.podcasts@.len() ==> (r matches Some(run) && {
                &&& run.wf()
                &&& run.phase is FetchingFeed
                &&& run.name@ == self.podcasts@[self.next as int].name@
                &&& run.output_dir@ == self.podcasts@[self.next as int].output_dir@
                &&& run.feed_url@ == self.podcasts@[self.next as int].url@
                &&& run.cap == spec_effective_cap(
                    self.run_cap,
                    self.podcasts@[self.next as int].max_episodes,
                )
                &&& (match run.since {
                    Some(t) => state@.contains_key(run.name@) && state@[run.name@] == t as int,
                    None => !state@.contains_key(run.name@),
                })
            }),
    {
        if self.next == self.podcasts.len() {
            return None;
        }
        let sub = &self.podcasts[self.next];
        let since = state.get_last_check(sub.name.as_str());
        Some(PodcastRun::new(sub, since, self.run_cap))
    }

    /// Records a finished run and moves to the next subscription: the
    /// checkpoint is advanced exactly when the run earned it, a fatal feed
    /// failure is recorded in the batch error list, and the batch never
    /// stops early.
    pub fn complete_run(&mut self, run: &PodcastRun, state: &mut State)
        requires
            old(self).wf(),
            old(self).next < old(self).podcasts@.len(),
            old(state).wf(),
            run.wf(),
            run.phase is Done || run.phase is FeedFailed,
        ensures
            final(self).wf(),
            final(self).next == old(self).next + 1,
            final(self).podcasts@ == old(self).podcasts@,
            final(self).run_cap == old(self).run_cap,
            final(state).wf(),
            spec_advances_checkpoint(*run) ==> exists|t: int|
                final(state)@ == old(state)@.insert(run.name@, t),
            !spec_advances_checkpoint(*run) ==> final(state)@ == old(state)@,
            run.phase is Done ==> final(self).errors@ == old(self).errors@,
            run.phase is FeedFailed ==> str_models(final(self).errors@) == str_models(
                old(self).errors@,
            ).push(spec_process_error(run.name@, run.fatal_error.unwrap()@)),
    {
        let now = now_timestamp();
        finish_podcast(run, state, now);
        proof {
            if spec_advances_checkpoint(*run) {
                assert(state@ == old(state)@.insert(run.name@, now as int));
            }
        }
        match &run.fatal_error {
            Some(m) => {
                let e = "Failed to process ".to_owned().concat(run.name.as_str()).concat(
                    ": ",
                ).concat(m.as_str());
                self.errors.push(e);
            },
            None => {},
        }
        let _total = self.podcasts.len();
        self.next = self.next + 1;
    }
}

} // verus!
