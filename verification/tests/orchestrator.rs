use podcast_getter::config::{Config, PodcastConfig};
use podcast_getter::feed::Episode;
use podcast_getter::run::{finish_podcast, BatchRun, PodcastRun, RunAction, RunPhase};
use podcast_getter::state::State;

fn sub(name: &str, cap: Option<usize>) -> PodcastConfig {
    PodcastConfig {
        name: name.to_string(),
        url: format!("https://feeds.example/{}", name),
        output_dir: "out".to_string(),
        max_episodes: cap,
    }
}

fn ep(title: &str, pub_date: i64) -> Episode {
    Episode {
        title: title.to_string(),
        description: None,
        url: format!("https://media.example/{}.mp3", title),
        pub_date,
    }
}

#[test]
fn partial_failure_isolation() {
    let mut run = PodcastRun::new(&sub("Show", None), None, None);
    match run.next_action() {
        RunAction::FetchFeed(url) => assert_eq!(url, "https://feeds.example/Show"),
        _ => panic!("a fresh run asks for the feed"),
    }
    run.on_feed(Ok((vec![ep("A", 1), ep("B", 2), ep("C", 3)], None)));
    assert_eq!(run.phase, RunPhase::Downloading);

    run.on_download(Ok(()));
    run.on_tag();
    run.on_download(Err("connection reset".to_string()));
    run.on_download(Ok(()));
    run.on_tag();

    assert_eq!(run.phase, RunPhase::Done);
    assert_eq!(run.downloaded, 2);
    assert_eq!(run.errors.len(), 1);
    assert_eq!(run.errors[0], "Failed to download episode 'B': connection reset");

    let mut state = State::new();
    finish_podcast(&run, &mut state, 42);
    assert_eq!(state.get_last_check("Show"), Some(42));
}

#[test]
fn fatal_feed_failure_leaves_checkpoint_untouched() {
    let mut state = State::new();
    state.set_last_check("Show".to_string(), 100);

    let mut run = PodcastRun::new(&sub("Show", None), Some(100), None);
    run.on_feed(Err("dns failure".to_string()));
    assert_eq!(run.phase, RunPhase::FeedFailed);
    assert_eq!(run.fatal_error.as_deref(), Some("dns failure"));

    finish_podcast(&run, &mut state, 999);
    assert_eq!(state.get_last_check("Show"), Some(100));
}

#[test]
fn empty_selection_does_not_advance_checkpoint() {
    let mut state = State::new();
    state.set_last_check("Show".to_string(), 50);

    let mut run = PodcastRun::new(&sub("Show", None), Some(50), None);
    // both episodes are at or before the checkpoint
    run.on_feed(Ok((vec![ep("old", 50), ep("older", 10)], None)));
    assert_eq!(run.phase, RunPhase::Done);
    assert_eq!(run.downloaded, 0);
    assert!(run.errors.is_empty());

    finish_podcast(&run, &mut state, 999);
    assert_eq!(state.get_last_check("Show"), Some(50));
}

#[test]
fn cover_art_flows_into_tagging() {
    let mut run = PodcastRun::new(&sub("Show", None), None, None);
    run.on_feed(Ok((vec![ep("A", 1)], Some("https://img.example/c.jpg".to_string()))));
    assert_eq!(run.phase, RunPhase::FetchingCover);
    match run.next_action() {
        RunAction::FetchCover(url) => assert_eq!(url, "https://img.example/c.jpg"),
        _ => panic!("a run with a cover URL asks for the cover"),
    }
    run.on_cover(Ok("out/Show_cover.png".to_string()));
    assert_eq!(run.phase, RunPhase::Downloading);
    run.on_download(Ok(()));
    assert_eq!(run.phase, RunPhase::Tagging);
    match run.next_action() {
        RunAction::TagEpisode(job) => {
            assert_eq!(job.file_path, "out/A.mp3");
            assert_eq!(job.album, "Show");
            assert_eq!(job.title, "A");
            assert_eq!(job.cover_art.as_deref(), Some("out/Show_cover.png"));
        },
        _ => panic!("a downloaded episode is tagged next"),
    }
    run.on_tag();
    assert_eq!(run.phase, RunPhase::Done);
}

#[test]
fn cover_failure_is_best_effort() {
    let mut run = PodcastRun::new(&sub("Show", None), None, None);
    run.on_feed(Ok((vec![ep("A", 1)], Some("https://img.example/c.jpg".to_string()))));
    run.on_cover(Err("not an image".to_string()));
    assert_eq!(run.phase, RunPhase::Downloading);
    assert!(run.errors.is_empty());
    run.on_download(Ok(()));
    match run.next_action() {
        RunAction::TagEpisode(job) => assert_eq!(job.cover_art, None),
        _ => panic!("a downloaded episode is tagged next"),
    }
}

#[test]
fn five_episodes_capped_at_two_in_feed_order() {
    // checkpoint absent, five episodes across the last year, cap of two
    let episodes = vec![ep("e1", 500), ep("e2", 100), ep("e3", 400), ep("e4", 200), ep("e5", 300)];
    let mut run = PodcastRun::new(&sub("Show A", Some(2)), None, None);
    run.on_feed(Ok((episodes, None)));
    assert_eq!(run.selected.len(), 2);

    let mut attempted = Vec::new();
    loop {
        match run.next_action() {
            RunAction::DownloadEpisode(job) => {
                attempted.push(job.title.clone());
                // the first download fails, the second succeeds
                if attempted.len() == 1 {
                    run.on_download(Err("boom".to_string()));
                } else {
                    run.on_download(Ok(()));
                }
            },
            RunAction::TagEpisode(_) => run.on_tag(),
            RunAction::Report => break,
            _ => panic!("no further fetches are requested"),
        }
    }
    assert_eq!(attempted, vec!["e1".to_string(), "e2".to_string()]);

    // the checkpoint is set to the current time regardless of download outcomes
    let mut state = State::new();
    finish_podcast(&run, &mut state, 7777);
    assert_eq!(state.get_last_check("Show A"), Some(7777));
}

#[test]
fn run_level_cap_overrides_subscription_cap() {
    let mut run = PodcastRun::new(&sub("Show", Some(3)), None, Some(1));
    run.on_feed(Ok((vec![ep("a", 1), ep("b", 2)], None)));
    assert_eq!(run.selected.len(), 1);

    let mut run2 = PodcastRun::new(&sub("Show", Some(1)), None, None);
    run2.on_feed(Ok((vec![ep("a", 1), ep("b", 2)], None)));
    assert_eq!(run2.selected.len(), 1);
}

#[test]
fn batch_continues_past_fatal_failures_and_records_them() {
    let config = Config { podcasts: vec![sub("A", None), sub("B", None)] };
    let mut state = State::new();
    let mut batch = BatchRun::new(config, None);

    // first podcast: the feed fetch fails
    let mut run = batch.begin_next(&state).expect("a first podcast is pending");
    assert_eq!(run.feed_url, "https://feeds.example/A");
    run.on_feed(Err("oops".to_string()));
    batch.complete_run(&run, &mut state);

    // second podcast: one episode downloads
    let mut run2 = batch.begin_next(&state).expect("a second podcast is pending");
    assert_eq!(run2.name, "B");
    run2.on_feed(Ok((vec![ep("x", 1)], None)));
    run2.on_download(Ok(()));
    run2.on_tag();
    batch.complete_run(&run2, &mut state);

    assert!(batch.is_done());
    assert!(batch.begin_next(&state).is_none());
    assert_eq!(batch.errors, vec!["Failed to process A: oops".to_string()]);

    // the failed podcast kept no checkpoint; the successful one got the
    // wall-clock time
    assert_eq!(state.get_last_check("A"), None);
    let t = state.get_last_check("B").expect("a successful run sets a checkpoint");
    assert!(t > 1_000_000_000);
}
