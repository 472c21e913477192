use podcast_getter::config::{add_subscription, derive_podcast_name, example_config, find_podcast,
    Config, PodcastConfig};
use podcast_getter::state::State;
use podcast_getter::tagger::{audio_metadata_args, TagJob};

#[test]
fn state_set_then_get() {
    let mut state = State::new();
    assert_eq!(state.get_last_check("a"), None);
    state.set_last_check("a".to_string(), 10);
    state.set_last_check("b".to_string(), 20);
    assert_eq!(state.get_last_check("a"), Some(10));
    assert_eq!(state.get_last_check("b"), Some(20));
    state.set_last_check("a".to_string(), 30);
    assert_eq!(state.get_last_check("a"), Some(30));
    assert_eq!(state.entries().len(), 2);
}

#[test]
fn state_roundtrips_through_entries() {
    let mut state = State::new();
    state.set_last_check("a".to_string(), 1);
    state.set_last_check("b".to_string(), 2);
    let restored = State::from_entries(state.entries().clone());
    assert_eq!(restored.get_last_check("a"), Some(1));
    assert_eq!(restored.get_last_check("b"), Some(2));
}

#[test]
fn from_entries_lets_later_duplicates_win() {
    let state = State::from_entries(vec![("a".to_string(), 1), ("a".to_string(), 9)]);
    assert_eq!(state.get_last_check("a"), Some(9));
    assert_eq!(state.entries().len(), 1);
}

#[test]
fn derived_names_take_the_first_nonempty_segment() {
    assert_eq!(derive_podcast_name("feeds/abc"), "feeds");
    assert_eq!(derive_podcast_name("///x/y"), "x");
    assert_eq!(derive_podcast_name(""), "podcast");
    assert_eq!(derive_podcast_name("////"), "podcast");
}

#[test]
fn add_subscription_appends_with_defaults() {
    let mut config = Config { podcasts: vec![] };
    add_subscription(&mut config, "feeds/abc".to_string(), None, "out".to_string());
    add_subscription(
        &mut config,
        "feeds/xyz".to_string(),
        Some("Named".to_string()),
        "elsewhere".to_string(),
    );
    assert_eq!(config.podcasts.len(), 2);
    assert_eq!(config.podcasts[0].name, "feeds");
    assert_eq!(config.podcasts[0].url, "feeds/abc");
    assert_eq!(config.podcasts[0].output_dir, "out");
    assert_eq!(config.podcasts[0].max_episodes, None);
    assert_eq!(config.podcasts[1].name, "Named");
}

#[test]
fn find_podcast_by_name() {
    let config = Config {
        podcasts: vec![
            PodcastConfig {
                name: "a".to_string(),
                url: "u1".to_string(),
                output_dir: "o".to_string(),
                max_episodes: None,
            },
            PodcastConfig {
                name: "b".to_string(),
                url: "u2".to_string(),
                output_dir: "o".to_string(),
                max_episodes: Some(3),
            },
        ],
    };
    assert_eq!(find_podcast(&config, "b"), Some(1));
    assert_eq!(find_podcast(&config, "missing"), None);
}

#[test]
fn example_config_has_one_placeholder_entry() {
    let config = example_config("/home/user/Downloads");
    assert_eq!(config.podcasts.len(), 1);
    assert_eq!(config.podcasts[0].name, "Example Podcast");
    assert_eq!(config.podcasts[0].url, "https://example.com/feed.xml");
    assert_eq!(config.podcasts[0].output_dir, "/home/user/Downloads/podcasts");
    assert_eq!(config.podcasts[0].max_episodes, None);
}

#[test]
fn config_paths_end_with_the_known_names() {
    if let Some(f) = podcast_getter::config::Config::config_file() {
        assert!(f.ends_with("/podcast-getter/config.toml"));
    }
    if let Some(f) = State::state_file() {
        assert!(f.ends_with("/podcast-getter/state.json"));
    }
}

#[test]
fn tagging_arguments_are_in_fixed_order() {
    let job = TagJob {
        file_path: "out/A.mp3".to_string(),
        album: "Show".to_string(),
        title: "A".to_string(),
        cover_art: Some("out/c.png".to_string()),
    };
    assert_eq!(
        audio_metadata_args(&job),
        vec![
            "set", "-f", "out/A.mp3", "--album", "Show", "--artist", "Show", "--title", "A",
            "-c", "out/c.png",
        ],
    );
    let bare = TagJob {
        file_path: "f".to_string(),
        album: "p".to_string(),
        title: "t".to_string(),
        cover_art: None,
    };
    assert_eq!(audio_metadata_args(&bare).len(), 9);
}
