use podcast_getter::download::{extract_extension, generate_filename};
use podcast_getter::feed::Episode;
use podcast_getter::image::{cover_filename, sanitize_filename};
use podcast_getter::run::plan_episode;

#[test]
fn clean_title_is_unchanged() {
    assert_eq!(generate_filename("My Episode", "mp3"), "My Episode.mp3");
}

#[test]
fn disallowed_characters_are_stripped() {
    assert_eq!(generate_filename("My/Ep:is*ode!", "mp3"), "MyEpisode.mp3");
}

#[test]
fn surrounding_spaces_are_trimmed() {
    assert_eq!(generate_filename("  hi there  ", "ogg"), "hi there.ogg");
}

#[test]
fn long_titles_are_truncated_to_100_characters() {
    let long = "a".repeat(150);
    let out = generate_filename(&long, "mp3");
    assert_eq!(out, format!("{}.mp3", "a".repeat(100)));
}

#[test]
fn truncation_cannot_leave_a_trailing_space() {
    // 100 kept characters would end in a space; the final trim removes it
    let mut title = "b".repeat(99);
    title.push(' ');
    title.push_str("rest of the title");
    let out = generate_filename(&title, "mp3");
    assert_eq!(out, format!("{}.mp3", "b".repeat(99)));
}

#[test]
fn generation_is_idempotent_on_its_own_stem() {
    let once = generate_filename("  Some  Title!!  ", "");
    let stem = once.strip_suffix('.').unwrap();
    let twice = generate_filename(stem, "");
    assert_eq!(once, twice);
}

#[test]
fn empty_title_yields_bare_extension() {
    assert_eq!(generate_filename("", "mp3"), ".mp3");
    assert_eq!(generate_filename("!!!", "mp3"), ".mp3");
}

#[test]
fn extension_is_taken_after_last_dot_and_before_query() {
    assert_eq!(extract_extension("https://x.com/ep.MP3?x=1").as_deref(), Some("MP3"));
}

#[test]
fn extension_absent_when_tail_is_not_extension_like() {
    assert_eq!(extract_extension("https://x.com/ep"), None);
    assert_eq!(extract_extension("https://x.com/ep.mp3/download"), None);
    assert_eq!(extract_extension("https://x.com/ep.verylongext11"), None);
}

#[test]
fn caller_substitutes_default_extension() {
    let e = Episode {
        title: "Ep".to_string(),
        description: None,
        url: "https://x.com/ep".to_string(),
        pub_date: 0,
    };
    let job = plan_episode("dir", &e);
    assert_eq!(job.dest_path, "dir/Ep.mp3");
    assert_eq!(job.url, "https://x.com/ep");
    let e2 = Episode {
        title: "Ep".to_string(),
        description: None,
        url: "https://x.com/ep.MP3?x=1".to_string(),
        pub_date: 0,
    };
    assert_eq!(plan_episode("dir", &e2).dest_path, "dir/Ep.MP3");
}

#[test]
fn podcast_names_are_sanitized_for_cover_art() {
    assert_eq!(sanitize_filename("My Show!"), "My_Show_");
    assert_eq!(sanitize_filename("ok-name_2"), "ok-name_2");
    assert_eq!(cover_filename("My Show!"), "My_Show__cover.png");
}
