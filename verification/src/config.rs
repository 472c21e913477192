//! Subscription configuration: the list of podcasts a run processes, and
//! the well-known locations of the configuration files.
//!
//! Paths are plain strings inside the library; segments are joined with a
//! single separator.

use vstd::prelude::*;
use crate::text::{join_path, spec_join_path};

verus! {

/// One configured podcast subscription.
pub struct PodcastConfig {
    pub name: String,
    pub url: String,
    pub output_dir: String,
    pub max_episodes: Option<usize>,
}

impl Clone for PodcastConfig {
    fn clone(&self) -> (r: Self)
        ensures
            r.name@ == self.name@,
            r.url@ == self.url@,
            r.output_dir@ == self.output_dir@,
            r.max_episodes == self.max_episodes,
    {
        PodcastConfig {
            name: self.name.clone(),
            url: self.url.clone(),
            output_dir: self.output_dir.clone(),
            max_episodes: self.max_episodes,
        }
    }
}

/// The ordered list of configured subscriptions.
pub struct Config {
    pub podcasts: Vec<PodcastConfig>,
}

/// Relies on dirs::config_dir: the platform's configuration directory, if
/// the environment defines one. The value depends on the environment, so
/// nothing is promised of it; a path that is not valid UTF-8 is treated as
/// absent.
#[verifier::external_body]
fn system_config_dir() -> (r: Option<String>) {
    dirs::config_dir().and_then(|p| p.to_str().map(str::to_string))
}

impl Config {
    /// The configuration directory: the platform's configuration directory
    /// with the application's own segment appended.
    pub fn config_dir() -> (r: Option<String>)
        ensures
            r matches Some(d) ==> exists|base: Seq<char>|
                d@ == #[trigger] spec_join_path(base, "podcast-getter"@),
    {
        match system_config_dir() {
            Some(base) => {
                let d = join_path(base.as_str(), "podcast-getter");
                proof {
                    assert(d@ == spec_join_path(base@, "podcast-getter"@));
                }
                Some(d)
            },
            None => None,
        }
    }

    /// The configuration file: `config.toml` inside the configuration
    /// directory.
    pub fn config_file() -> (r: Option<String>)
        ensures
            r matches Some(f) ==> exists|base: Seq<char>|
                f@ == #[trigger] spec_join_path(
                    spec_join_path(base, "podcast-getter"@),
                    "config.toml"@,
                ),
    {
        match Self::config_dir() {
            Some(d) => {
                let f = join_path(d.as_str(), "config.toml");
                proof {
                    let base = choose|b: Seq<char>| d@ == spec_join_path(b, "podcast-getter"@);
                    assert(f@ == spec_join_path(
                        spec_join_path(base, "podcast-getter"@),
                        "config.toml"@,
                    ));
                }
                Some(f)
            },
            None => None,
        }
    }
}

/// `s` without its leading slashes.
pub open spec fn spec_skip_slashes(s: Seq<char>) -> Seq<char>
    decreases s.len(),
{
    if s.len() > 0 && s[0] == '/' {
        spec_skip_slashes(s.drop_first())
    } else {
        s
    }
}

/// What stands before the first slash of `s`.
pub open spec fn spec_until_slash(s: Seq<char>) -> Seq<char>
    decreases s.len(),
{
    if s.len() == 0 {
        s
    } else if s[0] == '/' {
        Seq::empty()
    } else {
        seq![s[0]] + spec_until_slash(s.drop_first())
    }
}

/// The first non-empty slash-separated segment of a URL, if any.
pub open spec fn spec_first_segment(s: Seq<char>) -> Option<Seq<char>> {
    let t = spec_skip_slashes(s);
    if t.len() == 0 {
        None
    } else {
        Some(spec_until_slash(t))
    }
}

/// The subscription name a URL defaults to: its first non-empty segment, or
/// a placeholder when it has none.
pub open spec fn spec_derived_name(url: Seq<char>) -> Seq<char> {
    match spec_first_segment(url) {
        Some(seg) => seg,
        None => "podcast"@,
    }
}

/// Derives a default subscription name from a feed URL: the first non-empty
/// slash-separated segment, or a placeholder.
pub fn derive_podcast_name(url: &str) -> (r: String)
    ensures
        r@ == spec_derived_name(url@),
{
    let n = url.unicode_len();
    let mut i: usize = 0;
    proof {
        assert(url@.skip(0) =~= url@);
    }
    while i < n && url.get_char(i) == '/'
        invariant
            i <= n,
            n as nat == url@.len(),
            spec_skip_slashes(url@) == spec_skip_slashes(url@.skip(i as int)),
        decreases n - i,
    {
        proof {
            assert(url@.skip(i as int)[0] == url@[i as int]);
            assert(url@.skip(i as int).drop_first() =~= url@.skip(i + 1));
        }
        i = i + 1;
    }
    proof {
        if i < n {
            assert(url@.skip(i as int)[0] == url@[i as int]);
            assert(url@[i as int] != '/');
        }
        assert(spec_skip_slashes(url@) == url@.skip(i as int));
    }
    if i == n {
        proof {
            assert(url@.skip(i as int) =~= Seq::<char>::empty());
        }
        return "podcast".to_owned();
    }
    let mut j: usize = i;
    while j < n && url.get_char(j) != '/'
        invariant
            i <= j <= n,
            n as nat == url@.len(),
            spec_skip_slashes(url@) == url@.skip(i as int),
            spec_until_slash(url@.skip(i as int)) == url@.subrange(i as int, j as int)
                + spec_until_slash(url@.skip(j as int)),
        decreases n - j,
    {
        proof {
            let t = url@.skip(j as int);
            assert(t[0] == url@[j as int]);
            assert(t.drop_first() =~= url@.skip(j + 1));
            assert(spec_until_slash(t) == seq![url@[j as int]] + spec_until_slash(
                url@.skip(j + 1),
            ));
            assert(url@.subrange(i as int, j as int) + (seq![url@[j as int]]
                + spec_until_slash(url@.skip(j + 1))) =~= url@.subrange(i as int, j + 1)
                + spec_until_slash(url@.skip(j + 1)));
        }
        j = j + 1;
    }
    proof {
        let t = url@.skip(j as int);
        if j == n {
            assert(t =~= Seq::<char>::empty());
        } else {
            assert(t[0] == url@[j as int]);
            assert(t[0] == '/');
        }
        assert(spec_until_slash(t) =~= Seq::<char>::empty());
        assert(url@.subrange(i as int, j as int) + Seq::<char>::empty() =~= url@.subrange(
            i as int,
            j as int,
        ));
        assert(url@.skip(i as int).len() > 0);
    }
    url.substring_char(i, j).to_owned()
}

/// Appends a new subscription to the configuration: the given name, or one
/// derived from the URL; the given output directory; no per-podcast cap.
pub fn add_subscription(config: &mut Config, url: String, name: Option<String>, output_dir: String)
    ensures
        final(config).podcasts@.len() == old(config).podcasts@.len() + 1,
        final(config).podcasts@.drop_last() =~= old(config).podcasts@,
        final(config).podcasts@.last().name@ == (match name {
            Some(nm) => nm@,
            None => spec_derived_name(url@),
        }),
        final(config).podcasts@.last().url@ == url@,
        final(config).podcasts@.last().output_dir@ == output_dir@,
        final(config).podcasts@.last().max_episodes is None,
{
    let podcast_name = match name {
        Some(nm) => nm,
        None => derive_podcast_name(url.as_str()),
    };
    config.podcasts.push(
        PodcastConfig { name: podcast_name, url, output_dir, max_episodes: None },
    );
}

/// The index of the subscription with the given name, if one exists.
pub fn find_podcast(config: &Config, name: &str) -> (r: Option<usize>)
    ensures
        match r {
            Some(i) => i < config.podcasts@.len() && config.podcasts@[i as int].name@ == name@,
            None => forall|i: int|
                0 <= i < config.podcasts@.len() ==> config.podcasts@[i].name@ != name@,
        },
{
    let key = name.to_owned();
    let mut i: usize = 0;
    while i < config.podcasts.len()
        invariant
            i <= config.podcasts@.len(),
            key@ == name@,
            forall|j: int| 0 <= j < i ==> config.podcasts@[j].name@ != name@,
        decreases config.podcasts@.len() - i,
    {
        if config.podcasts[i].name == key {
            return Some(i);
        }
        i = i + 1;
    }
    None
}

/// The example configuration: one placeholder subscription pointing into
/// the given download directory.
pub fn example_config(download_dir: &str) -> (c: Config)
    ensures
        c.podcasts@.len() == 1,
        c.podcasts@[0].name@ == "Example Podcast"@,
        c.podcasts@[0].url@ == "https://example.com/feed.xml"@,
        c.podcasts@[0].output_dir@ == spec_join_path(download_dir@, "podcasts"@),
        c.podcasts@[0].max_episodes is None,
{
    let mut podcasts: Vec<PodcastConfig> = Vec::new();
    podcasts.push(
        PodcastConfig {
            name: "Example Podcast".to_owned(),
            url: "https://example.com/feed.xml".to_owned(),
            output_dir: join_path(download_dir, "podcasts"),
            max_episodes: None,
        },
    );
    Config { podcasts }
}

} // verus!
