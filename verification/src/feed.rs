//! Feed projection and incremental selection: turning parsed feed entries
//! into uniform episode records, and picking the episodes that are new with
//! respect to a checkpoint.

use vstd::prelude::*;
use crate::time::{parse_rfc2822, rfc2822_timestamp};

verus! {

broadcast use {
    Seq::lemma_filter_push,
    Seq::lemma_filter_len_push,
    Seq::lemma_take_succ_push,
    Seq::lemma_push_map_commute,
    Seq::lemma_filter_len,
    Seq::lemma_filter_pred,
    Seq::lemma_filter_contains,
};

/// The mathematical value of an episode record: the field contents, with the
/// publish time as seconds since the Unix epoch.
pub ghost struct EpisodeModel {
    pub title: Seq<char>,
    pub description: Option<Seq<char>>,
    pub url: Seq<char>,
    pub pub_date: int,
}

/// One candidate episode, projected from a feed entry.
pub struct Episode {
    pub title: String,
    pub description: Option<String>,
    pub url: String,
    pub pub_date: i64,
}

impl View for Episode {
    type V = EpisodeModel;

    open spec fn view(&self) -> EpisodeModel {
        EpisodeModel {
            title: self.title@,
            description: self.description.deep_view(),
            url: self.url@,
            pub_date: self.pub_date as int,
        }
    }
}

impl Clone for Episode {
    fn clone(&self) -> (r: Self)
        ensures
            r@ == self@,
    {
        Episode {
            title: self.title.clone(),
            description: match &self.description {
                Some(d) => Some(d.clone()),
                None => None,
            },
            url: self.url.clone(),
            pub_date: self.pub_date,
        }
    }
}

/// The models of a sequence of episodes.
pub open spec fn episode_models(s: Seq<Episode>) -> Seq<EpisodeModel> {
    s.map_values(|e: Episode| e@)
}

/// One entry of a parsed feed, with every field the projection reads handed
/// over as a plain string.
pub struct FeedItem {
    pub title: Option<String>,
    pub description: Option<String>,
    pub link: Option<String>,
    pub enclosure_url: Option<String>,
    pub pub_date: Option<String>,
}

/// The mathematical value of a feed entry: its fields as plain character
/// sequences.
pub ghost struct FeedItemModel {
    pub title: Option<Seq<char>>,
    pub description: Option<Seq<char>>,
    pub link: Option<Seq<char>>,
    pub enclosure_url: Option<Seq<char>>,
    pub pub_date: Option<Seq<char>>,
}

impl View for FeedItem {
    type V = FeedItemModel;

    open spec fn view(&self) -> FeedItemModel {
        FeedItemModel {
            title: self.title.deep_view(),
            description: self.description.deep_view(),
            link: self.link.deep_view(),
            enclosure_url: self.enclosure_url.deep_view(),
            pub_date: self.pub_date.deep_view(),
        }
    }
}

/// The models of a sequence of feed entries.
pub open spec fn feed_item_models(s: Seq<FeedItem>) -> Seq<FeedItemModel> {
    s.map_values(|it: FeedItem| it@)
}

/// The source URL an entry resolves to: its enclosure URL if it has one,
/// else its link, else none.
pub open spec fn spec_item_url(it: FeedItemModel) -> Option<Seq<char>> {
    match it.enclosure_url {
        Some(u) => Some(u),
        None => it.link,
    }
}

/// How one feed entry projects to an episode record: an entry without a
/// resolvable URL is dropped; a missing title defaults to a placeholder; a
/// missing or unparseable date defaults to `now`.
pub open spec fn spec_project_item(it: FeedItemModel, now: int) -> Option<EpisodeModel> {
    match spec_item_url(it) {
        None => None,
        Some(u) => Some(
            EpisodeModel {
                title: match it.title {
                    Some(t) => t,
                    None => "Unknown"@,
                },
                description: it.description,
                url: u,
                pub_date: match it.pub_date {
                    Some(d) => match rfc2822_timestamp(d) {
                        Some(t) => t,
                        None => now,
                    },
                    None => now,
                },
            },
        ),
    }
}

/// The projection of a whole entry list, kept in feed order.
pub open spec fn spec_project_items(items: Seq<FeedItemModel>, now: int) -> Seq<EpisodeModel>
    decreases items.len(),
{
    if items.len() == 0 {
        Seq::empty()
    } else {
        spec_project_items(items.drop_last(), now) + (match spec_project_item(
            items.last(),
            now,
        ) {
            Some(m) => seq![m],
            None => Seq::empty(),
        })
    }
}

/// Projects one feed entry into an episode record, or drops it when it has
/// no resolvable URL.
pub fn project_item(it: &FeedItem, now: i64) -> (r: Option<Episode>)
    ensures
        match r {
            Some(e) => spec_project_item(it@, now as int) == Some(e@),
            None => spec_project_item(it@, now as int) is None,
        },
{
    let url = match &it.enclosure_url {
        Some(u) => u.clone(),
        None => match &it.link {
            Some(l) => l.clone(),
            None => { return None; },
        },
    };
    let title = match &it.title {
        Some(t) => t.clone(),
        None => "Unknown".to_owned(),
    };
    let description = match &it.description {
        Some(d) => Some(d.clone()),
        None => None,
    };
    let pub_date = match &it.pub_date {
        Some(d) => match parse_rfc2822(d.as_str()) {
            Some(t) => t,
            None => now,
        },
        None => now,
    };
    Some(Episode { title, description, url, pub_date })
}

/// Projects every entry of a parsed feed, in order.
pub fn project_items(items: &Vec<FeedItem>, now: i64) -> (r: Vec<Episode>)
    ensures
        episode_models(r@) == spec_project_items(feed_item_models(items@), now as int),
{
    let mut out: Vec<Episode> = Vec::new();
    let mut i: usize = 0;
    while i < items.len()
        invariant
            i <= items@.len(),
            episode_models(out@) == spec_project_items(
                feed_item_models(items@.take(i as int)),
                now as int,
            ),
        decreases items@.len() - i,
    {
        proof {
            let m_prev = feed_item_models(items@.take(i as int));
            let m_next = feed_item_models(items@.take(i + 1));
            assert(items@.take(i + 1).drop_last() =~= items@.take(i as int));
            assert(items@.take(i + 1).last() == items@[i as int]);
            assert(m_next =~= m_prev.push(items@[i as int]@));
            assert(m_next.drop_last() =~= m_prev);
            assert(m_next.last() == items@[i as int]@);
        }
        match project_item(&items[i], now) {
            Some(e) => {
                out.push(e);
                proof {
                    assert(episode_models(out@) =~= spec_project_items(
                        feed_item_models(items@.take(i + 1)),
                        now as int,
                    ));
                }
            },
            None => {
                proof {
                    assert(episode_models(out@) =~= spec_project_items(
                        feed_item_models(items@.take(i + 1)),
                        now as int,
                    ));
                }
            },
        }
        i = i + 1;
    }
    proof {
        assert(items@.take(items@.len() as int) =~= items@);
    }
    out
}

/// Whether `rss::Channel::from_str` accepts a document: parsing is a
/// function of the text alone.
pub uninterp spec fn rss_parses(content: Seq<char>) -> bool;

/// The entries `rss::Channel::from_str` parses a document into, in document
/// order, each reduced to the fields the projection reads; a function of
/// the text alone. Meaningful only where `rss_parses` holds.
pub uninterp spec fn rss_items(content: Seq<char>) -> Seq<FeedItemModel>;

/// The channel-level image URL a document parses to, if the channel
/// declares one; a function of the text alone. Meaningful only where
/// `rss_parses` holds.
pub uninterp spec fn rss_image(content: Seq<char>) -> Option<Seq<char>>;

/// Relies on rss::Channel::from_str and the accessors Item::title,
/// Item::description, Item::link, Item::enclosure, Item::pub_date,
/// Enclosure::url, Channel::image and Image::url: parses a feed document and
/// hands each entry's fields over as plain strings, with the channel's cover
/// art URL. The feed grammar itself is the parsing library's business; what
/// the document parses to is taken as given.
#[verifier::external_body]
fn parse_channel(content: &str) -> (r: Result<(Vec<FeedItem>, Option<String>), String>)
    ensures
        r is Ok <==> rss_parses(content@),
        r matches Ok(p) ==> (feed_item_models(p.0@) == rss_items(content@) && p.1.deep_view()
            == rss_image(content@)),
{
    let ch = match content.parse::<rss::Channel>() {
        Ok(c) => c,
        Err(e) => return Err(e.to_string()),
    };
    let image_url = ch.image().map(|img| img.url().to_string());
    let items = ch.items().iter().map(|it| FeedItem {
        title: it.title().map(str::to_string),
        description: it.description().map(str::to_string),
        link: it.link().map(str::to_string),
        enclosure_url: it.enclosure().map(|e| e.url().to_string()),
        pub_date: it.pub_date().map(str::to_string),
    }).collect();
    Ok((items, image_url))
}

/// Parses a feed document and projects its entries into episode records, in
/// feed order; entries with missing or unparseable dates default to `now`.
/// On a parse failure the parser's message is returned.
pub fn parse_feed(content: &str, now: i64) -> (r: Result<(Vec<Episode>, Option<String>), String>)
    ensures
        r is Ok <==> rss_parses(content@),
        r matches Ok(p) ==> (episode_models(p.0@) == spec_project_items(
            rss_items(content@),
            now as int,
        ) && p.1.deep_view() == rss_image(content@)),
{
    match parse_channel(content) {
        Ok(payload) => {
            let (items, image_url) = payload;
            let episodes = project_items(&items, now);
            proof {
                assert(episode_models(episodes@) == spec_project_items(
                    rss_items(content@),
                    now as int,
                ));
            }
            Ok((episodes, image_url))
        },
        Err(e) => Err(e),
    }
}

/// Parses a feed document, defaulting missing dates to the current time.
pub fn parse_feed_now(content: &str) -> (r: Result<(Vec<Episode>, Option<String>), String>)
    ensures
        r is Ok <==> rss_parses(content@),
        r matches Ok(p) ==> ((exists|t: int|
            episode_models(p.0@) == #[trigger] spec_project_items(rss_items(content@), t))
            && p.1.deep_view() == rss_image(content@)),
{
    let now = crate::time::now_timestamp();
    let r = parse_feed(content, now);
    proof {
        if r is Ok {
            assert(episode_models(r->Ok_0.0@) == spec_project_items(
                rss_items(content@),
                now as int,
            ));
        }
    }
    r
}

/// Whether an episode passes the checkpoint cutoff: with no checkpoint every
/// episode passes; with one, only an episode published strictly after it.
pub open spec fn spec_passes(e: EpisodeModel, since: Option<i64>) -> bool {
    match since {
        None => true,
        Some(t) => e.pub_date > t as int,
    }
}

/// The episodes that pass the cutoff, in their original order.
pub open spec fn spec_filter_by_date(s: Seq<EpisodeModel>, since: Option<i64>) -> Seq<
    EpisodeModel,
> {
    s.filter(|e: EpisodeModel| spec_passes(e, since))
}

/// Keeps the episodes published strictly after `since`; with no cutoff the
/// input is returned unchanged.
pub fn filter_by_date(episodes: Vec<Episode>, since: Option<i64>) -> (r: Vec<Episode>)
    ensures
        episode_models(r@) == spec_filter_by_date(episode_models(episodes@), since),
        since is None ==> r@ == episodes@,
{
    let cutoff = match since {
        None => {
            proof {
                lemma_filter_all_pass(
                    episode_models(episodes@),
                    |e: EpisodeModel| spec_passes(e, since),
                );
            }
            return episodes;
        },
        Some(t) => t,
    };
    let mut out: Vec<Episode> = Vec::new();
    let mut i: usize = 0;
    while i < episodes.len()
        invariant
            i <= episodes@.len(),
            since == Some(cutoff),
            episode_models(out@) == spec_filter_by_date(
                episode_models(episodes@.take(i as int)),
                since,
            ),
        decreases episodes@.len() - i,
    {
        proof {
            assert(episodes@.take(i + 1).drop_last() =~= episodes@.take(i as int));
            assert(episodes@.take(i + 1).last() == episodes@[i as int]);
            assert(episode_models(episodes@.take(i + 1)) =~= episode_models(
                episodes@.take(i as int),
            ).push(episodes@[i as int]@));
        }
        if episodes[i].pub_date > cutoff {
            out.push(episodes[i].clone());
        }
        i = i + 1;
    }
    proof {
        assert(episodes@.take(episodes@.len() as int) =~= episodes@);
    }
    out
}

/// How many episodes selection yields: all that pass the cutoff, truncated
/// to the cap where one is given.
pub open spec fn spec_select(s: Seq<EpisodeModel>, since: Option<i64>, cap: Option<usize>) -> Seq<
    EpisodeModel,
> {
    let f = spec_filter_by_date(s, since);
    match cap {
        None => f,
        Some(n) => if f.len() <= n as int {
            f
        } else {
            f.take(n as int)
        },
    }
}

/// Selects the episodes considered new: those past the cutoff, in feed
/// order, truncated to the first `cap` where a cap is given.
pub fn select(candidates: Vec<Episode>, since: Option<i64>, cap: Option<usize>) -> (r: Vec<
    Episode,
>)
    ensures
        episode_models(r@) == spec_select(episode_models(candidates@), since, cap),
        since is None && cap is None ==> r@ == candidates@,
{
    let mut f = filter_by_date(candidates, since);
    if let Some(n) = cap {
        let ghost before = f@;
        f.truncate(n);
        proof {
            if n as int <= before.len() {
                assert(episode_models(f@) =~= episode_models(before).take(n as int));
            }
        }
    }
    f
}

/// The strict-inequality cutoff: an episode published exactly at the
/// checkpoint is excluded, one published strictly after it is included.
pub proof fn lemma_filter_strict_cutoff(s: Seq<EpisodeModel>, t: i64)
    ensures
        forall|i: int|
            0 <= i < spec_filter_by_date(s, Some(t)).len() ==> spec_filter_by_date(s, Some(t))[i]
                .pub_date > t as int,
        forall|i: int|
            0 <= i < s.len() && s[i].pub_date > t as int ==> spec_filter_by_date(
                s,
                Some(t),
            ).contains(s[i]),
        forall|e: EpisodeModel| e.pub_date == t as int ==> !spec_passes(e, Some(t)),
        forall|e: EpisodeModel| e.pub_date == t as int + 1 ==> spec_passes(e, Some(t)),
{
    assert forall|i: int| 0 <= i < spec_filter_by_date(s, Some(t)).len() implies spec_filter_by_date(
        s,
        Some(t),
    )[i].pub_date > t as int by {
        s.lemma_filter_pred(|e: EpisodeModel| spec_passes(e, Some(t)), i);
    }
    assert forall|i: int| 0 <= i < s.len() && s[i].pub_date > t as int implies spec_filter_by_date(
        s,
        Some(t),
    ).contains(s[i]) by {
        s.lemma_filter_contains(|e: EpisodeModel| spec_passes(e, Some(t)), i);
    }
}

/// With no checkpoint and no cap, selection is the identity: every candidate
/// comes back, in its original position.
pub proof fn lemma_select_passthrough(s: Seq<EpisodeModel>)
    ensures
        spec_select(s, None, None) == s,
{
    let pred = |e: EpisodeModel| spec_passes(e, None);
    assert(spec_select(s, None, None) == s.filter(pred));
    lemma_filter_all_pass(s, pred);
}

/// A filter whose predicate holds of every element returns the sequence
/// unchanged.
pub proof fn lemma_filter_all_pass(s: Seq<EpisodeModel>, pred: spec_fn(EpisodeModel) -> bool)
    requires
        forall|i: int| 0 <= i < s.len() ==> pred(#[trigger] s[i]),
    ensures
        s.filter(pred) == s,
    decreases s.len(),
{
    if s.len() == 0 {
        assert(s.filter(pred) =~= s) by {
            reveal(Seq::filter);
        }
    } else {
        lemma_filter_all_pass(s.drop_last(), pred);
        assert(pred(s.last()));
        assert(s.filter(pred) == s.drop_last().filter(pred).push(s.last())) by {
            reveal(Seq::filter);
        }
        assert(s.drop_last().push(s.last()) =~= s);
    }
}

/// Cap truncation: with a cap of `n`, selection returns exactly the first
/// `min(n, count of passing candidates)` passing episodes, in order.
pub proof fn lemma_select_cap(s: Seq<EpisodeModel>, since: Option<i64>, n: usize)
    ensures
        spec_select(s, since, Some(n)).len() == vstd::math::min(
            n as int,
            spec_filter_by_date(s, since).len() as int,
        ),
        spec_select(s, since, Some(n)) == spec_filter_by_date(s, since).take(
            vstd::math::min(n as int, spec_filter_by_date(s, since).len() as int),
        ),
{
    let f = spec_filter_by_date(s, since);
    if f.len() <= n as int {
        assert(f.take(f.len() as int) =~= f);
    }
}

} // verus!
