//! The checkpoint store: for each podcast, the timestamp of the last
//! successful check, viewed as a map from podcast name to seconds since the
//! Unix epoch.

use vstd::prelude::*;
use crate::config::Config;
use crate::text::{join_path, spec_join_path};

verus! {

/// The map an association list denotes: later entries win.
pub open spec fn spec_entries_map(s: Seq<(String, i64)>) -> Map<Seq<char>, int>
    decreases s.len(),
{
    if s.len() == 0 {
        Map::empty()
    } else {
        spec_entries_map(s.drop_last()).insert(s.last().0@, s.last().1 as int)
    }
}

/// Per-podcast last-check timestamps. Absence of an entry means the podcast
/// was never checked.
pub struct State {
    last_checks: Vec<(String, i64)>,
}

impl View for State {
    type V = Map<Seq<char>, int>;

    closed spec fn view(&self) -> Map<Seq<char>, int> {
        spec_entries_map(self.last_checks@)
    }
}

proof fn lemma_map_key(s: Seq<(String, i64)>, i: int)
    requires
        forall|x: int, y: int| 0 <= x < y < s.len() ==> s[x].0@ != s[y].0@,
        0 <= i < s.len(),
    ensures
        spec_entries_map(s).contains_key(s[i].0@),
        spec_entries_map(s)[s[i].0@] == s[i].1 as int,
    decreases s.len(),
{
    if i < s.len() - 1 {
        lemma_map_key(s.drop_last(), i);
    }
}

proof fn lemma_map_absent(s: Seq<(String, i64)>, k: Seq<char>)
    requires
        forall|x: int| 0 <= x < s.len() ==> s[x].0@ != k,
    ensures
        !spec_entries_map(s).contains_key(k),
    decreases s.len(),
{
    if s.len() > 0 {
        lemma_map_absent(s.drop_last(), k);
    }
}

proof fn lemma_map_update(s: Seq<(String, i64)>, i: int, p: (String, i64))
    requires
        forall|x: int, y: int| 0 <= x < y < s.len() ==> s[x].0@ != s[y].0@,
        0 <= i < s.len(),
        p.0@ == s[i].0@,
    ensures
        spec_entries_map(s.update(i, p)) == spec_entries_map(s).insert(p.0@, p.1 as int),
    decreases s.len(),
{
    let k = p.0@;
    if i == s.len() - 1 {
        assert(s.update(i, p).drop_last() =~= s.drop_last());
        assert(s.update(i, p).last() == p);
        assert(spec_entries_map(s.drop_last()).insert(s.last().0@, s.last().1 as int).insert(
            k,
            p.1 as int,
        ) =~= spec_entries_map(s.drop_last()).insert(k, p.1 as int));
    } else {
        assert(s.update(i, p).drop_last() =~= s.drop_last().update(i, p));
        assert(s.update(i, p).last() == s.last());
        lemma_map_update(s.drop_last(), i, p);
        assert(s.last().0@ != k);
        assert(spec_entries_map(s.drop_last()).insert(k, p.1 as int).insert(
            s.last().0@,
            s.last().1 as int,
        ) =~= spec_entries_map(s.drop_last()).insert(s.last().0@, s.last().1 as int).insert(
            k,
            p.1 as int,
        ));
    }
}

impl State {
    /// The store's well-formedness: one entry per podcast name.
    pub closed spec fn wf(&self) -> bool {
        forall|x: int, y: int|
            0 <= x < y < self.last_checks@.len() ==> self.last_checks@[x].0@
                != self.last_checks@[y].0@
    }

    /// The state file: `state.json` inside the configuration directory.
    pub fn state_file() -> (r: Option<String>)
        ensures
            r matches Some(f) ==> exists|base: Seq<char>|
                f@ == #[trigger] spec_join_path(
                    spec_join_path(base, "podcast-getter"@),
                    "state.json"@,
                ),
    {
        match Config::config_dir() {
            Some(d) => {
                let f = join_path(d.as_str(), "state.json");
                proof {
                    let base = choose|b: Seq<char>| d@ == spec_join_path(b, "podcast-getter"@);
                    assert(f@ == spec_join_path(
                        spec_join_path(base, "podcast-getter"@),
                        "state.json"@,
                    ));
                }
                Some(f)
            },
            None => None,
        }
    }

    /// An empty store: no podcast has ever been checked.
    pub fn new() -> (r: State)
        ensures
            r.wf(),
            r@ == Map::<Seq<char>, int>::empty(),
    {
        State { last_checks: Vec::new() }
    }

    /// The stored entries, for persistence and display: their map is the
    /// store's value.
    pub fn entries(&self) -> (r: &Vec<(String, i64)>)
        ensures
            spec_entries_map(r@) == self@,
    {
        &self.last_checks
    }

    /// Rebuilds a store from persisted entries; with duplicate names the
    /// later entry wins.
    pub fn from_entries(list: Vec<(String, i64)>) -> (r: State)
        ensures
            r.wf(),
            r@ == spec_entries_map(list@),
    {
        let mut st = State::new();
        let mut i: usize = 0;
        while i < list.len()
            invariant
                i <= list@.len(),
                st.wf(),
                st@ == spec_entries_map(list@.take(i as int)),
            decreases list@.len() - i,
        {
            let name = list[i].0.clone();
            let time = list[i].1;
            st.set_last_check(name, time);
            proof {
                assert(list@.take(i + 1).drop_last() =~= list@.take(i as int));
                assert(list@.take(i + 1).last() == list@[i as int]);
            }
            i = i + 1;
        }
        proof {
            assert(list@.take(list@.len() as int) =~= list@);
        }
        st
    }

    /// The last-check time recorded for a podcast, or none when the podcast
    /// was never checked.
    pub fn get_last_check(&self, podcast_name: &str) -> (r: Option<i64>)
        requires
            self.wf(),
        ensures
            match r {
                Some(t) => self@.contains_key(podcast_name@) && self@[podcast_name@] == t as int,
                None => !self@.contains_key(podcast_name@),
            },
    {
        let key = podcast_name.to_owned();
        let mut i: usize = 0;
        while i < self.last_checks.len()
            invariant
                i <= self.last_checks@.len(),
                self.wf(),
                key@ == podcast_name@,
                forall|j: int| 0 <= j < i ==> self.last_checks@[j].0@ != key@,
            decreases self.last_checks@.len() - i,
        {
            if self.last_checks[i].0 == key {
                proof {
                    lemma_map_key(self.last_checks@, i as int);
                }
                return Some(self.last_checks[i].1);
            }
            i = i + 1;
        }
        proof {
            lemma_map_absent(self.last_checks@, podcast_name@);
        }
        None
    }

    /// Records the last-check time for a podcast, replacing any earlier
    /// entry for the same name.
    pub fn set_last_check(&mut self, podcast_name: String, time: i64)
        requires
            old(self).wf(),
        ensures
            final(self).wf(),
            final(self)@ == old(self)@.insert(podcast_name@, time as int),
    {
        let mut i: usize = 0;
        while i < self.last_checks.len()
            invariant
                i <= self.last_checks@.len(),
                self.wf(),
                self == old(self),
                forall|j: int| 0 <= j < i ==> self.last_checks@[j].0@ != podcast_name@,
            decreases self.last_checks@.len() - i,
        {
            if self.last_checks[i].0 == podcast_name {
                proof {
                    lemma_map_update(self.last_checks@, i as int, (podcast_name, time));
                }
                let ghost before = self.last_checks@;
                self.last_checks[i] = (podcast_name, time);
                proof {
                    assert forall|x: int, y: int|
                        0 <= x < y < self.last_checks@.len() implies self.last_checks@[x].0@
                        != self.last_checks@[y].0@ by {
                        assert(before[x].0@ != before[y].0@);
                    }
                }
                return ;
            }
            i = i + 1;
        }
        proof {
            lemma_map_absent(self.last_checks@, podcast_name@);
        }
        let ghost before = self.last_checks@;
        self.last_checks.push((podcast_name, time));
        proof {
            assert(self.last_checks@.drop_last() =~= before);
            assert forall|x: int, y: int|
                0 <= x < y < self.last_checks@.len() implies self.last_checks@[x].0@
                != self.last_checks@[y].0@ by {
                if y < self.last_checks@.len() - 1 {
                    assert(before[x].0@ != before[y].0@);
                } else {
                    assert(before[x].0@ != podcast_name@);
                }
            }
        }
    }
}

} // verus!
