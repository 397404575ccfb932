use vstd::prelude::*;

verus! {

/// The map of variables that a sequence of `(name, value)` entries defines:
/// a later entry for a name shadows every earlier one.
pub open spec fn entries_map(entries: Seq<(String, String)>) -> Map<Seq<char>, Seq<char>>
    decreases entries.len(),
{
    if entries.len() == 0 {
        Map::empty()
    } else {
        entries_map(entries.drop_last()).insert(entries.last().0@, entries.last().1@)
    }
}

/// Entries past position `i` that all carry another name leave the value of
/// `key` as the first `i` entries define it.
proof fn lemma_shadow_free_suffix(entries: Seq<(String, String)>, i: int, key: Seq<char>)
    requires
        0 <= i <= entries.len(),
        forall|j: int| i <= j < entries.len() ==> entries[j].0@ != key,
    ensures
        entries_map(entries).contains_key(key) == entries_map(entries.subrange(0, i)).contains_key(key),
        entries_map(entries)[key] == entries_map(entries.subrange(0, i))[key],
    decreases entries.len() - i,
{
    if i < entries.len() {
        let shorter = entries.drop_last();
        lemma_shadow_free_suffix(shorter, i, key);
        assert(shorter.subrange(0, i) =~= entries.subrange(0, i));
    } else {
        assert(entries.subrange(0, i) =~= entries);
    }
}

/// A set of environment variables that a caller fills in by hand, so that
/// directory resolution runs on values the caller chooses rather than on the
/// process environment.
pub struct OverridableEnv {
    env_map: Vec<(String, String)>,
}

impl View for OverridableEnv {
    type V = Map<Seq<char>, Seq<char>>;

    closed spec fn view(&self) -> Map<Seq<char>, Seq<char>> {
        entries_map(self.env_map@)
    }
}

impl OverridableEnv {
    /// An environment in which no variable is set.
    pub fn new() -> (r: OverridableEnv)
        ensures
            r@ == Map::<Seq<char>, Seq<char>>::empty(),
    {
        OverridableEnv { env_map: Vec::new() }
    }

    /// Sets `key` to `value`, replacing any value it had.
    pub fn add(&mut self, key: &str, value: &str)
        ensures
            final(self)@ == old(self)@.insert(key@, value@),
    {
        let entry = (key.to_string(), value.to_string());
        let ghost before = self.env_map@;
        self.env_map.push(entry);
        proof {
            assert(self.env_map@.drop_last() =~= before);
        }
    }

    /// The value of `key`, or `None` where it is not set.
    pub fn get(&self, key: &str) -> (r: Option<String>)
        ensures
            r.is_some() == self@.contains_key(key@),
            r.is_some() ==> r.unwrap()@ == self@[key@],
    {
        let wanted = key.to_string();
        let mut i: usize = self.env_map.len();
        while i > 0
            invariant
                i <= self.env_map@.len(),
                wanted@ == key@,
                forall|j: int| i <= j < self.env_map@.len() ==> self.env_map@[j].0@ != key@,
            decreases i,
        {
            if self.env_map[i - 1].0 == wanted {
                proof {
                    lemma_shadow_free_suffix(self.env_map@, i as int, key@);
                    assert(self.env_map@.subrange(0, i as int).drop_last()
                        =~= self.env_map@.subrange(0, i - 1));
                }
                return Some(self.env_map[i - 1].1.clone());
            }
            i = i - 1;
        }
        proof {
            lemma_shadow_free_suffix(self.env_map@, 0, key@);
        }
        None
    }
}

} // verus!
