//! The settings a batch is built from.

use vstd::prelude::*;
use vstd::string::*;

verus! {

/// The identity written into each repository's configuration.
pub struct User {
    pub name: String,
    pub email: String,
}

/// One managed repository.
#[derive(Debug, Clone)]
pub struct Repos {
    /// Whether the repository takes part in batches.
    pub enabled: bool,
    /// The address it is cloned from.
    pub remote: String,
    pub branch: String,
    /// The directory under which it is cloned.
    pub group: String,
}

impl Repos {
    /// A copy of this repository's settings.
    pub fn duplicate(&self) -> (r: Repos)
        ensures
            r == *self,
    {
        Repos {
            enabled: self.enabled,
            remote: self.remote.clone(),
            branch: self.branch.clone(),
            group: self.group.clone(),
        }
    }
}

/// Everything a batch reads: identity, commit messages by key, configuration
/// entries applied verbatim, and the repositories. The keys of `comments`,
/// and those of `config`, are unique (see `wf`).
pub struct GitpSetting {
    pub user: User,
    pub comments: Vec<(String, String)>,
    pub config: Vec<(String, String)>,
    pub repos: Vec<Repos>,
}

/// No two entries share a key.
pub open spec fn keys_unique(entries: Seq<(String, String)>) -> bool {
    forall|i: int, j: int|
        0 <= i < j < entries.len() ==> (#[trigger] entries[i]).0@ != (#[trigger] entries[j]).0@
}

impl GitpSetting {
    /// The keys of each key/value list are unique.
    pub open spec fn wf(&self) -> bool {
        keys_unique(self.comments@) && keys_unique(self.config@)
    }

    /// Settings with an empty identity and nothing else.
    pub fn default() -> (r: GitpSetting)
        ensures
            r.wf(),
            r.user.name@.len() == 0,
            r.user.email@.len() == 0,
            r.comments@.len() == 0,
            r.config@.len() == 0,
            r.repos@.len() == 0,
    {
        GitpSetting {
            user: User { name: String::new(), email: String::new() },
            comments: Vec::new(),
            config: Vec::new(),
            repos: Vec::new(),
        }
    }
}

/// The value of the first entry whose key is `key`.
pub open spec fn lookup(entries: Seq<(String, String)>, key: Seq<char>) -> Option<Seq<char>>
    decreases entries.len(),
{
    if entries.len() == 0 {
        None
    } else if entries[0].0@ == key {
        Some(entries[0].1@)
    } else {
        lookup(entries.drop_first(), key)
    }
}

/// With unique keys, the value found for a key is that of the entry holding
/// it, wherever that entry stands.
pub proof fn lemma_lookup_finds(entries: Seq<(String, String)>, key: Seq<char>, i: int)
    requires
        keys_unique(entries),
        0 <= i < entries.len(),
        entries[i].0@ == key,
    ensures
        lookup(entries, key) == Some(entries[i].1@),
    decreases entries.len(),
{
    if i > 0 {
        assert(entries[0].0@ != key);
        let d = entries.drop_first();
        assert(keys_unique(d)) by {
            assert forall|a: int, b: int| 0 <= a < b < d.len() implies (#[trigger] d[a]).0@ != (
            #[trigger] d[b]).0@ by {
                assert(d[a] == entries[a + 1]);
                assert(d[b] == entries[b + 1]);
            }
        }
        assert(d[i - 1] == entries[i]);
        lemma_lookup_finds(d, key, i - 1);
    }
}

/// The commit message used by a push: the comment under `default`, else
/// `update.`.
pub open spec fn commit_message_of(comments: Seq<(String, String)>) -> Seq<char> {
    match lookup(comments, "default"@) {
        Some(m) => m,
        None => "update."@,
    }
}

/// The commit message that a push uses.
pub fn commit_message(setting: &GitpSetting) -> (r: String)
    ensures
        r@ == commit_message_of(setting.comments@),
{
    let key = String::from_str("default");
    let ghost all = setting.comments@;
    let mut i: usize = 0;
    assert(all.subrange(0, all.len() as int) =~= all);
    while i < setting.comments.len()
        invariant
            all == setting.comments@,
            i <= all.len(),
            key@ == "default"@,
            lookup(all, "default"@) == lookup(all.subrange(i as int, all.len() as int), "default"@),
        decreases setting.comments.len() - i,
    {
        let ghost rest = all.subrange(i as int, all.len() as int);
        assert(rest.drop_first() =~= all.subrange(i + 1, all.len() as int));
        if setting.comments[i].0 == key {
            return setting.comments[i].1.clone();
        }
        i = i + 1;
    }
    String::from_str("update.")
}

} // verus!
