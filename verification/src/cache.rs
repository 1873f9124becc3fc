//! The process-wide revocation status cache.
//!
//! Maps a status-list identifier to its current one-byte status code and the
//! set of affected token identifiers.  An update replaces the whole entry for
//! an identifier as one unit, and touches no other entry, so a reader holding
//! the cache between two updates sees either the complete old entry or the
//! complete new one, never a mixture.  The host shares one cache between the
//! bootstrap flow, the live-sync task and the decision engine, guarding it
//! with whatever exclusion its execution model calls for.

use vstd::prelude::*;

verus! {

/// One status-list entry: a one-byte status code and the affected token
/// identifiers.
pub struct StatusListEntry {
    pub status: u8,
    pub tokens: Vec<String>,
}

/// The set of token identifiers a stored token vector stands for: unordered
/// and de-duplicated.
pub open spec fn token_set(tokens: Seq<String>) -> Set<Seq<char>> {
    tokens.map_values(|t: String| t@).to_set()
}

/// The entry whose key is `id`, searching from the most recent entry back.
pub open spec fn find_entry(s: Seq<(String, StatusListEntry)>, id: Seq<char>) -> Option<
    StatusListEntry,
>
    decreases s.len(),
{
    if s.len() == 0 {
        None
    } else if s.last().0@ == id {
        Some(s.last().1)
    } else {
        find_entry(s.drop_last(), id)
    }
}

/// The revocation status cache.
pub struct RevocationStatusCache {
    entries: Vec<(String, StatusListEntry)>,
}

impl RevocationStatusCache {
    /// At most one entry per identifier.
    pub closed spec fn wf(&self) -> bool {
        forall|i: int, j: int|
            0 <= i < j < self.entries@.len() ==> self.entries@[i].0@ != self.entries@[j].0@
    }

    /// The status code and token set currently recorded for `id`.
    pub closed spec fn spec_entry(&self, id: Seq<char>) -> Option<(u8, Set<Seq<char>>)> {
        match find_entry(self.entries@, id) {
            Some(e) => Some((e.status, token_set(e.tokens@))),
            None => None,
        }
    }

    /// Whether the token `token` is currently flagged under the status list
    /// `id`.
    pub closed spec fn spec_flagged(&self, id: Seq<char>, token: Seq<char>) -> bool {
        match self.spec_entry(id) {
            Some(p) => p.1.contains(token),
            None => false,
        }
    }

    /// An empty cache: no identifier has an entry.
    pub fn new() -> (r: Self)
        ensures
            r.wf(),
            forall|id: Seq<char>| r.spec_entry(id) is None,
    {
        RevocationStatusCache { entries: Vec::new() }
    }

    /// The index of the entry for `identifier`, if any.
    fn position_of(&self, identifier: &String) -> (r: Option<usize>)
        ensures
            match r {
                Some(j) => j < self.entries@.len() && self.entries@[j as int].0@ == identifier@,
                None => forall|k: int|
                    0 <= k < self.entries@.len() ==> self.entries@[k].0@ != identifier@,
            },
    {
        let len = self.entries.len();
        let mut j: usize = 0;
        while j < len
            invariant
                j <= len,
                self.entries@.len() == len,
                forall|k: int| 0 <= k < j ==> self.entries@[k].0@ != identifier@,
            decreases len - j,
        {
            if self.entries[j].0 == *identifier {
                return Some(j);
            }
            j += 1;
        }
        None
    }

    /// Atomically replace the entry for `identifier` with the pair
    /// `(status, tokens)`.  Every other identifier's entry is untouched.
    pub fn upsert(&mut self, identifier: String, status: u8, tokens: Vec<String>)
        requires
            old(self).wf(),
        ensures
            final(self).wf(),
            upsert_rel(*old(self), *final(self), identifier@, status, token_set(tokens@)),
    {
        let entry = StatusListEntry { status, tokens };
        let position = self.position_of(&identifier);
        match position {
            Some(j) => {
                let ghost pre = self.entries@;
                let slot = vstd::std_specs::vec::vec_index_mut(&mut self.entries, j);
                *slot = (identifier, entry);
                proof {
                    let post = self.entries@;
                    assert forall|i: int, k: int| 0 <= i < k < post.len() implies post[i].0@
                        != post[k].0@ by {
                        assert(pre[i].0@ != pre[k].0@);
                    }
                    lemma_find_at(post, identifier@, j as int);
                    assert forall|other: Seq<char>| other != identifier@ implies find_entry(
                        post,
                        other,
                    ) == find_entry(pre, other) by {
                        lemma_find_update_other(pre, j as int, post[j as int], other);
                    }
                }
            },
            None => {
                let ghost pre = self.entries@;
                self.entries.push((identifier, entry));
                proof {
                    let post = self.entries@;
                    assert(post.drop_last() =~= pre);
                    assert forall|other: Seq<char>| other != identifier@ implies find_entry(
                        post,
                        other,
                    ) == find_entry(pre, other) by {
                        assert(post.last().0@ == identifier@);
                    }
                }
            },
        }
    }

    /// Whether `token` is flagged under `identifier`.  Never blocks and never
    /// touches the network: it only reads the in-memory entries.
    pub fn lookup(&self, identifier: &String, token: &String) -> (r: bool)
        requires
            self.wf(),
        ensures
            r == self.spec_flagged(identifier@, token@),
    {
        let position = self.position_of(identifier);
        match position {
            None => {
                proof {
                    lemma_find_none(self.entries@, identifier@);
                }
                false
            },
            Some(j) => {
                proof {
                    lemma_find_at(self.entries@, identifier@, j as int);
                }
                let tokens = &self.entries[j].1.tokens;
                let len = tokens.len();
                let mut k: usize = 0;
                let mut found = false;
                while k < len
                    invariant
                        k <= len,
                        tokens@.len() == len,
                        found == exists|i: int| 0 <= i < k && tokens@[i]@ == token@,
                    decreases len - k,
                {
                    if tokens[k] == *token {
                        found = true;
                    }
                    k += 1;
                }
                proof {
                    let views = tokens@.map_values(|t: String| t@);
                    if found {
                        let i = choose|i: int| 0 <= i < len && tokens@[i]@ == token@;
                        assert(views[i] == token@);
                        assert(views.contains(token@));
                    } else {
                        if views.contains(token@) {
                            let i = choose|i: int| 0 <= i < views.len() && views[i] == token@;
                            assert(tokens@[i]@ == token@);
                        }
                    }
                    assert(views.to_set().contains(token@) == views.contains(token@));
                }
                found
            },
        }
    }
}

/// What one `upsert` call does to the cache, as a relation between the state
/// before and after: the entry for `id` is exactly the pair the call carried,
/// and every other identifier's entry is untouched.
pub open spec fn upsert_rel(
    pre: RevocationStatusCache,
    post: RevocationStatusCache,
    id: Seq<char>,
    status: u8,
    tokens: Set<Seq<char>>,
) -> bool {
    &&& post.spec_entry(id) == Some((status, tokens))
    &&& forall|other: Seq<char>| other != id ==> post.spec_entry(other) == pre.spec_entry(other)
}

/// Law: after an update, every token identifier the update carried is
/// flagged under its status list, and a token it did not carry is not.
pub proof fn lemma_upsert_round_trip(
    pre: RevocationStatusCache,
    post: RevocationStatusCache,
    id: Seq<char>,
    status: u8,
    tokens: Set<Seq<char>>,
    t1: Seq<char>,
    t2: Seq<char>,
    t3: Seq<char>,
)
    requires
        upsert_rel(pre, post, id, status, tokens),
        tokens.contains(t1),
        tokens.contains(t2),
        !tokens.contains(t3),
    ensures
        post.spec_flagged(id, t1),
        post.spec_flagged(id, t2),
        !post.spec_flagged(id, t3),
{
}

/// Law: two consecutive identical updates leave the cache observably
/// unchanged: after the second, every identifier's entry is what it was
/// after the first.
pub proof fn lemma_upsert_idempotent(
    c0: RevocationStatusCache,
    c1: RevocationStatusCache,
    c2: RevocationStatusCache,
    id: Seq<char>,
    status: u8,
    tokens: Set<Seq<char>>,
)
    requires
        upsert_rel(c0, c1, id, status, tokens),
        upsert_rel(c1, c2, id, status, tokens),
    ensures
        forall|i: Seq<char>| c2.spec_entry(i) == c1.spec_entry(i),
        forall|i: Seq<char>, t: Seq<char>| c2.spec_flagged(i, t) == c1.spec_flagged(i, t),
{
    assert forall|i: Seq<char>| c2.spec_entry(i) == c1.spec_entry(i) by {
        if i != id {
        }
    }
}

/// Law: an update is atomic per identifier: it installs status code and
/// token set as one pair for its identifier, and no other identifier's pair
/// changes, so an observer between updates sees only complete pairs, each
/// from a single update.
pub proof fn lemma_upsert_atomic(
    pre: RevocationStatusCache,
    post: RevocationStatusCache,
    id: Seq<char>,
    status: u8,
    tokens: Set<Seq<char>>,
    other: Seq<char>,
)
    requires
        upsert_rel(pre, post, id, status, tokens),
        other != id,
    ensures
        post.spec_entry(id) == Some((status, tokens)),
        post.spec_entry(other) == pre.spec_entry(other),
{
}

/// Law: when two updates for the same identifier are applied in order, the
/// later one wins.
pub proof fn lemma_last_update_wins(
    c0: RevocationStatusCache,
    c1: RevocationStatusCache,
    c2: RevocationStatusCache,
    id: Seq<char>,
    status1: u8,
    tokens1: Set<Seq<char>>,
    status2: u8,
    tokens2: Set<Seq<char>>,
)
    requires
        upsert_rel(c0, c1, id, status1, tokens1),
        upsert_rel(c1, c2, id, status2, tokens2),
    ensures
        c2.spec_entry(id) == Some((status2, tokens2)),
{
}

/// With unique keys, the entry found for the key at index `j` is the entry at
/// `j`.
proof fn lemma_find_at(s: Seq<(String, StatusListEntry)>, id: Seq<char>, j: int)
    requires
        0 <= j < s.len(),
        s[j].0@ == id,
        forall|i: int, k: int| 0 <= i < k < s.len() ==> s[i].0@ != s[k].0@,
    ensures
        find_entry(s, id) == Some(s[j].1),
    decreases s.len(),
{
    if j == s.len() - 1 {
    } else {
        assert(s.last().0@ != id);
        assert forall|i: int, k: int| 0 <= i < k < s.drop_last().len() implies s.drop_last()[i].0@
            != s.drop_last()[k].0@ by {
            assert(s[i].0@ != s[k].0@);
        }
        lemma_find_at(s.drop_last(), id, j);
    }
}

/// A key that no entry carries is not found.
proof fn lemma_find_none(s: Seq<(String, StatusListEntry)>, id: Seq<char>)
    requires
        forall|k: int| 0 <= k < s.len() ==> s[k].0@ != id,
    ensures
        find_entry(s, id) is None,
    decreases s.len(),
{
    if s.len() > 0 {
        lemma_find_none(s.drop_last(), id);
    }
}

/// Replacing the entry at `j` by one with the same key leaves the entry found
/// for every other key unchanged.
proof fn lemma_find_update_other(
    s: Seq<(String, StatusListEntry)>,
    j: int,
    e: (String, StatusListEntry),
    other: Seq<char>,
)
    requires
        0 <= j < s.len(),
        s[j].0@ != other,
        e.0@ != other,
    ensures
        find_entry(s.update(j, e), other) == find_entry(s, other),
    decreases s.len(),
{
    let t = s.update(j, e);
    if j == s.len() - 1 {
        assert(t.last().0@ != other);
        assert(s.last().0@ != other);
        assert(t.drop_last() =~= s.drop_last());
    } else {
        assert(t.last() == s.last());
        if s.last().0@ == other {
        } else {
            assert(t.drop_last() =~= s.drop_last().update(j, e));
            lemma_find_update_other(s.drop_last(), j, e, other);
        }
    }
}

} // verus!
