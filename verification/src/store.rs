//! The challenge token store: what the HTTP-01 responder serves, token by
//! token.

use crate::json::{lemma_members_lookup, members_map};
use crate::text::same_text;
use vstd::prelude::*;

verus! {

/// A store of key authorizations by token.
pub struct ChallengeStore {
    entries: Vec<(String, String)>,
}

/// The entries of a store as texts.
pub open spec fn entry_texts(entries: Seq<(String, String)>) -> Seq<(Seq<char>, Seq<char>)> {
    Seq::new(entries.len(), |i: int| (entries[i].0@, entries[i].1@))
}

/// Leaving out the entries of one token leaves the other tokens as they
/// were.
proof fn lemma_without(
    entries: Seq<(Seq<char>, Seq<char>)>,
    kept: Seq<(Seq<char>, Seq<char>)>,
    token: Seq<char>,
    keep: spec_fn((Seq<char>, Seq<char>)) -> bool,
)
    requires
        forall|entry: (Seq<char>, Seq<char>)| #[trigger] keep(entry) == (entry.0 != token),
        kept == entries.filter(keep),
    ensures
        members_map(kept) == members_map(entries).remove(token),
    decreases entries.len(),
{
    reveal(Seq::filter);
    if entries.len() == 0 {
    } else {
        let front = entries.drop_last();
        let front_kept = front.filter(keep);
        lemma_without(front, front_kept, token, keep);
        if keep(entries.last()) {
            assert(kept.drop_last() == front_kept);
        } else {
        }
    }
}

impl View for ChallengeStore {
    type V = Map<Seq<char>, Seq<char>>;

    closed spec fn view(&self) -> Map<Seq<char>, Seq<char>> {
        members_map(entry_texts(self.entries@))
    }
}

impl ChallengeStore {
    /// A store without entries.
    pub fn new() -> (store: ChallengeStore)
        ensures
            store@ == Map::<Seq<char>, Seq<char>>::empty(),
    {
        ChallengeStore { entries: Vec::new() }
    }

    /// What is published under `token`, if anything.
    pub fn get(&self, token: &str) -> (found: Option<String>)
        ensures
            match found {
                Some(value) => self@.contains_key(token@) && self@[token@] == value@,
                None => !self@.contains_key(token@),
            },
    {
        let mut i: usize = self.entries.len();
        while i > 0
            invariant
                i <= self.entries@.len(),
                forall|k: int|
                    i <= k < self.entries@.len() ==> (#[trigger] self.entries@[k]).0@ != token@,
            decreases i,
        {
            i = i - 1;
            if same_text(self.entries[i].0.as_str(), token) {
                proof {
                    let texts = entry_texts(self.entries@);
                    lemma_members_lookup(texts, token@);
                    assert(texts[i as int].0 == token@);
                }
                return Some(self.entries[i].1.clone());
            }
        }
        proof {
            let texts = entry_texts(self.entries@);
            lemma_members_lookup(texts, token@);
        }
        None
    }

    /// Takes away what is published under `token`.
    pub fn delete(&mut self, token: &str)
        ensures
            final(self)@ == old(self)@.remove(token@),
    {
        let mut kept: Vec<(String, String)> = Vec::new();
        let mut i: usize = 0;
        let ghost keep = |entry: (Seq<char>, Seq<char>)| entry.0 != token@;
        while i < self.entries.len()
            invariant
                i <= self.entries@.len(),
                self.entries == old(self).entries,
                keep == (|entry: (Seq<char>, Seq<char>)| entry.0 != token@),
                entry_texts(kept@) == entry_texts(self.entries@).take(i as int).filter(keep),
            decreases self.entries@.len() - i,
        {
            let ghost before = entry_texts(self.entries@).take(i as int);
            let ghost after = entry_texts(self.entries@).take(i + 1);
            proof {
                reveal(Seq::filter);
                assert(after.drop_last() == before);
            }
            if !same_text(self.entries[i].0.as_str(), token) {
                kept.push((self.entries[i].0.clone(), self.entries[i].1.clone()));
            }
            i = i + 1;
        }
        proof {
            assert(entry_texts(self.entries@).take(self.entries@.len() as int) == entry_texts(
                self.entries@,
            ));
            lemma_without(entry_texts(self.entries@), entry_texts(kept@), token@, keep);
        }
        self.entries = kept;
    }

    /// Publishes `value` under `token`, in place of what was there.
    pub fn put(&mut self, token: &str, value: &str)
        ensures
            final(self)@ == old(self)@.insert(token@, value@),
    {
        self.delete(token);
        let ghost before = entry_texts(self.entries@);
        self.entries.push((token.to_string(), value.to_string()));
        proof {
            let after = entry_texts(self.entries@);
            assert(after.drop_last() =~= before);
        }
    }
}

} // verus!
