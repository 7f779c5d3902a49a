//! The card identification registry: an exact-match table from
//! historical-byte signatures to display names.

use vstd::prelude::*;

verus! {

/// Whether no two entries share a signature.
pub open spec fn keys_distinct(s: Seq<(Seq<u8>, Seq<char>)>) -> bool {
    forall|i: int, j: int|
        0 <= i < s.len() && 0 <= j < s.len() && i != j ==> #[trigger] s[i].0 != #[trigger] s[j].0
}

/// Whether some entry has signature `k`.
pub open spec fn has_key(s: Seq<(Seq<u8>, Seq<char>)>, k: Seq<u8>) -> bool {
    exists|i: int| 0 <= i < s.len() && #[trigger] s[i].0 == k
}

/// The table that a list of entries stands for.
pub open spec fn entries_map(s: Seq<(Seq<u8>, Seq<char>)>) -> Map<Seq<u8>, Seq<char>> {
    Map::new(
        |k: Seq<u8>| has_key(s, k),
        |k: Seq<u8>| s[choose|i: int| 0 <= i < s.len() && #[trigger] s[i].0 == k].1,
    )
}

/// An entry's signature picks it out of a list whose signatures are distinct.
proof fn lemma_entry_value(s: Seq<(Seq<u8>, Seq<char>)>, i: int)
    requires
        keys_distinct(s),
        0 <= i < s.len(),
    ensures
        entries_map(s).contains_key(s[i].0),
        entries_map(s)[s[i].0] == s[i].1,
{
    let k = s[i].0;
    assert(has_key(s, k));
    let j = choose|j: int| 0 <= j < s.len() && #[trigger] s[j].0 == k;
    assert(s[j].0 == s[i].0);
}

/// Signatures to display names, loaded once and only read afterwards.
pub struct CardRegistry {
    entries: Vec<(Vec<u8>, String)>,
}

impl CardRegistry {
    pub closed spec fn entry_seq(&self) -> Seq<(Seq<u8>, Seq<char>)> {
        self.entries@.map_values(|e: (Vec<u8>, String)| (e.0@, e.1@))
    }

    #[verifier::type_invariant]
    spec fn signatures_distinct(self) -> bool {
        keys_distinct(self.entry_seq())
    }
}

impl View for CardRegistry {
    type V = Map<Seq<u8>, Seq<char>>;

    closed spec fn view(&self) -> Map<Seq<u8>, Seq<char>> {
        entries_map(self.entry_seq())
    }
}

/// Byte-for-byte equality of two sequences.
fn same_bytes(a: &[u8], b: &[u8]) -> (r: bool)
    ensures
        r == (a@ == b@),
{
    if a.len() != b.len() {
        return false;
    }
    let mut i: usize = 0;
    while i < a.len()
        invariant
            a@.len() == b@.len(),
            i <= a@.len(),
            forall|j: int| 0 <= j < i ==> a@[j] == b@[j],
        decreases a@.len() - i,
    {
        if a[i] != b[i] {
            return false;
        }
        i = i + 1;
    }
    assert(a@ =~= b@);
    true
}

impl CardRegistry {
    /// An empty registry.
    pub fn new() -> (r: Self)
        ensures
            r@ == Map::<Seq<u8>, Seq<char>>::empty(),
    {
        let r = CardRegistry { entries: Vec::new() };
        assert(r.entry_seq() =~= Seq::empty());
        assert(r@ =~= Map::<Seq<u8>, Seq<char>>::empty());
        r
    }

    /// The position of the entry with this signature, if there is one.
    fn position(&self, signature: &[u8]) -> (r: Option<usize>)
        ensures
            match r {
                Some(i) => i < self.entry_seq().len() && self.entry_seq()[i as int].0
                    == signature@,
                None => !has_key(self.entry_seq(), signature@),
            },
    {
        let mut i: usize = 0;
        while i < self.entries.len()
            invariant
                i <= self.entries@.len(),
                self.entry_seq().len() == self.entries@.len(),
                forall|j: int| 0 <= j < i ==> #[trigger] self.entry_seq()[j].0 != signature@,
            decreases self.entries@.len() - i,
        {
            if same_bytes(self.entries[i].0.as_slice(), signature) {
                return Some(i);
            }
            i = i + 1;
        }
        None
    }

    /// The display name registered for exactly these historical bytes.
    pub fn lookup(&self, historical: &[u8]) -> (r: Option<String>)
        ensures
            match r {
                Some(name) => self@.contains_key(historical@) && name@ == self@[historical@],
                None => !self@.contains_key(historical@),
            },
    {
        proof {
            use_type_invariant(self);
        }
        match self.position(historical) {
            Some(i) => {
                proof {
                    lemma_entry_value(self.entry_seq(), i as int);
                }
                Some(self.entries[i].1.clone())
            },
            None => None,
        }
    }

    /// Registers `name` for `signature`; a later entry for the same
    /// signature replaces the earlier one.
    pub fn insert(&mut self, signature: Vec<u8>, name: String)
        ensures
            final(self)@ == old(self)@.insert(signature@, name@),
    {
        proof {
            use_type_invariant(&*self);
        }
        let ghost old_seq = self.entry_seq();
        let ghost k = signature@;
        let ghost v = name@;
        let found = self.position(signature.as_slice());
        let mut entries: Vec<(Vec<u8>, String)> = Vec::new();
        std::mem::swap(&mut self.entries, &mut entries);
        assert(entries@.map_values(|e: (Vec<u8>, String)| (e.0@, e.1@)) == old_seq);
        match found {
            Some(i) => {
                entries.set(i, (signature, name));
            },
            None => {
                entries.push((signature, name));
            },
        }
        let ghost s = entries@.map_values(|e: (Vec<u8>, String)| (e.0@, e.1@));
        proof {
            match found {
                Some(i) => {
                    assert(s =~= old_seq.update(i as int, (k, v)));
                },
                None => {
                    assert(s =~= old_seq.push((k, v)));
                },
            }
            lemma_insert_entry(old_seq, s, k, v, found);
        }
        std::mem::swap(&mut self.entries, &mut entries);
        assert(self.entry_seq() == s);
    }
}

/// Replacing the entry that has signature `k`, or adding one when none has
/// it, inserts `k` into the table.
proof fn lemma_insert_entry(
    old_seq: Seq<(Seq<u8>, Seq<char>)>,
    s: Seq<(Seq<u8>, Seq<char>)>,
    k: Seq<u8>,
    v: Seq<char>,
    found: Option<usize>,
)
    requires
        keys_distinct(old_seq),
        match found {
            Some(i) => i < old_seq.len() && old_seq[i as int].0 == k && s == old_seq.update(
                i as int,
                (k, v),
            ),
            None => !has_key(old_seq, k) && s == old_seq.push((k, v)),
        },
    ensures
        keys_distinct(s),
        entries_map(s) == entries_map(old_seq).insert(k, v),
{
    let pos: int = match found {
        Some(i) => i as int,
        None => old_seq.len() as int,
    };
    assert(s[pos] == (k, v));
    assert forall|j: int| 0 <= j < s.len() && j != pos implies #[trigger] s[j] == old_seq[j] by {}
    assert(keys_distinct(s)) by {
        assert forall|a: int, b: int|
            0 <= a < s.len() && 0 <= b < s.len() && a != b implies #[trigger] s[a].0
            != #[trigger] s[b].0 by {
            if a != pos && b != pos {
                assert(s[a] == old_seq[a] && s[b] == old_seq[b]);
            } else if a == pos {
                assert(s[b] == old_seq[b]);
                if found is None {
                    assert(!has_key(old_seq, k));
                }
            } else {
                assert(s[a] == old_seq[a]);
                if found is None {
                    assert(!has_key(old_seq, k));
                }
            }
        }
    }
    let m = entries_map(old_seq).insert(k, v);
    assert forall|key: Seq<u8>| #[trigger] has_key(s, key) == m.contains_key(key) by {
        if has_key(old_seq, key) && key != k {
            let j = choose|j: int| 0 <= j < old_seq.len() && #[trigger] old_seq[j].0 == key;
            assert(s[j].0 == key);
        }
        if key == k {
            assert(s[pos].0 == key);
        }
        if has_key(s, key) && key != k {
            let j = choose|j: int| 0 <= j < s.len() && #[trigger] s[j].0 == key;
            assert(old_seq[j].0 == key);
        }
    }
    assert forall|key: Seq<u8>| #[trigger] has_key(s, key) implies entries_map(s)[key]
        == m[key] by {
        let j = choose|j: int| 0 <= j < s.len() && #[trigger] s[j].0 == key;
        lemma_entry_value(s, j);
        if key != k {
            assert(old_seq[j] == s[j]);
            lemma_entry_value(old_seq, j);
        }
    }
    assert(entries_map(s) =~= m);
}

} // verus!
