//! The coordination table: for each flow identity, the peer that replies
//! go back to.

use vstd::prelude::*;

verus! {

/// How to reach the originator of a flow: the incoming tunnel it came
/// through and the peer as that tunnel names it.
#[derive(Debug)]
pub struct ReturnPeer {
    pub tunnel_id: String,
    pub peer: String,
}

impl View for ReturnPeer {
    type V = (Seq<char>, Seq<char>);

    open spec fn view(&self) -> (Seq<char>, Seq<char>) {
        (self.tunnel_id@, self.peer@)
    }
}

impl ReturnPeer {
    /// The return path through tunnel `tunnel_id` to `peer`.
    pub fn new(tunnel_id: String, peer: String) -> (r: Self)
        ensures
            r@ == (tunnel_id@, peer@),
    {
        ReturnPeer { tunnel_id, peer }
    }

    /// A copy with the same tunnel and peer.
    pub fn duplicate(&self) -> (r: Self)
        ensures
            r@ == self@,
    {
        ReturnPeer { tunnel_id: self.tunnel_id.clone(), peer: self.peer.clone() }
    }
}

/// The map that a list of entries stands for: a later entry of an identity
/// replaces an earlier one.
spec fn entries_map(s: Seq<(String, ReturnPeer)>) -> Map<
    Seq<char>,
    (Seq<char>, Seq<char>),
>
    decreases s.len(),
{
    if s.len() == 0 {
        Map::empty()
    } else {
        entries_map(s.drop_last()).insert(s.last().0@, s.last().1@)
    }
}

/// No identity is listed twice.
spec fn distinct_identities(s: Seq<(String, ReturnPeer)>) -> bool {
    forall|i: int, j: int| 0 <= i < j < s.len() ==> s[i].0@ != s[j].0@
}

/// An identity that no entry lists is not in the map.
proof fn lemma_absent(s: Seq<(String, ReturnPeer)>, k: Seq<char>)
    requires
        forall|i: int| 0 <= i < s.len() ==> s[i].0@ != k,
    ensures
        !entries_map(s).contains_key(k),
    decreases s.len(),
{
    if s.len() > 0 {
        lemma_absent(s.drop_last(), k);
    }
}

/// Where no identity is listed twice, the map gives each listed identity
/// the peer of its entry.
proof fn lemma_present(s: Seq<(String, ReturnPeer)>, i: int)
    requires
        distinct_identities(s),
        0 <= i < s.len(),
    ensures
        entries_map(s).contains_key(s[i].0@),
        entries_map(s)[s[i].0@] == s[i].1@,
    decreases s.len(),
{
    if i < s.len() - 1 {
        lemma_present(s.drop_last(), i);
    }
}

/// Replacing the entry of an identity is inserting into the map.
proof fn lemma_replace(s: Seq<(String, ReturnPeer)>, i: int, e: (String, ReturnPeer))
    requires
        distinct_identities(s),
        0 <= i < s.len(),
        e.0@ == s[i].0@,
    ensures
        entries_map(s.update(i, e)) == entries_map(s).insert(e.0@, e.1@),
        distinct_identities(s.update(i, e)),
    decreases s.len(),
{
    let t = s.update(i, e);
    if i == s.len() - 1 {
        assert(t.drop_last() =~= s.drop_last());
        assert(entries_map(t) =~= entries_map(s).insert(e.0@, e.1@));
    } else {
        lemma_replace(s.drop_last(), i, e);
        assert(t.drop_last() =~= s.drop_last().update(i, e));
        assert(t.last() == s.last());
        assert(s.last().0@ != e.0@);
        assert(entries_map(t) =~= entries_map(s).insert(e.0@, e.1@));
    }
}

/// The coordination table.
#[derive(Debug)]
pub struct CoordinationTable {
    entries: Vec<(String, ReturnPeer)>,
}

impl View for CoordinationTable {
    type V = Map<Seq<char>, (Seq<char>, Seq<char>)>;

    closed spec fn view(&self) -> Map<Seq<char>, (Seq<char>, Seq<char>)> {
        entries_map(self.entries@)
    }
}

impl CoordinationTable {
    #[verifier::type_invariant]
    spec fn inv(self) -> bool {
        distinct_identities(self.entries@)
    }

    /// The empty table.
    pub fn new() -> (t: Self)
        ensures
            t@ == Map::<Seq<char>, (Seq<char>, Seq<char>)>::empty(),
    {
        CoordinationTable { entries: Vec::new() }
    }

    /// Where `identity` is listed, if it is.
    fn position(&self, identity: &String) -> (r: Option<usize>)
        ensures
            match r {
                Some(i) => i < self.entries@.len() && self.entries@[i as int].0@ == identity@,
                None => forall|i: int|
                    0 <= i < self.entries@.len() ==> self.entries@[i].0@ != identity@,
            },
    {
        let mut i: usize = 0;
        while i < self.entries.len()
            invariant
                i <= self.entries@.len(),
                forall|j: int| 0 <= j < i ==> self.entries@[j].0@ != identity@,
            decreases self.entries@.len() - i,
        {
            if self.entries[i].0 == *identity {
                return Some(i);
            }
            i = i + 1;
        }
        None
    }

    /// Records that replies for `identity` go back to `peer`. An earlier
    /// entry of the identity is replaced; every other entry stays.
    pub fn add_coordination(&mut self, identity: String, peer: ReturnPeer)
        ensures
            final(self)@ == old(self)@.insert(identity@, peer@),
    {
        proof {
            use_type_invariant(&*self);
        }
        let found = self.position(&identity);
        let mut entries: Vec<(String, ReturnPeer)> = Vec::new();
        std::mem::swap(&mut entries, &mut self.entries);
        match found {
            Some(i) => {
                proof {
                    lemma_replace(entries@, i as int, (identity, peer));
                }
                entries.set(i, (identity, peer));
            },
            None => {
                let ghost before = entries@;
                entries.push((identity, peer));
                assert(entries@.drop_last() =~= before);
            },
        }
        self.entries = entries;
    }

    /// The peer that replies for `identity` go back to, if one is recorded.
    pub fn get_coordination(&self, identity: &String) -> (r: Option<ReturnPeer>)
        ensures
            match r {
                Some(p) => self@.contains_key(identity@) && self@[identity@] == p@,
                None => !self@.contains_key(identity@),
            },
    {
        proof {
            use_type_invariant(self);
        }
        match self.position(identity) {
            Some(i) => {
                proof {
                    lemma_present(self.entries@, i as int);
                }
                Some(self.entries[i].1.duplicate())
            },
            None => {
                proof {
                    lemma_absent(self.entries@, identity@);
                }
                None
            },
        }
    }

    /// The number of identities recorded.
    pub fn len(&self) -> (n: usize)
        ensures
            n == self@.dom().len(),
            self@.dom().finite(),
    {
        proof {
            use_type_invariant(self);
            lemma_domain_size(self.entries@);
        }
        self.entries.len()
    }
}

/// Where no identity is listed twice, the map has as many identities as the
/// list has entries.
proof fn lemma_domain_size(s: Seq<(String, ReturnPeer)>)
    requires
        distinct_identities(s),
    ensures
        entries_map(s).dom().finite(),
        entries_map(s).dom().len() == s.len(),
    decreases s.len(),
{
    if s.len() > 0 {
        lemma_domain_size(s.drop_last());
        lemma_absent(s.drop_last(), s.last().0@);
    }
}

/// Last writer wins: once `identity` was seen with peer `x`, a lookup gives
/// `x`; once it was then seen with `y`, a lookup gives `y`. Observing one
/// identity leaves the peer of every other identity as it was.
pub proof fn lemma_last_writer_wins(
    table: Map<Seq<char>, (Seq<char>, Seq<char>)>,
    identity: Seq<char>,
    x: (Seq<char>, Seq<char>),
    y: (Seq<char>, Seq<char>),
    other: Seq<char>,
)
    ensures
        table.insert(identity, x).contains_key(identity),
        table.insert(identity, x)[identity] == x,
        table.insert(identity, x).insert(identity, y).contains_key(identity),
        table.insert(identity, x).insert(identity, y)[identity] == y,
        table.insert(identity, x).insert(identity, y) == table.insert(identity, y),
        other != identity ==> table.insert(identity, x).contains_key(other) == table.contains_key(
            other,
        ),
        other != identity && table.contains_key(other) ==> table.insert(identity, x)[other]
            == table[other],
{
    assert(table.insert(identity, x).insert(identity, y) =~= table.insert(identity, y));
}

} // verus!
