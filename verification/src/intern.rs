//! String interning: a deduplicating symbol table that assigns stable,
//! sequential identifiers to distinct texts and resolves them back.
//!
//! The forward direction (text to identifier) is held in a hash map that
//! uses the Fx hasher; the reverse direction (identifier to text) in a
//! standard hash map keyed by the raw identifier. The two stay exact
//! inverses of each other, and identifiers are minted sequentially from 0.

use vstd::prelude::*;

verus! {

broadcast use vstd::std_specs::hash::group_hash_axioms, vstd::set::group_set_axioms, vstd::map::group_map_axioms;

/// Identifier for an interned string. Two identifiers compare equal exactly
/// when they were minted by the same interner for equal text; the numeric
/// value is meaningless across interner instances.
#[derive(Debug, Clone, Copy, PartialEq, Eq, Hash, PartialOrd, Ord, Structural)]
pub struct StringId(u32);

impl StringId {
    /// The numeric value of the identifier, as seen by specifications.
    pub closed spec fn view(self) -> u32 {
        self.0
    }

    /// Build an identifier from its raw numeric value.
    pub fn new(raw: u32) -> (id: StringId)
        ensures
            id@ == raw,
    {
        StringId(raw)
    }

    /// Get the raw numeric value.
    pub fn raw(self) -> (r: u32)
        ensures
            r == self@,
    {
        self.0
    }

    /// Two identifiers are equal exactly when their numeric values are.
    pub proof fn lemma_eq_raw(a: StringId, b: StringId)
        ensures
            (a == b) <==> (a@ == b@),
    {
    }
}

/// The hasher state of the text-to-identifier map.
#[verifier::external_type_specification]
#[verifier::external_body]
pub struct ExFxBuildHasher(rustc_hash::FxBuildHasher);

/// The text-to-identifier map type of the interner's forward direction.
type TextToId = rustc_hash::FxHashMap<String, StringId>;

/// The texts stored in the text-to-identifier map, each with the raw
/// numeric value it is mapped to.
pub uninterp spec fn fx_contents(m: TextToId) -> Map<Seq<char>, u32>;

/// The table of an interner that holds nothing.
pub open spec fn empty_table() -> Map<Seq<char>, u32> {
    Map::empty()
}

/// Relies on HashMap::default with the Fx hasher: the new map holds nothing.
#[verifier::external_body]
fn fx_new() -> (m: TextToId)
    ensures
        fx_contents(m) == empty_table(),
{
    rustc_hash::FxHashMap::default()
}

/// Relies on HashMap::get: returns the value stored under a key equal to the
/// one asked for, and nothing when no such key is stored.
#[verifier::external_body]
fn fx_get(m: &TextToId, k: &str) -> (r: Option<StringId>)
    ensures
        match r {
            Some(id) => fx_contents(*m).contains_key(k@) && fx_contents(*m)[k@] == id@,
            None => !fx_contents(*m).contains_key(k@),
        },
{
    m.get(k).copied()
}

/// Relies on HashMap::insert: stores the pair, replacing the value of an
/// equal key if one is already stored.
#[verifier::external_body]
fn fx_insert(m: &mut TextToId, k: &str, id: StringId)
    ensures
        fx_contents(*final(m)) == fx_contents(*old(m)).insert(k@, id@),
{
    m.insert(k.to_string(), id);
}

/// Relies on HashMap::contains_key: whether a key equal to the one asked
/// for is stored.
#[verifier::external_body]
fn fx_contains(m: &TextToId, k: &str) -> (r: bool)
    ensures
        r == fx_contents(*m).contains_key(k@),
{
    m.contains_key(k)
}

/// Relies on HashMap::len: the number of stored keys.
#[verifier::external_body]
fn fx_len(m: &TextToId) -> (n: usize)
    ensures
        n == fx_contents(*m).dom().len(),
{
    m.len()
}

/// Well-formedness of an interner table as seen through its view: finitely
/// many texts, every identifier below the table's size, and no two texts
/// sharing an identifier.
pub open spec fn table_wf(m: Map<Seq<char>, u32>) -> bool {
    &&& m.dom().finite()
    &&& forall|t: Seq<char>| #[trigger] m.contains_key(t) ==> m[t] < m.dom().len()
    &&& forall|t1: Seq<char>, t2: Seq<char>|
        m.contains_key(t1) && m.contains_key(t2) && t1 != t2 ==> m[t1] != m[t2]
}

/// The identifier `intern` hands out on a table `m` for text `t`: the stored
/// one if `t` is present, the next sequential one otherwise.
pub open spec fn spec_intern_id(m: Map<Seq<char>, u32>, t: Seq<char>) -> u32
    recommends
        m.dom().finite(),
{
    if m.contains_key(t) {
        m[t]
    } else {
        m.dom().len() as u32
    }
}

/// The table after `intern` of text `t` on table `m`.
pub open spec fn spec_intern(m: Map<Seq<char>, u32>, t: Seq<char>) -> Map<Seq<char>, u32>
    recommends
        m.dom().finite(),
{
    m.insert(t, spec_intern_id(m, t))
}

/// String interning pool: deduplicating storage with constant-time lookup of
/// both directions. Grows monotonically; entries are never removed and
/// identifiers are never recycled.
#[derive(Debug)]
pub struct StringInterner {
    /// Map from text to its interned identifier.
    string_to_id: TextToId,
    /// Map from raw identifier value back to the text.
    id_to_string: std::collections::HashMap<u32, String>,
    /// Next identifier value to hand out.
    next_id: u32,
}

impl StringInterner {
    /// The interner as the map from each interned text to the raw numeric
    /// value of its identifier.
    pub closed spec fn view(self) -> Map<Seq<char>, u32> {
        fx_contents(self.string_to_id)
    }

    /// The two internal maps are inverses, identifiers run from 0 without
    /// gaps, and the counter equals the number of interned texts.
    pub closed spec fn wf(self) -> bool {
        let f = fx_contents(self.string_to_id);
        let r = self.id_to_string@;
        &&& f.dom().finite()
        &&& self.next_id == f.dom().len()
        &&& forall|t: Seq<char>| #[trigger] f.contains_key(t) ==> f[t] < self.next_id
        &&& forall|t: Seq<char>| #[trigger]
            f.contains_key(t) ==> r.contains_key(f[t]) && r[f[t]]@ == t
        &&& forall|i: u32| #[trigger]
            r.contains_key(i) ==> f.contains_key(r[i]@) && f[r[i]@] == i
    }

    /// A well-formed interner's view is a well-formed table.
    pub proof fn lemma_wf_table(self)
        requires
            self.wf(),
        ensures
            table_wf(self@),
    {
        let f = self@;
        let r = self.id_to_string@;
        assert forall|t1: Seq<char>, t2: Seq<char>|
            f.contains_key(t1) && f.contains_key(t2) && t1 != t2 implies f[t1] != f[t2] by {
            if f[t1] == f[t2] {
                assert(r[f[t1]]@ == t1);
                assert(r[f[t2]]@ == t2);
            }
        }
    }

    /// Create a new, empty string interner.
    pub fn new() -> (r: StringInterner)
        ensures
            r.wf(),
            table_wf(r@),
            r@ == empty_table(),
            r@.dom().len() == 0,
    {
        let r = StringInterner {
            string_to_id: fx_new(),
            id_to_string: std::collections::HashMap::new(),
            next_id: 0,
        };
        proof {
            assert(r@.dom() =~= Set::<Seq<char>>::empty());
        }
        r
    }

    /// Intern a string and return its identifier: the one already stored for
    /// equal text, or the next sequential one for text seen first here.
    pub fn intern(&mut self, s: &str) -> (id: StringId)
        requires
            old(self).wf(),
            old(self)@.contains_key(s@) || old(self)@.dom().len() < u32::MAX,
        ensures
            final(self).wf(),
            table_wf(final(self)@),
            id@ == spec_intern_id(old(self)@, s@),
            final(self)@ == spec_intern(old(self)@, s@),
            final(self)@.contains_key(s@) && final(self)@[s@] == id@,
            old(self)@.contains_key(s@) ==> *final(self) == *old(self),
    {
        match fx_get(&self.string_to_id, s) {
            Some(id) => {
                proof {
                    assert(self@ =~= spec_intern(old(self)@, s@));
                    self.lemma_wf_table();
                }
                id
            },
            None => {
                let id = StringId(self.next_id);
                self.next_id = self.next_id + 1;
                fx_insert(&mut self.string_to_id, s, id);
                let owned: String = s.to_owned();
                self.id_to_string.insert(id.0, owned);
                proof {
                    let f0 = old(self)@;
                    let f = self@;
                    assert(f.dom() =~= f0.dom().insert(s@));
                    self.lemma_wf_table();
                }
                id
            },
        }
    }

    /// Get the text interned under an identifier, or nothing for an
    /// identifier this interner never produced.
    pub fn resolve(&self, id: StringId) -> (r: Option<&str>)
        requires
            self.wf(),
        ensures
            match r {
                Some(s) => self@.contains_key(s@) && self@[s@] == id@,
                None => forall|t: Seq<char>| #[trigger] self@.contains_key(t) ==> self@[t] != id@,
            },
    {
        match self.id_to_string.get(&id.0) {
            Some(s) => Some(s.as_str()),
            None => None,
        }
    }

    /// Get the identifier of a text if it was interned, with no allocation.
    pub fn get_id(&self, s: &str) -> (r: Option<StringId>)
        requires
            self.wf(),
        ensures
            match r {
                Some(id) => self@.contains_key(s@) && id@ == self@[s@],
                None => !self@.contains_key(s@),
            },
    {
        fx_get(&self.string_to_id, s)
    }

    /// Check whether a text was interned.
    pub fn contains(&self, s: &str) -> (r: bool)
        requires
            self.wf(),
        ensures
            r == self@.contains_key(s@),
    {
        fx_contains(&self.string_to_id, s)
    }

    /// The number of distinct interned texts.
    pub fn len(&self) -> (n: usize)
        requires
            self.wf(),
        ensures
            n == self@.dom().len(),
    {
        fx_len(&self.string_to_id)
    }

    /// Check whether nothing was interned yet.
    pub fn is_empty(&self) -> (r: bool)
        requires
            self.wf(),
        ensures
            r == (self@.dom().len() == 0),
    {
        self.len() == 0
    }
}

impl Default for StringInterner {
    /// An empty interner.
    fn default() -> (r: StringInterner)
        ensures
            r.wf(),
            r@ == empty_table(),
            r@.dom().len() == 0,
    {
        StringInterner::new()
    }
}

/// Interning keeps a table well-formed, stores the text, and grows the
/// table by one entry exactly when the text is new to it.
pub proof fn lemma_intern_preserves_wf(m: Map<Seq<char>, u32>, t: Seq<char>)
    requires
        table_wf(m),
        m.contains_key(t) || m.dom().len() < u32::MAX,
    ensures
        table_wf(spec_intern(m, t)),
        spec_intern(m, t).contains_key(t),
        spec_intern(m, t).dom().len() == if m.contains_key(t) {
            m.dom().len()
        } else {
            m.dom().len() + 1
        },
{
    if m.contains_key(t) {
        assert(spec_intern(m, t) =~= m);
    } else {
        assert(spec_intern(m, t).dom() =~= m.dom().insert(t));
    }
}

/// Interning is idempotent: repeating it with equal text returns the same
/// identifier and leaves the table, and so the count of interned texts,
/// unchanged.
pub proof fn lemma_intern_idempotent(m: Map<Seq<char>, u32>, t: Seq<char>)
    ensures
        spec_intern_id(spec_intern(m, t), t) == spec_intern_id(m, t),
        spec_intern(spec_intern(m, t), t) == spec_intern(m, t),
{
    assert(spec_intern(spec_intern(m, t), t) =~= spec_intern(m, t));
}

/// Interning two distinct texts, one after the other, hands out two
/// distinct identifiers.
pub proof fn lemma_intern_injective(m: Map<Seq<char>, u32>, t1: Seq<char>, t2: Seq<char>)
    requires
        table_wf(m),
        m.dom().len() < u32::MAX,
        t1 != t2,
    ensures
        spec_intern_id(spec_intern(m, t1), t2) != spec_intern_id(m, t1),
{
    lemma_intern_preserves_wf(m, t1);
    let m1 = spec_intern(m, t1);
    let id1 = spec_intern_id(m, t1);
    assert(m1[t1] == id1);
    if !m1.contains_key(t2) {
        assert(id1 < m1.dom().len());
    }
}

/// Resolving the identifier a text was interned under yields that text
/// back: in a well-formed table the identifier belongs to one text alone.
pub proof fn lemma_resolve_round_trip(m: Map<Seq<char>, u32>, t1: Seq<char>, t2: Seq<char>)
    requires
        table_wf(m),
        m.contains_key(t1),
        m.contains_key(t2),
        m[t1] == m[t2],
    ensures
        t1 == t2,
{
}

} // verus!
