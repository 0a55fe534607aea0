//! Process-scoped owner of one string interner: the sole entry point other
//! components use to intern and resolve text, so that identifiers are only
//! ever compared within one context's lifetime.

use crate::intern::empty_table;
use crate::intern::spec_intern;
use crate::intern::spec_intern_id;
use crate::intern::table_wf;
use crate::intern::StringId;
use crate::intern::StringInterner;
use vstd::prelude::*;

verus! {

broadcast use vstd::set::group_set_axioms, vstd::map::group_map_axioms;

/// Owner of exactly one string interner for a logical evaluation session.
/// Identifiers produced under one context are only comparable to each other,
/// never to those of a different context.
#[derive(Debug)]
pub struct Context {
    interner: StringInterner,
}

impl Context {
    /// The context as the table of its interner: the map from each interned
    /// text to the raw numeric value of its identifier.
    pub closed spec fn view(self) -> Map<Seq<char>, u32> {
        self.interner@
    }

    /// The owned interner is well-formed.
    pub closed spec fn wf(self) -> bool {
        self.interner.wf()
    }

    /// Create a context with a fresh, empty interner.
    pub fn new() -> (r: Context)
        ensures
            r.wf(),
            r@ == empty_table(),
            r@.dom().len() == 0,
    {
        Context { interner: StringInterner::new() }
    }

    /// Intern a string in this context's interner.
    pub fn intern(&mut self, s: &str) -> (id: StringId)
        requires
            old(self).wf(),
            old(self)@.contains_key(s@) || old(self)@.dom().len() < u32::MAX,
        ensures
            final(self).wf(),
            table_wf(final(self)@),
            id@ == spec_intern_id(old(self)@, s@),
            final(self)@ == spec_intern(old(self)@, s@),
            final(self)@.contains_key(s@) && final(self)@[s@] == id@,
    {
        let id = self.interner.intern(s);
        proof {
            self.interner.lemma_wf_table();
        }
        id
    }

    /// Resolve an identifier back to its text, or nothing for an identifier
    /// this context's interner never produced.
    pub fn resolve(&self, id: StringId) -> (r: Option<&str>)
        requires
            self.wf(),
        ensures
            match r {
                Some(s) => self@.contains_key(s@) && self@[s@] == id@,
                None => forall|t: Seq<char>| #[trigger] self@.contains_key(t) ==> self@[t] != id@,
            },
    {
        self.interner.resolve(id)
    }
}

impl Default for Context {
    /// A context with a fresh, empty interner.
    fn default() -> (r: Context)
        ensures
            r.wf(),
            r@ == empty_table(),
            r@.dom().len() == 0,
    {
        Context::new()
    }
}

} // verus!
