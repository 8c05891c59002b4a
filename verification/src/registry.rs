//! The declaration registry: cross-module bookkeeping of which type names
//! have already had their ABI declarations emitted.
//!
//! Every backend consults it before emitting a type's declarations; once a
//! name is registered, the same name never triggers a second emission for
//! the whole build.  The front-end records the verdict in each declaration's
//! `already_declared` flag, which the generators obey.

use crate::header::views_of;
use vstd::prelude::*;

verus! {

/// The canonical names whose declarations have been emitted, in registration
/// order.
pub struct DeclarationRegistry {
    pub emitted: Vec<String>,
}

impl View for DeclarationRegistry {
    type V = Seq<Seq<char>>;

    open spec fn view(&self) -> Seq<Seq<char>> {
        views_of(self.emitted@)
    }
}

impl DeclarationRegistry {
    /// A registry with nothing emitted yet.
    pub fn new() -> (r: DeclarationRegistry)
        ensures
            r@ == Seq::<Seq<char>>::empty(),
    {
        let r = DeclarationRegistry { emitted: Vec::new() };
        proof {
            assert(r@ =~= Seq::<Seq<char>>::empty());
        }
        r
    }

    /// True when the name has not been emitted yet.
    pub fn should_emit(&self, name: &String) -> (r: bool)
        ensures
            r == !self@.contains(name@),
    {
        !crate::header::table_contains(&self.emitted, name)
    }

    /// Records that the name's declarations have been emitted.
    pub fn mark_emitted(&mut self, name: &String)
        ensures
            final(self)@ == old(self)@.push(name@),
    {
        let ghost before = self.emitted@;
        self.emitted.push(name.clone());
        proof {
            assert(self@ =~= views_of(before).push(name@));
        }
    }

    /// Consults and updates the registry in one step: reports whether the
    /// caller is the first to declare the name, registering it if so.
    pub fn note_declared(&mut self, name: &String) -> (r: bool)
        ensures
            r == !old(self)@.contains(name@),
            final(self)@ == if r {
                old(self)@.push(name@)
            } else {
                old(self)@
            },
    {
        if self.should_emit(name) {
            self.mark_emitted(name);
            true
        } else {
            false
        }
    }
}

} // verus!
