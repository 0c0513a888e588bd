//! The locations of a program's attributes and uniforms: resolved when
//! first needed, and kept from then on.
//!
//! Resolving a location is a question to the GPU, which the caller puts.
//! These types decide when the question is due and keep the answer: a
//! location is stored once and never replaced.

use vstd::prelude::*;

verus! {

/// The location of a vertex attribute in a linked program.
#[derive(Debug, Clone)]
pub struct Attribute {
    location: Option<u32>,
}

impl Attribute {
    /// The location, once it is resolved.
    pub closed spec fn resolved(&self) -> Option<u32> {
        self.location
    }

    /// An attribute whose location is not resolved yet.
    pub fn create_from_macro() -> (attribute: Attribute)
        ensures
            attribute.resolved() is None,
    {
        Attribute { location: None }
    }

    /// The location, where it is resolved already; otherwise the caller has
    /// to ask the GPU and hand the answer to [`Attribute::get_location`].
    pub fn cached(&self) -> (location: Option<u32>)
        ensures
            location == self.resolved(),
    {
        self.location
    }

    /// Gives the attribute's location, given what the GPU answers when asked
    /// for it. The first answer is kept as an unsigned number and stays;
    /// `first` tells that this call stored it, which is when the caller
    /// enables the attribute's array.
    pub fn get_location(&mut self, answer: i32) -> (found: (u32, bool))
        ensures
            old(self).resolved() matches Some(kept) ==> found == (kept, false)
                && final(self).resolved() == old(self).resolved(),
            old(self).resolved() is None ==> found == (answer as u32, true)
                && final(self).resolved() == Some(answer as u32),
    {
        match self.location {
            Some(kept) => (kept, false),
            None => {
                let location = #[verifier::truncate]
                (answer as u32);
                self.location = Some(location);
                (location, true)
            },
        }
    }
}

/// The location of a uniform in a linked program. A program may have no
/// location for a uniform that its shaders do not use; that answer is kept
/// like any other.
#[derive(Debug, Clone)]
pub struct Uniform<L> {
    location: Option<Option<L>>,
}

impl<L> Uniform<L> {
    /// What the GPU answered, once it was asked.
    pub closed spec fn resolved(&self) -> Option<Option<L>> {
        self.location
    }

    /// A uniform whose location is not resolved yet.
    pub fn create_from_macro() -> (uniform: Uniform<L>)
        ensures
            uniform.resolved() is None,
    {
        Uniform { location: None }
    }

    /// Whether the GPU has to be asked for the location.
    pub fn is_resolved(&self) -> (yes: bool)
        ensures
            yes == self.resolved() is Some,
    {
        self.location.is_some()
    }

    /// Keeps what the GPU answers when asked for the location, unless an
    /// earlier answer is kept already.
    pub fn resolve(&mut self, answer: Option<L>)
        ensures
            old(self).resolved() is Some ==> final(self).resolved() == old(self).resolved(),
            old(self).resolved() is None ==> final(self).resolved() == Some(answer),
    {
        if self.location.is_none() {
            self.location = Some(answer);
        }
    }

    /// The uniform's location, where the program has one. The location has
    /// to be resolved.
    pub fn get_location(&self) -> (location: Option<&L>)
        requires
            self.resolved() is Some,
        ensures
            match self.resolved()->Some_0 {
                Some(kept) => location == Some(&kept),
                None => location is None,
            },
    {
        match &self.location {
            Some(answer) => answer.as_ref(),
            None => None,
        }
    }
}

} // verus!
