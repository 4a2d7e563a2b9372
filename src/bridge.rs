//! The registrations held with the display-notification source.
use vstd::prelude::*;

verus! {

/// The two registration tokens (arrival, removal) held with the notification
/// source, so that each is given back exactly once.
pub struct Subscriptions {
    tokens: Option<(i64, i64)>,
}

impl Subscriptions {
    /// The tokens currently held, if any.
    pub closed spec fn held(&self) -> Option<(i64, i64)> {
        self.tokens
    }

    /// Holds no registration.
    pub fn new() -> (r: Subscriptions)
        ensures
            r.held() == None::<(i64, i64)>,
    {
        Subscriptions { tokens: None }
    }

    /// Whether registrations are held.
    pub fn is_held(&self) -> (r: bool)
        ensures
            r == self.held().is_some(),
    {
        self.tokens.is_some()
    }

    /// Records the tokens of a new pair of registrations. Fails, leaving the
    /// held pair as it is, when one is held already: registering twice would
    /// leak the first pair.
    pub fn hold(&mut self, added: i64, removed: i64) -> (r: Result<(), ()>)
        ensures
            r is Ok == old(self).held().is_none(),
            r is Ok ==> final(self).held() == Some((added, removed)),
            r is Err ==> final(self).held() == old(self).held(),
    {
        if self.tokens.is_some() {
            Err(())
        } else {
            self.tokens = Some((added, removed));
            Ok(())
        }
    }

    /// Hands out the held tokens for unregistering, and forgets them, so that
    /// a second call hands out nothing.
    pub fn release(&mut self) -> (r: Option<(i64, i64)>)
        ensures
            r == old(self).held(),
            final(self).held() == None::<(i64, i64)>,
    {
        let r = self.tokens;
        self.tokens = None;
        r
    }
}

} // verus!
