//! Access tokens that a server has rejected.

use vstd::prelude::*;

use crate::text::{any_text, contains_text};

verus! {

/// The access tokens that a server has rejected, none of them twice.
pub struct RejectedTokens {
    tokens: Vec<String>,
}

/// No two texts hold the same characters.
spec fn nothing_twice(texts: Seq<String>) -> bool {
    forall|i: int, j: int| 0 <= i < j < texts.len() ==> texts[i]@ != texts[j]@
}

impl View for RejectedTokens {
    type V = Set<Seq<char>>;

    closed spec fn view(&self) -> Set<Seq<char>> {
        Set::new(|token: Seq<char>| contains_text(self.tokens@, token))
    }
}

impl RejectedTokens {
    #[verifier::type_invariant]
    spec fn inv(self) -> bool {
        nothing_twice(self.tokens@)
    }

    /// No token has been rejected.
    pub fn none() -> (rejected: RejectedTokens)
        ensures
            rejected@ == Set::<Seq<char>>::empty(),
    {
        let rejected = RejectedTokens { tokens: Vec::new() };
        assert(rejected@ =~= Set::<Seq<char>>::empty());
        rejected
    }

    /// Whether this token has been rejected.
    pub fn contains(&self, token: &str) -> (contains: bool)
        ensures
            contains == self@.contains(token@),
    {
        any_text(&self.tokens, token)
    }

    /// Whether no token has been rejected.
    pub fn is_empty(&self) -> (empty: bool)
        ensures
            empty == (self@ == Set::<Seq<char>>::empty()),
    {
        let empty = self.tokens.len() == 0;
        proof {
            if empty {
                assert(self@ =~= Set::<Seq<char>>::empty());
            } else {
                assert(self@.contains(self.tokens@[0]@));
            }
        }
        empty
    }

    /// This token has been rejected.
    pub fn insert(&mut self, token: String)
        ensures
            final(self)@ == old(self)@.insert(token@),
    {
        proof {
            use_type_invariant(&*self);
        }
        let ghost before = self.tokens@;
        if self.contains(token.as_str()) {
            assert(self@ =~= self@.insert(token@));
            return ;
        }
        let RejectedTokens { tokens } = self.take();
        let mut tokens = tokens;
        tokens.push(token);
        *self = RejectedTokens { tokens };
        proof {
            let after = tokens@;
            assert forall|text: Seq<char>| contains_text(after, text) == (text == token@
                || contains_text(before, text)) by {
                if contains_text(before, text) {
                    let i = choose|i: int| 0 <= i < before.len() && before[i]@ == text;
                    assert(after[i]@ == text);
                }
                if text == token@ {
                    assert(after[before.len() as int]@ == text);
                }
                if contains_text(after, text) {
                    let i = choose|i: int| 0 <= i < after.len() && after[i]@ == text;
                    if i < before.len() {
                        assert(before[i]@ == text);
                    }
                }
            }
            assert(self@ =~= old(self)@.insert(token@));
        }
    }

    /// These tokens have been rejected too.
    pub fn extend(&mut self, more: RejectedTokens)
        ensures
            final(self)@ == old(self)@.union(more@),
    {
        let ghost before = self@;
        let mut at: usize = 0;
        assert(self@ =~= before.union(
            Set::new(|token: Seq<char>| contains_text(more.tokens@.take(0), token)),
        ));
        while at < more.tokens.len()
            invariant
                at <= more.tokens@.len(),
                self@ == before.union(
                    Set::new(
                        |token: Seq<char>| contains_text(more.tokens@.take(at as int), token),
                    ),
                ),
            decreases more.tokens@.len() - at,
        {
            let ghost taken = more.tokens@.take(at as int);
            self.insert(more.tokens[at].clone());
            proof {
                let longer = more.tokens@.take(at + 1);
                assert forall|text: Seq<char>| contains_text(longer, text) == (text
                    == more.tokens@[at as int]@ || contains_text(taken, text)) by {
                    if contains_text(taken, text) {
                        let i = choose|i: int| 0 <= i < taken.len() && taken[i]@ == text;
                        assert(longer[i]@ == text);
                    }
                    assert(longer[at as int] == more.tokens@[at as int]);
                    if contains_text(longer, text) {
                        let i = choose|i: int| 0 <= i < longer.len() && longer[i]@ == text;
                        if i < at {
                            assert(taken[i]@ == text);
                        }
                    }
                }
                assert(self@ =~= before.union(
                    Set::new(|token: Seq<char>| contains_text(longer, token)),
                ));
            }
            at += 1;
        }
        assert(more.tokens@.take(at as int) =~= more.tokens@);
        assert(self@ =~= before.union(more@));
    }

    /// Takes all rejected tokens out.
    pub fn take(&mut self) -> (taken: RejectedTokens)
        ensures
            taken == *old(self),
            final(self)@ == Set::<Seq<char>>::empty(),
    {
        let mut taken = RejectedTokens::none();
        core::mem::swap(self, &mut taken);
        taken
    }
}

}
