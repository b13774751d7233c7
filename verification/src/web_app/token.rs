use vstd::prelude::*;

verus! {

/// Maps a secret key to a tenant until a validity boundary.
#[derive(Debug)]
pub struct Token {
    pub key: String,
    pub tenant_id: i64,
    pub valid_to: i64,
}

/// A token as plain values.
pub struct TokenView {
    pub key: Seq<char>,
    pub tenant_id: i64,
    pub valid_to: i64,
}

impl View for Token {
    type V = TokenView;

    open spec fn view(&self) -> TokenView {
        TokenView { key: self.key@, tenant_id: self.tenant_id, valid_to: self.valid_to }
    }
}

/// The plain values of a run of tokens, in the same order.
pub open spec fn token_views(tokens: Seq<Token>) -> Seq<TokenView> {
    tokens.map_values(|token: Token| token@)
}

impl TokenView {
    /// A token is usable exactly while the clock reads strictly less than
    /// its validity boundary.
    pub open spec fn usable_at(self, now: i64) -> bool {
        now < self.valid_to
    }
}

/// The position of the first token of the run that is usable at `now`, or
/// the length of the run if none is.
pub open spec fn first_usable(tokens: Seq<TokenView>, now: i64) -> int
    decreases tokens.len(),
{
    if tokens.len() == 0 {
        0
    } else if tokens[0].usable_at(now) {
        0
    } else {
        1 + first_usable(tokens.drop_first(), now)
    }
}

/// `first_usable` names the least position that holds a usable token.
pub proof fn lemma_first_usable(tokens: Seq<TokenView>, now: i64)
    ensures
        0 <= first_usable(tokens, now) <= tokens.len(),
        first_usable(tokens, now) < tokens.len() ==> tokens[first_usable(tokens, now)].usable_at(
            now,
        ),
        forall|i: int| 0 <= i < first_usable(tokens, now) ==> !(#[trigger] tokens[i]).usable_at(now),
    decreases tokens.len(),
{
    if tokens.len() > 0 && !tokens[0].usable_at(now) {
        let rest = tokens.drop_first();
        lemma_first_usable(rest, now);
        assert forall|i: int| 0 <= i < first_usable(tokens, now) implies !(#[trigger] tokens[i]).usable_at(
            now,
        ) by {
            if i > 0 {
                assert(tokens[i] == rest[i - 1]);
            }
        }
    }
}

/// The validity boundary is exclusive: at the boundary itself a token is
/// no longer usable, one tick earlier it still is.
pub proof fn lemma_validity_boundary_is_exclusive(token: TokenView)
    ensures
        !token.usable_at(token.valid_to),
        token.valid_to > i64::MIN ==> token.usable_at((token.valid_to - 1) as i64),
        forall|now: i64| token.usable_at(now) <==> now < token.valid_to,
{
}

impl Token {
    pub fn new(key: String, tenant_id: i64, valid_to: i64) -> (token: Self)
        ensures
            token@ == (TokenView { key: key@, tenant_id, valid_to }),
    {
        Token { key, tenant_id, valid_to }
    }

    /// A copy with the same plain values.
    pub fn duplicate(&self) -> (copy: Self)
        ensures
            copy@ == self@,
    {
        Token { key: self.key.clone(), tenant_id: self.tenant_id, valid_to: self.valid_to }
    }

    /// Whether the token can be used when the clock reads `now`.
    pub fn is_usable(&self, now: i64) -> (usable: bool)
        ensures
            usable == self@.usable_at(now),
    {
        now < self.valid_to
    }
}

/// Finds the first token of the run that is usable at `now`.
pub fn find_usable(tokens: &Vec<Token>, now: i64) -> (found: Option<usize>)
    ensures
        match found {
            Some(position) => position == first_usable(token_views(tokens@), now) && position
                < tokens.len(),
            None => first_usable(token_views(tokens@), now) == tokens.len(),
        },
{
    let ghost all = token_views(tokens@);
    let mut position: usize = 0;
    proof {
        assert(all.skip(0) =~= all);
    }
    while position < tokens.len()
        invariant
            position <= tokens.len(),
            all == token_views(tokens@),
            first_usable(all, now) == position + first_usable(all.skip(position as int), now),
        decreases tokens.len() - position,
    {
        proof {
            let rest = all.skip(position as int);
            assert(rest[0] == tokens@[position as int]@);
            assert(rest.drop_first() =~= all.skip(position + 1));
        }
        if tokens[position].is_usable(now) {
            return Some(position);
        }
        position = position + 1;
    }
    proof {
        assert(all.skip(position as int).len() == 0);
    }
    None
}

} // verus!
