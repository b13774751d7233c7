use vstd::prelude::*;
use crate::error::WebError;
use crate::storage::ledger::{client_has_id, Ledger, token_has_key};
use crate::storage::rows::{lemma_filter_none, lemma_filter_positions};
use crate::web_app::client::ClientView;
use crate::web_app::credential::credential_of;
use crate::web_app::token::{first_usable, lemma_first_usable};

verus! {

/// A request without a header, or with a header that carries no
/// credential, is refused whatever storage holds.
pub proof fn lemma_malformed_header_is_unauthorized(
    ledger: Ledger,
    header: Option<Seq<char>>,
    now: i64,
)
    requires
        header matches Some(text) ==> credential_of(text) is None,
    ensures
        ledger.authenticated(header, now) == Err::<ClientView, WebError>(WebError::Unauthorized),
{
}

/// A credential resolves to a tenant only through a token with exactly
/// that key that is usable at the reading of the clock, and only to the
/// tenant that the token names.
pub proof fn lemma_tenant_has_a_usable_token(ledger: Ledger, key: Seq<char>, now: i64)
    requires
        ledger.tenant_of(key, now) is Ok,
    ensures
        exists|i: int|
            0 <= i < ledger.tokens.len() && (#[trigger] ledger.tokens[i]).key == key
                && ledger.tokens[i].usable_at(now) && ledger.tokens[i].tenant_id
                == ledger.tenant_of(key, now)->Ok_0.id,
{
    let tokens = ledger.tokens.filter(token_has_key(key));
    let first = first_usable(tokens, now);
    lemma_first_usable(tokens, now);
    let positions = lemma_filter_positions(ledger.tokens, token_has_key(key));
    let tenant = tokens[first].tenant_id;
    let clients = lemma_filter_positions(ledger.clients, client_has_id(tenant));
    assert(client_has_id(tenant)(ledger.clients[clients[0]]));
    assert(ledger.tokens[positions[first]].key == key);
}

/// The validity boundary is exclusive for the credential too. Where one
/// token has the key and its tenant is stored, the credential is refused
/// when the clock reads the boundary, and resolves to the tenant when it
/// reads one tick less.
pub proof fn lemma_credential_expires_at_the_boundary(ledger: Ledger, position: int)
    requires
        0 <= position < ledger.tokens.len(),
        forall|i: int|
            0 <= i < ledger.tokens.len() && (#[trigger] ledger.tokens[i]).key
                == ledger.tokens[position].key ==> i == position,
        exists|c: int|
            0 <= c < ledger.clients.len() && (#[trigger] ledger.clients[c]).id
                == ledger.tokens[position].tenant_id,
    ensures
        ledger.tenant_of(ledger.tokens[position].key, ledger.tokens[position].valid_to) == Err::<
            ClientView,
            WebError,
        >(WebError::Unauthorized),
        ledger.tokens[position].valid_to > i64::MIN ==> ledger.tenant_of(
            ledger.tokens[position].key,
            (ledger.tokens[position].valid_to - 1) as i64,
        ) is Ok && ledger.tenant_of(
            ledger.tokens[position].key,
            (ledger.tokens[position].valid_to - 1) as i64,
        )->Ok_0.id == ledger.tokens[position].tenant_id,
{
    let token = ledger.tokens[position];
    let tokens = ledger.tokens.filter(token_has_key(token.key));
    let positions = lemma_filter_positions(ledger.tokens, token_has_key(token.key));
    assert(token_has_key(token.key)(ledger.tokens[position]));
    let k = choose|k: int| 0 <= k < positions.len() && #[trigger] positions[k] == position;
    assert(tokens.len() == 1) by {
        if tokens.len() > 1 {
            assert(positions[0] < positions[1]);
            assert(ledger.tokens[positions[0]].key == token.key);
            assert(ledger.tokens[positions[1]].key == token.key);
        }
    }
    assert(tokens[0] == token);
    assert(tokens.drop_first().len() == 0);
    lemma_first_usable(tokens, token.valid_to);
    if token.valid_to > i64::MIN {
        let earlier = (token.valid_to - 1) as i64;
        lemma_first_usable(tokens, earlier);
        let c = choose|c: int|
            0 <= c < ledger.clients.len() && (#[trigger] ledger.clients[c]).id == token.tenant_id;
        assert(client_has_id(token.tenant_id)(ledger.clients[c]));
        lemma_filter_none(ledger.clients, client_has_id(token.tenant_id));
        let clients = lemma_filter_positions(ledger.clients, client_has_id(token.tenant_id));
        assert(client_has_id(token.tenant_id)(ledger.clients[clients[0]]));
    }
}

} // verus!
