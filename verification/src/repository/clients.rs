use vstd::prelude::*;
use crate::error::WebError;
use crate::storage::memory::MemoryStore;
use crate::storage::reply::Step;
use crate::web_app::client::{Client, ClientView, PendingAuthorize};

verus! {

/// Puts the queries of an authentication to the store until it is done.
fn settle(step: Step<PendingAuthorize, Client>, store: &mut MemoryStore) -> (result: Result<
    Client,
    WebError,
>)
    requires
        step matches Step::Ask(query, pending) ==> query@ is TokensByKey && pending is Token,
    ensures
        final(store)@ == old(store)@,
        match step {
            Step::Done(outcome) => result == outcome,
            Step::Ask(query, PendingAuthorize::Token { now }) => match query@ {
                crate::storage::query::QueryView::TokensByKey { key } => match result {
                    Ok(client) => old(store)@.tenant_of(key, now) == Ok::<ClientView, WebError>(
                        client@,
                    ),
                    Err(error) => old(store)@.tenant_of(key, now) == Err::<ClientView, WebError>(
                        error,
                    ),
                },
                _ => true,
            },
            _ => true,
        },
{
    match step {
        Step::Ask(query, pending) => {
            let reply = store.execute(&query);
            match pending.resume(reply) {
                Step::Ask(query, pending) => {
                    let reply = store.execute(&query);
                    match pending.resume(reply) {
                        Step::Done(result) => result,
                        Step::Ask(_, _) => Err(WebError::StorageFailure),
                    }
                },
                Step::Done(result) => result,
            }
        },
        Step::Done(result) => result,
    }
}

impl Client {
    /// Resolves a credential to its tenant at a reading of the clock.
    pub fn authorize(token: &str, now: i64, store: &mut MemoryStore) -> (result: Result<
        Client,
        WebError,
    >)
        ensures
            final(store)@ == old(store)@,
            match result {
                Ok(client) => old(store)@.tenant_of(token@, now) == Ok::<ClientView, WebError>(
                    client@,
                ),
                Err(error) => old(store)@.tenant_of(token@, now) == Err::<ClientView, WebError>(
                    error,
                ),
            },
    {
        settle(Client::begin_authorize(token, now), store)
    }

    /// Authenticates a request by the text of its `Authorization` header
    /// at a reading of the clock.
    pub fn authenticate(header: Option<&str>, now: i64, store: &mut MemoryStore) -> (result: Result<
        Client,
        WebError,
    >)
        ensures
            final(store)@ == old(store)@,
            match (header, result) {
                (Some(text), Ok(client)) => old(store)@.authenticated(Some(text@), now) == Ok::<
                    ClientView,
                    WebError,
                >(client@),
                (Some(text), Err(error)) => old(store)@.authenticated(Some(text@), now) == Err::<
                    ClientView,
                    WebError,
                >(error),
                (None, Ok(_)) => false,
                (None, Err(error)) => error is Unauthorized,
            },
    {
        settle(Client::begin_authenticate(header, now), store)
    }
}

} // verus!
