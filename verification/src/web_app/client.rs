use vstd::prelude::*;
use vstd::string::*;
use crate::error::WebError;
use crate::storage::query::{Query, QueryView};
use crate::storage::reply::{Reply, ReplyView, Step};
use crate::web_app::credential::{credential, credential_of};
use crate::web_app::token::{find_usable, first_usable};

verus! {

/// A tenant: the authenticated owner of work-lists.
#[derive(Debug)]
pub struct Client {
    id: i64,
    display_name: String,
}

/// A tenant as plain values.
pub struct ClientView {
    pub id: i64,
    pub display_name: Seq<char>,
}

impl View for Client {
    type V = ClientView;

    closed spec fn view(&self) -> ClientView {
        ClientView { id: self.id, display_name: self.display_name@ }
    }
}

/// The plain values of a run of tenants, in the same order.
pub open spec fn client_views(clients: Seq<Client>) -> Seq<ClientView> {
    clients.map_values(|client: Client| client@)
}

impl Client {
    /// A copy with the same plain values.
    pub fn duplicate(&self) -> (copy: Self)
        ensures
            copy@ == self@,
    {
        Client { id: self.id, display_name: self.display_name.clone() }
    }

    pub fn new(id: i64, display_name: String) -> (client: Self)
        ensures
            client@ == (ClientView { id, display_name: display_name@ }),
    {
        Client { id, display_name }
    }

    pub fn id(&self) -> (id: i64)
        ensures
            id == self@.id,
    {
        self.id
    }

    pub fn display_name(&self) -> (name: &String)
        ensures
            name@ == self@.display_name,
    {
        &self.display_name
    }
}

/// Where an authentication stands while it waits for storage.
#[derive(Debug)]
pub enum PendingAuthorize {
    /// The token rows for the credential were asked for; `now` is the
    /// reading of the clock against which they will be judged.
    Token { now: i64 },
    /// The tenant row of the usable token was asked for.
    Tenant,
}

impl Client {
    /// Starts to resolve a credential to its tenant: asks for the token
    /// rows whose key is exactly the credential.
    pub fn begin_authorize(token: &str, now: i64) -> (step: Step<PendingAuthorize, Client>)
        ensures
            step matches Step::Ask(query, pending) && query@ == (QueryView::TokensByKey {
                key: token@,
            }) && pending == (PendingAuthorize::Token { now }),
    {
        Step::Ask(
            Query::TokensByKey { key: String::from_str(token) },
            PendingAuthorize::Token { now },
        )
    }

    /// Starts to authenticate a request from the text of its
    /// `Authorization` header. A header that carries no credential ends the
    /// authentication at once, before storage is asked anything.
    pub fn begin_authenticate(header: Option<&str>, now: i64) -> (step: Step<
        PendingAuthorize,
        Client,
    >)
        ensures
            match header {
                Some(text) if credential_of(text@) is Some => step matches Step::Ask(
                    query,
                    pending,
                ) && query@ == (QueryView::TokensByKey { key: credential_of(text@)->Some_0 })
                    && pending == (PendingAuthorize::Token { now }),
                _ => step matches Step::Done(Err(error)) && error is Unauthorized,
            },
    {
        match credential(header) {
            Ok(key) => Self::begin_authorize(key.as_str(), now),
            Err(error) => Step::Done(Err(error)),
        }
    }
}

impl PendingAuthorize {
    /// Takes the answer of storage. Of the token rows the first one that is
    /// usable at the clock reading decides the tenant; if none is usable,
    /// or the tenant row is missing, the credential is refused.
    pub fn resume(self, reply: Reply) -> (step: Step<PendingAuthorize, Client>)
        ensures
            match (self, reply@) {
                (PendingAuthorize::Token { now }, ReplyView::Tokens(tokens)) => {
                    let first = first_usable(tokens, now);
                    if first < tokens.len() {
                        step matches Step::Ask(query, pending) && query@ == (QueryView::ClientById {
                            id: tokens[first].tenant_id,
                        }) && pending == PendingAuthorize::Tenant
                    } else {
                        step matches Step::Done(Err(error)) && error is Unauthorized
                    }
                },
                (PendingAuthorize::Tenant, ReplyView::Client(Some(tenant))) => step matches Step::Done(
                    Ok(client),
                ) && client@ == tenant,
                (PendingAuthorize::Tenant, ReplyView::Client(None)) => step matches Step::Done(
                    Err(error),
                ) && error is Unauthorized,
                _ => step matches Step::Done(Err(error)) && error is StorageFailure,
            },
    {
        match self {
            PendingAuthorize::Token { now } => match reply {
                Reply::Tokens(tokens) => {
                    match find_usable(&tokens, now) {
                        Some(position) => Step::Ask(
                            Query::ClientById { id: tokens[position].tenant_id },
                            PendingAuthorize::Tenant,
                        ),
                        None => Step::Done(Err(WebError::Unauthorized)),
                    }
                },
                _ => Step::Done(Err(WebError::StorageFailure)),
            },
            PendingAuthorize::Tenant => match reply {
                Reply::Client(Some(client)) => Step::Done(Ok(client)),
                Reply::Client(None) => Step::Done(Err(WebError::Unauthorized)),
                _ => Step::Done(Err(WebError::StorageFailure)),
            },
        }
    }
}

} // verus!
