//! From the command line and the settings to a client and the request it
//! is to send.

use crate::model::config::{Opts, TodoConfig};
use crate::request::{answers, request_for, Request};
use notion::ids::DatabaseId;
use notion::{Error, NotionApi};
use vstd::prelude::*;

verus! {

/// `notion::NotionApi`, the client that talks to the database service.
/// Carried, never inspected.
#[verifier::external_type_specification]
#[verifier::external_body]
pub struct ExNotionApi(NotionApi);

/// `notion::Error`, what the client library reports when it fails.
/// Carried, never inspected.
#[verifier::external_type_specification]
#[verifier::external_body]
pub struct ExError(Error);

/// The token that a client signs its requests with: the text that follows
/// the bearer prefix in the authorization header that
/// `notion::NotionApi::new` builds the client with.
pub uninterp spec fn client_token(api: NotionApi) -> Seq<char>;

/// A character that no header value may hold: a control character of ASCII
/// other than the tab.
pub open spec fn is_refused_in_header(c: char) -> bool {
    (c < ' ' && c != '\t') || c == '\u{7f}'
}

/// A text that may stand in a header value.
pub open spec fn fits_header(text: Seq<char>) -> bool {
    forall|i: int| 0 <= i < text.len() ==> !is_refused_in_header(#[trigger] text[i])
}

/// `notion::NotionApi::new` makes a client that signs its requests with
/// `api_token`, or reports why it cannot. The contract claims two things of
/// it: a client that it makes carries the bearer header of that very token,
/// and it makes none for a token that cannot stand in a header value.
/// Whether it makes one for a token that can is up to the client library
/// and the machine.
pub assume_specification[ NotionApi::new ](api_token: String) -> (made: Result<NotionApi, Error>)
    ensures
        made matches Ok(api) ==> client_token(api) == api_token@,
        made is Ok ==> fits_header(api_token@),
;

/// Why there is nothing to send.
#[derive(Debug)]
pub enum StartError {
    /// The settings hold no API token.
    MissingApiToken,
    /// The client library made no client for the token.
    Client { source: Error },
    /// The settings hold no database identifier.
    MissingDatabaseId,
}

/// A client and the request it is to send.
pub struct Session {
    pub api: NotionApi,
    pub request: Request,
}

/// What is owed once the client library has answered: its failure is passed
/// on; with a client, the database must be named, and the session holds that
/// client and the request that `opts` asks for.
pub open spec fn follows(
    session: Result<Session, StartError>,
    client: Result<NotionApi, Error>,
    opts: Opts,
    database_id: Option<DatabaseId>,
) -> bool {
    match client {
        Err(source) => session matches Err(StartError::Client { source: passed })
            && passed == source,
        Ok(api) => match database_id {
            None => session matches Err(StartError::MissingDatabaseId),
            Some(id) => session matches Ok(opened) && opened.api == api && answers(
                opened.request,
                opts,
                id,
            ),
        },
    }
}

/// What is owed for the command line `opts` under the settings `config`,
/// whatever the client library says of the token. The first thing that is
/// wrong decides: a missing token, then a client that cannot be made, then
/// a missing database identifier. The client is made for the token of the
/// settings and for no other, so a token that cannot stand in a header
/// value ends in the client library's failure. Without any of these the
/// session holds a client that signs with that token and the request that
/// `opts` asks for against the database of the settings.
pub open spec fn prepared(
    session: Result<Session, StartError>,
    opts: Opts,
    config: TodoConfig,
) -> bool {
    match session {
        Ok(opened) => {
            &&& config.api_token matches Some(token)
            &&& fits_header(token@)
            &&& client_token(opened.api) == token@
            &&& config.database_id matches Some(id)
            &&& answers(opened.request, opts, id)
        },
        Err(StartError::MissingApiToken) => config.api_token is None,
        Err(StartError::Client { .. }) => config.api_token is Some,
        Err(StartError::MissingDatabaseId) => {
            &&& config.api_token matches Some(token)
            &&& fits_header(token@)
            &&& config.database_id is None
        },
    }
}

/// Opens a session with the answer of the client library at hand.
pub fn open_session(
    client: Result<NotionApi, Error>,
    opts: Opts,
    database_id: Option<DatabaseId>,
) -> (session: Result<Session, StartError>)
    ensures
        follows(session, client, opts, database_id),
{
    match client {
        Err(source) => Err(StartError::Client { source }),
        Ok(api) => match database_id {
            None => Err(StartError::MissingDatabaseId),
            Some(id) => Ok(Session { api, request: request_for(opts, id) }),
        },
    }
}

/// Prepares what the command line `opts` asks for under the settings
/// `config`: checks the token, has the client library make a client for it,
/// and opens the session.
pub fn prepare(opts: Opts, config: TodoConfig) -> (session: Result<Session, StartError>)
    ensures
        prepared(session, opts, config),
{
    match config.api_token {
        None => Err(StartError::MissingApiToken),
        Some(api_token) => open_session(NotionApi::new(api_token), opts, config.database_id),
    }
}

} // verus!
