//! Command line and settings.

use notion::ids::DatabaseId;
use vstd::prelude::*;

verus! {

/// `notion::ids::DatabaseId`, the identifier of the database that holds the
/// tasks. The library hands it on and never looks inside.
#[verifier::external_type_specification]
#[verifier::external_body]
pub struct ExDatabaseId(DatabaseId);

/// What the user asked for.
#[derive(Debug)]
pub enum SubCommand {
    /// Show every task of the database.
    List,
    /// File a new task under the given name; without a name nothing is done.
    Add { task_name: Option<String> },
}

/// The parsed command line.
#[derive(Debug)]
pub struct Opts {
    pub command: SubCommand,
}

/// The settings: the token that opens the service and the database that
/// holds the tasks. Either may be absent.
#[derive(Clone)]
pub struct TodoConfig {
    pub api_token: Option<String>,
    pub database_id: Option<DatabaseId>,
}

} // verus!
