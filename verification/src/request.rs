//! From a command to the request that carries it out.

use crate::model::config::{Opts, SubCommand};
use crate::model::data::{create_page_req, is_new_task_record, record_view, task_fields};
use crate::model::property::PropertyValue;
use notion::ids::DatabaseId;
use vstd::hash_map::StringHashMap;
use vstd::prelude::*;

verus! {

/// A page to be created in a database: the database it goes to and what
/// its properties say.
pub struct PageCreateRequest {
    pub database_id: DatabaseId,
    pub properties: StringHashMap<PropertyValue>,
}

/// The one request that a command asks for.
pub enum Request {
    /// Ask for every record of the database.
    Query { database_id: DatabaseId },
    /// Create the page.
    Create { page: PageCreateRequest },
    /// Send nothing.
    Nothing,
}

/// `page` files a new task called `task` in the database `database_id`.
pub open spec fn files_task(
    page: PageCreateRequest,
    database_id: DatabaseId,
    task: Seq<char>,
) -> bool {
    &&& page.database_id == database_id
    &&& page.properties@.dom() == task_fields()
    &&& is_new_task_record(record_view(page.properties@), task)
}

/// The page that files a new task called `task_name` in the database
/// `database_id`.
pub fn add_task_to_inbox(database_id: DatabaseId, task_name: &str) -> (page: PageCreateRequest)
    ensures
        files_task(page, database_id, task_name@),
{
    let properties = create_page_req(task_name);
    PageCreateRequest { database_id, properties }
}

/// `request` is what the command line `opts` asks for against the database
/// `database_id`: a listing queries the database, an addition with a name
/// files a task under that name, and an addition without a name sends
/// nothing.
pub open spec fn answers(request: Request, opts: Opts, database_id: DatabaseId) -> bool {
    match opts.command {
        SubCommand::List => request == Request::Query { database_id },
        SubCommand::Add { task_name: Some(task) } => request matches Request::Create { page }
            && files_task(page, database_id, task@),
        SubCommand::Add { task_name: None } => request is Nothing,
    }
}

/// The request that the command line `opts` asks for against the database
/// `database_id`.
pub fn request_for(opts: Opts, database_id: DatabaseId) -> (request: Request)
    ensures
        answers(request, opts, database_id),
{
    match opts.command {
        SubCommand::List => Request::Query { database_id },
        SubCommand::Add { task_name: Some(task) } => Request::Create {
            page: add_task_to_inbox(database_id, task.as_str()),
        },
        SubCommand::Add { task_name: None } => Request::Nothing,
    }
}

} // verus!
