//! Request routing: from a path and its parameters to one command.

pub mod index;
pub mod todos;

use vstd::prelude::*;

use crate::error::TodoError;
use crate::item::Item;
use crate::page::Page;

verus! {

/// The parameters that a request may carry, already decoded.
pub struct Params {
    pub title: Option<String>,
    pub done: Option<bool>,
    pub index: Option<i32>,
}

/// What a recognised path asks for, before its parameters are read.
#[derive(Debug, Clone, Copy, PartialEq, Eq, Structural)]
pub enum RouteKind {
    List,
    Add,
    Toggle,
    Delete,
    Clear,
    Increment,
}

/// A request, validated: the operation with its typed arguments.
#[derive(Debug, PartialEq, Eq)]
pub enum Command {
    List,
    Add { title: String, done: bool },
    Toggle { index: i32 },
    Delete { index: i32 },
    Clear,
    Increment,
}

/// The operation that a path names, if any.
pub open spec fn path_kind(p: Seq<char>) -> Option<RouteKind> {
    if p == "/"@ {
        Some(RouteKind::List)
    } else if p == "/add/"@ || p == "/add-todo/"@ {
        Some(RouteKind::Add)
    } else if p == "/toggle/"@ || p == "/api/toggle-todo/"@ {
        Some(RouteKind::Toggle)
    } else if p == "/delete/"@ {
        Some(RouteKind::Delete)
    } else if p == "/empty_todos/"@ || p == "/api/clear-todo/"@ {
        Some(RouteKind::Clear)
    } else if p == "/increment/"@ {
        Some(RouteKind::Increment)
    } else {
        None
    }
}

/// The command that a request makes: `NotFound` for an unknown path,
/// `MissingParameter` when the path needs a parameter that is absent.
pub open spec fn routed(p: Seq<char>, params: Params) -> Result<Command, TodoError> {
    match path_kind(p) {
        None => Err(TodoError::NotFound),
        Some(RouteKind::List) => Ok(Command::List),
        Some(RouteKind::Add) => match (params.title, params.done) {
            (Some(title), Some(done)) => Ok(Command::Add { title, done }),
            _ => Err(TodoError::MissingParameter),
        },
        Some(RouteKind::Toggle) => match params.index {
            Some(index) => Ok(Command::Toggle { index }),
            None => Err(TodoError::MissingParameter),
        },
        Some(RouteKind::Delete) => match params.index {
            Some(index) => Ok(Command::Delete { index }),
            None => Err(TodoError::MissingParameter),
        },
        Some(RouteKind::Clear) => Ok(Command::Clear),
        Some(RouteKind::Increment) => Ok(Command::Increment),
    }
}

fn same_text(a: &str, b: &str) -> (r: bool)
    ensures
        r == (a@ == b@),
{
    a.to_owned() == b.to_owned()
}

/// The operation that a path names, if any.
pub fn kind_of_path(path: &str) -> (r: Option<RouteKind>)
    ensures
        r == path_kind(path@),
{
    if same_text(path, "/") {
        Some(RouteKind::List)
    } else if same_text(path, "/add/") || same_text(path, "/add-todo/") {
        Some(RouteKind::Add)
    } else if same_text(path, "/toggle/") || same_text(path, "/api/toggle-todo/") {
        Some(RouteKind::Toggle)
    } else if same_text(path, "/delete/") {
        Some(RouteKind::Delete)
    } else if same_text(path, "/empty_todos/") || same_text(path, "/api/clear-todo/") {
        Some(RouteKind::Clear)
    } else if same_text(path, "/increment/") {
        Some(RouteKind::Increment)
    } else {
        None
    }
}

/// Selects the one command that a request makes.
pub fn route(path: &str, params: Params) -> (r: Result<Command, TodoError>)
    ensures
        r == routed(path@, params),
{
    match kind_of_path(path) {
        None => Err(TodoError::NotFound),
        Some(RouteKind::List) => Ok(Command::List),
        Some(RouteKind::Add) => match (params.title, params.done) {
            (Some(title), Some(done)) => Ok(Command::Add { title, done }),
            _ => Err(TodoError::MissingParameter),
        },
        Some(RouteKind::Toggle) => match params.index {
            Some(index) => Ok(Command::Toggle { index }),
            None => Err(TodoError::MissingParameter),
        },
        Some(RouteKind::Delete) => match params.index {
            Some(index) => Ok(Command::Delete { index }),
            None => Err(TodoError::MissingParameter),
        },
        Some(RouteKind::Clear) => Ok(Command::Clear),
        Some(RouteKind::Increment) => Ok(Command::Increment),
    }
}

/// The not-found page, titled with the message.
pub fn http404(msg: &str) -> (r: Page)
    ensures
        r.title@ == msg@,
        r.list@.len() == 0,
        r.not_found,
        !r.redirect_to_index,
{
    let list: Vec<Item> = Vec::new();
    Page { title: msg.to_owned(), list, redirect_to_index: false, not_found: true }
}

} // verus!
