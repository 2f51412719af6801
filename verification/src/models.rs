//! The todo record and the payloads that create and change one.

use vstd::prelude::*;
use crate::errors::AppError;
use crate::title::{reports, title_fault, validate_title};

verus! {

/// A todo record as a mathematical value.
pub struct TodoView {
    pub id: u64,
    pub title: Seq<char>,
    pub done: bool,
}

/// A todo record as the store hands it out.
#[derive(Debug)]
pub struct Todo {
    pub id: u64,
    pub title: String,
    pub done: bool,
}

impl View for Todo {
    type V = TodoView;

    open spec fn view(&self) -> TodoView {
        TodoView { id: self.id, title: self.title@, done: self.done }
    }
}

impl Clone for Todo {
    fn clone(&self) -> (copy: Self)
        ensures
            copy == *self,
    {
        Todo { id: self.id, title: self.title.clone(), done: self.done }
    }
}

/// The payload that creates a todo.
#[derive(Debug)]
pub struct CreateTodo {
    pub title: String,
}

impl Clone for CreateTodo {
    fn clone(&self) -> (copy: Self)
        ensures
            copy == *self,
    {
        CreateTodo { title: self.title.clone() }
    }
}

impl CreateTodo {
    /// Accepts the payload when its title is neither blank nor too long, and
    /// else names the rule that the title breaks.
    pub fn validate(&self) -> (r: Result<(), AppError>)
        ensures
            reports(r, title_fault(self.title@)),
    {
        validate_title(self.title.as_str())
    }
}

/// The payload that changes a todo. A field that is absent leaves the
/// record's field as it is.
#[derive(Debug)]
pub struct UpdateTodo {
    pub title: Option<String>,
    pub done: Option<bool>,
}

impl Clone for UpdateTodo {
    fn clone(&self) -> (copy: Self)
        ensures
            copy == *self,
    {
        let title = match &self.title {
            Some(text) => Some(text.clone()),
            None => None,
        };
        UpdateTodo { title, done: self.done }
    }
}

/// What is wrong with an update of these two fields, if anything. A title
/// that is present must pass the rules for titles; with no title, `done`
/// must be present.
pub open spec fn update_fault(title: Option<Seq<char>>, done: Option<bool>) -> Option<Seq<char>> {
    match title {
        Some(t) => title_fault(t),
        None => if done is None {
            Some("provide at least one field to update"@)
        } else {
            None
        },
    }
}

impl UpdateTodo {
    /// The new title as a sequence of characters, if one is given.
    pub open spec fn title_view(&self) -> Option<Seq<char>> {
        match self.title {
            Some(t) => Some(t@),
            None => None,
        }
    }

    /// Accepts the payload when it names at least one field and its title,
    /// if present, is neither blank nor too long.
    pub fn validate(&self) -> (r: Result<(), AppError>)
        ensures
            reports(r, update_fault(self.title_view(), self.done)),
    {
        match &self.title {
            Some(title) => validate_title(title.as_str()),
            None => {
                if self.done.is_none() {
                    Err(AppError::Validation("provide at least one field to update".to_string()))
                } else {
                    Ok(())
                }
            },
        }
    }
}

} // verus!
