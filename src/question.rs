use vstd::prelude::*;

use crate::error::Error;
use crate::types::question::{copy_tags, tags_view};

verus! {

/// The identifier of a question, as text.
#[derive(Debug, Clone, PartialEq, Eq, Hash)]
pub struct QuestionId(pub String);

#[derive(Debug, Clone)]
pub struct Question {
    pub id: QuestionId,
    pub title: String,
    pub content: String,
    pub tags: Option<Vec<String>>,
}

impl QuestionId {
    /// Reads an identifier: any text but the empty one, which is a missing
    /// parameter.
    pub fn from_str(id: &str) -> (r: Result<QuestionId, Error>)
        ensures
            r.is_ok() <==> id@.len() > 0,
            r matches Ok(q) ==> q.0@ == id@,
            r matches Err(e) ==> e is MissingParameters,
    {
        if id.is_empty() {
            Err(Error::MissingParameters)
        } else {
            Ok(QuestionId(String::from_str(id)))
        }
    }
}

impl Question {
    pub fn new(id: QuestionId, title: String, content: String, tags: Option<Vec<String>>) -> (r:
        Question)
        ensures
            r.id == id,
            r.title == title,
            r.content == content,
            r.tags == tags,
    {
        Question { id, title, content, tags }
    }

    /// A question like this one with another title; this one stays as it is.
    pub fn update_title(&mut self, new_title: String) -> (r: Self)
        ensures
            *final(self) == *old(self),
            r.id.0@ == old(self).id.0@,
            r.title@ == new_title@,
            r.content@ == old(self).content@,
            tags_view(r.tags) == tags_view(old(self).tags),
    {
        Question::new(
            QuestionId(self.id.0.clone()),
            new_title,
            self.content.clone(),
            copy_tags(&self.tags),
        )
    }
}

} // verus!
