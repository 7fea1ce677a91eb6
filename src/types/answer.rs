use vstd::prelude::*;

use crate::types::question::QuestionId;

verus! {

#[derive(Debug, Clone, Copy, PartialEq, Eq, Structural, Hash)]
pub struct AnswerId(pub i32);

#[derive(Debug, Clone)]
pub struct Answer {
    pub id: AnswerId,
    pub question_id: QuestionId,
    pub content: String,
}

#[derive(Debug, Clone)]
pub struct NewAnswer {
    pub content: String,
    pub question_id: QuestionId,
}

/// An answer as a mathematical value.
pub struct AnswerView {
    pub id: i32,
    pub question_id: i32,
    pub content: Seq<char>,
}

impl View for Answer {
    type V = AnswerView;

    open spec fn view(&self) -> AnswerView {
        AnswerView { id: self.id.0, question_id: self.question_id.0, content: self.content@ }
    }
}

} // verus!
