use vstd::prelude::*;

verus! {

#[derive(Debug, Clone, Copy, PartialEq, Eq, Structural, Hash)]
pub struct QuestionId(pub i32);

#[derive(Debug, Clone)]
pub struct Question {
    pub id: QuestionId,
    pub title: String,
    pub content: String,
    pub tags: Option<Vec<String>>,
}

#[derive(Debug, Clone)]
pub struct NewQuestion {
    pub title: String,
    pub content: String,
    pub tags: Option<Vec<String>>,
}

/// A question as a mathematical value.
pub struct QuestionView {
    pub id: i32,
    pub title: Seq<char>,
    pub content: Seq<char>,
    pub tags: Option<Seq<Seq<char>>>,
}

pub open spec fn tags_view(tags: Option<Vec<String>>) -> Option<Seq<Seq<char>>> {
    match tags {
        Some(v) => Some(v.deep_view()),
        None => None,
    }
}

impl View for Question {
    type V = QuestionView;

    open spec fn view(&self) -> QuestionView {
        QuestionView {
            id: self.id.0,
            title: self.title@,
            content: self.content@,
            tags: tags_view(self.tags),
        }
    }
}

/// The question that a new question becomes under the identifier `id`.
pub open spec fn stored_question(id: i32, q: NewQuestion) -> QuestionView {
    QuestionView { id, title: q.title@, content: q.content@, tags: tags_view(q.tags) }
}

/// A copy of a list of tags.
pub fn copy_tags(tags: &Option<Vec<String>>) -> (r: Option<Vec<String>>)
    ensures
        tags_view(r) == tags_view(*tags),
{
    match tags {
        None => None,
        Some(v) => {
            let mut out: Vec<String> = Vec::new();
            let mut i: usize = 0;
            while i < v.len()
                invariant
                    i <= v.len(),
                    out@ == v@.take(i as int),
                decreases v.len() - i,
            {
                out.push(v[i].clone());
                i += 1;
                assert(out@ =~= v@.take(i as int));
            }
            assert(out@ =~= v@);
            assert(out.deep_view() =~= v.deep_view());
            Some(out)
        },
    }
}

impl Question {
    /// A copy of this question.
    pub fn copy(&self) -> (r: Question)
        ensures
            r@ == self@,
    {
        Question {
            id: self.id,
            title: self.title.clone(),
            content: self.content.clone(),
            tags: copy_tags(&self.tags),
        }
    }
}

} // verus!
