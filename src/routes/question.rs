use vstd::prelude::*;

use crate::authorization::authorize_mutation;
use crate::error::{is_plain_failure, Error};
use crate::store::{
    listing, owns, question_deleted, question_updated, question_views, window, with_question,
    Store,
};
use crate::types::account::Session;
use crate::types::pagination::{
    extract_pagniation, param_ok, param_value, requested_pagination, Pagination,
};
use crate::types::question::{stored_question, tags_view, NewQuestion, Question, QuestionView};

verus! {

/// Lists the questions that the query parameters ask for: no parameters list
/// every question.
pub fn get_questions(params: Vec<(String, String)>, store: &Store) -> (r: Result<
    Vec<Question>,
    Error,
>)
    ensures
        r.is_ok() <==> param_ok(param_value(params@, "limit"@)) && param_ok(
            param_value(params@, "offset"@),
        ),
        r matches Ok(v) ==> question_views(v@) == window(
            listing(store@),
            requested_pagination(params@).limit,
            requested_pagination(params@).offset,
        ),
        r matches Err(e) ==> e is ParseError,
{
    let ghost ps = params@;
    let pagination = if params.len() == 0 {
        Pagination::default()
    } else {
        match extract_pagniation(params) {
            Ok(p) => p,
            Err(e) => return Err(e),
        }
    };
    assert(pagination == requested_pagination(ps));
    store.get_questions(pagination.limit, pagination.offset)
}

/// Adds a question owned by the session's account.
pub fn add_question(store: &mut Store, session: &Session, new_question: NewQuestion) -> (r: Result<
    Question,
    Error,
>)
    requires
        old(store)@.wf(),
    ensures
        final(store)@.wf(),
        r.is_ok() <==> old(store)@.next_question_id < i32::MAX,
        r matches Ok(q) ==> q@ == stored_question(old(store)@.next_question_id, new_question)
            && final(store)@ == with_question(old(store)@, q@, session.account_id.0),
        r matches Err(e) ==> is_plain_failure(e) && final(store)@ == old(store)@,
{
    store.add_question(new_question, session.account_id)
}

/// Overwrites the question `id` where the session's account owns it; any
/// other session is `Unauthorized`, and the store is not touched.
pub fn update_question(id: i32, session: &Session, store: &mut Store, question: Question) -> (r:
    Result<Question, Error>)
    requires
        old(store)@.wf(),
    ensures
        final(store)@.wf(),
        !owns(old(store)@, id, session.account_id.0) ==> (r matches Err(e) && e is Unauthorized)
            && final(store)@ == old(store)@,
        owns(old(store)@, id, session.account_id.0) ==> (r matches Ok(q) && q@ == (QuestionView {
            id,
            title: question.title@,
            content: question.content@,
            tags: tags_view(question.tags),
        }) && question_updated(old(store)@, final(store)@, id, q@)),
{
    match authorize_mutation(store, session, id) {
        Ok(()) => store.update_question(question, id),
        Err(e) => Err(e),
    }
}

/// Deletes the question `id` where the session's account owns it; any other
/// session is `Unauthorized`, and the store is not touched.
pub fn delete_question(id: i32, session: &Session, store: &mut Store) -> (r: Result<(), Error>)
    requires
        old(store)@.wf(),
    ensures
        final(store)@.wf(),
        !owns(old(store)@, id, session.account_id.0) ==> (r matches Err(e) && e is Unauthorized)
            && final(store)@ == old(store)@,
        owns(old(store)@, id, session.account_id.0) ==> r.is_ok() && question_deleted(
            old(store)@,
            final(store)@,
            id,
        ),
{
    match authorize_mutation(store, session, id) {
        Ok(()) => match store.delete_question(id) {
            Ok(_) => Ok(()),
            Err(e) => Err(e),
        },
        Err(e) => Err(e),
    }
}

} // verus!
