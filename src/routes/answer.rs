use vstd::prelude::*;

use crate::error::{is_plain_failure, Error};
use crate::store::{with_answer, Store};
use crate::types::answer::{Answer, AnswerView, NewAnswer};
use crate::types::account::Session;

verus! {

/// Adds an answer written by the session's account.
pub fn add_answer(session: &Session, store: &mut Store, params: NewAnswer) -> (r: Result<
    Answer,
    Error,
>)
    requires
        old(store)@.wf(),
    ensures
        final(store)@.wf(),
        r.is_ok() <==> old(store)@.next_answer_id < i32::MAX,
        r matches Ok(a) ==> a@ == (AnswerView {
            id: old(store)@.next_answer_id,
            question_id: params.question_id.0,
            content: params.content@,
        }) && final(store)@ == with_answer(old(store)@, a@, session.account_id.0),
        r matches Err(e) ==> is_plain_failure(e) && final(store)@ == old(store)@,
{
    store.add_answer(params, session.account_id)
}

} // verus!
