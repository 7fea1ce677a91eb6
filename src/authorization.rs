use vstd::prelude::*;

use crate::error::Error;
use crate::store::{owns, question_at, Store, StoreView};
use crate::types::account::Session;

verus! {

/// Decides whether the session's account may mutate the question
/// `resource_id`: only the account that owns it may. A question that is not
/// stored is owned by nobody.
pub fn authorize_mutation(store: &Store, session: &Session, resource_id: i32) -> (r: Result<
    (),
    Error,
>)
    requires
        store@.wf(),
    ensures
        r.is_ok() <==> owns(store@, resource_id, session.account_id.0),
        r matches Err(e) ==> e is Unauthorized,
{
    match store.is_question_owner(resource_id, &session.account_id) {
        Ok(true) => Ok(()),
        Ok(false) => Err(Error::Unauthorized),
        Err(e) => Err(e),
    }
}

/// A question has one owner: where account `a` owns question `id`, no other
/// account `b` does, so a session of `b` is refused every mutation of it.
pub proof fn lemma_single_owner(s: StoreView, id: i32, a: i32, b: i32)
    requires
        s.wf(),
        owns(s, id, a),
        a != b,
    ensures
        !owns(s, id, b),
{
    let ka = choose|k: int| question_at(s, id, k) && s.questions[k].owner == a;
    if owns(s, id, b) {
        let kb = choose|k: int| question_at(s, id, k) && s.questions[k].owner == b;
        if ka < kb {
            assert(s.questions[ka].question.id < s.questions[kb].question.id);
        } else if kb < ka {
            assert(s.questions[kb].question.id < s.questions[ka].question.id);
        }
    }
}

} // verus!
