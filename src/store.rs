use vstd::prelude::*;

use crate::error::{
    duplicate_key_error, is_conflict, is_plain_failure, sequence_exhausted_error, DbError, Error,
};
use crate::types::account::{Account, AccountId, AccountView};
use crate::types::answer::{Answer, AnswerId, AnswerView, NewAnswer};
use crate::types::question::{
    copy_tags, stored_question, tags_view, NewQuestion, Question, QuestionId, QuestionView,
};

verus! {

/// A stored question with the account that owns it.
pub struct QuestionRecord {
    pub question: QuestionView,
    pub owner: i32,
}

/// A stored answer with the account that wrote it.
pub struct AnswerRecord {
    pub answer: AnswerView,
    pub owner: i32,
}

/// The tables of the store, rows in the order of insertion, and the next
/// identifier of each table.
pub struct StoreView {
    pub questions: Seq<QuestionRecord>,
    pub answers: Seq<AnswerRecord>,
    pub accounts: Seq<AccountView>,
    pub next_question_id: i32,
    pub next_answer_id: i32,
    pub next_account_id: i32,
}

impl StoreView {
    /// Identifiers are positive, below the next one, and increase along each
    /// table, so none is used twice; each account has its identifier, and no
    /// two accounts share an email.
    pub open spec fn wf(self) -> bool {
        &&& 1 <= self.next_question_id
        &&& 1 <= self.next_answer_id
        &&& 1 <= self.next_account_id
        &&& forall|k: int|
            0 <= k < self.questions.len() ==> 1 <= #[trigger] self.questions[k].question.id
                < self.next_question_id
        &&& forall|j: int, k: int|
            0 <= j < k < self.questions.len() ==> #[trigger] self.questions[j].question.id
                < #[trigger] self.questions[k].question.id
        &&& forall|k: int|
            0 <= k < self.answers.len() ==> 1 <= #[trigger] self.answers[k].answer.id
                < self.next_answer_id
        &&& forall|j: int, k: int|
            0 <= j < k < self.answers.len() ==> #[trigger] self.answers[j].answer.id
                < #[trigger] self.answers[k].answer.id
        &&& forall|k: int|
            0 <= k < self.accounts.len() ==> (#[trigger] self.accounts[k].id matches Some(a) && 1
                <= a < self.next_account_id)
        &&& forall|j: int, k: int|
            0 <= j < k < self.accounts.len() ==> #[trigger] self.accounts[j].id->0
                < #[trigger] self.accounts[k].id->0
        &&& forall|j: int, k: int|
            0 <= j < k < self.accounts.len() ==> #[trigger] self.accounts[j].email
                != #[trigger] self.accounts[k].email
    }
}

/// The questions in the order in which the store lists them.
pub open spec fn listing(s: StoreView) -> Seq<QuestionView> {
    s.questions.map_values(|r: QuestionRecord| r.question)
}

/// The part of `s` that a listing with `limit` and `offset` covers: from
/// `offset` on, at most `limit` items, and all of them without a limit.
pub open spec fn window<A>(s: Seq<A>, limit: Option<u32>, offset: u32) -> Seq<A> {
    let start = if offset as int <= s.len() {
        offset as int
    } else {
        s.len() as int
    };
    let end = match limit {
        Some(l) => if start + l <= s.len() {
            start + l
        } else {
            s.len() as int
        },
        None => s.len() as int,
    };
    s.subrange(start, end)
}

pub open spec fn question_views(v: Seq<Question>) -> Seq<QuestionView> {
    v.map_values(|q: Question| q@)
}

/// Row `k` holds the question `id`.
pub open spec fn question_at(s: StoreView, id: i32, k: int) -> bool {
    0 <= k < s.questions.len() && s.questions[k].question.id == id
}

pub open spec fn has_question(s: StoreView, id: i32) -> bool {
    exists|k: int| question_at(s, id, k)
}

/// The question `id` is stored and owned by `account`.
pub open spec fn owns(s: StoreView, id: i32, account: i32) -> bool {
    exists|k: int| question_at(s, id, k) && s.questions[k].owner == account
}

/// Row `k` holds the account with this email.
pub open spec fn account_at(s: StoreView, email: Seq<char>, k: int) -> bool {
    0 <= k < s.accounts.len() && s.accounts[k].email == email
}

pub open spec fn email_taken(s: StoreView, email: Seq<char>) -> bool {
    exists|k: int| account_at(s, email, k)
}

/// The account stored under this email; meaningful where the email is taken.
pub open spec fn account_with_email(s: StoreView, email: Seq<char>) -> AccountView {
    s.accounts[choose|k: int| account_at(s, email, k)]
}

/// `new` is `old` with the title, content and tags of the question `id` set
/// to those of `q`, its owner kept.
pub open spec fn question_updated(old: StoreView, new: StoreView, id: i32, q: QuestionView) -> bool {
    exists|k: int|
        question_at(old, id, k) && new == (StoreView {
            questions: old.questions.update(
                k,
                QuestionRecord { question: q, owner: old.questions[k].owner },
            ),
            ..old
        })
}

/// `new` is `old` without the question `id`, or `old` itself where it has no
/// such question.
pub open spec fn question_deleted(old: StoreView, new: StoreView, id: i32) -> bool {
    if has_question(old, id) {
        exists|k: int|
            question_at(old, id, k) && new == (StoreView {
                questions: old.questions.remove(k),
                ..old
            })
    } else {
        new == old
    }
}

/// The store after a question was inserted under the next identifier.
pub open spec fn with_question(s: StoreView, q: QuestionView, owner: i32) -> StoreView {
    StoreView {
        questions: s.questions.push(QuestionRecord { question: q, owner }),
        next_question_id: (s.next_question_id + 1) as i32,
        ..s
    }
}

/// The store after an answer was inserted under the next identifier.
pub open spec fn with_answer(s: StoreView, a: AnswerView, owner: i32) -> StoreView {
    StoreView {
        answers: s.answers.push(AnswerRecord { answer: a, owner }),
        next_answer_id: (s.next_answer_id + 1) as i32,
        ..s
    }
}

/// The store after an account was inserted under the next identifier.
pub open spec fn with_account(s: StoreView, email: Seq<char>, password: Seq<char>) -> StoreView {
    StoreView {
        accounts: s.accounts.push(AccountView { id: Some(s.next_account_id), email, password }),
        next_account_id: (s.next_account_id + 1) as i32,
        ..s
    }
}

/// Once an account is added, its email is taken: a second account with the
/// same email is then refused by `Store::add_account` with a failure that
/// classifies as a conflict.
pub proof fn lemma_added_email_taken(s: StoreView, email: Seq<char>, password: Seq<char>)
    ensures
        email_taken(with_account(s, email, password), email),
{
    let t = with_account(s, email, password);
    assert(account_at(t, email, s.accounts.len() as int));
}

/// A question just added is listed: a listing of the store after the insert
/// whose window reaches past the earlier questions holds it, with its
/// assigned identifier, title, content and tags.
pub proof fn lemma_added_question_listed(
    s: StoreView,
    q: QuestionView,
    owner: i32,
    limit: Option<u32>,
    offset: u32,
)
    requires
        offset <= s.questions.len(),
        limit matches Some(l) ==> offset + l > s.questions.len(),
    ensures
        window(listing(with_question(s, q, owner)), limit, offset).contains(q),
{
    let t = with_question(s, q, owner);
    let w = window(listing(t), limit, offset);
    let n = s.questions.len();
    assert(listing(t)[n as int] == q);
    assert(w[n - offset] == q);
}

struct QuestionRow {
    question: Question,
    owner: AccountId,
}

struct AnswerRow {
    answer: Answer,
    owner: AccountId,
}

/// The store of questions, answers and accounts. Every operation is one
/// complete step on the tables; identifiers are assigned here and never
/// reused.
pub struct Store {
    questions: Vec<QuestionRow>,
    answers: Vec<AnswerRow>,
    accounts: Vec<Account>,
    next_question_id: i32,
    next_answer_id: i32,
    next_account_id: i32,
}

impl View for Store {
    type V = StoreView;

    closed spec fn view(&self) -> StoreView {
        StoreView {
            questions: self.questions@.map_values(
                |r: QuestionRow| QuestionRecord { question: r.question@, owner: r.owner.0 },
            ),
            answers: self.answers@.map_values(
                |r: AnswerRow| AnswerRecord { answer: r.answer@, owner: r.owner.0 },
            ),
            accounts: self.accounts@.map_values(|a: Account| a@),
            next_question_id: self.next_question_id,
            next_answer_id: self.next_answer_id,
            next_account_id: self.next_account_id,
        }
    }
}

impl Store {
    /// An empty store whose identifiers start at one.
    pub fn new() -> (r: Store)
        ensures
            r@.wf(),
            r@.questions.len() == 0,
            r@.answers.len() == 0,
            r@.accounts.len() == 0,
            r@.next_question_id == 1,
            r@.next_answer_id == 1,
            r@.next_account_id == 1,
    {
        let r = Store {
            questions: Vec::new(),
            answers: Vec::new(),
            accounts: Vec::new(),
            next_question_id: 1,
            next_answer_id: 1,
            next_account_id: 1,
        };
        assert(r@.questions =~= Seq::<QuestionRecord>::empty());
        assert(r@.answers =~= Seq::<AnswerRecord>::empty());
        assert(r@.accounts =~= Seq::<AccountView>::empty());
        r
    }

    /// Lists the questions from `offset` on, at most `limit` of them, in the
    /// store's order.
    pub fn get_questions(&self, limit: Option<u32>, offset: u32) -> (r: Result<
        Vec<Question>,
        Error,
    >)
        ensures
            r matches Ok(v) && question_views(v@) == window(listing(self@), limit, offset),
            r matches Ok(v) ==> (limit matches Some(l) ==> v.len() <= l),
            r matches Ok(v) ==> forall|i: int|
                0 <= i < v.len() ==> #[trigger] v@[i]@ == listing(self@)[offset + i],
    {
        let len = self.questions.len();
        let start: usize = if (offset as usize) <= len {
            offset as usize
        } else {
            len
        };
        let end: usize = match limit {
            Some(l) => if (l as usize) <= len - start {
                start + l as usize
            } else {
                len
            },
            None => len,
        };
        let ghost all = listing(self@);
        let mut out: Vec<Question> = Vec::new();
        let mut i: usize = start;
        while i < end
            invariant
                start <= i <= end <= len,
                len == self.questions.len(),
                all == listing(self@),
                question_views(out@) == all.subrange(start as int, i as int),
            decreases end - i,
        {
            let q = self.questions[i].question.copy();
            assert(q@ == all[i as int]);
            let ghost prev = out@;
            out.push(q);
            assert(out@ == prev.push(q));
            assert(question_views(out@) =~= question_views(prev).push(q@));
            i += 1;
            assert(question_views(out@) =~= all.subrange(start as int, i as int));
        }
        assert(all.subrange(start as int, end as int) =~= window(all, limit, offset));
        assert(forall|i: int| 0 <= i < out.len() ==> #[trigger] out@[i]@ == question_views(out@)[i]);
        Ok(out)
    }

    /// Inserts a question owned by `account_id` under the next identifier and
    /// returns it as stored. Fails, changing nothing, when the identifiers are
    /// exhausted.
    pub fn add_question(&mut self, new_question: NewQuestion, account_id: AccountId) -> (r: Result<
        Question,
        Error,
    >)
        requires
            old(self)@.wf(),
        ensures
            final(self)@.wf(),
            r.is_ok() <==> old(self)@.next_question_id < i32::MAX,
            r matches Ok(q) ==> q@ == stored_question(old(self)@.next_question_id, new_question)
                && final(self)@ == with_question(old(self)@, q@, account_id.0),
            r matches Err(e) ==> is_plain_failure(e) && final(self)@ == old(self)@,
    {
        if self.next_question_id == i32::MAX {
            return Err(sequence_exhausted_error());
        }
        let id = QuestionId(self.next_question_id);
        let stored = Question {
            id,
            title: new_question.title.clone(),
            content: new_question.content.clone(),
            tags: copy_tags(&new_question.tags),
        };
        let returned = stored.copy();
        self.questions.push(QuestionRow { question: stored, owner: account_id });
        self.next_question_id = self.next_question_id + 1;
        assert(self@.questions =~= old(self)@.questions.push(
            QuestionRecord { question: returned@, owner: account_id.0 },
        ));
        assert(self@.answers == old(self)@.answers);
        assert(self@.accounts == old(self)@.accounts);
        assert(self@ == with_question(old(self)@, returned@, account_id.0));
        Ok(returned)
    }

    /// The row that holds the question `id`, if any.
    fn question_index(&self, id: i32) -> (r: Option<usize>)
        ensures
            r matches Some(k) ==> question_at(self@, id, k as int),
            r is None ==> !has_question(self@, id),
    {
        let mut i: usize = 0;
        while i < self.questions.len()
            invariant
                i <= self.questions.len(),
                forall|j: int| 0 <= j < i ==> !question_at(self@, id, j),
            decreases self.questions.len() - i,
        {
            if self.questions[i].question.id.0 == id {
                return Some(i);
            }
            i += 1;
        }
        None
    }

    /// The row that holds the account with this email, if any.
    fn account_index(&self, email: &String) -> (r: Option<usize>)
        ensures
            r matches Some(k) ==> account_at(self@, email@, k as int),
            r is None ==> !email_taken(self@, email@),
    {
        let mut i: usize = 0;
        while i < self.accounts.len()
            invariant
                i <= self.accounts.len(),
                forall|j: int| 0 <= j < i ==> !account_at(self@, email@, j),
            decreases self.accounts.len() - i,
        {
            if self.accounts[i].email == *email {
                return Some(i);
            }
            i += 1;
        }
        None
    }

    /// Overwrites title, content and tags of the question `id` and returns the
    /// question as now stored; its identifier and owner stay. The owner is not
    /// checked here: callers authorize first. A missing question is
    /// `RowNotFound`, with nothing changed.
    pub fn update_question(&mut self, question: Question, id: i32) -> (r: Result<Question, Error>)
        requires
            old(self)@.wf(),
        ensures
            final(self)@.wf(),
            r.is_ok() <==> has_question(old(self)@, id),
            r matches Ok(q) ==> q@ == (QuestionView {
                id,
                title: question.title@,
                content: question.content@,
                tags: tags_view(question.tags),
            }) && question_updated(old(self)@, final(self)@, id, q@),
            r matches Err(e) ==> (e matches Error::DatabaseQueryError(DbError::RowNotFound))
                && final(self)@ == old(self)@,
    {
        match self.question_index(id) {
            None => Err(Error::DatabaseQueryError(DbError::RowNotFound)),
            Some(k) => {
                let owner = self.questions[k].owner;
                let stored = Question {
                    id: QuestionId(id),
                    title: question.title,
                    content: question.content,
                    tags: question.tags,
                };
                let returned = stored.copy();
                self.questions.set(k, QuestionRow { question: stored, owner });
                assert(self@.questions =~= old(self)@.questions.update(
                    k as int,
                    QuestionRecord { question: returned@, owner: old(self)@.questions[k as int].owner },
                ));
                assert(self@.answers == old(self)@.answers);
                assert(self@.accounts == old(self)@.accounts);
                Ok(returned)
            },
        }
    }

    /// Deletes the question `id`. Deleting a question that is not stored
    /// succeeds and changes nothing; either way the result is `Ok(true)`.
    pub fn delete_question(&mut self, id: i32) -> (r: Result<bool, Error>)
        requires
            old(self)@.wf(),
        ensures
            final(self)@.wf(),
            r matches Ok(true),
            question_deleted(old(self)@, final(self)@, id),
    {
        match self.question_index(id) {
            None => Ok(true),
            Some(k) => {
                self.questions.remove(k);
                assert(self@.questions =~= old(self)@.questions.remove(k as int));
                assert(self@.answers == old(self)@.answers);
                assert(self@.accounts == old(self)@.accounts);
                Ok(true)
            },
        }
    }

    /// Whether the question `id` is stored and owned by `account_id`.
    pub fn is_question_owner(&self, id: i32, account_id: &AccountId) -> (r: Result<bool, Error>)
        requires
            self@.wf(),
        ensures
            r matches Ok(b) && b == owns(self@, id, account_id.0),
    {
        match self.question_index(id) {
            None => Ok(false),
            Some(k) => {
                let b = self.questions[k].owner.0 == account_id.0;
                proof {
                    if owns(self@, id, account_id.0) {
                        let j = choose|j: int|
                            question_at(self@, id, j) && self@.questions[j].owner == account_id.0;
                        assert(j == k) by {
                            if j < k {
                                assert(self@.questions[j].question.id < self@.questions[k as int].question.id);
                            } else if j > k {
                                assert(self@.questions[k as int].question.id < self@.questions[j].question.id);
                            }
                        }
                    }
                }
                Ok(b)
            },
        }
    }

    /// Inserts an answer to `new_answer.question_id`, written by `account_id`,
    /// under the next identifier and returns it as stored. Fails, changing
    /// nothing, when the identifiers are exhausted.
    pub fn add_answer(&mut self, new_answer: NewAnswer, account_id: AccountId) -> (r: Result<
        Answer,
        Error,
    >)
        requires
            old(self)@.wf(),
        ensures
            final(self)@.wf(),
            r.is_ok() <==> old(self)@.next_answer_id < i32::MAX,
            r matches Ok(a) ==> a@ == (AnswerView {
                id: old(self)@.next_answer_id,
                question_id: new_answer.question_id.0,
                content: new_answer.content@,
            }) && final(self)@ == with_answer(old(self)@, a@, account_id.0),
            r matches Err(e) ==> is_plain_failure(e) && final(self)@ == old(self)@,
    {
        if self.next_answer_id == i32::MAX {
            return Err(sequence_exhausted_error());
        }
        let id = AnswerId(self.next_answer_id);
        let returned = Answer {
            id,
            question_id: new_answer.question_id,
            content: new_answer.content.clone(),
        };
        let stored = Answer { id, question_id: new_answer.question_id, content: new_answer.content };
        self.answers.push(AnswerRow { answer: stored, owner: account_id });
        self.next_answer_id = self.next_answer_id + 1;
        assert(self@.answers =~= old(self)@.answers.push(
            AnswerRecord { answer: returned@, owner: account_id.0 },
        ));
        assert(self@.questions == old(self)@.questions);
        assert(self@.accounts == old(self)@.accounts);
        Ok(returned)
    }

    /// Inserts an account with the email and password hash of `account` under
    /// the next identifier; the `id` it carries is ignored. An email that is
    /// already stored violates the unique constraint: the failure classifies as
    /// a conflict, and nothing changes.
    pub fn add_account(&mut self, account: Account) -> (r: Result<bool, Error>)
        requires
            old(self)@.wf(),
        ensures
            final(self)@.wf(),
            r.is_ok() <==> !email_taken(old(self)@, account.email@) && old(self)@.next_account_id
                < i32::MAX,
            r.is_ok() ==> (r matches Ok(true)) && final(self)@ == with_account(
                old(self)@,
                account.email@,
                account.password@,
            ),
            email_taken(old(self)@, account.email@) ==> (r matches Err(e) && is_conflict(e)),
            !email_taken(old(self)@, account.email@) ==> (r matches Err(e) ==> is_plain_failure(e)),
            r.is_err() ==> final(self)@ == old(self)@,
    {
        if self.account_index(&account.email).is_some() {
            return Err(duplicate_key_error());
        }
        assert forall|j: int| 0 <= j < old(self)@.accounts.len() implies #[trigger] old(
            self,
        )@.accounts[j].email != account.email@ by {
            assert(!account_at(old(self)@, account.email@, j));
        }
        if self.next_account_id == i32::MAX {
            return Err(sequence_exhausted_error());
        }
        let stored = Account {
            id: Some(AccountId(self.next_account_id)),
            email: account.email,
            password: account.password,
        };
        self.accounts.push(stored);
        self.next_account_id = self.next_account_id + 1;
        assert(self@.accounts =~= old(self)@.accounts.push(
            AccountView { id: Some(old(self)@.next_account_id), email: account.email@, password: account.password@ },
        ));
        assert(self@.questions == old(self)@.questions);
        assert(self@.answers == old(self)@.answers);
        Ok(true)
    }

    /// Looks up the account with this email. None is `RowNotFound`.
    pub fn get_account(&self, email: String) -> (r: Result<Account, Error>)
        requires
            self@.wf(),
        ensures
            r.is_ok() <==> email_taken(self@, email@),
            r matches Ok(a) ==> a@ == account_with_email(self@, email@),
            r matches Err(e) ==> (e matches Error::DatabaseQueryError(DbError::RowNotFound)),
    {
        match self.account_index(&email) {
            None => Err(Error::DatabaseQueryError(DbError::RowNotFound)),
            Some(k) => {
                let found = &self.accounts[k];
                proof {
                    let j = choose|j: int| account_at(self@, email@, j);
                    assert(j == k) by {
                        if j < k {
                            assert(self@.accounts[j].email != self@.accounts[k as int].email);
                        } else if j > k {
                            assert(self@.accounts[k as int].email != self@.accounts[j].email);
                        }
                    }
                }
                Ok(Account { id: found.id, email: found.email.clone(), password: found.password.clone() })
            },
        }
    }

    /// Overwrites the password hash of the account stored under the email of
    /// `account`. Where no account has that email nothing changes; the call
    /// succeeds either way.
    pub fn reset_password(&mut self, account: Account, new_hash: String) -> (r: Result<(), Error>)
        requires
            old(self)@.wf(),
        ensures
            final(self)@.wf(),
            r.is_ok(),
            email_taken(old(self)@, account.email@) ==> exists|k: int|
                account_at(old(self)@, account.email@, k) && final(self)@ == (StoreView {
                    accounts: old(self)@.accounts.update(
                        k,
                        AccountView { password: new_hash@, ..old(self)@.accounts[k] },
                    ),
                    ..old(self)@
                }),
            !email_taken(old(self)@, account.email@) ==> final(self)@ == old(self)@,
    {
        match self.account_index(&account.email) {
            None => Ok(()),
            Some(k) => {
                let id = self.accounts[k].id;
                let email = self.accounts[k].email.clone();
                self.accounts.set(k, Account { id, email, password: new_hash });
                assert(self@.accounts =~= old(self)@.accounts.update(
                    k as int,
                    AccountView { password: self@.accounts[k as int].password, ..old(self)@.accounts[k as int] },
                ));
                assert(self@.questions == old(self)@.questions);
                assert(self@.answers == old(self)@.answers);
                Ok(())
            },
        }
    }
}

} // verus!
