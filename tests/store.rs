use qa_store::authorization::authorize_mutation;
use qa_store::error::{classify_database_error, error_reply, DbError, DbErrorClass, Error};
use qa_store::routes::answer::add_answer;
use qa_store::routes::question::{add_question, delete_question, get_questions, update_question};
use qa_store::store::Store;
use qa_store::types::account::{Account, AccountId, Session};
use qa_store::types::answer::NewAnswer;
use qa_store::types::question::{NewQuestion, Question, QuestionId};

fn session(account: i32) -> Session {
    Session { exp: 1_700_086_400, account_id: AccountId(account), nbf: 1_700_000_000 }
}

fn new_question(title: &str) -> NewQuestion {
    NewQuestion {
        title: title.to_string(),
        content: format!("content of {}", title),
        tags: Some(vec!["faq".to_string(), title.to_string()]),
    }
}

fn store_with(n: usize, owner: i32) -> Store {
    let mut store = Store::new();
    for i in 0..n {
        store.add_question(new_question(&format!("q{}", i + 1)), AccountId(owner)).unwrap();
    }
    store
}

fn ids(qs: &[Question]) -> Vec<i32> {
    qs.iter().map(|q| q.id.0).collect()
}

fn account(email: &str, password: &str) -> Account {
    Account { id: None, email: email.to_string(), password: password.to_string() }
}

#[test]
fn listing_respects_limit_and_offset() {
    let store = store_with(5, 1);
    assert_eq!(ids(&store.get_questions(Some(2), 1).unwrap()), vec![2, 3]);
    assert_eq!(ids(&store.get_questions(None, 3).unwrap()), vec![4, 5]);
    assert_eq!(ids(&store.get_questions(Some(10), 0).unwrap()), vec![1, 2, 3, 4, 5]);
    assert_eq!(ids(&store.get_questions(Some(0), 0).unwrap()), Vec::<i32>::new());
    assert_eq!(ids(&store.get_questions(Some(3), 9).unwrap()), Vec::<i32>::new());
    assert_eq!(ids(&store.get_questions(Some(u32::MAX), u32::MAX).unwrap()), Vec::<i32>::new());
}

#[test]
fn listing_through_query_parameters() {
    let store = store_with(4, 1);
    let params = vec![("limit".to_string(), "2".to_string()), ("offset".to_string(), "1".to_string())];
    assert_eq!(ids(&get_questions(params, &store).unwrap()), vec![2, 3]);
    assert_eq!(ids(&get_questions(Vec::new(), &store).unwrap()), vec![1, 2, 3, 4]);
    let bad = vec![("limit".to_string(), "abc".to_string())];
    assert!(matches!(get_questions(bad, &store), Err(Error::ParseError(_))));
}

#[test]
fn added_question_is_listed_with_its_fields() {
    let mut store = store_with(2, 1);
    let added = add_question(&mut store, &session(1), new_question("fresh")).unwrap();
    assert_eq!(added.id, QuestionId(3));
    let listed = store.get_questions(None, 0).unwrap();
    let found = listed.iter().find(|q| q.id == added.id).unwrap();
    assert_eq!(found.title, "fresh");
    assert_eq!(found.content, "content of fresh");
    assert_eq!(found.tags, Some(vec!["faq".to_string(), "fresh".to_string()]));
}

#[test]
fn question_without_tags_keeps_none() {
    let mut store = Store::new();
    let q = NewQuestion { title: "t".to_string(), content: "c".to_string(), tags: None };
    let added = store.add_question(q, AccountId(1)).unwrap();
    assert_eq!(added.tags, None);
    assert_eq!(store.get_questions(None, 0).unwrap()[0].tags, None);
}

#[test]
fn owner_is_recognised() {
    let mut store = store_with(1, 1);
    store.add_question(new_question("b"), AccountId(2)).unwrap();
    assert!(store.is_question_owner(1, &AccountId(1)).unwrap());
    assert!(!store.is_question_owner(1, &AccountId(2)).unwrap());
    assert!(store.is_question_owner(2, &AccountId(2)).unwrap());
    assert!(!store.is_question_owner(3, &AccountId(1)).unwrap());
    assert!(authorize_mutation(&store, &session(1), 1).is_ok());
    assert!(matches!(authorize_mutation(&store, &session(2), 1), Err(Error::Unauthorized)));
}

#[test]
fn owner_can_update() {
    let mut store = store_with(2, 1);
    let q = Question {
        id: QuestionId(99),
        title: "changed".to_string(),
        content: "new body".to_string(),
        tags: None,
    };
    let updated = update_question(2, &session(1), &mut store, q).unwrap();
    assert_eq!(updated.id, QuestionId(2));
    assert_eq!(updated.title, "changed");
    let listed = store.get_questions(None, 0).unwrap();
    assert_eq!(listed[1].title, "changed");
    assert_eq!(listed[1].content, "new body");
    assert_eq!(listed[1].tags, None);
    assert_eq!(listed[0].title, "q1");
    assert!(store.is_question_owner(2, &AccountId(1)).unwrap());
}

#[test]
fn other_account_cannot_update_or_delete() {
    let mut store = store_with(2, 1);
    let q = Question {
        id: QuestionId(1),
        title: "hijacked".to_string(),
        content: "x".to_string(),
        tags: None,
    };
    let r = update_question(1, &session(2), &mut store, q);
    assert!(matches!(r, Err(Error::Unauthorized)));
    assert!(matches!(delete_question(1, &session(2), &mut store), Err(Error::Unauthorized)));
    let listed = store.get_questions(None, 0).unwrap();
    assert_eq!(ids(&listed), vec![1, 2]);
    assert_eq!(listed[0].title, "q1");
    assert_eq!(error_reply(&Error::Unauthorized).status, 401);
}

#[test]
fn updating_a_missing_question_is_row_not_found() {
    let mut store = store_with(1, 1);
    let q = Question { id: QuestionId(5), title: "t".to_string(), content: "c".to_string(), tags: None };
    let r = store.update_question(q, 5);
    assert!(matches!(r, Err(Error::DatabaseQueryError(DbError::RowNotFound))));
}

#[test]
fn owner_can_delete() {
    let mut store = store_with(3, 1);
    assert!(delete_question(2, &session(1), &mut store).is_ok());
    assert_eq!(ids(&store.get_questions(None, 0).unwrap()), vec![1, 3]);
    let added = store.add_question(new_question("later"), AccountId(1)).unwrap();
    assert_eq!(added.id, QuestionId(4));
}

#[test]
fn deleting_a_missing_question_is_a_no_op() {
    let mut store = store_with(2, 1);
    assert!(matches!(store.delete_question(42), Ok(true)));
    assert!(matches!(store.delete_question(2), Ok(true)));
    assert!(matches!(store.delete_question(2), Ok(true)));
    assert_eq!(ids(&store.get_questions(None, 0).unwrap()), vec![1]);
}

#[test]
fn answers_get_fresh_identifiers() {
    let mut store = store_with(1, 1);
    let a = add_answer(
        &session(2),
        &mut store,
        NewAnswer { content: "first".to_string(), question_id: QuestionId(1) },
    )
    .unwrap();
    assert_eq!(a.id.0, 1);
    assert_eq!(a.question_id, QuestionId(1));
    assert_eq!(a.content, "first");
    let b = store
        .add_answer(NewAnswer { content: "second".to_string(), question_id: QuestionId(1) }, AccountId(3))
        .unwrap();
    assert_eq!(b.id.0, 2);
}

#[test]
fn duplicate_account_is_a_conflict() {
    let mut store = Store::new();
    assert!(matches!(store.add_account(account("a@x.org", "h1")), Ok(true)));
    let r = store.add_account(account("a@x.org", "h2"));
    match r {
        Err(Error::DatabaseQueryError(d)) => {
            assert_eq!(classify_database_error(&d), DbErrorClass::Conflict);
            let reply = error_reply(&Error::DatabaseQueryError(d));
            assert_eq!(reply.status, 422);
            assert_eq!(reply.message, "Account already exists");
        }
        _ => panic!("expected a backend failure"),
    }
    assert_eq!(store.get_account("a@x.org".to_string()).unwrap().password, "h1");
    assert!(matches!(store.add_account(account("b@x.org", "h3")), Ok(true)));
    assert_eq!(store.get_account("b@x.org".to_string()).unwrap().id, Some(AccountId(2)));
}

#[test]
fn reading_an_account_twice_gives_the_same_fields() {
    let mut store = Store::new();
    store.add_account(account("a@x.org", "h1")).unwrap();
    store.add_account(account("b@x.org", "h2")).unwrap();
    let first = store.get_account("b@x.org".to_string()).unwrap();
    let second = store.get_account("b@x.org".to_string()).unwrap();
    assert_eq!(first.id, second.id);
    assert_eq!(first.email, second.email);
    assert_eq!(first.password, second.password);
    assert_eq!(first.id, Some(AccountId(2)));
    assert_eq!(first.password, "h2");
}

#[test]
fn missing_account_is_row_not_found() {
    let store = Store::new();
    let r = store.get_account("nobody@x.org".to_string());
    assert!(matches!(r, Err(Error::DatabaseQueryError(DbError::RowNotFound))));
}

#[test]
fn password_reset_overwrites_the_hash() {
    let mut store = Store::new();
    store.add_account(account("a@x.org", "old")).unwrap();
    store.reset_password(account("a@x.org", "ignored"), "new".to_string()).unwrap();
    let a = store.get_account("a@x.org".to_string()).unwrap();
    assert_eq!(a.password, "new");
    assert_eq!(a.id, Some(AccountId(1)));
    assert!(store.reset_password(account("z@x.org", ""), "n".to_string()).is_ok());
    assert!(store.get_account("z@x.org".to_string()).is_err());
}
