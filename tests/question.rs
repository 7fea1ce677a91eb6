use qa_store::error::Error;
use qa_store::question::{Question, QuestionId};

#[test]
fn question_id_from_text() {
    let id = QuestionId::from_str("1").unwrap();
    assert_eq!(id, QuestionId("1".to_string()));
    assert!(matches!(QuestionId::from_str(""), Err(Error::MissingParameters)));
}

#[test]
fn new_question_keeps_its_fields() {
    let q = Question::new(
        QuestionId::from_str("1").unwrap(),
        "1st Question".to_string(),
        "Content of question".to_string(),
        Some(vec!["faq".to_string()]),
    );
    assert_eq!(q.id, QuestionId("1".to_string()));
    assert_eq!(q.title, "1st Question");
    assert_eq!(q.content, "Content of question");
    assert_eq!(q.tags, Some(vec!["faq".to_string()]));
}

#[test]
fn update_title_gives_a_new_question() {
    let mut q = Question::new(
        QuestionId("7".to_string()),
        "old".to_string(),
        "body".to_string(),
        Some(vec!["a".to_string(), "b".to_string()]),
    );
    let u = q.update_title("new".to_string());
    assert_eq!(u.title, "new");
    assert_eq!(u.id, QuestionId("7".to_string()));
    assert_eq!(u.content, "body");
    assert_eq!(u.tags, Some(vec!["a".to_string(), "b".to_string()]));
    assert_eq!(q.title, "old");
}
