use pair_commit_tool::author::Author;
use pair_commit_tool::author_collection::join_all_coauthor_strings;

#[test]
fn models_test_author_initialisation() {
    let _author: Author = Author::new(String::from("Tester"), String::from("tester@test.com"));
}

#[test]
fn test_with_active_state_true() {
    let author = Author::with_active_state(
        String::from("Tester"),
        String::from("tester@test.com"),
        true,
    );
    assert_eq!(true, author.active())
}

#[test]
fn test_with_active_state_false() {
    let author = Author::with_active_state(
        String::from("Tester"),
        String::from("tester@test.com"),
        false,
    );
    assert_eq!(false, author.active())
}

#[test]
fn models_test_author_active_false_default() {
    let author = Author::default();
    assert_eq!(false, author.active())
}

#[test]
fn models_test_name() {
    let name = "Tester".to_string();
    let author = Author::new(name.clone(), "".to_string());
    assert_eq!(&name, author.name());
}

#[test]
fn models_test_email() {
    let email = "tester@test.com".to_string();
    let author = Author::new(email.clone(), "".to_string());
    assert_eq!(&email, author.name());
}

#[test]
fn models_test_author_activate() {
    let mut author = Author::default();
    author.activate();
    assert_eq!(true, author.active())
}

#[test]
fn models_test_author_deactivate() {
    let mut author = Author::with_active_state(String::new(), String::new(), true);
    author.deactivate();
    assert_eq!(false, author.active());
}

#[test]
fn test_author_coauthor_message() {
    let name = String::from("Tester");
    let email = String::from("tester@test.com");
    let author: Author = Author::new(name, email);
    assert_eq!(
        "Co-authored-by: Tester <tester@test.com>",
        author.coauthor_string()
    );
}

#[test]
fn models_test_author_display() {
    let author = Author::new("Tester".to_string(), "tester@test.com".to_string());

    assert_eq!("Tester <tester@test.com>", author.to_string());
}

#[test]
fn models_test_create_author_vec() {
    let mut authors: Vec<Author> = Vec::new();
    let author = Author::default();
    authors.push(author);
    assert_eq!(false, authors.is_empty());
}

#[test]
fn test_join_all_coauthor_strings() {
    let authors = vec![
        Author::new("Tester".to_string(), "tester@test.com".to_string()),
        Author::new("Tester".to_string(), "tester@test.com".to_string()),
    ];
    assert_eq!(
        "Co-authored-by: Tester <tester@test.com>\n\
         Co-authored-by: Tester <tester@test.com>",
        join_all_coauthor_strings(&authors)
    );
}

#[test]
fn mod_test_author_initialisation() {
    let _author: Author = Author::new(String::from("Tester"), String::from("tester@test.com"));
}

#[test]
fn mod_test_author_active_false_default() {
    let author = Author::default();
    assert_eq!(false, author.active())
}

#[test]
fn mod_test_name() {
    let name = "Tester".to_string();
    let author = Author::new(name.clone(), "".to_string());
    assert_eq!(&name, author.name());
}

#[test]
fn mod_test_email() {
    let email = "tester@test.com".to_string();
    let author = Author::new(email.clone(), "".to_string());
    assert_eq!(&email, author.name());
}

#[test]
fn mod_test_author_activate() {
    let mut author = Author::default();
    author.activate();
    assert_eq!(true, author.active())
}

#[test]
fn mod_test_author_deactivate() {
    let mut author = Author::with_active_state(String::new(), String::new(), true);
    author.deactivate();
    assert_eq!(false, author.active());
}

#[test]
fn mod_test_author_display() {
    let author = Author::new("Tester".to_string(), "tester@test.com".to_string());

    assert_eq!("Tester <tester@test.com>", author.to_string());
}

#[test]
fn mod_test_create_author_vec() {
    let mut authors = Vec::new();
    let author = Author::default();
    authors.push(author);
    assert_eq!(false, authors.is_empty());
}

#[test]
fn email_getter_returns_email() {
    let author = Author::new("Tester".to_string(), "tester@test.com".to_string());
    assert_eq!("tester@test.com", author.email());
    assert_eq!("Tester", author.name());
}

#[test]
fn activate_and_deactivate_are_idempotent() {
    let mut author = Author::new("A".to_string(), "a@x.com".to_string());
    author.activate();
    author.activate();
    assert!(author.active());
    author.deactivate();
    author.deactivate();
    assert!(!author.active());
    assert_eq!("A", author.name());
    assert_eq!("a@x.com", author.email());
}

#[test]
fn coauthor_line_keeps_text_as_given() {
    let author = Author::new(" Ann  Lee".to_string(), "".to_string());
    assert_eq!("Co-authored-by:  Ann  Lee <>", author.coauthor_string());
    assert_eq!(" Ann  Lee <>", author.to_string());
}

#[test]
fn join_of_no_authors_is_empty() {
    let authors: Vec<Author> = Vec::new();
    assert_eq!("", join_all_coauthor_strings(&authors));
}
