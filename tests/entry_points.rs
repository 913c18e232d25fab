use hello_world::{init, say_hello};

#[test]
fn init_succeeds_with_empty_state() {
    assert_eq!(init(), Ok(()));
}

#[test]
fn say_hello_answers_with_greeting() {
    let _ = init();
    assert_eq!(say_hello(), Ok("Hello, World!".to_string()));
}

#[test]
fn say_hello_answer_is_exact_bytes() {
    let answer = say_hello().unwrap();
    assert_eq!(answer.as_bytes(), b"Hello, World!");
    assert_eq!(answer.len(), 13);
}

#[test]
fn say_hello_repeated_calls_agree() {
    assert_eq!(init(), Ok(()));
    let first = say_hello();
    for _ in 0..10 {
        assert_eq!(say_hello(), first);
    }
    assert_eq!(first, Ok("Hello, World!".to_string()));
}

#[test]
fn say_hello_before_and_after_init_agree() {
    let before = say_hello();
    assert_eq!(init(), Ok(()));
    let after = say_hello();
    assert_eq!(before, after);
    assert_eq!(after, Ok("Hello, World!".to_string()));
}
