use verily::greeting::{greet, hello_world};

#[test]
fn greet_names_the_caller() {
    assert_eq!(greet("Tom".to_string()), "Hello, Tom!");
    assert_eq!(greet(String::new()), "Hello, !");
}

#[test]
fn hello_world_always_answers() {
    assert_eq!(hello_world(), Ok("Hello, world!".to_string()));
}
