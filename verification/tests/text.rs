use earmaster::error::BuildError;
use earmaster::text::{copy_strings, own_strings};

#[test]
fn copy_strings_copies_in_order() {
    let strings = vec!["b".to_string(), "a".to_string(), "b".to_string()];
    assert_eq!(copy_strings(&strings), strings);
    assert_eq!(copy_strings(&vec![]), Vec::<String>::new());
}

#[test]
fn own_strings_keeps_order_and_repeats() {
    assert_eq!(
        own_strings(&vec!["1.2", "1.5", "1.2"]),
        vec!["1.2".to_string(), "1.5".to_string(), "1.2".to_string()]
    );
    assert_eq!(own_strings(&vec![]), Vec::<String>::new());
}

#[test]
fn an_error_and_its_clone_are_equal() {
    let errors = vec![
        BuildError::InvalidIdentifier("c".to_string(), "".to_string()),
        BuildError::DuplicateLessonId("1.1".to_string()),
        BuildError::UnknownDependency("1.2".to_string(), "9.9".to_string()),
        BuildError::DependencyCycle(vec!["A".to_string(), "B".to_string()]),
    ];
    for error in &errors {
        assert_eq!(&error.clone(), error);
    }
    assert_ne!(errors[1], errors[2]);
    assert_ne!(
        BuildError::UnknownDependency("1.2".to_string(), "9.9".to_string()),
        BuildError::UnknownDependency("9.9".to_string(), "1.2".to_string())
    );
}
