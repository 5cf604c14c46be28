use earmaster::error::BuildError;
use earmaster::namespace::qualify;

#[test]
fn qualify_joins_with_two_colons() {
    assert_eq!(qualify("course", "1.2"), Ok("course::1.2".to_string()));
}

#[test]
fn qualify_keeps_separators_inside_the_course_id() {
    assert_eq!(
        qualify("trane::music::earmaster::melody_singback", "10.10"),
        Ok("trane::music::earmaster::melody_singback::10.10".to_string())
    );
}

#[test]
fn qualify_is_deterministic() {
    let first = qualify("trane::music", "3.4");
    let second = qualify("trane::music", "3.4");
    assert_eq!(first, second);
    assert_eq!(first, Ok("trane::music::3.4".to_string()));
}

#[test]
fn qualify_is_injective_in_the_short_id() {
    let shorts = ["1", "1.1", "1.10", "11.0", "1::1", ":", "::", "a", "A", " 1", "1 "];
    for (i, first) in shorts.iter().enumerate() {
        for (j, second) in shorts.iter().enumerate() {
            let same = qualify("c", first) == qualify("c", second);
            assert_eq!(same, i == j);
        }
    }
}

#[test]
fn qualify_rejects_an_empty_course_id() {
    assert_eq!(
        qualify("", "1.2"),
        Err(BuildError::InvalidIdentifier("".to_string(), "1.2".to_string()))
    );
}

#[test]
fn qualify_rejects_an_empty_short_id() {
    assert_eq!(
        qualify("course", ""),
        Err(BuildError::InvalidIdentifier("course".to_string(), "".to_string()))
    );
}

#[test]
fn qualify_rejects_two_empty_identifiers() {
    assert_eq!(
        qualify("", ""),
        Err(BuildError::InvalidIdentifier("".to_string(), "".to_string()))
    );
}

#[test]
fn qualify_accepts_text_beyond_ascii() {
    assert_eq!(qualify("écoute", "leçon 1"), Ok("écoute::leçon 1".to_string()));
}
