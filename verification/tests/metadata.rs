use earmaster::metadata::Metadata;

#[test]
fn new_metadata_is_empty() {
    let metadata = Metadata::new();
    assert!(metadata.keys().is_empty());
    assert_eq!(metadata.get("genre"), None);
}

#[test]
fn insert_then_get() {
    let mut metadata = Metadata::new();
    metadata.insert("genre".to_string(), vec!["jazz".to_string(), "blues".to_string()]);
    metadata.insert("instrument".to_string(), vec!["voice".to_string()]);
    assert_eq!(metadata.get("genre"), Some(&vec!["jazz".to_string(), "blues".to_string()]));
    assert_eq!(metadata.get("instrument"), Some(&vec!["voice".to_string()]));
    assert_eq!(metadata.get("key"), None);
    assert_eq!(metadata.keys(), vec!["genre".to_string(), "instrument".to_string()]);
}

#[test]
fn insert_replaces_the_values_of_a_key() {
    let mut metadata = Metadata::new();
    metadata.insert("genre".to_string(), vec!["jazz".to_string()]);
    metadata.insert("instrument".to_string(), vec!["voice".to_string()]);
    metadata.insert("genre".to_string(), vec!["folk".to_string()]);
    assert_eq!(metadata.get("genre"), Some(&vec!["folk".to_string()]));
    assert_eq!(metadata.get("instrument"), Some(&vec!["voice".to_string()]));
    assert_eq!(metadata.keys(), vec!["genre".to_string(), "instrument".to_string()]);
}

#[test]
fn a_key_may_have_no_values() {
    let mut metadata = Metadata::new();
    metadata.insert("genre".to_string(), vec![]);
    assert_eq!(metadata.get("genre"), Some(&vec![]));
    assert_eq!(metadata.keys(), vec!["genre".to_string()]);
}

#[test]
fn clone_copies_keys_and_values() {
    let mut metadata = Metadata::new();
    metadata.insert("genre".to_string(), vec!["jazz".to_string()]);
    let copy = metadata.clone();
    metadata.insert("genre".to_string(), vec!["folk".to_string()]);
    metadata.insert("key".to_string(), vec!["C".to_string()]);
    assert_eq!(copy.get("genre"), Some(&vec!["jazz".to_string()]));
    assert_eq!(copy.get("key"), None);
    assert_eq!(copy.keys(), vec!["genre".to_string()]);
}

#[test]
fn keys_come_in_the_order_in_which_they_were_first_set() {
    let mut metadata = Metadata::new();
    metadata.insert("scale".to_string(), vec!["major".to_string()]);
    metadata.insert("genre".to_string(), vec!["jazz".to_string()]);
    metadata.insert("instrument".to_string(), vec![]);
    metadata.insert("genre".to_string(), vec!["folk".to_string()]);
    assert_eq!(
        metadata.keys(),
        vec!["scale".to_string(), "genre".to_string(), "instrument".to_string()]
    );
    assert_eq!(metadata.clone().keys(), metadata.keys());
}
