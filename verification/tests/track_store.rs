use rfid_media_player::track_store::trackstore::{store_of, TrackStoreImplementation};
use rfid_media_player::track_store::{load, Error, Id, TrackPath, TrackStore};

#[test]
fn id_test_display() {
    let id = Id::from("01234");
    let formatted_id = id.to_string();
    assert_eq!(String::from("01234"), formatted_id);
}

#[test]
fn test_deserialize() {
    let yaml = "1234: path/to/track
4321: path/to/track_2";
    let track_store = load(yaml).unwrap();
    let id = String::from("1234").into();
    let track_path = track_store.get_path(&id);
    assert!(track_path.is_some());
    let expected_path = String::from("path/to/track").into();
    assert_eq!(Some(&expected_path), track_path);

    let id = String::from("4321").into();
    let track_path = track_store.get_path(&id);
    assert!(track_path.is_some());
    let expected_path = String::from("path/to/track_2").into();
    assert_eq!(Some(&expected_path), track_path);

    let id = String::from("4").into();
    let track_path = track_store.get_path(&id);
    assert!(track_path.is_none());
}

#[test]
fn test_load_error() {
    let yaml = "error";
    let load_result = load(yaml);
    assert!(load_result.is_err());
    match load_result {
        Err(error) => assert_eq!(
            Error::LoadError(String::from(
                "invalid type: string \"error\", expected a map at line 1 column 1"
            )),
            error
        ),
        Ok(_) => assert!(false, "Expected error found value"),
    }
}

#[test]
fn leading_zeros_count() {
    let track_store = load("\"0012345678\": a.wav\n0000000001: b.wav\n12345678: c.wav").unwrap();
    assert_eq!(
        Some(&TrackPath::from("a.wav")),
        track_store.get_path(&Id::from("0012345678"))
    );
    assert_eq!(
        Some(&TrackPath::from("b.wav")),
        track_store.get_path(&Id::from("0000000001"))
    );
    assert_eq!(None, track_store.get_path(&Id::from("1")));
    assert_eq!(None, track_store.get_path(&Id::from("0012345678 ")));
    assert_eq!(
        Some(&TrackPath::from("c.wav")),
        track_store.get_path(&Id::from("12345678"))
    );
    assert_eq!(None, track_store.get_path(&Id::from("0012345679")));
}

#[test]
fn store_of_entries() {
    let entries = vec![
        (Id::from("1"), TrackPath::from("one")),
        (Id::from("2"), TrackPath::from("two")),
        (Id::from("1"), TrackPath::from("uno")),
    ];
    let track_store = TrackStoreImplementation::from_entries(entries);
    assert_eq!(
        Some(&TrackPath::from("uno")),
        track_store.get_path(&Id::from("1"))
    );
    assert_eq!(
        Some(&TrackPath::from("two")),
        track_store.get_path(&Id::from("2"))
    );
    assert_eq!(None, track_store.get_path(&Id::from("3")));
    let empty = TrackStoreImplementation::from_entries(Vec::new());
    assert_eq!(None, empty.get_path(&Id::from("1")));
}

#[test]
fn store_of_parsed_text() {
    let track_store = store_of(Ok(vec![(Id::from("7"), TrackPath::from("seven"))])).unwrap();
    assert_eq!(
        Some(&TrackPath::from("seven")),
        track_store.get_path(&Id::from("7"))
    );
    match store_of(Err("no map".to_string())) {
        Err(error) => assert_eq!(Error::LoadError("no map".to_string()), error),
        Ok(_) => panic!("a parser error gives no store"),
    }
}

#[test]
fn track_path_conversions() {
    let path = TrackPath::from("path/to/track");
    let text: &str = path.as_ref();
    assert_eq!("path/to/track", text);
    assert_eq!(path, TrackPath::from("path/to/track".to_string()));
    assert_eq!("path/to/track", path.to_string());
    assert!(Id::from("01").same_as(&Id::from("01".to_string())));
    assert!(!Id::from("01").same_as(&Id::from("1")));
}
