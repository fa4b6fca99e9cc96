use replaylist::json::Json;
use replaylist::model::{Provider, TransferError};

fn obj(pairs: Vec<(&str, Json)>) -> Json {
    Json::Obj(
        pairs
            .into_iter()
            .map(|(k, v)| (String::from(k), v))
            .collect(),
    )
}

#[test]
fn object_lookup_takes_the_first_binding() {
    let j = obj(vec![
        ("id", Json::Str(String::from("first"))),
        ("id", Json::Str(String::from("second"))),
    ]);
    let v = j.get("id").expect("key present");
    assert_eq!(v.as_str().expect("a string").as_str(), "first");
}

#[test]
fn object_lookup_misses_absent_keys_and_non_objects() {
    let j = obj(vec![("name", Json::Null)]);
    assert!(j.get("id").is_none());
    assert!(Json::Str(String::from("x")).get("id").is_none());
    assert!(Json::Null.get("id").is_none());
}

#[test]
fn array_index_respects_bounds() {
    let j = Json::Arr(vec![Json::Num(1), Json::Num(2)]);
    assert_eq!(j.at(0).and_then(|v| v.as_num()), Some(1));
    assert_eq!(j.at(1).and_then(|v| v.as_num()), Some(2));
    assert!(j.at(2).is_none());
    assert!(Json::Null.at(0).is_none());
}

#[test]
fn scalar_readers_reject_other_shapes() {
    assert!(Json::Num(7).as_str().is_none());
    assert_eq!(Json::Num(7).as_num(), Some(7));
    assert!(Json::Str(String::from("7")).as_num().is_none());
    assert!(Json::Bool(true).as_num().is_none());
}

#[test]
fn missing_credential_message_names_each_provider() {
    let apple = TransferError::MissingCredential(Provider::Apple);
    let spotify = TransferError::MissingCredential(Provider::Spotify);
    let youtube = TransferError::MissingCredential(Provider::YouTube);
    assert_eq!(apple.message(), "not authenticated for apple");
    assert_eq!(spotify.message(), "not authenticated for spotify");
    assert_eq!(youtube.message(), "not authenticated for youtube");
}
