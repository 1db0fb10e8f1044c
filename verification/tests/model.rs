use serde_json::Value;
use w3w_api::api::{
    AvailableLanguages, Coords, ErrorCode, ErrorResponse, GeoCoords, Language, Payload, Square,
};
use w3w_api::json::{number_member, optional_text_member, text_member};
use w3w_api::text::join;

fn doc(text: &str) -> Value {
    serde_json::from_str(text).unwrap()
}

fn record_doc(nearest_place: &str, map: &str) -> Value {
    doc(&format!(
        "{{\"country\":\"GB\",\"square\":{{\"southwest\":{{\"lat\":51.520847,\"lng\":-0.195543}},\"northeast\":{{\"lat\":51.520874,\"lng\":-0.195499}}}},{}\"coordinates\":{{\"lat\":51.520847,\"lng\":-0.195521}},\"words\":\"filled.count.soap\",\"language\":\"en\",\"map\":\"{}\"}}",
        nearest_place, map
    ))
}

#[test]
fn every_listed_code_is_read_under_its_name() {
    assert!(matches!(ErrorCode::from_name("BadWords"), ErrorCode::BadWords));
    assert!(matches!(ErrorCode::from_name("BadCoordinates"), ErrorCode::BadCoordinates));
    assert!(matches!(ErrorCode::from_name("BadLanguage"), ErrorCode::BadLanguage));
    assert!(matches!(ErrorCode::from_name("BadFormat"), ErrorCode::BadFormat));
    assert!(matches!(ErrorCode::from_name("BadClipToPolygon"), ErrorCode::BadClipToPolygon));
    assert!(matches!(ErrorCode::from_name("MissingWords"), ErrorCode::MissingWords));
    assert!(matches!(ErrorCode::from_name("MissingInput"), ErrorCode::MissingInput));
    assert!(matches!(ErrorCode::from_name("MissingBoundingBox"), ErrorCode::MissingBoundingBox));
    assert!(matches!(ErrorCode::from_name("DuplicateParameter"), ErrorCode::DuplicateParameter));
    assert!(matches!(ErrorCode::from_name("MissingKey"), ErrorCode::MissingKey));
    assert!(matches!(ErrorCode::from_name("InvalidKey"), ErrorCode::InvalidKey));
    assert!(matches!(ErrorCode::from_name("NotFound"), ErrorCode::NotFound));
    assert!(matches!(ErrorCode::from_name("MethodNotAllowed"), ErrorCode::MethodNotAllowed));
    assert!(matches!(ErrorCode::from_name("InternalServerError"), ErrorCode::InternalServerError));
}

#[test]
fn code_names_are_matched_exactly() {
    for name in ["", "badwords", "BadWords ", "BADWORDS", "Bad", "NotFounds", "Teapot"] {
        match ErrorCode::from_name(name) {
            ErrorCode::Unknown(kept) => assert_eq!(kept, name),
            other => panic!("expected the catch-all for {:?}, got {:?}", name, other),
        }
    }
}

#[test]
fn code_is_written_back_under_the_name_it_was_read_from() {
    for name in [
        "BadWords",
        "BadCoordinates",
        "BadLanguage",
        "BadFormat",
        "BadClipToPolygon",
        "MissingWords",
        "MissingInput",
        "MissingBoundingBox",
        "DuplicateParameter",
        "MissingKey",
        "InvalidKey",
        "NotFound",
        "MethodNotAllowed",
        "InternalServerError",
        "SomethingNew",
        "",
    ] {
        assert_eq!(ErrorCode::from_name(name).name(), name);
    }
}

#[test]
fn error_is_read_from_code_and_message() {
    let error = ErrorResponse::from_json(&doc(
        "{\"code\":\"BadCoordinates\",\"message\":\"latitude out of range\",\"extra\":1}",
    ))
    .unwrap();
    assert!(matches!(error.code, ErrorCode::BadCoordinates));
    assert_eq!(error.message, "latitude out of range");
    assert!(ErrorResponse::from_json(&doc("{\"code\":\"BadCoordinates\"}")).is_none());
    assert!(ErrorResponse::from_json(&doc("{\"message\":\"m\"}")).is_none());
    assert!(ErrorResponse::from_json(&doc("{\"code\":1,\"message\":\"m\"}")).is_none());
    assert!(ErrorResponse::from_json(&doc("[\"BadWords\",\"m\"]")).is_none());
    assert!(ErrorResponse::from_json(&doc("{\"error\":{\"code\":\"BadWords\",\"message\":\"m\"}}"))
        .is_none());
}

#[test]
fn position_is_read_from_numbers_and_shown_as_lat_comma_lng() {
    let position = GeoCoords::from_json(&doc("{\"lat\":51.521251,\"lng\":-0.203586}")).unwrap();
    assert_eq!(position.lat, "51.521251");
    assert_eq!(position.lng, "-0.203586");
    assert_eq!(position.to_string(), "51.521251,-0.203586");
}

#[test]
fn numbers_are_written_as_std_writes_doubles() {
    let position = GeoCoords::from_json(&doc("{\"lat\":51,\"lng\":-3.0}")).unwrap();
    assert_eq!(position.lat, 51.0_f64.to_string());
    assert_eq!(position.lng, (-3.0_f64).to_string());
    assert_eq!(position.to_string(), "51,-3");
    let position = GeoCoords::from_json(&doc("{\"lat\":1e-7,\"lng\":1.50}")).unwrap();
    assert_eq!(position.lat, 0.0000001_f64.to_string());
    assert_eq!(position.to_string(), "0.0000001,1.5");
}

#[test]
fn position_needs_both_numbers() {
    assert!(GeoCoords::from_json(&doc("{\"lat\":1.0}")).is_none());
    assert!(GeoCoords::from_json(&doc("{\"lng\":1.0}")).is_none());
    assert!(GeoCoords::from_json(&doc("{\"lat\":\"1.0\",\"lng\":2.0}")).is_none());
    assert!(GeoCoords::from_json(&doc("{\"lat\":1.0,\"lng\":null}")).is_none());
    assert!(GeoCoords::from_json(&doc("[1.0,2.0]")).is_none());
    assert!(GeoCoords::from_json(&doc("null")).is_none());
}

#[test]
fn position_made_by_hand_is_shown_as_it_is() {
    let position = GeoCoords { lat: String::from("51.5"), lng: String::from("-0.12") };
    assert_eq!(position.to_string(), "51.5,-0.12");
    let empty = GeoCoords { lat: String::new(), lng: String::new() };
    assert_eq!(empty.to_string(), ",");
}

#[test]
fn square_is_read_from_two_corners() {
    let square = Square::from_json(&doc(
        "{\"southwest\":{\"lat\":1.0,\"lng\":2.0},\"northeast\":{\"lat\":1.1,\"lng\":2.1}}",
    ))
    .unwrap();
    assert_eq!(square.southwest.to_string(), "1,2");
    assert_eq!(square.northeast.to_string(), "1.1,2.1");
    assert!(Square::from_json(&doc("{\"southwest\":{\"lat\":1.0,\"lng\":2.0}}")).is_none());
    assert!(Square::from_json(&doc(
        "{\"southwest\":{\"lat\":1.0,\"lng\":2.0},\"northeast\":{\"lat\":1.1}}"
    ))
    .is_none());
    assert!(Square::from_json(&doc("{\"southwest\":1,\"northeast\":2}")).is_none());
}

#[test]
fn corners_are_taken_as_they_come() {
    let square = Square::from_json(&doc(
        "{\"southwest\":{\"lat\":9.0,\"lng\":9.0},\"northeast\":{\"lat\":1.0,\"lng\":1.0}}",
    ))
    .unwrap();
    assert_eq!(square.southwest.to_string(), "9,9");
    assert_eq!(square.northeast.to_string(), "1,1");
}

#[test]
fn record_is_read_with_all_its_members() {
    let record = Coords::from_json(&record_doc(
        "\"nearest_place\":\"Bayswater, London\",",
        "https://w3w.co/filled.count.soap",
    ))
    .unwrap();
    assert_eq!(record.country, "GB");
    assert_eq!(record.nearest_place.as_deref(), Some("Bayswater, London"));
    assert_eq!(record.words, "filled.count.soap");
    assert_eq!(record.language, "en");
    assert_eq!(record.map, "https://w3w.co/filled.count.soap");
    assert_eq!(record.square.southwest.to_string(), "51.520847,-0.195543");
    assert_eq!(record.square.northeast.to_string(), "51.520874,-0.195499");
    assert_eq!(record.coordinates.to_string(), "51.520847,-0.195521");
    assert_eq!(record.to_string(), "51.520847,-0.195521");
}

#[test]
fn nearest_place_may_be_missing_or_null() {
    let missing = Coords::from_json(&record_doc("", "https://w3w.co/a.b.c")).unwrap();
    assert_eq!(missing.nearest_place, None);
    let null = Coords::from_json(&record_doc("\"nearest_place\":null,", "https://w3w.co/a.b.c"));
    assert_eq!(null.unwrap().nearest_place, None);
    let number = Coords::from_json(&record_doc("\"nearest_place\":7,", "https://w3w.co/a.b.c"));
    assert!(number.is_none());
}

#[test]
fn link_of_record_is_kept_in_normal_form() {
    let record = Coords::from_json(&record_doc("", "HTTPS://W3W.CO/filled.count.soap")).unwrap();
    assert_eq!(record.map, "https://w3w.co/filled.count.soap");
    let record = Coords::from_json(&record_doc("", "https://w3w.co")).unwrap();
    assert_eq!(record.map, "https://w3w.co/");
}

#[test]
fn record_with_a_link_that_is_no_url_is_not_read() {
    assert!(Coords::from_json(&record_doc("", "filled.count.soap")).is_none());
    assert!(Coords::from_json(&record_doc("", "")).is_none());
}

#[test]
fn record_needs_every_required_member() {
    let full = "{\"country\":\"GB\",\"square\":{\"southwest\":{\"lat\":1.0,\"lng\":2.0},\"northeast\":{\"lat\":1.1,\"lng\":2.1}},\"coordinates\":{\"lat\":1.05,\"lng\":2.05},\"words\":\"a.b.c\",\"language\":\"en\",\"map\":\"https://w3w.co/a.b.c\"}";
    assert!(Coords::from_json(&doc(full)).is_some());
    for key in ["country", "square", "coordinates", "words", "language", "map"] {
        let mut value = doc(full);
        value.as_object_mut().unwrap().remove(key);
        assert!(Coords::from_json(&value).is_none(), "without {}", key);
    }
    for key in ["country", "words", "language", "map"] {
        let mut value = doc(full);
        value.as_object_mut().unwrap().insert(String::from(key), Value::from(1));
        assert!(Coords::from_json(&value).is_none(), "with a number for {}", key);
    }
}

#[test]
fn record_is_shown_as_position_whatever_else_it_holds() {
    let here = Coords::from_json(&record_doc("", "https://w3w.co/a.b.c")).unwrap();
    let there = Coords::from_json(&record_doc("\"nearest_place\":\"X\",", "https://x.example/"));
    assert_eq!(here.to_string(), there.unwrap().to_string());
}

#[test]
fn language_is_read_from_camel_case_members() {
    let language =
        Language::from_json(&doc("{\"code\":\"de\",\"name\":\"German\",\"nativeName\":\"Deutsch\"}"))
            .unwrap();
    assert_eq!(language.code, "de");
    assert_eq!(language.name, "German");
    assert_eq!(language.native_name, "Deutsch");
    assert_eq!(language.to_string(), "German (de)");
    assert!(Language::from_json(&doc(
        "{\"code\":\"de\",\"name\":\"German\",\"native_name\":\"Deutsch\"}"
    ))
    .is_none());
    assert!(Language::from_json(&doc("{\"code\":\"de\",\"name\":\"German\"}")).is_none());
}

#[test]
fn languages_keep_the_order_of_the_reply() {
    let list = AvailableLanguages::from_json(&doc(
        "{\"languages\":[{\"code\":\"zh\",\"name\":\"Chinese\",\"nativeName\":\"中文\"},{\"code\":\"af\",\"name\":\"Afrikaans\",\"nativeName\":\"Afrikaans\"},{\"code\":\"en\",\"name\":\"English\",\"nativeName\":\"English\"}]}",
    ))
    .unwrap();
    assert_eq!(list.languages.len(), 3);
    assert_eq!(list.to_string(), "Chinese (zh),Afrikaans (af),English (en)");
}

#[test]
fn empty_and_single_language_lists_are_shown_without_commas() {
    let none = AvailableLanguages::from_json(&doc("{\"languages\":[]}")).unwrap();
    assert_eq!(none.to_string(), "");
    let one = AvailableLanguages::from_json(&doc(
        "{\"languages\":[{\"code\":\"en\",\"name\":\"English\",\"nativeName\":\"English\"}]}",
    ))
    .unwrap();
    assert_eq!(one.to_string(), "English (en)");
}

#[test]
fn language_list_is_not_read_where_one_entry_does_not_fit() {
    assert!(AvailableLanguages::from_json(&doc(
        "{\"languages\":[{\"code\":\"en\",\"name\":\"English\",\"nativeName\":\"English\"},{\"code\":\"fr\"}]}"
    ))
    .is_none());
    assert!(AvailableLanguages::from_json(&doc("{\"languages\":{}}")).is_none());
    assert!(AvailableLanguages::from_json(&doc("{\"languages\":null}")).is_none());
    assert!(AvailableLanguages::from_json(&doc("{}")).is_none());
    assert!(AvailableLanguages::from_json(&doc("[]")).is_none());
}

#[test]
fn members_are_read_by_kind() {
    let value = doc("{\"s\":\"text\",\"n\":2.5,\"z\":null,\"a\":[],\"o\":{}}");
    assert_eq!(text_member(&value, "s").as_deref(), Some("text"));
    assert_eq!(text_member(&value, "n"), None);
    assert_eq!(text_member(&value, "missing"), None);
    assert_eq!(number_member(&value, "n").as_deref(), Some("2.5"));
    assert_eq!(number_member(&value, "s"), None);
    assert_eq!(number_member(&value, "missing"), None);
    assert_eq!(optional_text_member(&value, "s"), Some(Some(String::from("text"))));
    assert_eq!(optional_text_member(&value, "z"), Some(None));
    assert_eq!(optional_text_member(&value, "missing"), Some(None));
    assert_eq!(optional_text_member(&value, "n"), None);
    assert_eq!(optional_text_member(&value, "a"), None);
    assert_eq!(text_member(&doc("\"s\""), "s"), None);
    assert_eq!(optional_text_member(&doc("[]"), "s"), Some(None));
}

#[test]
fn join_puts_the_separator_between_neighbours_only() {
    assert_eq!(join(&vec![], ","), "");
    assert_eq!(join(&vec![String::from("a")], ","), "a");
    assert_eq!(join(&vec![String::from("a"), String::from("b")], ","), "a,b");
    assert_eq!(
        join(&vec![String::from("a"), String::new(), String::from("c")], ", "),
        "a, , c"
    );
}

#[test]
fn position_as_point_has_longitude_for_x_and_latitude_for_y() {
    let position = GeoCoords::from_json(&doc("{\"lat\":51.5,\"lng\":-0.25}")).unwrap();
    let (x, y) = position.xy();
    assert_eq!(x.parse::<f64>().unwrap(), -0.25);
    assert_eq!(y.parse::<f64>().unwrap(), 51.5);
    let point = geo_types::Point::new(x.parse::<f64>().unwrap(), y.parse::<f64>().unwrap());
    assert_eq!(point.x(), -0.25);
    assert_eq!(point.y(), 51.5);
}
