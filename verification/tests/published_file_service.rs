//! Tests of the `GetDetails` endpoint: URL assembly, structural
//! resolution of the payload and error mapping.

use steam_rs::Steam;
use steam_rs::errors::PublishedFileServiceError;
use steam_rs::published_file_service::get_details::{
    FileDetailResult, RawFileDetail, finish_get_details, resolve_detail, resolve_details,
};

fn raw_valid(id: &str) -> RawFileDetail {
    RawFileDetail {
        result: 1,
        published_file_id: id.to_owned(),
        language: None,
        creator: Some("76561198000000000".to_owned()),
        filename: Some("map.bsp".to_owned()),
        title: Some("A map".to_owned()),
        description: Some("A community map".to_owned()),
        time_created: Some(1700000000),
        time_updated: Some(1700000500),
    }
}

fn raw_invalid(id: &str) -> RawFileDetail {
    RawFileDetail {
        result: 9,
        published_file_id: id.to_owned(),
        language: Some(0),
        creator: None,
        filename: None,
        title: None,
        description: None,
        time_created: None,
        time_updated: None,
    }
}

fn raw_neither(id: &str) -> RawFileDetail {
    RawFileDetail {
        result: 9,
        published_file_id: id.to_owned(),
        language: None,
        creator: None,
        filename: None,
        title: None,
        description: None,
        time_created: None,
        time_updated: None,
    }
}

#[test]
fn client_handle_stores_the_key() {
    let steam = Steam::new("KEY");
    assert_eq!(steam.api_key, "KEY");
}

#[test]
fn get_details_url_is_assembled_in_query_order() {
    let steam = Steam::new("KEY");
    let url = steam.get_details_url(
        &vec![10, 20],
        true,
        false,
        true,
        false,
        true,
        false,
        true,
        false,
        Some(-3),
        10,
        440,
        true,
        None,
        Some(true),
        false,
    );
    assert_eq!(
        url,
        "https://api.steampowered.com/IPublishedFileService/GetDetails/v1/\
         ?key=KEY\
         &publishedfileids[0]=10&publishedfileids[1]=20\
         &includetags=true\
         &includeadditionalpreviews=false\
         &includechildren=true\
         &includekvtags=false\
         &include_votes=true\
         &short_description=false\
         &includeforsaledata=true\
         &includemetadata=false\
         &return_playtime_stats=10\
         &appid=440\
         &strip_description_bbcode=true\
         &admin_query=false\
         &language=-3\
         &includereactions=true"
    );
}

#[test]
fn resolve_prefers_the_valid_shape() {
    let resolved = resolve_detail(raw_valid("3345507915"));
    assert!(matches!(resolved, Some(FileDetailResult::Valid(_))));
}

#[test]
fn resolve_falls_back_to_the_invalid_shape() {
    let resolved = resolve_detail(raw_invalid("1"));
    match resolved {
        Some(FileDetailResult::Invalid(invalid)) => {
            assert_eq!(invalid.result, 9);
            assert_eq!(invalid.published_file_id, "1");
            assert_eq!(invalid.language, 0);
        }
        other => panic!("expected the invalid shape, got {:?}", other),
    }
}

#[test]
fn resolve_rejects_an_entry_that_fits_neither_shape() {
    assert_eq!(resolve_detail(raw_neither("1")), None);
}

#[test]
fn mixed_ids_resolve_to_one_entry_each() {
    let requested = ["3345507915", "1"];
    let raw = vec![raw_valid(requested[0]), raw_invalid(requested[1])];
    let resolved = resolve_details(raw).expect("both entries fit a shape");
    assert_eq!(requested.len(), resolved.len());
    assert!(matches!(resolved[0], FileDetailResult::Valid(_)));
    assert!(matches!(resolved[1], FileDetailResult::Invalid(_)));
}

#[test]
fn a_single_unshaped_entry_fails_the_whole_payload() {
    let raw = vec![raw_valid("2"), raw_neither("1")];
    assert_eq!(resolve_details(raw), None);
}

#[test]
fn transport_failure_maps_to_the_endpoint_error() {
    let outcome = finish_get_details(Err("connection refused".to_owned()));
    assert_eq!(
        outcome,
        Err(PublishedFileServiceError::GetDetails("connection refused".to_owned()))
    );
}

#[test]
fn unshaped_payload_maps_to_the_endpoint_error() {
    let outcome = finish_get_details(Ok(vec![raw_neither("1")]));
    match outcome {
        Err(PublishedFileServiceError::GetDetails(message)) => {
            assert_eq!(
                message,
                "payload entry matches neither the valid nor the invalid file shape"
            );
        }
        other => panic!("expected the GetDetails error kind, got {:?}", other),
    }
}

#[test]
fn well_shaped_payload_completes_with_details() {
    let details = finish_get_details(Ok(vec![raw_valid("10"), raw_invalid("11")]))
        .expect("a well-shaped payload completes");
    assert_eq!(details.published_file_details.len(), 2);
    match &details.published_file_details[0] {
        FileDetailResult::Valid(file) => {
            assert_eq!(file.published_file_id, "10");
            assert_eq!(file.title, "A map");
            assert_eq!(file.time_created, 1700000000);
        }
        other => panic!("expected the valid shape, got {:?}", other),
    }
}

#[test]
fn error_carries_its_message() {
    let error = PublishedFileServiceError::GetDetails("boom".to_owned());
    assert_eq!(error.message(), "boom");
    let error = PublishedFileServiceError::QueryFiles("lost".to_owned());
    assert_eq!(error.message(), "lost");
}
