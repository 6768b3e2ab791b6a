use rippling_client::error::ClientError;
use rippling_client::http::Response;
use serde_json::Value;

#[test]
fn rejected_status_becomes_status_error_not_decode() {
    // A 404 with a JSON error body classifies as a rejected status; the
    // body is carried for diagnostics and never decoded into the target.
    let body = br#"{"detail": "Not found."}"#.to_vec();
    let res = Response::new(404, body.clone());
    match res.parse_json::<Value>() {
        Err(ClientError::Status(status, carried)) => {
            assert_eq!(status, 404);
            assert_eq!(carried, body);
        }
        other => panic!("expected a rejected-status error, got {:?}", other),
    }
}

#[test]
fn accepted_status_decodes_valid_body() {
    let res = Response::new(200, br#"[1, 2, 3]"#.to_vec());
    let v = res.parse_json::<Value>().unwrap();
    assert_eq!(v.as_array().unwrap().len(), 3);
}

#[test]
fn created_status_is_accepted_by_default() {
    let res = Response::new(201, br#"{"ok": true}"#.to_vec());
    assert!(res.parse_json::<Value>().is_ok());
}

#[test]
fn accepted_status_with_bad_body_is_a_decode_error() {
    let res = Response::new(200, b"not json at all".to_vec());
    match res.parse_json::<Value>() {
        Err(ClientError::Decode(_)) => {}
        other => panic!("expected a decode error, got {:?}", other),
    }
}

#[test]
fn widening_accept_states_changes_exactly_the_added_status() {
    // 204 is rejected under the default set.
    let res = Response::new(204, b"null".to_vec());
    assert!(matches!(
        res.parse_json::<Value>(),
        Err(ClientError::Status(204, _))
    ));
    // Widened to {200, 201, 204}, the same response is decoded.
    let res = Response::new(204, b"null".to_vec()).accept_states(vec![200, 201, 204]);
    assert!(res.parse_json::<Value>().is_ok());
    // A status the widening did not add classifies as before.
    let res = Response::new(404, b"null".to_vec()).accept_states(vec![200, 201, 204]);
    assert!(matches!(
        res.parse_json::<Value>(),
        Err(ClientError::Status(404, _))
    ));
}

#[test]
fn status_and_into_error_expose_the_raw_response() {
    let res = Response::new(500, b"oops".to_vec());
    assert_eq!(res.status(), 500);
    let err = res.into_error();
    assert_eq!(err.status_code(), Some(500));
    match err {
        ClientError::Status(status, body) => {
            assert_eq!(status, 500);
            assert_eq!(body, b"oops".to_vec());
        }
        other => panic!("expected a rejected-status error, got {:?}", other),
    }
    assert_eq!(ClientError::Decode("x".to_string()).status_code(), None);
}

#[test]
fn leave_requests_body_parses_into_two_records_in_order() {
    let body = br#"[
        {"isDeleted": false, "startDate": "2022-06-09", "endDate": "2022-06-10",
         "status": "APPROVED", "leaveTypeName": "Vacation"},
        {"isDeleted": false, "startDate": "2022-05-23", "endDate": "2022-05-24",
         "status": "APPROVED", "leaveTypeName": "Sick"}
    ]"#
    .to_vec();
    let res = Response::new(200, body);
    let v = res.parse_json::<Value>().unwrap();
    let records = v.as_array().unwrap();
    assert_eq!(records.len(), 2);
    let days: Vec<&str> = records
        .iter()
        .map(|r| r.get("startDate").unwrap().as_str().unwrap())
        .collect();
    assert_eq!(days, vec!["2022-06-09", "2022-05-23"]);
}

#[test]
fn holiday_calendar_body_parses_nine_year_groups() {
    let mut groups: Vec<String> = Vec::new();
    for year in 2019..2028 {
        let count: usize = if year == 2023 { 13 } else { 1 };
        let firsts = ["01-01", "01-06", "04-07"];
        let mut holidays: Vec<String> = Vec::new();
        for i in 0..count {
            let day = if i < 3 { firsts[i] } else { "12-25" };
            holidays.push(format!(
                r#"{{"name": "Holiday {}", "type": "public", "startDate": "{}-{}",
                    "endDate": "{}-{}", "shouldCountTowardHoursWorkedForOvertime": false}}"#,
                i, year, day, year, day
            ));
        }
        groups.push(format!(
            r#"{{"year": {}, "holidays": [{}]}}"#,
            year,
            holidays.join(",")
        ));
    }
    let body = format!("[{}]", groups.join(",")).into_bytes();

    let res = Response::new(200, body);
    let v = res.parse_json::<Value>().unwrap();
    let years = v.as_array().unwrap();
    assert_eq!(years.len(), 9);
    let y2023 = years
        .iter()
        .find(|g| g.get("year").unwrap().as_u64() == Some(2023))
        .unwrap();
    let holidays = y2023.get("holidays").unwrap().as_array().unwrap();
    assert_eq!(holidays.len(), 13);
    let days: Vec<&str> = holidays
        .iter()
        .take(3)
        .map(|h| h.get("startDate").unwrap().as_str().unwrap())
        .collect();
    assert_eq!(days, vec!["2023-01-01", "2023-01-06", "2023-04-07"]);
}
