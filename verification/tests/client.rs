use quanta::api::{decode_login, decode_machines, login_request, machines_request, request,
    ApiError, Machine, Method, RawResponse, StaticData, User, UserData};
use quanta::json::{parse_json, to_text, Json};

fn raw(status: u16, body: &str) -> RawResponse {
    RawResponse { status, body: body.to_string() }
}

fn session(token: &str) -> UserData {
    UserData {
        user: User {
            username: "alice".to_string(),
            uuid: "u1".to_string(),
            avatar: "a".to_string(),
            banner: "b".to_string(),
            created_at: 0,
            updated_at: 0,
        },
        token: token.to_string(),
    }
}

#[test]
fn login_ok_scenario() {
    let body = r#"{"user":{"username":"alice","uuid":"u1","avatar":"a","banner":"b","created_at":0,"updated_at":0},"token":"tok123"}"#;
    let got = decode_login(&raw(200, body)).unwrap();
    assert_eq!(got.token, "tok123");
    assert_eq!(got.user.username, "alice");
    assert_eq!(got.user.uuid, "u1");
    assert_eq!(got.user.avatar, "a");
    assert_eq!(got.user.banner, "b");
    assert_eq!(got.user.created_at, 0);
    assert_eq!(got.user.updated_at, 0);
}

#[test]
fn login_bad_credentials_scenario() {
    let got = decode_login(&raw(401, r#"{"error":"Invalid credentials"}"#));
    assert_eq!(got, Err(ApiError::RemoteError("Invalid credentials".to_string())));
}

#[test]
fn machines_single_scenario() {
    let body = r#"[{"uuid":"m1","owner_uuid":"u1","hardware_uuid":"h1","name":"box","status":"online","created_at":0,"updated_at":0}]"#;
    let got = decode_machines(&raw(200, body)).unwrap();
    assert_eq!(got.len(), 1);
    assert_eq!(got[0].uuid, "m1");
    assert_eq!(got[0].owner_uuid, "u1");
    assert_eq!(got[0].hardware_uuid, "h1");
    assert_eq!(got[0].name, "box");
    assert_eq!(got[0].status, "online");
    assert_eq!(got[0].static_data, None);
    assert_eq!(got[0].access, None);
}

#[test]
fn missing_token_is_decode_error() {
    let body = r#"{"user":{"username":"alice","uuid":"u1","avatar":"a","banner":"b","created_at":0,"updated_at":0}}"#;
    assert_eq!(decode_login(&raw(200, body)), Err(ApiError::DecodeError));
}

#[test]
fn null_token_is_decode_error() {
    let body = r#"{"user":{"username":"alice","uuid":"u1","avatar":"a","banner":"b","created_at":0,"updated_at":0},"token":null}"#;
    assert_eq!(decode_login(&raw(200, body)), Err(ApiError::DecodeError));
}

#[test]
fn any_non_200_with_message_is_remote_error() {
    for status in [400u16, 401, 403, 404, 500, 503] {
        let got = decode_login(&raw(status, r#"{"error":"nope"}"#));
        assert_eq!(got, Err(ApiError::RemoteError("nope".to_string())));
        let got = decode_machines(&raw(status, r#"{"error":"nope"}"#));
        assert_eq!(got, Err(ApiError::RemoteError("nope".to_string())));
    }
}

#[test]
fn non_200_without_message_is_decode_error() {
    assert_eq!(decode_login(&raw(500, "{}")), Err(ApiError::DecodeError));
    assert_eq!(decode_machines(&raw(500, "[]")), Err(ApiError::DecodeError));
}

#[test]
fn malformed_json_is_decode_error() {
    assert_eq!(decode_login(&raw(200, "not json")), Err(ApiError::DecodeError));
    assert_eq!(decode_machines(&raw(200, "{")), Err(ApiError::DecodeError));
    assert_eq!(decode_login(&raw(418, "also not json")), Err(ApiError::DecodeError));
}

#[test]
fn machines_with_full_static_data() {
    let body = r#"[{"uuid":"m2","owner_uuid":"u1","hardware_uuid":"h2","name":"srv","status":"offline","access":["alice","bob"],"created_at":5,"updated_at":9,"static_data":{"hostname":"srv01","os_name":"linux","os_version":"6.1","cpu_cores":8,"cpu_model":"ryzen","cpu_threads":16,"total_mem":1024,"reporter_version":"1.2"}}]"#;
    let got = decode_machines(&raw(200, body)).unwrap();
    assert_eq!(got.len(), 1);
    let m: &Machine = &got[0];
    assert_eq!(m.access, Some(vec!["alice".to_string(), "bob".to_string()]));
    assert_eq!(m.created_at, 5);
    assert_eq!(m.updated_at, 9);
    let d: &StaticData = m.static_data.as_ref().unwrap();
    assert_eq!(d.hostname, "srv01");
    assert_eq!(d.os_name, "linux");
    assert_eq!(d.os_version, Some("6.1".to_string()));
    assert_eq!(d.cpu_cores, 8);
    assert_eq!(d.cpu_model, "ryzen");
    assert_eq!(d.cpu_threads, 16);
    assert_eq!(d.total_mem, Some(1024));
    assert_eq!(d.reporter_version, Some("1.2".to_string()));
}

#[test]
fn machines_with_null_optionals() {
    let body = r#"[{"uuid":"m3","owner_uuid":"u1","hardware_uuid":"h3","name":"pc","status":"online","access":null,"created_at":0,"updated_at":0,"static_data":null}]"#;
    let got = decode_machines(&raw(200, body)).unwrap();
    assert_eq!(got[0].access, None);
    assert_eq!(got[0].static_data, None);
}

#[test]
fn machines_with_empty_access_list() {
    let body = r#"[{"uuid":"m4","owner_uuid":"u1","hardware_uuid":"h4","name":"pc","status":"online","access":[],"created_at":0,"updated_at":0}]"#;
    let got = decode_machines(&raw(200, body)).unwrap();
    assert_eq!(got[0].access, Some(vec![]));
}

#[test]
fn login_with_malformed_user_is_decode_error() {
    let body = r#"{"user":{"username":"alice"},"token":"tok123"}"#;
    assert_eq!(decode_login(&raw(200, body)), Err(ApiError::DecodeError));
}

#[test]
fn machine_with_ill_typed_field_is_decode_error() {
    let body = r#"[{"uuid":7,"owner_uuid":"u1","hardware_uuid":"h1","name":"box","status":"online","created_at":0,"updated_at":0}]"#;
    assert_eq!(decode_machines(&raw(200, body)), Err(ApiError::DecodeError));
    let body = r#"[{"uuid":"m1","owner_uuid":"u1","hardware_uuid":"h1","name":"box","status":"online","access":["ok",3],"created_at":0,"updated_at":0}]"#;
    assert_eq!(decode_machines(&raw(200, body)), Err(ApiError::DecodeError));
    let body = r#"[{"uuid":"m1","owner_uuid":"u1","hardware_uuid":"h1","name":"box","status":"online","created_at":0,"updated_at":0,"static_data":{"hostname":"h","os_name":"l","cpu_cores":70000,"cpu_model":"c","cpu_threads":2}}]"#;
    assert_eq!(decode_machines(&raw(200, body)), Err(ApiError::DecodeError));
}

#[test]
fn login_request_shape() {
    let req = login_request("http://stub", "alice", "secret");
    assert_eq!(req.method, Method::Post);
    assert_eq!(req.url, "http://stub/users/@login");
    assert_eq!(
        req.headers,
        vec![
            ("Content-Type".to_string(), "application/json".to_string()),
            ("Authorization".to_string(), "unset".to_string()),
        ]
    );
    let body = req.body.unwrap();
    assert_eq!(body, r#"{"password":"secret","username":"alice"}"#);
}

#[test]
fn machines_request_carries_the_token() {
    let req = machines_request("http://stub", &session("tok123"));
    assert_eq!(req.method, Method::Get);
    assert_eq!(req.url, "http://stub/users/@me/machines");
    assert_eq!(req.headers, vec![("Authorization".to_string(), "tok123".to_string())]);
    assert_eq!(req.body, None);
}

#[test]
fn unsupported_method_is_refused() {
    let got = request("http://stub", "PUT", "users/@login", &Json::Null, &None);
    assert_eq!(got, Err(ApiError::UnsupportedMethod));
    let got = request("http://stub", "get", "users/@me/machines", &Json::Null, &None);
    assert_eq!(got, Err(ApiError::UnsupportedMethod));
}

#[test]
fn dispatch_get_and_post() {
    let got = request("http://stub", "GET", "users/@me/machines", &Json::Null, &Some(session("t"))).unwrap();
    assert_eq!(got.method, Method::Get);
    assert_eq!(got.headers, vec![("Authorization".to_string(), "t".to_string())]);
    assert_eq!(got.body, None);
    let got = request("http://stub", "POST", "users/@login", &Json::Bool(true), &None).unwrap();
    assert_eq!(got.method, Method::Post);
    assert_eq!(got.body, Some("true".to_string()));
}

#[test]
fn json_round_trip() {
    let j = Json::Obj(vec![(
        "a".to_string(),
        Json::Arr(vec![Json::Int(1), Json::Bool(true), Json::Null, Json::Str("x".to_string())]),
    )]);
    let t = to_text(&j);
    assert_eq!(t, r#"{"a":[1,true,null,"x"]}"#);
    let p = parse_json(&t).unwrap();
    assert_eq!(to_text(&p), t);
}

#[test]
fn parse_rejects_what_has_no_form() {
    assert!(parse_json("{").is_none());
    assert!(parse_json("1.5").is_none());
    assert!(parse_json("18446744073709551615").is_none());
    assert!(parse_json("\"ok\"").is_some());
}

#[test]
fn error_messages() {
    assert_eq!(ApiError::RemoteError("down".to_string()).message(), "down");
    assert_eq!(ApiError::TransportError("refused".to_string()).message(), "refused");
    assert_eq!(ApiError::DecodeError.message(), "invalid response from the backend");
    assert_eq!(ApiError::UnsupportedMethod.message(), "unsupported method");
}
