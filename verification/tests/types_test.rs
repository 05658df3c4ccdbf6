use authdog::{
    from_str, Email, ErrorResponse, Meta, Names, ParseError, Photo, Session, User,
    UserInfoResponse, Verification,
};

#[test]
fn test_user_info_response_deserialization() {
    let json_string = r#"
    {
        "meta": {
            "code": 200,
            "message": "Success"
        },
        "session": {
            "remainingSeconds": 3600
        },
        "user": {
            "id": "user123",
            "externalId": "ext123",
            "userName": "testuser",
            "displayName": "Test User",
            "nickName": "test",
            "profileUrl": "https://example.com/profile",
            "title": "Developer",
            "userType": "employee",
            "preferredLanguage": "en",
            "locale": "en-US",
            "timezone": "UTC",
            "active": true,
            "names": {
                "id": "name123",
                "formatted": "Test User",
                "familyName": "User",
                "givenName": "Test",
                "middleName": "Middle",
                "honorificPrefix": "Mr.",
                "honorificSuffix": "Jr."
            },
            "photos": [
                {
                    "id": "photo123",
                    "value": "https://example.com/photo.jpg",
                    "type": "profile"
                }
            ],
            "phoneNumbers": [],
            "addresses": [],
            "emails": [
                {
                    "id": "email123",
                    "value": "test@example.com",
                    "type": "work"
                }
            ],
            "verifications": [
                {
                    "id": "verification123",
                    "email": "test@example.com",
                    "verified": true,
                    "createdAt": "2023-01-01T00:00:00Z",
                    "updatedAt": "2023-01-01T00:00:00Z"
                }
            ],
            "provider": "test",
            "createdAt": "2023-01-01T00:00:00Z",
            "updatedAt": "2023-01-01T00:00:00Z",
            "environmentId": "env123"
        }
    }
    "#;

    let result: Result<UserInfoResponse, _> = from_str(json_string);
    assert!(result.is_ok());

    let user_info = result.unwrap();
    assert_eq!(user_info.meta.code, 200);
    assert_eq!(user_info.meta.message, "Success");
    assert_eq!(user_info.session.remaining_seconds, 3600);
    assert_eq!(user_info.user.id, "user123");
    assert_eq!(user_info.user.external_id, "ext123");
    assert_eq!(user_info.user.user_name, "testuser");
    assert_eq!(user_info.user.display_name, "Test User");
    assert_eq!(user_info.user.nick_name, Some("test".to_string()));
    assert_eq!(
        user_info.user.profile_url,
        Some("https://example.com/profile".to_string())
    );
    assert_eq!(user_info.user.title, Some("Developer".to_string()));
    assert_eq!(user_info.user.user_type, Some("employee".to_string()));
    assert_eq!(user_info.user.preferred_language, Some("en".to_string()));
    assert_eq!(user_info.user.locale, "en-US");
    assert_eq!(user_info.user.timezone, Some("UTC".to_string()));
    assert!(user_info.user.active);
    assert_eq!(user_info.user.environment_id, "env123");
}

#[test]
fn test_user_info_response_with_null_optional_fields() {
    let json_string = r#"
    {
        "meta": {
            "code": 200,
            "message": "Success"
        },
        "session": {
            "remainingSeconds": 3600
        },
        "user": {
            "id": "user123",
            "externalId": "ext123",
            "userName": "testuser",
            "displayName": "Test User",
            "locale": "en-US",
            "active": true,
            "names": {
                "id": "name123",
                "familyName": "User",
                "givenName": "Test"
            },
            "photos": [],
            "phoneNumbers": [],
            "addresses": [],
            "emails": [],
            "verifications": [],
            "provider": "test",
            "createdAt": "2023-01-01T00:00:00Z",
            "updatedAt": "2023-01-01T00:00:00Z",
            "environmentId": "env123"
        }
    }
    "#;

    let result: Result<UserInfoResponse, _> = from_str(json_string);
    assert!(result.is_ok());

    let user_info = result.unwrap();
    assert_eq!(user_info.user.nick_name, None);
    assert_eq!(user_info.user.profile_url, None);
    assert_eq!(user_info.user.title, None);
    assert_eq!(user_info.user.user_type, None);
    assert_eq!(user_info.user.preferred_language, None);
    assert_eq!(user_info.user.timezone, None);
    assert_eq!(user_info.user.names.formatted, None);
    assert_eq!(user_info.user.names.middle_name, None);
    assert_eq!(user_info.user.names.honorific_prefix, None);
    assert_eq!(user_info.user.names.honorific_suffix, None);
}

#[test]
fn test_meta_deserialization() {
    let json_string = r#"{"code": 200, "message": "Success"}"#;
    let result: Result<Meta, _> = from_str(json_string);
    assert!(result.is_ok());

    let meta = result.unwrap();
    assert_eq!(meta.code, 200);
    assert_eq!(meta.message, "Success");
}

#[test]
fn test_session_deserialization() {
    let json_string = r#"{"remainingSeconds": 3600}"#;
    let result: Result<Session, _> = from_str(json_string);
    assert!(result.is_ok());

    let session = result.unwrap();
    assert_eq!(session.remaining_seconds, 3600);
}

#[test]
fn test_names_deserialization_with_optional_fields() {
    let json_string = r#"
    {
        "id": "name123",
        "formatted": "Test User",
        "familyName": "User",
        "givenName": "Test",
        "middleName": "Middle",
        "honorificPrefix": "Mr.",
        "honorificSuffix": "Jr."
    }
    "#;

    let result: Result<Names, _> = from_str(json_string);
    assert!(result.is_ok());

    let names = result.unwrap();
    assert_eq!(names.id, "name123");
    assert_eq!(names.formatted, Some("Test User".to_string()));
    assert_eq!(names.family_name, "User");
    assert_eq!(names.given_name, "Test");
    assert_eq!(names.middle_name, Some("Middle".to_string()));
    assert_eq!(names.honorific_prefix, Some("Mr.".to_string()));
    assert_eq!(names.honorific_suffix, Some("Jr.".to_string()));
}

#[test]
fn test_photo_deserialization() {
    let json_string = r#"
    {
        "id": "photo123",
        "value": "https://example.com/photo.jpg",
        "type": "profile"
    }
    "#;

    let result: Result<Photo, _> = from_str(json_string);
    assert!(result.is_ok());

    let photo = result.unwrap();
    assert_eq!(photo.id, "photo123");
    assert_eq!(photo.value, "https://example.com/photo.jpg");
    assert_eq!(photo.photo_type, "profile");
}

#[test]
fn test_email_deserialization_with_optional_type() {
    let json_string = r#"
    {
        "id": "email123",
        "value": "test@example.com",
        "type": "work"
    }
    "#;

    let result: Result<Email, _> = from_str(json_string);
    assert!(result.is_ok());

    let email = result.unwrap();
    assert_eq!(email.id, "email123");
    assert_eq!(email.value, "test@example.com");
    assert_eq!(email.email_type, Some("work".to_string()));
}

#[test]
fn test_email_deserialization_without_type() {
    let json_string = r#"
    {
        "id": "email123",
        "value": "test@example.com"
    }
    "#;

    let result: Result<Email, _> = from_str(json_string);
    assert!(result.is_ok());

    let email = result.unwrap();
    assert_eq!(email.id, "email123");
    assert_eq!(email.value, "test@example.com");
    assert_eq!(email.email_type, None);
}

#[test]
fn test_verification_deserialization() {
    let json_string = r#"
    {
        "id": "verification123",
        "email": "test@example.com",
        "verified": true,
        "createdAt": "2023-01-01T00:00:00Z",
        "updatedAt": "2023-01-01T00:00:00Z"
    }
    "#;

    let result: Result<Verification, _> = from_str(json_string);
    assert!(result.is_ok());

    let verification = result.unwrap();
    assert_eq!(verification.id, "verification123");
    assert_eq!(verification.email, "test@example.com");
    assert!(verification.verified);
    assert_eq!(verification.created_at, "2023-01-01T00:00:00Z");
    assert_eq!(verification.updated_at, "2023-01-01T00:00:00Z");
}

#[test]
fn test_error_response_deserialization() {
    let json_string = r#"{"error": "GraphQL query failed"}"#;
    let result: Result<ErrorResponse, _> = from_str(json_string);
    assert!(result.is_ok());

    let error_response = result.unwrap();
    assert_eq!(error_response.error, "GraphQL query failed");
}

#[test]
fn test_types_implement_clone() {
    let user_info = UserInfoResponse {
        meta: Meta {
            code: 200,
            message: "Success".to_string(),
        },
        session: Session {
            remaining_seconds: 3600,
        },
        user: User {
            id: "user123".to_string(),
            external_id: "ext123".to_string(),
            user_name: "testuser".to_string(),
            display_name: "Test User".to_string(),
            nick_name: None,
            profile_url: None,
            title: None,
            user_type: None,
            preferred_language: None,
            locale: "en-US".to_string(),
            timezone: None,
            active: true,
            names: Names {
                id: "name123".to_string(),
                formatted: None,
                family_name: "User".to_string(),
                given_name: "Test".to_string(),
                middle_name: None,
                honorific_prefix: None,
                honorific_suffix: None,
            },
            photos: vec![],
            phone_numbers: vec![],
            addresses: vec![],
            emails: vec![],
            verifications: vec![],
            provider: "test".to_string(),
            created_at: "2023-01-01T00:00:00Z".to_string(),
            updated_at: "2023-01-01T00:00:00Z".to_string(),
            environment_id: "env123".to_string(),
        },
    };

    let cloned = user_info.clone();
    assert_eq!(cloned.meta.code, user_info.meta.code);
    assert_eq!(cloned.user.id, user_info.user.id);
}

#[test]
fn test_types_implement_debug() {
    let meta = Meta {
        code: 200,
        message: "Success".to_string(),
    };

    let debug_string = format!("{:?}", meta);
    assert!(debug_string.contains("200"));
    assert!(debug_string.contains("Success"));
}

#[test]
fn nested_parts_of_the_full_document_are_read() {
    let json_string = r#"{"meta":{"code":200,"message":"Success"},"session":{"remainingSeconds":3600},"user":{"id":"user123","externalId":"ext123","userName":"testuser","displayName":"Test User","locale":"en-US","active":false,"names":{"id":"name123","familyName":"User","givenName":"Test"},"photos":[{"id":"photo-a","value":"https://example.com/1.jpg","type":"profile"},{"id":"photo-b","value":"https://example.com/2.jpg","type":"thumbnail"}],"phoneNumbers":[],"addresses":[],"emails":[{"id":"email-a","value":"a@example.com","type":"work"},{"id":"email-b","value":"b@example.com"}],"verifications":[{"id":"verification-a","email":"a@example.com","verified":false,"createdAt":"2023-01-01T00:00:00Z","updatedAt":"2023-01-02T00:00:00Z"}],"provider":"test","createdAt":"2023-01-01T00:00:00Z","updatedAt":"2023-01-03T00:00:00Z","environmentId":"env123"}}"#;
    let info: UserInfoResponse = from_str(json_string).unwrap();
    assert!(!info.user.active);
    assert_eq!(info.user.names.id, "name123");
    assert_eq!(info.user.names.family_name, "User");
    assert_eq!(info.user.names.given_name, "Test");
    assert_eq!(info.user.photos.len(), 2);
    assert_eq!(info.user.photos[0].id, "photo-a");
    assert_eq!(info.user.photos[1].value, "https://example.com/2.jpg");
    assert_eq!(info.user.photos[1].photo_type, "thumbnail");
    assert_eq!(info.user.emails.len(), 2);
    assert_eq!(info.user.emails[0].email_type, Some("work".to_string()));
    assert_eq!(info.user.emails[1].value, "b@example.com");
    assert_eq!(info.user.emails[1].email_type, None);
    assert_eq!(info.user.verifications.len(), 1);
    assert_eq!(info.user.verifications[0].email, "a@example.com");
    assert!(!info.user.verifications[0].verified);
    assert_eq!(info.user.verifications[0].updated_at, "2023-01-02T00:00:00Z");
    assert_eq!(info.user.provider, "test");
    assert_eq!(info.user.created_at, "2023-01-01T00:00:00Z");
    assert_eq!(info.user.updated_at, "2023-01-03T00:00:00Z");
}

#[test]
fn untyped_elements_are_kept_as_they_came() {
    let json_string = r#"{"id":"u","externalId":"x","userName":"n","displayName":"d","locale":"l","active":true,"names":{"id":"n","familyName":"f","givenName":"g"},"photos":[],"phoneNumbers":[{"value":"+1 555 0100","primary":true},"plain",17,1.5,null,[1,2]],"addresses":[{"city":"Paris","lines":["1 rue A","bis"]}],"emails":[],"verifications":[],"provider":"p","createdAt":"c","updatedAt":"u","environmentId":"e"}"#;
    let user: User = from_str(json_string).unwrap();
    let phones: serde_json::Value = serde_json::from_str(
        r#"[{"value":"+1 555 0100","primary":true},"plain",17,1.5,null,[1,2]]"#,
    )
    .unwrap();
    let addresses: serde_json::Value =
        serde_json::from_str(r#"[{"city":"Paris","lines":["1 rue A","bis"]}]"#).unwrap();
    assert_eq!(serde_json::Value::Array(user.phone_numbers), phones);
    assert_eq!(serde_json::Value::Array(user.addresses), addresses);
}

#[test]
fn an_optional_member_that_is_null_is_absent() {
    let email: Email = from_str(r#"{"id":"e","value":"v","type":null}"#).unwrap();
    assert_eq!(email.email_type, None);
}

#[test]
fn an_optional_member_that_is_empty_stays_an_empty_text() {
    let email: Email = from_str(r#"{"id":"e","value":"v","type":""}"#).unwrap();
    assert_eq!(email.email_type, Some(String::new()));
}

#[test]
fn an_optional_member_of_another_type_is_a_mismatch() {
    let result: Result<Email, _> = from_str(r#"{"id":"e","value":"v","type":7}"#);
    assert!(matches!(result, Err(ParseError::Schema)));
}

#[test]
fn a_missing_required_member_is_a_mismatch() {
    let result: Result<Meta, _> = from_str(r#"{"code": 200}"#);
    assert!(matches!(result, Err(ParseError::Schema)));
    let result: Result<Meta, _> = from_str(r#"{"message": "Success"}"#);
    assert!(matches!(result, Err(ParseError::Schema)));
    let result: Result<Photo, _> = from_str(r#"{"id":"p","value":"v"}"#);
    assert!(matches!(result, Err(ParseError::Schema)));
}

#[test]
fn a_required_member_that_is_null_is_a_mismatch() {
    let result: Result<Meta, _> = from_str(r#"{"code": 200, "message": null}"#);
    assert!(matches!(result, Err(ParseError::Schema)));
    let result: Result<ErrorResponse, _> = from_str(r#"{"error": null}"#);
    assert!(matches!(result, Err(ParseError::Schema)));
}

#[test]
fn a_required_member_of_another_type_is_a_mismatch() {
    let result: Result<Meta, _> = from_str(r#"{"code": "200", "message": "Success"}"#);
    assert!(matches!(result, Err(ParseError::Schema)));
    let result: Result<Meta, _> = from_str(r#"{"code": 200, "message": 5}"#);
    assert!(matches!(result, Err(ParseError::Schema)));
    let result: Result<Verification, _> = from_str(
        r#"{"id":"v","email":"e","verified":"true","createdAt":"c","updatedAt":"u"}"#,
    );
    assert!(matches!(result, Err(ParseError::Schema)));
}

#[test]
fn something_that_is_not_an_object_is_a_mismatch() {
    let result: Result<Meta, _> = from_str("null");
    assert!(matches!(result, Err(ParseError::Schema)));
    let result: Result<Meta, _> = from_str("\"text\"");
    assert!(matches!(result, Err(ParseError::Schema)));
    let result: Result<Session, _> = from_str("3600");
    assert!(matches!(result, Err(ParseError::Schema)));
}

#[test]
fn an_integer_must_fit_in_32_bits() {
    let meta: Meta = from_str(r#"{"code": 2147483647, "message": "m"}"#).unwrap();
    assert_eq!(meta.code, 2147483647);
    let meta: Meta = from_str(r#"{"code": -2147483648, "message": "m"}"#).unwrap();
    assert_eq!(meta.code, -2147483648);
    let meta: Meta = from_str(r#"{"code": 0, "message": "m"}"#).unwrap();
    assert_eq!(meta.code, 0);
    let result: Result<Meta, _> = from_str(r#"{"code": 2147483648, "message": "m"}"#);
    assert!(matches!(result, Err(ParseError::Schema)));
    let result: Result<Meta, _> = from_str(r#"{"code": -2147483649, "message": "m"}"#);
    assert!(matches!(result, Err(ParseError::Schema)));
    let result: Result<Meta, _> = from_str(r#"{"code": 18446744073709551615, "message": "m"}"#);
    assert!(matches!(result, Err(ParseError::Schema)));
    let result: Result<Meta, _> =
        from_str(r#"{"code": 123456789012345678901234567890, "message": "m"}"#);
    assert!(matches!(result, Err(ParseError::Schema)));
}

#[test]
fn a_number_with_a_fraction_is_not_an_integer() {
    let result: Result<Session, _> = from_str(r#"{"remainingSeconds": 3600.0}"#);
    assert!(matches!(result, Err(ParseError::Schema)));
    let result: Result<Session, _> = from_str(r#"{"remainingSeconds": 36e2}"#);
    assert!(matches!(result, Err(ParseError::Schema)));
}

#[test]
fn members_that_the_model_does_not_name_are_ignored() {
    let meta: Meta = from_str(r#"{"code": 1, "message": "m", "extra": [1, 2], "more": {}}"#).unwrap();
    assert_eq!(meta.code, 1);
    assert_eq!(meta.message, "m");
}

#[test]
fn a_list_with_one_bad_element_is_a_mismatch() {
    let json_string = r#"{"id":"u","externalId":"x","userName":"n","displayName":"d","locale":"l","active":true,"names":{"id":"n","familyName":"f","givenName":"g"},"photos":[{"id":"photo-a","value":"v","type":"t"},{"id":"photo-b","value":"v"}],"phoneNumbers":[],"addresses":[],"emails":[],"verifications":[],"provider":"p","createdAt":"c","updatedAt":"u","environmentId":"e"}"#;
    let result: Result<User, _> = from_str(json_string);
    assert!(matches!(result, Err(ParseError::Schema)));
}

#[test]
fn a_list_that_is_missing_or_not_an_array_is_a_mismatch() {
    let missing = r#"{"id":"u","externalId":"x","userName":"n","displayName":"d","locale":"l","active":true,"names":{"id":"n","familyName":"f","givenName":"g"},"photos":[],"addresses":[],"emails":[],"verifications":[],"provider":"p","createdAt":"c","updatedAt":"u","environmentId":"e"}"#;
    let result: Result<User, _> = from_str(missing);
    assert!(matches!(result, Err(ParseError::Schema)));
    let not_an_array = r#"{"id":"u","externalId":"x","userName":"n","displayName":"d","locale":"l","active":true,"names":{"id":"n","familyName":"f","givenName":"g"},"photos":{},"phoneNumbers":[],"addresses":[],"emails":[],"verifications":[],"provider":"p","createdAt":"c","updatedAt":"u","environmentId":"e"}"#;
    let result: Result<User, _> = from_str(not_an_array);
    assert!(matches!(result, Err(ParseError::Schema)));
}

#[test]
fn text_that_is_not_json_is_a_syntax_error_with_the_parsers_message() {
    let result: Result<Meta, _> = from_str("invalid json");
    match result {
        Err(ParseError::Syntax(message)) => {
            assert_eq!(message, "expected value at line 1 column 1");
        }
        _ => panic!("expected a syntax error"),
    }
    let result: Result<Meta, _> = from_str(r#"{"code": 200, "message": "Success""#);
    assert!(matches!(result, Err(ParseError::Syntax(_))));
    let result: Result<Meta, _> = from_str("");
    assert!(matches!(result, Err(ParseError::Syntax(_))));
    let result: Result<Meta, _> = from_str(r#"{"code": 200, "message": "Success"} trailing"#);
    assert!(matches!(result, Err(ParseError::Syntax(_))));
}

#[test]
fn a_parse_error_says_what_went_wrong() {
    let syntax: Result<Meta, _> = from_str("[1, 2");
    let message = syntax.unwrap_err().to_string();
    assert_eq!(message, "EOF while parsing a list at line 1 column 5");
    let schema: Result<Meta, _> = from_str("[1, 2]");
    assert_eq!(
        schema.unwrap_err().to_string(),
        "the document does not have the expected structure"
    );
}

#[test]
fn escapes_in_texts_are_resolved() {
    let meta: Meta = from_str(r#"{"code": 1, "message": "a\"b\\cé\n"}"#).unwrap();
    assert_eq!(meta.message, "a\"b\\c\u{e9}\n");
}

#[test]
fn an_array_is_not_read_as_a_struct() {
    let result: Result<Meta, _> = from_str(r#"[200, "Success"]"#);
    assert!(matches!(result, Err(ParseError::Schema)));
    let result: Result<Session, _> = from_str("[3600]");
    assert!(matches!(result, Err(ParseError::Schema)));
    let result: Result<ErrorResponse, _> = from_str(r#"["GraphQL query failed"]"#);
    assert!(matches!(result, Err(ParseError::Schema)));
    let result: Result<Photo, _> = from_str(r#"["photo123", "https://example.com/photo.jpg", "profile"]"#);
    assert!(matches!(result, Err(ParseError::Schema)));
}

#[test]
fn of_a_member_given_twice_the_last_value_counts() {
    let meta: Meta = from_str(r#"{"code": 200, "message": "first", "code": 404, "message": "last"}"#)
        .unwrap();
    assert_eq!(meta.code, 404);
    assert_eq!(meta.message, "last");

    let email: Email =
        from_str(r#"{"id": "e", "value": "v", "type": "work", "type": null}"#).unwrap();
    assert_eq!(email.email_type, None);
    let email: Email =
        from_str(r#"{"id": "e", "value": "v", "type": null, "type": "home"}"#).unwrap();
    assert_eq!(email.email_type, Some("home".to_string()));

    let result: Result<Meta, _> = from_str(r#"{"code": 200, "message": "fine", "code": "bad"}"#);
    assert!(matches!(result, Err(ParseError::Schema)));
    let meta: Meta = from_str(r#"{"code": "bad", "message": "fine", "code": 200}"#).unwrap();
    assert_eq!(meta.code, 200);

    let error: ErrorResponse =
        from_str(r#"{"error": "x", "error": "GraphQL query failed"}"#).unwrap();
    assert_eq!(error.error, "GraphQL query failed");
}

#[test]
fn untyped_numbers_are_kept_with_their_values() {
    let json_string = r#"{"id":"u","externalId":"x","userName":"n","displayName":"d","locale":"l","active":true,"names":{"id":"n","familyName":"f","givenName":"g"},"photos":[],"phoneNumbers":[0.25, -7.5, 1e3, 18446744073709551615, -9223372036854775808, 123456789012345678901234567890],"addresses":[{"lat": 48.8566, "lon": 2.3522}],"emails":[],"verifications":[],"provider":"p","createdAt":"c","updatedAt":"u","environmentId":"e"}"#;
    let user: User = from_str(json_string).unwrap();
    let phones: serde_json::Value = serde_json::from_str(
        "[0.25, -7.5, 1e3, 18446744073709551615, -9223372036854775808, 123456789012345678901234567890]",
    )
    .unwrap();
    assert_eq!(serde_json::Value::Array(user.phone_numbers.clone()), phones);
    assert_eq!(user.phone_numbers[0].as_f64(), Some(0.25));
    assert_eq!(user.phone_numbers[1].as_f64(), Some(-7.5));
    assert_eq!(user.phone_numbers[2].as_f64(), Some(1000.0));
    assert_eq!(user.phone_numbers[3].as_u64(), Some(18446744073709551615));
    assert_eq!(user.phone_numbers[4].as_i64(), Some(-9223372036854775808));
    assert_eq!(user.addresses[0]["lat"].as_f64(), Some(48.8566));
    assert_eq!(user.addresses[0]["lon"].as_f64(), Some(2.3522));
}
