use jsonschema_core::CompileFailure;
use jsonschema_core::DraftSelector;
use jsonschema_core::DraftVersion;
use jsonschema_core::SchemaDocument;
use jsonschema_core::ValidationOutcome;
use jsonschema_core::compiles;
use jsonschema_core::decimal_string;
use jsonschema_core::ident::assign_identifiers;
use jsonschema_core::matches_schema;
use jsonschema_core::schema_is_valid;
use jsonschema_core::schema_set_is_valid;
use jsonschema_core::schema_set_validates;
use jsonschema_core::schema_validates;
use jsonschema_core::validate;
use jsonschema_core::validate_outcome;

fn json(text: &str) -> serde_json::Value {
    serde_json::from_str(text).unwrap()
}

fn doc(text: &str) -> SchemaDocument {
    SchemaDocument::from_value(json(text))
}

fn object_schema() -> SchemaDocument {
    doc(r#"{"type": "object"}"#)
}

fn address_schema() -> SchemaDocument {
    doc(
        r#"{
        "$id": "https://example.com/address.schema.json",
        "type": "object",
        "properties": {
            "locality": { "type": "string" },
            "region": { "type": "string" },
            "countryName": { "type": "string" }
        },
        "required": [ "locality", "region", "countryName" ]
    }"#,
    )
}

fn user_schema() -> SchemaDocument {
    doc(
        r#"{
        "$id": "https://example.com/user-profile.schema.json",
        "type": "object",
        "properties": {
            "username": { "type": "string" },
            "address": { "$ref": "https://example.com/address.schema.json" }
        },
        "required": [ "username" ]
    }"#,
    )
}

#[test]
fn test_decimal_rendering() {
    assert_eq!(decimal_string(0), "0");
    assert_eq!(decimal_string(7), "7");
    assert_eq!(decimal_string(10), "10");
    assert_eq!(decimal_string(255), "255");
    assert_eq!(decimal_string(90210), "90210");
}

#[test]
fn test_identifier_fallback() {
    // A sole document without `$id` is known by the base identifier.
    let ids = assign_identifiers("B", &vec![object_schema()]);
    assert_eq!(ids, vec!["B".to_string()]);

    // The second of two documents without `$id` gets the decimal suffix.
    let ids = assign_identifiers("B", &vec![object_schema(), object_schema()]);
    assert_eq!(ids, vec!["B".to_string(), "B1".to_string()]);

    // A declared `$id` is used verbatim, wherever the document stands.
    let ids = assign_identifiers(
        "B",
        &vec![object_schema(), address_schema(), object_schema()],
    );
    assert_eq!(
        ids,
        vec![
            "B".to_string(),
            "https://example.com/address.schema.json".to_string(),
            "B2".to_string(),
        ]
    );
}

#[test]
fn test_unresolved_ref_fails() {
    // A `$ref` to an identifier that is not in the set fails to resolve;
    // the loader refuses the retrieval instead of touching the filesystem
    // or network.
    let schema = doc(
        r#"{
        "type": "object",
        "properties": {
            "a": { "$ref": "https://example.com/missing.json" }
        }
    }"#,
    );
    let err = compiles("file:s.json", &vec![schema], DraftVersion::V2020).unwrap_err();
    match err {
        CompileFailure::Collaborator { message, cause } => {
            assert_eq!(
                cause,
                Some("unsupported scheme in https://example.com/missing.json".to_string())
            );
            assert_eq!(
                message,
                "error loading https://example.com/missing.json: \
                 unsupported scheme in https://example.com/missing.json"
            );
        }
        other => panic!("expected a collaborator failure, got {other:?}"),
    }
}

#[test]
fn test_object_schema_round_trip() {
    // Any well-formed object satisfies `{"type": "object"}`; any array
    // fails it, with a diagnostic, and without becoming an error.
    for instance in [r#"{}"#, r#"{"x": "y"}"#, r#"{"hi": ["there"]}"#] {
        let outcome = validate_outcome(
            "file:///schema.json",
            &vec![object_schema()],
            &json(instance),
            DraftVersion::V2020,
        );
        assert!(matches!(outcome, ValidationOutcome::Valid));
    }
    for instance in [r#"[]"#, r#"["x", "y"]"#] {
        let outcome = validate_outcome(
            "file:///schema.json",
            &vec![object_schema()],
            &json(instance),
            DraftVersion::V2020,
        );
        assert!(matches!(outcome, ValidationOutcome::Invalid(_)));
    }
}

#[test]
fn test_unknown_type_fails_every_draft() {
    // `{"type": "nonesuch"}` violates the metaschema of every supported
    // draft.
    let drafts = [
        DraftVersion::V4,
        DraftVersion::V6,
        DraftVersion::V7,
        DraftVersion::V2019,
        DraftVersion::V2020,
    ];
    for draft in drafts {
        let schema = doc(r#"{"type": "nonesuch"}"#);
        assert!(compiles("fail.json", &vec![schema], draft).is_err());
    }
}

#[test]
fn test_draft_selector() {
    let mut selector = DraftSelector::new();
    assert_eq!(selector.get(), DraftVersion::V2020);

    // Each supported token commits the draft it names.
    assert!(selector.set_token("V2019"));
    assert_eq!(selector.get(), DraftVersion::V2019);
    assert!(selector.set_token("V4"));
    assert_eq!(selector.get(), DraftVersion::V4);

    // An unsupported token is rejected and changes nothing.
    assert!(!selector.set_token("NONESUCH"));
    assert_eq!(selector.get(), DraftVersion::V4);

    // Tokens are case-sensitive.
    assert!(!selector.set_token("v2020"));
    assert_eq!(selector.get(), DraftVersion::V4);
}

#[test]
fn test_draft_tokens() {
    let drafts = [
        DraftVersion::V4,
        DraftVersion::V6,
        DraftVersion::V7,
        DraftVersion::V2019,
        DraftVersion::V2020,
    ];
    for draft in drafts {
        let mut selector = DraftSelector::new();
        assert!(selector.set_token(draft.token()));
        assert_eq!(selector.get(), draft);
    }
    assert_eq!(DraftVersion::V2020.token(), "V2020");
}

#[test]
fn test_multi_document_set() {
    // Two documents, the second referring to the first by its `$id`: a user
    // whose embedded address satisfies the address schema validates, one
    // with an invalid embedded address does not.
    let selector = DraftSelector::new();
    let good = json(
        r#"{
        "username": "user123",
        "address": {
            "locality": "Big City",
            "region": "State",
            "countryName": "Country"
        }
    }"#,
    );
    let bad = json(
        r#"{
        "username": "user123",
        "address": {
            "locality": "Big City",
            "countryName": "Country"
        }
    }"#,
    );

    let result = schema_set_validates(
        &selector,
        Some(good),
        Some("https://example.com/user-profile.schema.json"),
        Some(vec![address_schema(), user_schema()]),
    );
    assert_eq!(result.unwrap(), Some(true));

    let result = schema_set_validates(
        &selector,
        Some(bad),
        Some("https://example.com/user-profile.schema.json"),
        Some(vec![address_schema(), user_schema()]),
    );
    assert_eq!(result.unwrap(), Some(false));

    // Both targets in the set are valid schemas.
    assert_eq!(
        schema_set_is_valid(
            &selector,
            Some("https://example.com/user-profile.schema.json"),
            Some(vec![address_schema(), user_schema()]),
        ),
        Some(true)
    );
    assert_eq!(
        schema_set_is_valid(
            &selector,
            Some("https://example.com/address.schema.json"),
            Some(vec![address_schema(), user_schema()]),
        ),
        Some(true)
    );

    // A target absent from the set is not.
    assert_eq!(
        schema_set_is_valid(
            &selector,
            Some("https://example.com/nonesuch.schema.json"),
            Some(vec![address_schema(), user_schema()]),
        ),
        Some(false)
    );
}

#[test]
fn test_absent_inputs_yield_no_verdict() {
    // When the schema or the instance is absent there is no verdict and
    // no error, whatever the other inputs hold.
    let selector = DraftSelector::new();

    assert_eq!(schema_is_valid(&selector, None), None);
    assert!(schema_is_valid(&selector, Some(object_schema())).is_some());

    assert_eq!(schema_set_is_valid(&selector, None, None), None);
    assert_eq!(
        schema_set_is_valid(&selector, None, Some(vec![object_schema()])),
        None
    );
    assert_eq!(schema_set_is_valid(&selector, Some("x"), None), None);

    let ok: Option<bool> = schema_validates(&selector, None, Some(object_schema())).unwrap();
    assert_eq!(ok, None);
    let ok: Option<bool> = schema_validates(&selector, Some(json(r#"{}"#)), None).unwrap();
    assert_eq!(ok, None);

    // Even a schema that cannot compile raises nothing while the instance
    // is absent.
    let broken = doc(r#"{"type": "nonesuch"}"#);
    let ok: Option<bool> = schema_validates(&selector, None, Some(broken)).unwrap();
    assert_eq!(ok, None);

    let ok: Option<bool> = matches_schema(&selector, Some(object_schema()), None).unwrap();
    assert_eq!(ok, None);

    let ok: Option<bool> =
        schema_set_validates(&selector, None, Some("x"), Some(vec![object_schema()])).unwrap();
    assert_eq!(ok, None);
    let ok: Option<bool> =
        schema_set_validates(&selector, Some(json(r#"{}"#)), None, Some(vec![object_schema()]))
            .unwrap();
    assert_eq!(ok, None);
    let ok: Option<bool> = schema_set_validates(&selector, Some(json(r#"{}"#)), Some("x"), None)
        .unwrap();
    assert_eq!(ok, None);
}

#[test]
fn test_entry_point_split() {
    // The compile-only predicate swallows compile failures into `false`;
    // the validate request surfaces them as errors.
    let selector = DraftSelector::new();

    assert_eq!(
        schema_is_valid(&selector, Some(doc(r#"{"type": "nonesuch"}"#))),
        Some(false)
    );
    assert_eq!(
        schema_is_valid(&selector, Some(object_schema())),
        Some(true)
    );

    let result = schema_validates(
        &selector,
        Some(json(r#"{}"#)),
        Some(doc(r#"{"type": "nonesuch"}"#)),
    );
    assert!(result.is_err());

    let result = matches_schema(
        &selector,
        Some(object_schema()),
        Some(json(r#"{"hi": "there"}"#)),
    );
    assert_eq!(result.unwrap(), Some(true));
    let result = matches_schema(
        &selector,
        Some(object_schema()),
        Some(json(r#"["hi", "there"]"#)),
    );
    assert_eq!(result.unwrap(), Some(false));
}

#[test]
fn test_empty_set_rejected() {
    let selector = DraftSelector::new();

    let err: CompileFailure = compiles("x", &vec![], DraftVersion::V2020).unwrap_err();
    assert!(matches!(err, CompileFailure::EmptySchemaSet));
    assert_eq!(err.describe(), "no schemas supplied");

    assert!(
        validate("x", &vec![], &json(r#"{}"#), DraftVersion::V2020).is_err()
    );

    assert_eq!(
        schema_set_is_valid(&selector, Some("x"), Some(vec![])),
        Some(false)
    );
    assert!(
        schema_set_validates(&selector, Some(json(r#"{}"#)), Some("x"), Some(vec![])).is_err()
    );
}

#[test]
fn test_compile_failure_names_identifier() {
    // A fatal failure names the offending identifier in its message.
    let err = validate(
        "https://example.com/user-profile.schema.json",
        &vec![user_schema()],
        &json(r#"{"username": "user123"}"#),
        DraftVersion::V2020,
    )
    .unwrap_err();
    match err {
        CompileFailure::Collaborator { message, cause: _ } => {
            assert!(message.contains("https://example.com/address.schema.json"));
        }
        other => panic!("expected a collaborator failure, got {other:?}"),
    }
}

#[test]
fn test_duplicate_identifier_rejected() {
    // Two documents assigned one identifier are rejected by the library
    // itself, naming the colliding identifier; here an explicit `$id`
    // collides with a later synthesized one.
    let with_id = doc(r#"{"$id": "B1", "type": "object"}"#);
    let err = compiles(
        "B",
        &vec![object_schema(), object_schema(), with_id],
        DraftVersion::V2020,
    )
    .unwrap_err();
    match &err {
        CompileFailure::DuplicateIdentifier(id) => assert_eq!(id.as_str(), "B1"),
        other => panic!("expected a duplicate-identifier failure, got {other:?}"),
    }
    assert_eq!(err.describe(), "duplicate schema identifier: B1");

    // Two equal explicit `$id`s collide as well.
    let err = compiles(
        "https://example.com/address.schema.json",
        &vec![address_schema(), address_schema()],
        DraftVersion::V2020,
    )
    .unwrap_err();
    assert!(matches!(err, CompileFailure::DuplicateIdentifier(_)));

    // The compile-only predicate swallows the collision into `false`; the
    // validate request surfaces it.
    let selector = DraftSelector::new();
    assert_eq!(
        schema_set_is_valid(
            &selector,
            Some("https://example.com/address.schema.json"),
            Some(vec![address_schema(), address_schema()]),
        ),
        Some(false)
    );
    let result = schema_set_validates(
        &selector,
        Some(json(r#"{}"#)),
        Some("https://example.com/address.schema.json"),
        Some(vec![address_schema(), address_schema()]),
    );
    assert!(matches!(
        result,
        Err(CompileFailure::DuplicateIdentifier(_))
    ));
}
