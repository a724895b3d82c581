use model_registry::models::Model;

// Test the serialization of a `Model` enum variant to JSON for Gpt3_5Turbo.
#[test]
fn test_serialize_gpt3_5turbo() {
    let model = Model::Gpt3_5Turbo;
    let serialized_model = model.to_json_string();
    assert_eq!(serialized_model, "\"gpt-3.5-turbo\"");
}

// Test the serialization of a `Model` enum variant to JSON for Gpt4.
#[test]
fn test_serialize_gpt4() {
    let model = Model::Gpt_4;
    let serialized_model = model.to_json_string();
    assert_eq!(serialized_model, "\"gpt-4\"");
}

// Test the deserialization of a JSON string to a `Model` enum variant for Gpt3_5Turbo.
#[test]
fn test_deserialize_gpt3_5turbo() {
    let model_json = "\"gpt-3.5-turbo\"";
    let deserialized_model: Model = Model::from_json_str(model_json).unwrap();
    assert_eq!(deserialized_model, Model::Gpt3_5Turbo);
}

// Test the serialization of a Model enum variant to JSON for Gpt_4_32k:
#[test]
fn test_serialize_gpt4_32k() {
    let model = Model::Gpt_4_32k;
    let serialized_model = model.to_json_string();
    assert_eq!(serialized_model, "\"gpt-4-32k\"");
}

// Test the deserialization of a JSON string to a Model enum variant for Gpt_4_32k
#[test]
fn test_deserialize_gpt4_32k() {
    let model_json = "\"gpt-4-32k\"";
    let deserialized_model: Model = Model::from_json_str(model_json).unwrap();
    assert_eq!(deserialized_model, Model::Gpt_4_32k);
}

// Test the deserialization of a JSON string to a `Model` enum variant for Gpt4.
#[test]
fn test_deserialize_gpt4() {
    let model_json = "\"gpt-4\"";
    let deserialized_model: Model = Model::from_json_str(model_json).unwrap();
    assert_eq!(deserialized_model, Model::Gpt_4);
}

// Test the serialization of a Model enum variant to JSON for Gpt_4Turbo.
#[test]
fn test_serialize_gpt_4turbo() {
    let model = Model::Gpt_4Turbo;
    let serialized_model = model.to_json_string();
    assert_eq!(serialized_model, "\"gpt-4-1106-preview\"");
}

// Test the deserialization of a JSON string to a Model enum variant for Gpt_4Turbo.
#[test]
fn test_deserialize_gpt_4turbo() {
    let model_json = "\"gpt-4-1106-preview\"";
    let deserialized_model: Model = Model::from_json_str(model_json).unwrap();
    assert_eq!(deserialized_model, Model::Gpt_4Turbo);
}

// Test the serialization of a Model enum variant to JSON for Gpt_4Turbo_Vision.
#[test]
fn test_serialize_gpt_4turbo_vision() {
    let model = Model::Gpt_4Turbo_Vision;
    let serialized_model = model.to_json_string();
    assert_eq!(serialized_model, "\"gpt-4-vision-preview\"");
}

// Test the deserialization of a JSON string to a Model enum variant for Gpt_4Turbo_Vision.
#[test]
fn test_deserialize_gpt_4turbo_vision() {
    let model_json = "\"gpt-4-vision-preview\"";
    let deserialized_model: Model = Model::from_json_str(model_json).unwrap();
    assert_eq!(deserialized_model, Model::Gpt_4Turbo_Vision);
}

// Test the serialization of a Model enum variant to JSON for Gpt_4o.
#[test]
fn test_serialize_gpt_4o() {
    let model = Model::Gpt_4o;
    let serialized_model = model.to_json_string();
    assert_eq!(serialized_model, "\"gpt-4o\"");
}

// Test the deserialization of a JSON string to a Model enum variant for Gpt_4o.
#[test]
fn test_deserialize_gpt_4o() {
    let model_json = "\"gpt-4o\"";
    let deserialized_model: Model = Model::from_json_str(model_json).unwrap();
    assert_eq!(deserialized_model, Model::Gpt_4o);
}

// The codec's output agrees with a real JSON encoder on every canonical string.
#[test]
fn test_serialize_agrees_with_json_encoder() {
    let variants = vec![
        Model::Gpt3_5Turbo,
        Model::Gpt_4,
        Model::Gpt_4_32k,
        Model::Gpt_4Turbo,
        Model::Gpt_4o,
        Model::Gpt_4Turbo_Vision,
    ];
    for v in variants {
        let expected = serde_json::to_string(v.as_canonical_str()).unwrap();
        assert_eq!(v.to_json_string(), expected);
    }
}

// Encoding any variant and then decoding yields the original variant.
#[test]
fn test_codec_round_trip_all_variants() {
    let variants = vec![
        Model::Gpt3_5Turbo,
        Model::Gpt_4,
        Model::Gpt_4_32k,
        Model::Gpt_4Turbo,
        Model::Gpt_4o,
        Model::Gpt_4Turbo_Vision,
    ];
    for v in variants {
        let encoded = v.to_json_string();
        let decoded = Model::from_json_str(&encoded).unwrap();
        assert_eq!(decoded, v);
    }
}

// A structured text without quotes is rejected, with the text surfaced verbatim.
#[test]
fn test_deserialize_unquoted_rejected() {
    let result = Model::from_json_str("gpt-4");
    match result {
        Ok(_) => panic!("Decoded an unquoted model name"),
        Err(e) => assert_eq!(e.message(), "Unsupported model: gpt-4"),
    }
}

// A quoted scalar holding an unknown name is rejected.
#[test]
fn test_deserialize_unknown_rejected() {
    let result = Model::from_json_str("\"invalid-model\"");
    assert!(result.is_err(), "Decoded an invalid model name");
}

// A half-quoted text is rejected.
#[test]
fn test_deserialize_half_quoted_rejected() {
    assert!(Model::from_json_str("\"gpt-4").is_err());
    assert!(Model::from_json_str("gpt-4\"").is_err());
    assert!(Model::from_json_str("\"").is_err());
}
