// The patch engine on documents given as text and as objects.

use gemini_unlock::error::AppError;
use gemini_unlock::patcher::{apply_patches, patch_object};
use serde_json::Value;

fn us_list() -> Value {
    Value::from(vec!["us"])
}

#[test]
fn patches_all_fields() {
    let input = r#"{"is_glic_eligible": false, "variations_country":"cn", "variations_permanent_consistency_country":["cn"]}"#;
    let report = apply_patches(input).expect("Patch application failed");

    assert!(report.changed_is_glic);
    assert!(report.changed_variations_country);
    assert!(report.changed_variations_permanent_country);

    // Verify output is valid JSON
    let output: Value = serde_json::from_str(&report.content).expect("Output is invalid");
    assert_eq!(output["is_glic_eligible"], true);
    assert_eq!(output["variations_country"], "us");
    assert_eq!(output["variations_permanent_consistency_country"], us_list());
}

#[test]
fn handles_missing_fields() {
    let input = r#"{"unrelated":123}"#;
    let report = apply_patches(input).expect("Should handle missing fields");

    assert!(!report.changed_is_glic);
    assert!(!report.changed_variations_country);
    assert!(!report.changed_variations_permanent_country);
}

#[test]
fn preserves_other_fields() {
    let input = r#"{"is_glic_eligible": false, "other_field": "unchanged", "number": 42}"#;
    let report = apply_patches(input).expect("Should preserve other fields");

    let output: Value = serde_json::from_str(&report.content).expect("Output is invalid");
    assert_eq!(output["other_field"], "unchanged");
    assert_eq!(output["number"], 42);
}

#[test]
fn handles_escaped_quotes() {
    let input = r#"{"comment": "The value \"is_glic_eligible\" should be true", "is_glic_eligible": false}"#;
    let report = apply_patches(input).expect("Should handle escaped quotes correctly");

    assert!(report.changed_is_glic);
    let output: Value = serde_json::from_str(&report.content).expect("Output is invalid");
    assert_eq!(output["is_glic_eligible"], true);
    assert_eq!(output["comment"], "The value \"is_glic_eligible\" should be true");
}

#[test]
fn handles_nested_structures() {
    let input = r#"{"nested": {"is_glic_eligible": false}, "is_glic_eligible": false}"#;
    let report = apply_patches(input).expect("Should handle nested structures correctly");

    // Only modify top-level fields
    let output: Value = serde_json::from_str(&report.content).expect("Output is invalid");
    assert_eq!(output["is_glic_eligible"], true);
    assert_eq!(output["nested"]["is_glic_eligible"], false);
}

#[test]
fn rejects_invalid_json_input() {
    let input = r#"{invalid json}"#;
    let result = apply_patches(input);

    assert!(result.is_err(), "Should reject invalid JSON input");
}

#[test]
fn handles_array_variations_country() {
    let input = r#"{"variations_country": ["cn", "us"], "is_glic_eligible": false}"#;
    let report = apply_patches(input).expect("Should handle array type variations_country");

    // Replace if field exists, regardless of original type
    let output: Value = serde_json::from_str(&report.content).expect("Output is invalid");
    assert_eq!(output["variations_country"], "us");
}

#[test]
fn handles_non_boolean_is_glic() {
    // If is_glic_eligible is not boolean, should not modify
    let input = r#"{"is_glic_eligible": "false"}"#;
    let report = apply_patches(input).expect("Should handle successfully");

    assert!(!report.changed_is_glic);
    let output: Value = serde_json::from_str(&report.content).expect("Output is invalid");
    assert_eq!(output["is_glic_eligible"], "false");
}

const SAMPLE_CONFIG: &str = r#"{
  "is_glic_eligible": false,
  "variations_country": "cn",
  "variations_permanent_consistency_country": ["cn"],
  "profile": {
    "name": "Test Profile"
  }
}"#;

#[test]
fn test_complete_patch_workflow() {
    let original_content = SAMPLE_CONFIG.to_string();

    // Apply patches
    let report = apply_patches(&original_content).expect("Patch application failed");

    // Verify modifications
    assert!(report.changed_is_glic, "Should modify is_glic_eligible");
    assert!(report.changed_variations_country, "Should modify variations_country");
    assert!(
        report.changed_variations_permanent_country,
        "Should modify variations_permanent_consistency_country"
    );

    // Verify output is valid JSON
    let output: Value = serde_json::from_str(&report.content).expect("Output should be valid JSON");

    // Verify specific modifications
    assert_eq!(output["is_glic_eligible"], true);
    assert_eq!(output["variations_country"], "us");
    assert_eq!(output["variations_permanent_consistency_country"], us_list());

    // Verify other fields are preserved
    assert_eq!(output["profile"]["name"], "Test Profile");
}

#[test]
fn test_patch_preserves_structure() {
    let content = SAMPLE_CONFIG.to_string();
    let report = apply_patches(&content).expect("Patch application failed");

    // Parse original and modified JSON
    let original: Value = serde_json::from_str(&content).expect("Original JSON is invalid");
    let modified: Value = serde_json::from_str(&report.content).expect("Modified JSON is invalid");

    // Verify object structure is preserved
    assert!(original.is_object());
    assert!(modified.is_object());

    // Verify all original fields exist in modified file
    if let Some(obj) = original.as_object() {
        for key in obj.keys() {
            assert!(modified.get(key).is_some(), "Field {} should be preserved", key);
        }
    }
}

#[test]
fn test_patch_minimal_config() {
    // Test configuration with only required fields
    let content = r#"{"is_glic_eligible": false}"#;
    let report = apply_patches(content).expect("Patch application failed");

    assert!(report.changed_is_glic);

    let output: Value = serde_json::from_str(&report.content).expect("Output is invalid");
    assert_eq!(output["is_glic_eligible"], true);
}

#[test]
fn test_patch_with_nested_fields() {
    // Test configuration containing nested fields
    let content = r#"{
  "is_glic_eligible": false,
  "variations_country": "cn",
  "nested": {
    "is_glic_eligible": false,
    "variations_country": "nested"
  }
}"#;

    let report = apply_patches(content).expect("Patch application failed");

    let output: Value = serde_json::from_str(&report.content).expect("Output is invalid");

    // Verify only top-level fields are modified
    assert_eq!(output["is_glic_eligible"], true);
    assert_eq!(output["variations_country"], "us");
    assert_eq!(output["nested"]["is_glic_eligible"], false);
    assert_eq!(output["nested"]["variations_country"], "nested");
}

#[test]
fn test_error_handling_invalid_json() {
    let invalid_json = r#"{invalid json}"#;
    let result = apply_patches(invalid_json);

    assert!(result.is_err(), "Should reject invalid JSON");
}

#[test]
fn test_error_handling_non_boolean_is_glic() {
    // Test case where is_glic_eligible is not boolean
    let content = r#"{"is_glic_eligible": "false"}"#;
    let report = apply_patches(content).expect("Should handle successfully");

    // Should not modify non-boolean value
    assert!(!report.changed_is_glic);

    let output: Value = serde_json::from_str(&report.content).expect("Output is invalid");
    assert_eq!(output["is_glic_eligible"], "false");
}

#[test]
fn test_patch_empty_config() {
    let content = r#"{}"#;
    let report = apply_patches(content).expect("Should handle empty config");

    assert!(!report.changed_is_glic);
    assert!(!report.changed_variations_country);
    assert!(!report.changed_variations_permanent_country);

    // Verify output is still valid JSON object
    let output: Value = serde_json::from_str(&report.content).expect("Output is invalid");
    assert!(output.is_object());
    assert!(output.as_object().unwrap().is_empty());
}

#[test]
fn test_patch_large_config() {
    // Test configuration containing many fields
    let mut config = serde_json::Map::new();
    config.insert("is_glic_eligible".to_string(), Value::from(false));
    config.insert("variations_country".to_string(), Value::from("cn"));

    // Add 100 additional fields
    for i in 0..100 {
        config.insert(format!("field_{}", i), Value::from(i));
    }

    let content = serde_json::to_string(&Value::Object(config)).expect("Serialization failed");
    let report = apply_patches(&content).expect("Patch application failed");

    assert!(report.changed_is_glic);
    assert!(report.changed_variations_country);

    // Verify all fields are preserved
    let output: Value = serde_json::from_str(&report.content).expect("Output is invalid");
    for i in 0..100 {
        assert!(output.get(format!("field_{}", i)).is_some(), "Field {} should exist", i);
    }
}

#[test]
fn empty_object_prints_as_empty_object() {
    let report = apply_patches("{}").unwrap();
    assert_eq!(report.content, "{}");
}

#[test]
fn output_is_the_indented_text_of_the_patched_object() {
    let report = apply_patches(r#"{"variations_country":"cn","a":[1,2]}"#).unwrap();
    assert_eq!(
        report.content,
        "{\n  \"a\": [\n    1,\n    2\n  ],\n  \"variations_country\": \"us\"\n}"
    );
}

#[test]
fn invalid_text_gives_the_parser_message() {
    let error = apply_patches("{invalid json}").unwrap_err();
    assert_eq!(
        error,
        AppError::InvalidJson(
            "Input JSON parsing failed: key must be a string at line 1 column 2".to_string()
        )
    );
    assert_eq!(
        error.message(),
        "JSON processing failed: Input JSON parsing failed: key must be a string at line 1 column 2"
    );
}

#[test]
fn root_that_is_no_object_is_rejected() {
    for text in ["[1, 2]", "true", "\"text\"", "12", "null"] {
        let error = apply_patches(text).unwrap_err();
        assert_eq!(
            error,
            AppError::InvalidJson("Config file root is not an object".to_string())
        );
    }
}

#[test]
fn guards_are_independent_of_each_other() {
    let report = apply_patches(
        r#"{"is_glic_eligible": 1, "variations_country": null, "variations_permanent_consistency_country": "cn"}"#,
    )
    .unwrap();
    assert!(!report.changed_is_glic);
    assert!(report.changed_variations_country);
    assert!(!report.changed_variations_permanent_country);
    let output: Value = serde_json::from_str(&report.content).unwrap();
    assert_eq!(output["is_glic_eligible"], 1);
    assert_eq!(output["variations_country"], "us");
    assert_eq!(output["variations_permanent_consistency_country"], "cn");
}

#[test]
fn true_flag_is_reported_as_changed() {
    let report = apply_patches(r#"{"is_glic_eligible": true}"#).unwrap();
    assert!(report.changed_is_glic);
}

#[test]
fn second_patch_reports_the_same_flags() {
    let inputs = [
        r#"{"is_glic_eligible": false, "variations_country":"cn", "variations_permanent_consistency_country":["cn"]}"#,
        r#"{"is_glic_eligible": "false", "variations_country": 3}"#,
        r#"{"variations_permanent_consistency_country": {"a": []}, "x": 1.5}"#,
        r#"{}"#,
    ];
    for input in inputs {
        let first = apply_patches(input).unwrap();
        let second = apply_patches(&first.content).unwrap();
        assert_eq!(first.changed_is_glic, second.changed_is_glic);
        assert_eq!(first.changed_variations_country, second.changed_variations_country);
        assert_eq!(
            first.changed_variations_permanent_country,
            second.changed_variations_permanent_country
        );
        assert_eq!(first.content, second.content);
    }
}

#[test]
fn output_parses_back_to_the_patched_object() {
    let input = r#"{"is_glic_eligible": false, "variations_country": {"is_glic_eligible": false}, "deep": [{"variations_country": "cn"}, 1.25, -7, "text"]}"#;
    let mut root = match serde_json::from_str::<Value>(input).unwrap() {
        Value::Object(root) => root,
        _ => unreachable!(),
    };
    patch_object(&mut root);
    let report = apply_patches(input).unwrap();
    let parsed: Value = serde_json::from_str(&report.content).unwrap();
    assert_eq!(parsed, Value::Object(root));
}

#[test]
fn patch_object_rewrites_in_place() {
    let mut root = serde_json::Map::new();
    root.insert("is_glic_eligible".to_string(), Value::from(false));
    root.insert("variations_country".to_string(), Value::from(vec!["cn", "us"]));
    root.insert("variations_permanent_consistency_country".to_string(), Value::from(vec!["cn"]));
    root.insert("other".to_string(), Value::from(7));
    let report = patch_object(&mut root);
    assert!(report.changed_is_glic);
    assert!(report.changed_variations_country);
    assert!(report.changed_variations_permanent_country);
    assert_eq!(report.content, "");
    assert_eq!(root.len(), 4);
    assert_eq!(root["is_glic_eligible"], Value::from(true));
    assert_eq!(root["variations_country"], Value::from("us"));
    assert_eq!(root["variations_permanent_consistency_country"], us_list());
    assert_eq!(root["other"], Value::from(7));
}

#[test]
fn patch_object_adds_no_member() {
    let mut root = serde_json::Map::new();
    root.insert("unrelated".to_string(), Value::from(123));
    let report = patch_object(&mut root);
    assert!(!report.changed_is_glic);
    assert!(!report.changed_variations_country);
    assert!(!report.changed_variations_permanent_country);
    assert_eq!(root.len(), 1);
    assert_eq!(root["unrelated"], Value::from(123));
}

#[test]
fn nested_special_keys_in_arrays_are_kept() {
    let input = r#"{"list": [{"is_glic_eligible": false, "variations_country": "cn"}], "variations_country": "cn"}"#;
    let report = apply_patches(input).unwrap();
    let output: Value = serde_json::from_str(&report.content).unwrap();
    assert_eq!(output["list"][0]["is_glic_eligible"], false);
    assert_eq!(output["list"][0]["variations_country"], "cn");
    assert_eq!(output["variations_country"], "us");
}
