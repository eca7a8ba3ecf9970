use ladies::config::{resolve_model, ConfigError, PromptConfig, RawPromptConfig};
use ladies::temperature::Temperature;

fn raw(temperature: &str, model: Option<&str>) -> RawPromptConfig {
    RawPromptConfig {
        system: "You are a test assistant.".to_string(),
        prompt: "Describe this image.".to_string(),
        temperature: temperature.to_string(),
        model: model.map(|m| m.to_string()),
    }
}

#[test]
fn test_load_valid_prompt_config() {
    let config = PromptConfig::validate(raw("0.5", None)).unwrap();

    assert_eq!(config.system, "You are a test assistant.");
    assert_eq!(config.prompt, "Describe this image.");
    let t: f32 = config.temperature.as_str().parse().unwrap();
    assert!((t - 0.5).abs() < f32::EPSILON);
}

#[test]
fn test_load_prompt_config_invalid_temperature() {
    let result = PromptConfig::validate(RawPromptConfig {
        system: "test".to_string(),
        prompt: "test".to_string(),
        temperature: "3.0".to_string(),
        model: None,
    });
    assert!(result.is_err());
    assert!(result.unwrap_err().message().contains("Temperature must be between"));
}

#[test]
fn temperature_bounds_are_inclusive() {
    assert!(PromptConfig::validate(raw("0.0", None)).is_ok());
    assert!(PromptConfig::validate(raw("2.0", None)).is_ok());
    assert!(PromptConfig::validate(raw("0", None)).is_ok());
    assert!(PromptConfig::validate(raw("2", None)).is_ok());
    assert!(PromptConfig::validate(raw("-0.0", None)).is_ok());
    assert!(PromptConfig::validate(raw("1.999999", None)).is_ok());
    assert!(PromptConfig::validate(raw("0.000000000000000000000000000000000000001", None)).is_ok());
}

#[test]
fn temperature_outside_the_range_is_a_range_error() {
    for t in ["3.0", "3", "2.0000001", "-0.1", "-1", "20", "1000000000000000000000000"] {
        match PromptConfig::validate(raw(t, None)) {
            Err(ConfigError::TemperatureOutOfRange(text)) => assert_eq!(text, t),
            other => panic!("unexpected result for {}: {:?}", t, other),
        }
    }
}

#[test]
fn a_temperature_that_is_no_number_is_a_parse_error() {
    for t in ["NaN", "inf", "", "-", "1.", ".5", "1.2.3", "0x1", "1e3", " 1"] {
        match PromptConfig::validate(raw(t, None)) {
            Err(e @ ConfigError::Parse(_)) => {
                assert!(e.message().starts_with("Failed to parse prompt file"))
            }
            other => panic!("unexpected result for {:?}: {:?}", t, other),
        }
    }
}

#[test]
fn temperature_keeps_its_text() {
    let t = Temperature::parse("0.70").unwrap();
    assert_eq!(t.as_str(), "0.70");
    assert!(t.in_range());
    assert!(!Temperature::parse("2.5").unwrap().in_range());
    assert!(Temperature::parse("abc").is_none());
}

#[test]
fn model_on_the_command_line_takes_precedence() {
    let config = PromptConfig::validate(raw("0.5", Some("llava:13b"))).unwrap();
    let chosen = resolve_model(&Some("qwen2.5vl:32b".to_string()), &config).unwrap();
    assert_eq!(chosen, "qwen2.5vl:32b");
    let fallback = resolve_model(&None, &config).unwrap();
    assert_eq!(fallback, "llava:13b");
}

#[test]
fn missing_model_is_a_config_error() {
    let config = PromptConfig::validate(raw("0.5", None)).unwrap();
    let e = resolve_model(&None, &config).unwrap_err();
    assert!(matches!(e, ConfigError::MissingModel));
    assert!(e.message().contains("--model is required"));
}

#[test]
fn config_error_messages() {
    let read = ConfigError::Read("'/nonexistent/path/config.json': No such file or directory".to_string());
    assert_eq!(read.message(), "Failed to read prompt file '/nonexistent/path/config.json': No such file or directory");
    let parse = ConfigError::Parse("'p.json': missing field `prompt`".to_string());
    assert_eq!(parse.message(), "Failed to parse prompt file 'p.json': missing field `prompt`");
    let range = ConfigError::TemperatureOutOfRange("3".to_string());
    assert_eq!(range.message(), "Temperature must be between 0.0 and 2.0, got 3");
}
