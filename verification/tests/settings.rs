use chat_config::decimal::{decimal_text, hundredths_text, parse_isize, signed_decimal_text};
use chat_config::info::join_text;
use chat_config::config::log_entry;
use chat_config::text::{char_is_space, pad_right, same_text, split_words, strip_suffix};
use chat_config::sessions::name_precedes;
use chat_config::{
    complete_bool, complete_option_bool, parse_value, set_bool, AssertState, Config, ConfigError,
    Model, Paths, Real, StateFlags,
};

fn num(value: f64) -> Real {
    Real::new(value.to_bits(), &value.to_string())
}

fn ready() -> Config {
    let mut model = Model::new("gpt-4", "openai", "gpt-4");
    model.max_input_tokens = Some(8192);
    let mut config = Config::new("gpt-4", None, None, false, None, false, vec![model]);
    config.setup_model().unwrap();
    config
}

#[test]
fn update_wants_a_key_and_a_value() {
    let mut config = ready();
    for line in ["", "save", "save true now", "   "] {
        let err = config.update(line, None).unwrap_err();
        assert!(matches!(err, ConfigError::Usage));
        assert_eq!(err.message(), "Usage: .set <key> <value>. If value is null, unset key.");
    }
    assert!(!config.save());
}

#[test]
fn update_refuses_unknown_keys() {
    let mut config = ready();
    let err = config.update("colour blue", None).unwrap_err();
    assert!(matches!(err, ConfigError::UnknownKey(ref key) if key == "colour"));
    assert_eq!(err.message(), "Unknown key `colour`");
}

#[test]
fn update_sets_switches() {
    let mut config = ready();
    config.update("  save \t true\n", None).unwrap();
    assert!(config.save());
    config.update("function_calling true", None).unwrap();
    assert!(config.function_calling());
    config.update("save false", None).unwrap();
    assert!(!config.save());
    let err = config.update("save 1", None).unwrap_err();
    assert!(matches!(err, ConfigError::InvalidSwitch));
    assert_eq!(err.message(), "Invalid value");
    let err = config.update("function_calling null", None).unwrap_err();
    assert!(matches!(err, ConfigError::InvalidSwitch));
    assert!(config.function_calling());
}

#[test]
fn update_sets_and_unsets_the_output_limit() {
    let mut config = ready();
    config.update("max_output_tokens 4096", None).unwrap();
    assert_eq!(config.model().max_output_tokens, Some(4096));
    config.update("max_output_tokens -1", None).unwrap();
    assert_eq!(config.model().max_output_tokens, Some(-1));
    let err = config.update("max_output_tokens many", None).unwrap_err();
    assert!(matches!(err, ConfigError::InvalidValue(ref v) if v == "many"));
    assert_eq!(err.message(), "Invalid value 'many'");
    assert_eq!(config.model().max_output_tokens, Some(-1));
    config.update("max_output_tokens null", None).unwrap();
    assert_eq!(config.model().max_output_tokens, None);
}

#[test]
fn update_sets_sampling_settings_from_what_the_caller_read() {
    let mut config = ready();
    let read = |token: &str| token.parse::<f64>().ok().map(num);
    config.update("temperature 0.7", read("0.7")).unwrap();
    assert_eq!(config.temperature().unwrap().bits, 0.7f64.to_bits());
    config.update("top_p 1e-1", read("1e-1")).unwrap();
    assert_eq!(config.top_p().unwrap().bits, 0.1f64.to_bits());
    assert_eq!(config.top_p().unwrap().text, "0.1");
    let err = config.update("temperature warm", read("warm")).unwrap_err();
    assert_eq!(err.message(), "Invalid value 'warm'");
    assert_eq!(config.temperature().unwrap().bits, 0.7f64.to_bits());
    config.update("temperature null", read("null")).unwrap();
    assert!(config.temperature().is_none());
    config.update("save true", read("true")).unwrap();
    assert!(config.save());
}

#[test]
fn update_save_session_null_unsets_the_toggle() {
    let mut config = Config::new("gpt-4", None, None, false, Some(false), false, vec![
        Model::new("gpt-4", "openai", "gpt-4"),
    ]);
    config.setup_model().unwrap();
    assert!(!config.effective_save_session());
    config.update("save_session null", None).unwrap();
    assert_eq!(config.default_save_session(), None);
    assert!(config.effective_save_session());

    config.update("save_session false", None).unwrap();
    config.use_session(Some("work"), None).unwrap();
    assert_eq!(config.session().unwrap().save_session(), Some(false));
    config.update("save_session true", None).unwrap();
    assert!(config.effective_save_session());
    assert_eq!(config.default_save_session(), Some(false));
    config.update("save_session null", None).unwrap();
    assert_eq!(config.session().unwrap().save_session(), None);
    assert!(!config.effective_save_session());
    let err = config.update("save_session maybe", None).unwrap_err();
    assert_eq!(err.message(), "Invalid value 'maybe'");
}

#[test]
fn parse_value_tells_null_from_values() {
    assert_eq!(parse_value::<u8>("null", None).unwrap(), None);
    assert_eq!(parse_value("null", Some(3u8)).unwrap(), None);
    assert_eq!(parse_value("3", Some(3u8)).unwrap(), Some(3));
    let err = parse_value::<u8>("x", None).unwrap_err();
    assert!(matches!(err, ConfigError::InvalidValue(ref v) if v == "x"));
}

#[test]
fn set_bool_reads_four_spellings() {
    let mut target = false;
    set_bool(&mut target, "1");
    assert!(target);
    set_bool(&mut target, "maybe");
    assert!(target);
    set_bool(&mut target, "0");
    assert!(!target);
    set_bool(&mut target, "true");
    assert!(target);
    set_bool(&mut target, "false");
    assert!(!target);
    set_bool(&mut target, "TRUE");
    assert!(!target);
}

#[test]
fn completions_offer_the_other_values() {
    assert_eq!(complete_bool(true), vec!["false".to_string()]);
    assert_eq!(complete_bool(false), vec!["true".to_string()]);
    assert_eq!(complete_option_bool(Some(true)), vec!["false".to_string(), "null".to_string()]);
    assert_eq!(complete_option_bool(Some(false)), vec!["true".to_string(), "null".to_string()]);
    assert_eq!(complete_option_bool(None), vec!["true".to_string(), "false".to_string()]);
}

#[test]
fn any_holds_in_every_state() {
    let any = AssertState::any();
    assert_eq!(any, AssertState::False(StateFlags::empty()));
    for bits in 0..16u32 {
        assert!(any.holds(StateFlags { bits }));
    }
}

#[test]
fn assertions_ask_for_all_set_or_all_clear() {
    let both = StateFlags::session().union(StateFlags::role());
    assert_eq!(both.bits(), 5);
    assert!(AssertState::True(StateFlags::session()).holds(both));
    assert!(AssertState::True(both).holds(both));
    assert!(!AssertState::True(both).holds(StateFlags::session()));
    assert!(AssertState::False(StateFlags::rag()).holds(both));
    assert!(!AssertState::False(both).holds(StateFlags::role()));
    assert!(AssertState::False(both).holds(StateFlags::rag()));
    let mut flags = StateFlags::empty();
    assert!(flags.is_empty());
    flags.insert(StateFlags::session_empty());
    flags.insert(StateFlags::rag());
    assert_eq!(flags.bits(), 10);
    assert!(flags.intersects(StateFlags::rag()));
    assert!(!flags.intersects(StateFlags::role()));
}

#[test]
fn words_are_split_at_any_white_space() {
    assert_eq!(split_words(" a  bc\td\u{3000}e\n"), vec!["a", "bc", "d", "e"]);
    assert_eq!(split_words("one"), vec!["one"]);
    assert!(split_words(" \t ").is_empty());
    assert!(split_words("").is_empty());
    for line in ["", " x", "x y ", "a\u{a0}b\u{2003}c", "key value", "\u{85}\u{1680}z"] {
        let expected: Vec<String> = line.split_whitespace().map(|w| w.to_string()).collect();
        assert_eq!(split_words(line), expected);
    }
}

#[test]
fn white_space_is_what_std_says() {
    let mut code = 0u32;
    while code <= 0x3100 {
        if let Some(c) = char::from_u32(code) {
            assert_eq!(char_is_space(c), c.is_whitespace());
        }
        code += 1;
    }
}

#[test]
fn integers_are_read_as_std_reads_them() {
    assert_eq!(parse_isize("42"), Some(42));
    assert_eq!(parse_isize("+42"), Some(42));
    assert_eq!(parse_isize("-42"), Some(-42));
    assert_eq!(parse_isize("-0"), Some(0));
    assert_eq!(parse_isize("007"), Some(7));
    let max = isize::MAX.to_string();
    let min = isize::MIN.to_string();
    let inputs = [
        "", "+", "-", " 1", "1 ", "1_000", "0x10", "--1", "+-1", "12a", "١", max.as_str(),
        min.as_str(), "9223372036854775808", "-9223372036854775809",
        "000000000000000000000000000000000000012", "99999999999999999999999999999999999999999",
    ];
    for text in inputs {
        assert_eq!(parse_isize(text), text.parse::<isize>().ok());
    }
}

#[test]
fn integers_are_written_in_decimal() {
    assert_eq!(decimal_text(0), "0");
    assert_eq!(decimal_text(7), "7");
    assert_eq!(decimal_text(10), "10");
    assert_eq!(decimal_text(8192), "8192");
    assert_eq!(decimal_text(u128::MAX), u128::MAX.to_string());
    assert_eq!(signed_decimal_text(-1), "-1");
    assert_eq!(signed_decimal_text(0), "0");
    assert_eq!(signed_decimal_text(isize::MIN), isize::MIN.to_string());
    assert_eq!(signed_decimal_text(isize::MAX), isize::MAX.to_string());
}

#[test]
fn hundredths_are_written_with_no_more_places_than_needed() {
    assert_eq!(hundredths_text(0), "0");
    assert_eq!(hundredths_text(5), "0.05");
    assert_eq!(hundredths_text(50), "0.5");
    assert_eq!(hundredths_text(1200), "12");
    assert_eq!(hundredths_text(1250), "12.5");
    assert_eq!(hundredths_text(1234), "12.34");
    assert_eq!(hundredths_text(10001), "100.01");
}

#[test]
fn text_helpers() {
    assert!(same_text("a", "a"));
    assert!(!same_text("a", "b"));
    assert_eq!(pad_right("ab", 5), "ab   ");
    assert_eq!(pad_right("abcdef", 3), "abcdef");
    assert_eq!(pad_right("é", 3), "é  ");
    assert_eq!(strip_suffix("work.yaml", ".yaml"), Some("work".to_string()));
    assert_eq!(strip_suffix(".yaml", ".yaml"), Some(String::new()));
    assert_eq!(strip_suffix("work.yml", ".yaml"), None);
    assert_eq!(strip_suffix("aml", ".yaml"), None);
    assert_eq!(join_text(&vec![]), "");
    assert_eq!(join_text(&vec!["a".to_string()]), "a");
    assert_eq!(join_text(&vec!["a".to_string(), "".to_string(), "b".to_string()]), "a\n\nb");
}

#[test]
fn names_are_ordered_as_std_orders_strings() {
    let names = ["", "a", "ab", "b", "B", "é", "e", "zz", "日本", "a\u{10000}", "a\u{ffff}"];
    for a in names {
        for b in names {
            assert_eq!(name_precedes(a, b), a <= b);
        }
    }
}

#[test]
fn list_sessions_of_an_empty_directory_is_empty() {
    let config = Config::default();
    assert!(config.list_sessions(&vec![]).is_empty());
}

#[test]
fn list_sessions_keeps_session_files_and_sorts() {
    let config = Config::default();
    let entries: Vec<String> = ["work.yaml", "notes.txt", "alpha.yaml", "temp.yaml", "zeta.yaml.bak", "Beta.yaml", "alpha.yaml", ".yaml"]
        .iter()
        .map(|s| s.to_string())
        .collect();
    assert_eq!(config.list_sessions(&entries), vec!["", "Beta", "alpha", "alpha", "temp", "work"]);
    assert_eq!(Config::session_file("work"), "work.yaml");
    assert_eq!(config.list_sessions(&vec![Config::session_file("x y")]), vec!["x y"]);
}

#[test]
fn log_entry_layout() {
    assert_eq!(
        log_entry("hello", "2024-01-02T03:04:05Z", "hello there", "hi"),
        "# CHAT: hello [2024-01-02T03:04:05Z]\nhello there\n--------\nhi\n--------\n\n"
    );
}

#[test]
fn prompt_context_outside_a_session() {
    let mut config = ready();
    let pairs = |config: &Config| -> Vec<(String, String)> { config.generate_prompt_context() };
    let expect = |items: &[(&str, &str)]| -> Vec<(String, String)> {
        items.iter().map(|(k, v)| (k.to_string(), v.to_string())).collect()
    };
    assert_eq!(
        pairs(&config),
        expect(&[
            ("model", "gpt-4"),
            ("client_name", "openai"),
            ("model_name", "gpt-4"),
            ("max_input_tokens", "8192"),
        ])
    );
    config.set_temperature(Some(num(0.0)));
    config.set_top_p(Some(num(-0.0)));
    assert_eq!(pairs(&config).len(), 4);
    config.set_temperature(Some(num(0.7)));
    config.set_top_p(Some(num(0.5)));
    config.update("save true", None).unwrap();
    assert_eq!(
        pairs(&config),
        expect(&[
            ("model", "gpt-4"),
            ("client_name", "openai"),
            ("model_name", "gpt-4"),
            ("max_input_tokens", "8192"),
            ("temperature", "0.7"),
            ("top_p", "0.5"),
            ("save", "true"),
        ])
    );
}

#[test]
fn prompt_context_in_a_session() {
    let mut config = ready();
    config.use_session(Some("work"), None).unwrap();
    config.set_temperature(Some(num(0.9)));
    config.save_message("q", "a", 1024);
    let context = config.generate_prompt_context();
    let expected: Vec<(String, String)> = [
        ("model", "gpt-4"),
        ("client_name", "openai"),
        ("model_name", "gpt-4"),
        ("max_input_tokens", "8192"),
        ("session", "work"),
        ("dirty", "true"),
        ("consume_tokens", "1024"),
        ("consume_percent", "12.5"),
        ("user_messages_len", "1"),
    ]
    .iter()
    .map(|(k, v)| (k.to_string(), v.to_string()))
    .collect();
    assert_eq!(context, expected);
    let mut names: Vec<&str> = context.iter().map(|(k, _)| k.as_str()).collect();
    names.sort();
    names.dedup();
    assert_eq!(names.len(), context.len());
}

#[test]
fn system_info_table() {
    let mut config = ready();
    config.update("max_output_tokens 100", None).unwrap();
    config.set_temperature(Some(num(0.7)));
    config.update("save_session true", None).unwrap();
    let paths = Paths {
        config_file: "/c/config.yaml".to_string(),
        messages_file: "/c/messages.md".to_string(),
        sessions_dir: "/c/sessions".to_string(),
        functions_dir: "/c/functions".to_string(),
    };
    let expected = "\
model               gpt-4
max_output_tokens   100 (current model)
temperature         0.7
top_p               -
function_calling    false
save                false
save_session        true
config_file         /c/config.yaml
messages_file       /c/messages.md
sessions_dir        /c/sessions
functions_dir       /c/functions";
    assert_eq!(config.system_info(&paths), expected);
    config.update("max_output_tokens null", None).unwrap();
    config.use_session(Some("work"), None).unwrap();
    config.set_temperature(None);
    let info = config.system_info(&paths);
    assert!(info.contains("max_output_tokens   -\ntemperature         -\n"));
}

#[test]
fn zero_is_zero_of_either_sign() {
    assert!(num(0.0).is_zero());
    assert!(num(-0.0).is_zero());
    assert!(!num(0.7).is_zero());
    assert!(!num(f64::MIN_POSITIVE).is_zero());
    assert!(!num(f64::NAN).is_zero());
    let copy = num(0.7).clone();
    assert_eq!((copy.bits, copy.text.as_str()), (0.7f64.to_bits(), "0.7"));
}
