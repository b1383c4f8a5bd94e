use chat_config::startup::{load_error, platform_client, platform_model_id};
use chat_config::text::{begins_with, chars_of, find};
use chat_config::{Config, Model};

#[test]
fn platform_names_the_model_to_start_with() {
    assert_eq!(platform_model_id("groq", Some("llama3")), "groq:llama3");
    assert_eq!(platform_model_id("groq", None), "groq");
    assert_eq!(platform_model_id("openai", Some("")), "openai:");
}

#[test]
fn platform_of_the_common_kind_is_named() {
    let compatible = vec!["groq".to_string(), "mistral".to_string()];
    let client = platform_client("mistral", &compatible);
    assert_eq!(client.kind, "openai-compatible");
    assert_eq!(client.name.as_deref(), Some("mistral"));
    let client = platform_client("openai", &compatible);
    assert_eq!(client.kind, "openai");
    assert_eq!(client.name, None);
    let client = platform_client("groq", &vec![]);
    assert_eq!((client.kind.as_str(), client.name), ("groq", None));
}

#[test]
fn configuration_for_a_platform() {
    let models = vec![Model::new("groq:llama3", "groq", "llama3")];
    let mut config = Config::for_platform("groq", Some("llama3"), models);
    assert_eq!(config.model_id(), "groq:llama3");
    assert!(!config.save());
    assert!(!config.function_calling());
    assert!(config.temperature().is_none());
    assert!(config.default_save_session().is_none());
    assert!(config.session().is_none());
    assert_eq!(config.model().id, "");
    config.setup_model().unwrap();
    assert_eq!(config.model().name, "llama3");

    let mut bare = Config::for_platform("groq", None, vec![]);
    assert_eq!(bare.model_id(), "groq");
    assert_eq!(bare.setup_model().unwrap_err().message(), "No model 'groq'");
}

#[test]
fn fault_in_the_clients_is_told_without_its_place() {
    assert_eq!(
        load_error("clients: unknown variant `x` at line 3 column 5"),
        "clients: unknown variant `x` (Sorry for being unable to provide an exact location)"
    );
    assert_eq!(
        load_error("clients: a at line 1 b at line 2"),
        "clients: a (Sorry for being unable to provide an exact location)"
    );
    assert_eq!(load_error("clients: missing field"), "clients: invalid value");
    assert_eq!(load_error("clients: "), "clients: invalid value");
    assert_eq!(
        load_error("save: invalid type at line 2 column 7"),
        "save: invalid type at line 2 column 7"
    );
    assert_eq!(load_error("clients:"), "clients:");
    assert_eq!(load_error(""), "");
}

#[test]
fn patterns_are_found_where_they_first_stand() {
    assert_eq!(find("abcabc", "bc"), Some(1));
    assert_eq!(find("abcabc", "abc"), Some(0));
    assert_eq!(find("abcabc", "cab"), Some(2));
    assert_eq!(find("abcabc", "d"), None);
    assert_eq!(find("ab", "abc"), None);
    assert_eq!(find("abc", ""), Some(0));
    assert_eq!(find("", ""), Some(0));
    assert_eq!(find("héllo wörld", "wö"), Some(6));
    assert!(begins_with("clients: x", "clients: "));
    assert!(!begins_with("client", "clients: "));
    assert!(begins_with("x", ""));
    assert!(!begins_with("xclients: ", "clients: "));
    assert_eq!(chars_of("héy"), vec!['h', 'é', 'y']);
}

#[test]
fn value_of_a_set_line() {
    assert_eq!(Config::update_value("temperature 0.7"), Some("0.7".to_string()));
    assert_eq!(Config::update_value("  top_p\tnull "), Some("null".to_string()));
    assert_eq!(Config::update_value("temperature"), None);
    assert_eq!(Config::update_value("a b c"), None);
    assert_eq!(Config::update_value(""), None);
}
