use chat_config::{Config, ConfigError, ExitStep, Model, Real, Session, SessionData, StateFlags, Transcript, Turn};

fn num(value: f64) -> Real {
    Real::new(value.to_bits(), &value.to_string())
}

fn bits(value: Option<Real>) -> Option<u64> {
    value.map(|v| v.bits)
}

fn catalog() -> Vec<Model> {
    let mut gpt4 = Model::new("gpt-4", "openai", "gpt-4");
    gpt4.max_input_tokens = Some(8192);
    let mut large = Model::new("mistral:large", "mistral", "large");
    large.max_input_tokens = Some(200000);
    vec![gpt4, large]
}

fn ready() -> Config {
    let mut config = Config::new("gpt-4", None, None, false, None, false, catalog());
    config.setup_model().unwrap();
    config
}

#[test]
fn scenario_work_session() {
    let mut config = ready();
    assert_eq!(config.model().id, "gpt-4");
    assert!(config.default_temperature().is_none());

    assert_eq!(config.session_target(Some("work")).unwrap(), "work");
    let offer = config.use_session(Some("work"), None).unwrap();
    assert!(!offer);
    {
        let session = config.session().unwrap();
        assert_eq!(session.name(), "work");
        assert!(session.is_empty());
        assert!(!session.dirty());
        assert!(session.temperature().is_none());
        assert_eq!(session.model_id(), "gpt-4");
    }

    config.set_temperature(Some(num(0.7)));
    assert!(config.session().unwrap().dirty());
    assert!(config.default_temperature().is_none());
    assert_eq!(bits(config.temperature()), Some(0.7f64.to_bits()));

    assert!(config.save_session("work"));
    config.session_saved();
    assert!(!config.session().unwrap().dirty());

    assert_eq!(config.exit_session().unwrap(), ExitStep::Done);
    assert!(config.session().is_none());
    assert_eq!(config.model().id, "gpt-4");
    assert!(config.last_message().is_none());
    assert_eq!(config.last_reply(), "");
}

#[test]
fn second_session_is_refused_and_changes_nothing() {
    let mut config = ready();
    config.use_session(Some("first"), None).unwrap();
    config.save_message("hello", "hi", 3);
    let err = config.use_session(Some("second"), None).unwrap_err();
    assert!(matches!(err, ConfigError::AlreadyInSession));
    assert_eq!(
        err.message(),
        "Already in a session, please run '.exit session' first to exit the current session."
    );
    assert!(matches!(config.session_target(None), Err(ConfigError::AlreadyInSession)));
    let session = config.session().unwrap();
    assert_eq!(session.name(), "first");
    assert_eq!(session.messages().len(), 1);
    assert_eq!(session.messages()[0].input, "hello");
    assert!(session.dirty());
}

#[test]
fn sampling_settings_go_to_the_session_or_to_the_defaults() {
    let mut config = ready();
    config.set_temperature(Some(num(0.2)));
    config.set_top_p(Some(num(0.9)));
    config.set_temperature(Some(num(0.4)));
    assert_eq!(bits(config.temperature()), Some(0.4f64.to_bits()));
    assert_eq!(bits(config.top_p()), Some(0.9f64.to_bits()));
    assert_eq!(bits(config.default_temperature()), Some(0.4f64.to_bits()));

    config.use_session(None, None).unwrap();
    assert_eq!(config.session().unwrap().name(), "temp");
    assert_eq!(bits(config.temperature()), Some(0.4f64.to_bits()));
    config.set_temperature(Some(num(1.5)));
    config.set_top_p(None);
    assert_eq!(bits(config.temperature()), Some(1.5f64.to_bits()));
    assert_eq!(bits(config.top_p()), None);
    assert_eq!(bits(config.default_temperature()), Some(0.4f64.to_bits()));
    assert_eq!(bits(config.default_top_p()), Some(0.9f64.to_bits()));
}

#[test]
fn exit_brings_the_model_back() {
    let mut config = ready();
    config.set_model_id();
    config.use_session(Some("work"), None).unwrap();
    config.set_model("mistral:large").unwrap();
    assert_eq!(config.model().id, "mistral:large");
    assert_eq!(config.session().unwrap().model_id(), "mistral:large");
    assert_eq!(config.model_id(), "gpt-4");
    config.set_save_session(Some(false));
    assert_eq!(config.exit_session().unwrap(), ExitStep::Done);
    assert_eq!(config.model().id, "gpt-4");
    config.restore_model().unwrap();
    assert_eq!(config.model().id, "gpt-4");
    assert_eq!(config.model().max_input_tokens, Some(8192));
}

#[test]
fn exit_waits_for_a_changed_session_to_be_written() {
    let mut config = ready();
    assert_eq!(config.exit_session().unwrap(), ExitStep::Idle);
    config.use_session(Some("work"), None).unwrap();
    config.save_message("q", "a", 2);
    assert!(config.needs_persisting());
    assert_eq!(config.exit_session().unwrap(), ExitStep::Persist);
    assert!(config.session().is_some());
    assert_eq!(config.last_reply(), "a");
    config.session_saved();
    assert!(!config.needs_persisting());
    assert_eq!(config.exit_session().unwrap(), ExitStep::Done);
    assert!(config.session().is_none());
    assert!(config.last_message().is_none());
}

#[test]
fn exit_drops_the_session_even_if_the_model_is_gone() {
    let mut config = Config::new("gone", None, None, false, None, false, catalog());
    config.set_model("gpt-4").unwrap();
    config.use_session(Some("work"), None).unwrap();
    let err = config.exit_session().unwrap_err();
    assert_eq!(err.message(), "No model 'gone'");
    assert!(config.session().is_none());
    assert_eq!(config.model().id, "gpt-4");
}

#[test]
fn save_session_toggle_decides_whether_exit_writes() {
    let mut config = Config::new("gpt-4", None, None, false, Some(false), false, catalog());
    config.setup_model().unwrap();
    assert!(!config.effective_save_session());
    config.use_session(Some("work"), None).unwrap();
    config.save_message("q", "a", 1);
    assert!(!config.needs_persisting());
    config.set_save_session(Some(true));
    assert!(config.effective_save_session());
    assert!(config.needs_persisting());
    config.set_save_session(None);
    assert!(!config.effective_save_session());
    assert_eq!(config.default_save_session(), Some(false));
}

#[test]
fn new_session_is_clean() {
    let session = Session::new("s", "gpt-4", None, Some(num(0.5)), Some(true));
    assert!(session.is_empty());
    assert!(!session.dirty());
    assert!(!session.compressing());
    assert_eq!(session.tokens(), 0);
    assert_eq!(session.user_messages_len(), 0);
    assert_eq!(session.save_session(), Some(true));
    assert_eq!(bits(session.top_p()), Some(0.5f64.to_bits()));
}

#[test]
fn every_mutation_marks_the_session_dirty() {
    let model = Model::new("mistral:large", "mistral", "large");
    let fresh = || Session::new("s", "gpt-4", None, None, None);
    let mut s = fresh();
    s.add_message(Turn::new("q", "a", 1));
    assert!(s.dirty());
    let mut s = fresh();
    s.set_temperature(None);
    assert!(s.dirty());
    let mut s = fresh();
    s.set_top_p(Some(num(0.1)));
    assert!(s.dirty());
    let mut s = fresh();
    s.set_model(&model);
    assert!(s.dirty());
    assert_eq!(s.model_id(), "mistral:large");
    let mut s = fresh();
    s.set_save_session(Some(false));
    assert!(s.dirty());
    let mut s = fresh();
    s.clear_messages();
    assert!(s.dirty());
    s.mark_saved();
    assert!(!s.dirty());
    s.set_name("other");
    assert!(!s.dirty());
    assert_eq!(s.name(), "other");
}

#[test]
fn stored_session_comes_back() {
    let mut config = ready();
    config.use_session(Some("work"), None).unwrap();
    config.set_temperature(Some(num(0.7)));
    config.set_top_p(Some(num(0.25)));
    config.set_save_session(Some(true));
    config.set_model("mistral:large").unwrap();
    config.save_message("one", "first answer", 5);
    config.save_message("two", "second answer", 7);
    assert!(config.save_session("kept"));
    let data: SessionData = config.session().unwrap().data();
    config.session_saved();
    assert_eq!(config.exit_session().unwrap(), ExitStep::Done);
    assert_eq!(config.model().id, "gpt-4");

    let offer = config.use_session(Some("kept"), Some(data)).unwrap();
    assert!(!offer);
    let session = config.session().unwrap();
    assert_eq!(session.name(), "kept");
    assert_eq!(session.model_id(), "mistral:large");
    assert_eq!(bits(session.temperature()), Some(0.7f64.to_bits()));
    assert_eq!(session.temperature().unwrap().text, "0.7");
    assert_eq!(bits(session.top_p()), Some(0.25f64.to_bits()));
    assert_eq!(session.save_session(), Some(true));
    assert!(!session.dirty());
    let turns = session.messages();
    assert_eq!(turns.len(), 2);
    assert_eq!((turns[0].input.as_str(), turns[0].output.as_str(), turns[0].tokens), ("one", "first answer", 5));
    assert_eq!((turns[1].input.as_str(), turns[1].output.as_str(), turns[1].tokens), ("two", "second answer", 7));
    assert_eq!(config.model().id, "mistral:large");
}

#[test]
fn stored_session_with_unknown_model_is_refused() {
    let mut config = ready();
    let data = SessionData {
        model_id: "missing".to_string(),
        temperature: None,
        top_p: None,
        save_session: None,
        messages: vec![],
    };
    let err = config.use_session(Some("old"), Some(data)).unwrap_err();
    assert!(matches!(err, ConfigError::NoModel(ref id) if id == "missing"));
    assert!(config.session().is_none());
    assert_eq!(config.model().id, "gpt-4");
}

#[test]
fn temporary_session_always_starts_anew() {
    let mut config = ready();
    assert_eq!(config.session_target(None).unwrap(), "temp");
    let stale = SessionData {
        model_id: "mistral:large".to_string(),
        temperature: None,
        top_p: None,
        save_session: None,
        messages: vec![Turn::new("old", "stale", 1)],
    };
    config.use_session(None, Some(stale)).unwrap();
    let session = config.session().unwrap();
    assert_eq!(session.name(), "temp");
    assert!(session.is_empty());
    assert_eq!(session.model_id(), "gpt-4");
}

#[test]
fn last_exchange_can_seed_a_session() {
    let mut config = ready();
    assert_eq!(config.save_message("before", "reply", 4), Transcript::Skip);
    assert_eq!(config.last_reply(), "reply");
    let offer = config.use_session(Some("work"), None).unwrap();
    assert!(offer);
    config.seed_session(false);
    assert!(config.session().unwrap().is_empty());
    assert!(!config.session().unwrap().dirty());
    config.seed_session(true);
    let session = config.session().unwrap();
    assert_eq!(session.messages().len(), 1);
    assert_eq!(session.messages()[0].input, "before");
    assert_eq!(session.messages()[0].output, "reply");
    assert!(session.dirty());
    config.seed_session(true);
    assert_eq!(config.session().unwrap().messages().len(), 1);
}

#[test]
fn exchanges_go_to_the_session_or_the_log() {
    let mut config = ready();
    assert_eq!(config.save_message("q", "a", 1), Transcript::Skip);
    config.update("save true", None).unwrap();
    assert!(config.save());
    assert_eq!(config.save_message("q", "", 1), Transcript::Open);
    assert_eq!(config.save_message("q", "a", 1), Transcript::Append);
    config.use_session(Some("work"), None).unwrap();
    assert_eq!(config.save_message("q2", "a2", 9), Transcript::Session);
    assert_eq!(config.last_message().unwrap().tokens, 9);
    assert_eq!(config.session().unwrap().messages().len(), 1);
    config.clear_session_messages().unwrap();
    assert!(config.session().unwrap().is_empty());
    assert_eq!(config.last_reply(), "a2");
}

#[test]
fn state_tells_of_the_session() {
    let mut config = ready();
    assert_eq!(config.state(), StateFlags::empty());
    config.use_session(Some("work"), None).unwrap();
    assert_eq!(config.state(), StateFlags::session_empty());
    config.save_message("q", "a", 1);
    assert_eq!(config.state(), StateFlags::session());
    assert!(!config.state().contains(StateFlags::session_empty()));
}

#[test]
fn compressing_is_set_and_cleared() {
    let mut config = ready();
    config.begin_compressing_session();
    assert!(!config.is_compressing_session());
    config.use_session(Some("work"), None).unwrap();
    assert!(!config.is_compressing_session());
    config.begin_compressing_session();
    assert!(config.is_compressing_session());
    assert!(!config.session().unwrap().dirty());
    config.end_compressing_session();
    assert!(!config.is_compressing_session());
}

#[test]
fn tokens_and_share_of_the_window() {
    let mut session = Session::new("s", "gpt-4", None, None, None);
    session.add_message(Turn::new("a", "b", 1000));
    session.add_message(Turn::new("c", "d", 24));
    assert_eq!(session.tokens(), 1024);
    assert_eq!(session.tokens_and_percent(8192), (1024, 1250));
    assert_eq!(session.tokens_and_percent(0), (1024, 0));
    assert_eq!(session.tokens_and_percent(3), (1024, 3413333));
    assert_eq!(session.tokens_and_percent(3000).1, 3413);
    session.add_message(Turn::new("e", "f", usize::MAX));
    assert_eq!(session.tokens(), usize::MAX);
}

#[test]
fn setup_picks_the_first_model_where_none_is_named() {
    let mut config = Config::new("", None, None, false, None, false, catalog());
    config.setup_model().unwrap();
    assert_eq!(config.model_id(), "gpt-4");
    assert_eq!(config.model().id, "gpt-4");

    let mut named = Config::new("mistral:large", None, None, false, None, false, catalog());
    named.setup_model().unwrap();
    assert_eq!(named.model().name, "large");

    let mut empty = Config::default();
    let err = empty.setup_model().unwrap_err();
    assert!(matches!(err, ConfigError::NoAvailableModel));
    assert_eq!(err.message(), "No available model");

    let mut wrong = Config::new("nope", None, None, false, None, false, catalog());
    let err = wrong.setup_model().unwrap_err();
    assert_eq!(err.message(), "No model 'nope'");
    assert_eq!(wrong.model().id, "");
}

#[test]
fn set_model_fails_without_changing_anything() {
    let mut config = ready();
    config.use_session(Some("work"), None).unwrap();
    let err = config.set_model("unknown").unwrap_err();
    assert!(matches!(err, ConfigError::NoModel(ref id) if id == "unknown"));
    assert_eq!(config.model().id, "gpt-4");
    assert_eq!(config.session().unwrap().model_id(), "gpt-4");
    assert!(!config.session().unwrap().dirty());
}
