//! The configuration: default settings, the catalog of models, the model in
//! use, and the session that overlays the defaults while it is active.

use crate::error::{ConfigError, ConfigErrorView};
use crate::flags::{StateFlags, SESSION, SESSION_EMPTY};
use crate::model::{find_model, Model, ModelView};
use crate::number::{clone_real, Real, RealView};
use crate::decimal::{isize_of, parse_isize};
use crate::session::{Session, SessionData, SessionDataView, SessionView, Turn, TurnView, TEMP_SESSION_NAME};
use crate::text::{same_text, split_words, words};
use crate::values::{bool_of, parse_bool, parse_value, value_of};
use crate::views::{option_view, seq_view};
use vstd::prelude::*;
use vstd::string::*;

verus! {

/// The configuration. At most one session is active at a time.
#[derive(Debug)]
pub struct Config {
    model_id: String,
    temperature: Option<Real>,
    top_p: Option<Real>,
    save: bool,
    save_session: Option<bool>,
    function_calling: bool,
    models: Vec<Model>,
    session: Option<Session>,
    model: Model,
    last_message: Option<Turn>,
}

pub struct ConfigView {
    /// The identifier of the model to go back to when a session ends.
    pub model_id: Seq<char>,
    pub temperature: Option<RealView>,
    pub top_p: Option<RealView>,
    /// Whether exchanges outside a session are written to the log.
    pub save: bool,
    pub save_session: Option<bool>,
    pub function_calling: bool,
    /// The catalog: the models that can be chosen.
    pub models: Seq<ModelView>,
    pub session: Option<SessionView>,
    /// The model in use.
    pub model: ModelView,
    /// The latest exchange, kept to seed a session with.
    pub last_message: Option<TurnView>,
}

impl View for Config {
    type V = ConfigView;

    closed spec fn view(&self) -> ConfigView {
        ConfigView {
            model_id: self.model_id@,
            temperature: option_view(self.temperature),
            top_p: option_view(self.top_p),
            save: self.save,
            save_session: self.save_session,
            function_calling: self.function_calling,
            models: seq_view(self.models@),
            session: option_view(self.session),
            model: self.model@,
            last_message: option_view(self.last_message),
        }
    }
}

impl ConfigView {
    /// No settings, no models, no session.
    pub open spec fn blank() -> ConfigView {
        ConfigView {
            model_id: Seq::empty(),
            temperature: None,
            top_p: None,
            save: false,
            save_session: None,
            function_calling: false,
            models: Seq::empty(),
            session: None,
            model: ModelView::blank(),
            last_message: None,
        }
    }

    /// The temperature in force: the session's while one is active, else the
    /// default.
    pub open spec fn effective_temperature(self) -> Option<RealView> {
        match self.session {
            Some(session) => session.temperature,
            None => self.temperature,
        }
    }

    /// The top-p in force: the session's while one is active, else the
    /// default.
    pub open spec fn effective_top_p(self) -> Option<RealView> {
        match self.session {
            Some(session) => session.top_p,
            None => self.top_p,
        }
    }

    /// Whether a session is written down when it ends: as the session says,
    /// else as the default says, else yes.
    pub open spec fn effective_save_session(self) -> bool {
        match self.session {
            Some(SessionView { save_session: Some(own), .. }) => own,
            _ => match self.save_session {
                Some(default) => default,
                None => true,
            },
        }
    }

    pub open spec fn set_temperature(self, value: Option<RealView>) -> ConfigView {
        match self.session {
            Some(session) => ConfigView {
                session: Some(session.set_temperature(value)),
                ..self
            },
            None => ConfigView { temperature: value, ..self },
        }
    }

    pub open spec fn set_top_p(self, value: Option<RealView>) -> ConfigView {
        match self.session {
            Some(session) => ConfigView { session: Some(session.set_top_p(value)), ..self },
            None => ConfigView { top_p: value, ..self },
        }
    }

    pub open spec fn set_save_session(self, value: Option<bool>) -> ConfigView {
        match self.session {
            Some(session) => ConfigView {
                session: Some(session.set_save_session(value)),
                ..self
            },
            None => ConfigView { save_session: value, ..self },
        }
    }

    /// The configuration with `model` in use, in the session too where one is
    /// active.
    pub open spec fn with_model(self, model: ModelView) -> ConfigView {
        ConfigView {
            session: match self.session {
                Some(session) => Some(session.set_model(model.id)),
                None => None,
            },
            model,
            ..self
        }
    }

    /// Puts the model that the catalog holds under `id` in use.
    pub open spec fn set_model(self, id: Seq<char>) -> Result<ConfigView, ConfigErrorView> {
        match find_model(self.models, id) {
            Some(model) => Ok(self.with_model(model)),
            None => Err(ConfigErrorView::NoModel(id)),
        }
    }

    /// Notes the model in use as the one to go back to.
    pub open spec fn set_model_id(self) -> ConfigView {
        ConfigView { model_id: self.model.id, ..self }
    }

    /// Puts the noted model in use again.
    pub open spec fn restore_model(self) -> Result<ConfigView, ConfigErrorView> {
        self.set_model(self.model_id)
    }

    /// The identifier of the model to start with: the noted one, or the
    /// catalog's first where none is noted.
    pub open spec fn initial_model_id(self) -> Option<Seq<char>> {
        if self.model_id.len() > 0 {
            Some(self.model_id)
        } else if self.models.len() > 0 {
            Some(self.models[0].id)
        } else {
            None
        }
    }

    /// Puts the model to start with in use and notes it.
    pub open spec fn setup_model(self) -> Result<ConfigView, ConfigErrorView> {
        match self.initial_model_id() {
            None => Err(ConfigErrorView::NoAvailableModel),
            Some(id) => match self.set_model(id) {
                Ok(next) => Ok(ConfigView { model_id: id, ..next }),
                Err(e) => Err(e),
            },
        }
    }

    /// The facts about the session, as bits.
    pub open spec fn state(self) -> u32 {
        match self.session {
            None => 0,
            Some(session) => if session.is_empty() {
                SESSION_EMPTY
            } else {
                SESSION
            },
        }
    }

    pub open spec fn set_max_tokens(self, value: Option<isize>) -> ConfigView {
        ConfigView { model: ModelView { max_output_tokens: value, ..self.model }, ..self }
    }

    /// What setting `key` to what the token `value` stands for gives. `number`
    /// is what the token reads as where it is read as a real number.
    pub open spec fn apply(self, key: Seq<char>, value: Seq<char>, number: Option<RealView>) -> Result<
        ConfigView,
        ConfigErrorView,
    > {
        if key == "max_output_tokens"@ {
            match value_of(value, isize_of(value)) {
                Ok(v) => Ok(self.set_max_tokens(v)),
                Err(e) => Err(e),
            }
        } else if key == "temperature"@ {
            match value_of(value, number) {
                Ok(v) => Ok(self.set_temperature(v)),
                Err(e) => Err(e),
            }
        } else if key == "top_p"@ {
            match value_of(value, number) {
                Ok(v) => Ok(self.set_top_p(v)),
                Err(e) => Err(e),
            }
        } else if key == "function_calling"@ {
            match bool_of(value) {
                Some(v) => Ok(ConfigView { function_calling: v, ..self }),
                None => Err(ConfigErrorView::InvalidSwitch),
            }
        } else if key == "save"@ {
            match bool_of(value) {
                Some(v) => Ok(ConfigView { save: v, ..self }),
                None => Err(ConfigErrorView::InvalidSwitch),
            }
        } else if key == "save_session"@ {
            match value_of(value, bool_of(value)) {
                Ok(v) => Ok(self.set_save_session(v)),
                Err(e) => Err(e),
            }
        } else {
            Err(ConfigErrorView::UnknownKey(key))
        }
    }

    /// What the `.set` line `data` gives: it must consist of two words, a key
    /// and a value.
    pub open spec fn update(self, data: Seq<char>, number: Option<RealView>) -> Result<
        ConfigView,
        ConfigErrorView,
    > {
        let parts = words(data);
        if parts.len() != 2 {
            Err(ConfigErrorView::Usage)
        } else {
            self.apply(parts[0], parts[1], number)
        }
    }

    /// The configuration after an exchange: it is the latest one, and it is
    /// part of the session's history where a session is active.
    pub open spec fn save_message(self, turn: TurnView) -> ConfigView {
        ConfigView {
            last_message: Some(turn),
            session: match self.session {
                Some(session) => Some(session.add_message(turn)),
                None => None,
            },
            ..self
        }
    }

    /// Where an exchange with the answer `output` goes.
    pub open spec fn transcript(self, output: Seq<char>) -> Transcript {
        if self.session is Some {
            Transcript::Session
        } else if !self.save {
            Transcript::Skip
        } else if output.len() == 0 {
            Transcript::Open
        } else {
            Transcript::Append
        }
    }

    /// The configuration with a new session named `name`, which starts from
    /// the defaults and the model in use.
    pub open spec fn with_new_session(self, name: Seq<char>) -> ConfigView {
        ConfigView {
            session: Some(
                SessionView::fresh(
                    name,
                    self.model.id,
                    self.temperature,
                    self.top_p,
                    self.save_session,
                ),
            ),
            ..self
        }
    }

    /// The name of the session that a start under `name` is about.
    pub open spec fn session_target(self, name: Option<Seq<char>>) -> Result<
        Seq<char>,
        ConfigErrorView,
    > {
        if self.session is Some {
            Err(ConfigErrorView::AlreadyInSession)
        } else {
            match name {
                Some(name) => Ok(name),
                None => Ok(TEMP_SESSION_NAME@),
            }
        }
    }

    /// Starts a session. Without a name it is the temporary one, which always
    /// starts anew. With a name it is the stored one where `stored` holds what
    /// was written down of it, its model then taken from the catalog, and a
    /// new one else.
    pub open spec fn use_session(
        self,
        name: Option<Seq<char>>,
        stored: Option<SessionDataView>,
    ) -> Result<ConfigView, ConfigErrorView> {
        if self.session is Some {
            Err(ConfigErrorView::AlreadyInSession)
        } else {
            match (name, stored) {
                (None, _) => Ok(self.with_new_session(TEMP_SESSION_NAME@)),
                (Some(name), None) => Ok(self.with_new_session(name)),
                (Some(name), Some(data)) => match find_model(self.models, data.model_id) {
                    Some(model) => Ok(
                        ConfigView {
                            session: Some(SessionView::loaded(name, data)),
                            model,
                            ..self
                        },
                    ),
                    None => Err(ConfigErrorView::NoModel(data.model_id)),
                },
            }
        }
    }

    /// Whether the latest exchange can become the first of the session: the
    /// session has no history and there is such an exchange.
    pub open spec fn offers_seed(self) -> bool {
        self.session matches Some(session) && session.is_empty() && self.last_message is Some
    }

    /// The configuration after the answer to the offer to seed the session.
    pub open spec fn seed_session(self, accept: bool) -> ConfigView {
        if accept && self.offers_seed() {
            ConfigView {
                session: Some(self.session->0.add_message(self.last_message->0)),
                ..self
            }
        } else {
            self
        }
    }

    /// Whether the session has to be written down before it can end.
    pub open spec fn needs_persisting(self) -> bool {
        self.session matches Some(session) && session.dirty && self.effective_save_session()
    }

    /// The configuration after the session has ended: no session, no latest
    /// exchange, and the noted model in use where the catalog still holds it.
    pub open spec fn exit_session(self) -> ConfigView {
        ConfigView {
            session: None,
            last_message: None,
            model: match find_model(self.models, self.model_id) {
                Some(model) => model,
                None => self.model,
            },
            ..self
        }
    }

    /// The configuration with the session renamed to `name`, where `name` is
    /// not empty.
    pub open spec fn save_session(self, name: Seq<char>) -> ConfigView {
        match self.session {
            Some(session) if name.len() > 0 => ConfigView {
                session: Some(session.renamed(name)),
                ..self
            },
            _ => self,
        }
    }

    /// The configuration after the session has been written down.
    pub open spec fn session_saved(self) -> ConfigView {
        match self.session {
            Some(session) => ConfigView { session: Some(session.saved()), ..self },
            None => self,
        }
    }

    pub open spec fn clear_session_messages(self) -> ConfigView {
        match self.session {
            Some(session) => ConfigView { session: Some(session.clear_messages()), ..self },
            None => self,
        }
    }

    pub open spec fn set_compressing(self, value: bool) -> ConfigView {
        match self.session {
            Some(session) => ConfigView { session: Some(session.set_compressing(value)), ..self },
            None => self,
        }
    }
}

/// Where an exchange goes.
#[derive(Clone, Copy, Debug, PartialEq, Eq, Structural)]
pub enum Transcript {
    /// Into the session's history.
    Session,
    /// Nowhere.
    Skip,
    /// Nowhere, but the log is to be opened, and made where it is missing.
    Open,
    /// Onto the end of the log.
    Append,
}

/// What ending the session has come to.
#[derive(Clone, Copy, Debug, PartialEq, Eq, Structural)]
pub enum ExitStep {
    /// No session was active.
    Idle,
    /// The session is still active: it has to be written down first, and
    /// `session_saved` called, before it can end.
    Persist,
    /// The session has ended.
    Done,
}

/// An exchange as it stands in the log.
pub open spec fn log_entry_of(
    summary: Seq<char>,
    timestamp: Seq<char>,
    input: Seq<char>,
    output: Seq<char>,
) -> Seq<char> {
    "# CHAT: "@ + summary + " ["@ + timestamp + "]\n"@ + input + "\n--------\n"@ + output
        + "\n--------\n\n"@
}

/// Lays an exchange out for the log: a heading with the summary and the time,
/// the input, and the answer, each closed by a line of dashes.
pub fn log_entry(summary: &str, timestamp: &str, input: &str, output: &str) -> (r: String)
    ensures
        r@ == log_entry_of(summary@, timestamp@, input@, output@),
{
    let mut r = "# CHAT: ".to_owned();
    r.append(summary);
    r.append(" [");
    r.append(timestamp);
    r.append("]\n");
    r.append(input);
    r.append("\n--------\n");
    r.append(output);
    r.append("\n--------\n\n");
    r
}

/// Whether a request ended as `expected` says: done, with the configuration
/// as given there, or refused with the error given there and nothing changed.
pub open spec fn settled(
    before: ConfigView,
    after: ConfigView,
    result: Result<(), ConfigError>,
    expected: Result<ConfigView, ConfigErrorView>,
) -> bool {
    match expected {
        Ok(next) => result is Ok && after == next,
        Err(e) => result is Err && result->Err_0@ == e && after == before,
    }
}

impl Default for Config {
    fn default() -> (r: Config)
        ensures
            r@ == ConfigView::blank(),
    {
        let r = Config {
            model_id: String::new(),
            temperature: None,
            top_p: None,
            save: false,
            save_session: None,
            function_calling: false,
            models: Vec::new(),
            session: None,
            model: Model::default(),
            last_message: None,
        };
        assert(seq_view(r.models@) =~= Seq::<ModelView>::empty());
        r
    }
}

impl Config {
    /// A configuration with the given defaults and catalog, no session, and no
    /// model in use yet.
    pub fn new(
        model_id: &str,
        temperature: Option<Real>,
        top_p: Option<Real>,
        save: bool,
        save_session: Option<bool>,
        function_calling: bool,
        models: Vec<Model>,
    ) -> (r: Config)
        ensures
            r@ == (ConfigView {
                model_id: model_id@,
                temperature: option_view(temperature),
                top_p: option_view(top_p),
                save,
                save_session,
                function_calling,
                models: seq_view(models@),
                ..ConfigView::blank()
            }),
    {
        Config {
            model_id: model_id.to_owned(),
            temperature,
            top_p,
            save,
            save_session,
            function_calling,
            models,
            session: None,
            model: Model::default(),
            last_message: None,
        }
    }

    pub fn model_id(&self) -> (r: &str)
        ensures
            r@ == self@.model_id,
    {
        self.model_id.as_str()
    }

    pub fn model(&self) -> (r: &Model)
        ensures
            r@ == self@.model,
    {
        &self.model
    }

    pub fn models(&self) -> (r: &Vec<Model>)
        ensures
            seq_view(r@) == self@.models,
    {
        &self.models
    }

    pub fn session(&self) -> (r: Option<&Session>)
        ensures
            r is Some == self@.session is Some,
            r matches Some(session) ==> Some(session@) == self@.session,
    {
        self.session.as_ref()
    }

    /// The temperature in force.
    pub fn temperature(&self) -> (r: Option<Real>)
        ensures
            option_view(r) == self@.effective_temperature(),
    {
        match &self.session {
            Some(session) => session.temperature(),
            None => clone_real(&self.temperature),
        }
    }

    /// The top-p in force.
    pub fn top_p(&self) -> (r: Option<Real>)
        ensures
            option_view(r) == self@.effective_top_p(),
    {
        match &self.session {
            Some(session) => session.top_p(),
            None => clone_real(&self.top_p),
        }
    }

    /// The default temperature, whatever a session says.
    pub fn default_temperature(&self) -> (r: Option<Real>)
        ensures
            option_view(r) == self@.temperature,
    {
        clone_real(&self.temperature)
    }

    /// The default top-p, whatever a session says.
    pub fn default_top_p(&self) -> (r: Option<Real>)
        ensures
            option_view(r) == self@.top_p,
    {
        clone_real(&self.top_p)
    }

    pub fn save(&self) -> (r: bool)
        ensures
            r == self@.save,
    {
        self.save
    }

    /// The default for writing sessions down, whatever a session says.
    pub fn default_save_session(&self) -> (r: Option<bool>)
        ensures
            r == self@.save_session,
    {
        self.save_session
    }

    /// Whether a session is written down when it ends.
    pub fn effective_save_session(&self) -> (r: bool)
        ensures
            r == self@.effective_save_session(),
    {
        let own = match &self.session {
            Some(session) => session.save_session(),
            None => None,
        };
        match own {
            Some(value) => value,
            None => match self.save_session {
                Some(value) => value,
                None => true,
            },
        }
    }

    pub fn function_calling(&self) -> (r: bool)
        ensures
            r == self@.function_calling,
    {
        self.function_calling
    }

    pub fn last_message(&self) -> (r: Option<&Turn>)
        ensures
            r is Some == self@.last_message is Some,
            r matches Some(turn) ==> Some(turn@) == self@.last_message,
    {
        self.last_message.as_ref()
    }

    /// The latest answer, empty where there is none.
    pub fn last_reply(&self) -> (r: &str)
        ensures
            r@ == (match self@.last_message {
                Some(turn) => turn.output,
                None => Seq::empty(),
            }),
    {
        match &self.last_message {
            Some(turn) => turn.output.as_str(),
            None => {
                proof {
                    reveal_strlit("");
                }
                assert(""@ =~= Seq::<char>::empty());
                ""
            },
        }
    }

    /// The facts about the session.
    pub fn state(&self) -> (r: StateFlags)
        ensures
            r.bits == self@.state(),
    {
        let mut flags = StateFlags::empty();
        if let Some(session) = &self.session {
            if session.is_empty() {
                flags.insert(StateFlags::session_empty());
            } else {
                flags.insert(StateFlags::session());
            }
        }
        assert(0u32 | 2u32 == 2u32) by (bit_vector);
        assert(0u32 | 4u32 == 4u32) by (bit_vector);
        flags
    }

    /// Sets the temperature: the session's while one is active, else the
    /// default.
    pub fn set_temperature(&mut self, value: Option<Real>)
        ensures
            final(self)@ == old(self)@.set_temperature(option_view(value)),
    {
        match &mut self.session {
            Some(session) => {
                session.set_temperature(value);
            },
            None => {
                self.temperature = value;
            },
        }
    }

    /// Sets the top-p: the session's while one is active, else the default.
    pub fn set_top_p(&mut self, value: Option<Real>)
        ensures
            final(self)@ == old(self)@.set_top_p(option_view(value)),
    {
        match &mut self.session {
            Some(session) => {
                session.set_top_p(value);
            },
            None => {
                self.top_p = value;
            },
        }
    }

    /// Sets whether sessions are written down: for the session while one is
    /// active, else as the default.
    pub fn set_save_session(&mut self, value: Option<bool>)
        ensures
            final(self)@ == old(self)@.set_save_session(value),
    {
        match &mut self.session {
            Some(session) => {
                session.set_save_session(value);
            },
            None => {
                self.save_session = value;
            },
        }
    }

    /// Puts the model that the catalog holds under `id` in use, in the session
    /// too where one is active.
    pub fn set_model(&mut self, id: &str) -> (r: Result<(), ConfigError>)
        ensures
            settled(old(self)@, final(self)@, r, old(self)@.set_model(id@)),
            r is Ok ==> final(self)@.model.id == id@,
    {
        proof {
            lemma_found_has_id(self@.models, id@);
        }
        match Model::find(&self.models, id) {
            None => Err(ConfigError::NoModel(id.to_owned())),
            Some(model) => {
                match &mut self.session {
                    Some(session) => {
                        session.set_model(&model);
                    },
                    None => {},
                }
                self.model = model;
                Ok(())
            },
        }
    }

    /// Notes the model in use as the one to go back to.
    pub fn set_model_id(&mut self)
        ensures
            final(self)@ == old(self)@.set_model_id(),
    {
        self.model_id = self.model.id.clone();
    }

    /// Puts the noted model in use again.
    pub fn restore_model(&mut self) -> (r: Result<(), ConfigError>)
        ensures
            settled(old(self)@, final(self)@, r, old(self)@.restore_model()),
    {
        let id = self.model_id.clone();
        self.set_model(id.as_str())
    }

    /// Puts the model to start with in use and notes it: the noted one, or
    /// the catalog's first where none is noted.
    pub fn setup_model(&mut self) -> (r: Result<(), ConfigError>)
        ensures
            settled(old(self)@, final(self)@, r, old(self)@.setup_model()),
    {
        let id = if self.model_id.as_str().unicode_len() == 0 {
            if self.models.len() == 0 {
                return Err(ConfigError::NoAvailableModel);
            }
            assert(seq_view(self.models@)[0] == self.models@[0]@);
            self.models[0].id.clone()
        } else {
            self.model_id.clone()
        };
        match self.set_model(id.as_str()) {
            Ok(()) => {
                self.model_id = id;
                Ok(())
            },
            Err(e) => Err(e),
        }
    }

    /// The value of the `.set` line `data`: its second word, where it
    /// consists of two.
    pub fn update_value(data: &str) -> (r: Option<String>)
        ensures
            option_view(r) == (if words(data@).len() == 2 {
                Some(words(data@)[1])
            } else {
                None
            }),
    {
        let parts = split_words(data);
        if parts.len() == 2 {
            Some(parts[1].clone())
        } else {
            None
        }
    }

    /// Carries out the `.set` line `data`. `number` is the real number that
    /// the line's value reads as, `None` where it reads as none; it is looked
    /// at for the temperature and the top-p only.
    pub fn update(&mut self, data: &str, number: Option<Real>) -> (r: Result<(), ConfigError>)
        ensures
            settled(old(self)@, final(self)@, r, old(self)@.update(data@, option_view(number))),
    {
        let parts = split_words(data);
        if parts.len() != 2 {
            return Err(ConfigError::Usage);
        }
        let key = parts[0].as_str();
        let value = parts[1].as_str();
        assert(words(data@)[0] == key@ && words(data@)[1] == value@);
        if same_text(key, "max_output_tokens") {
            match parse_value(value, parse_isize(value)) {
                Ok(v) => {
                    self.model.max_output_tokens = v;
                    Ok(())
                },
                Err(e) => Err(e),
            }
        } else if same_text(key, "temperature") {
            match parse_value(value, number) {
                Ok(v) => {
                    self.set_temperature(v);
                    Ok(())
                },
                Err(e) => Err(e),
            }
        } else if same_text(key, "top_p") {
            match parse_value(value, number) {
                Ok(v) => {
                    self.set_top_p(v);
                    Ok(())
                },
                Err(e) => Err(e),
            }
        } else if same_text(key, "function_calling") {
            match parse_bool(value) {
                Some(v) => {
                    self.function_calling = v;
                    Ok(())
                },
                None => Err(ConfigError::InvalidSwitch),
            }
        } else if same_text(key, "save") {
            match parse_bool(value) {
                Some(v) => {
                    self.save = v;
                    Ok(())
                },
                None => Err(ConfigError::InvalidSwitch),
            }
        } else if same_text(key, "save_session") {
            match parse_value(value, parse_bool(value)) {
                Ok(v) => {
                    self.set_save_session(v);
                    Ok(())
                },
                Err(e) => Err(e),
            }
        } else {
            Err(ConfigError::UnknownKey(key.to_owned()))
        }
    }

    /// Takes note of an exchange and says where it goes. While a session is
    /// active it joins the session's history; else it is for the log, where
    /// logging is on and there is an answer.
    pub fn save_message(&mut self, input: &str, output: &str, tokens: usize) -> (r: Transcript)
        ensures
            final(self)@ == old(self)@.save_message(
                TurnView { input: input@, output: output@, tokens },
            ),
            r == old(self)@.transcript(output@),
    {
        self.last_message = Some(Turn::new(input, output, tokens));
        match &mut self.session {
            Some(session) => {
                session.add_message(Turn::new(input, output, tokens));
                Transcript::Session
            },
            None => {
                if !self.save {
                    Transcript::Skip
                } else if output.unicode_len() == 0 {
                    Transcript::Open
                } else {
                    Transcript::Append
                }
            },
        }
    }

    /// The name of the session that a start under `name` is about; refused
    /// while a session is active.
    pub fn session_target(&self, name: Option<&str>) -> (r: Result<String, ConfigError>)
        ensures
            match self@.session_target(option_view(name)) {
                Ok(target) => r is Ok && r->Ok_0@ == target,
                Err(e) => r is Err && r->Err_0@ == e,
            },
    {
        if self.session.is_some() {
            return Err(ConfigError::AlreadyInSession);
        }
        match name {
            Some(name) => Ok(name.to_owned()),
            None => Ok(TEMP_SESSION_NAME.to_owned()),
        }
    }

    /// Starts a session; refused while one is active. `stored` is what was
    /// written down of the session of that name, where there is such a thing.
    /// Says whether the latest exchange is to be offered as the session's
    /// first.
    pub fn use_session(&mut self, name: Option<&str>, stored: Option<SessionData>) -> (r: Result<
        bool,
        ConfigError,
    >)
        ensures
            match old(self)@.use_session(option_view(name), option_view(stored)) {
                Ok(next) => r == Ok::<bool, ConfigError>(next.offers_seed()) && final(self)@
                    == next,
                Err(e) => r is Err && r->Err_0@ == e && final(self)@ == old(self)@,
            },
            old(self)@.session is Some ==> r is Err && final(self)@ == old(self)@,
    {
        if self.session.is_some() {
            return Err(ConfigError::AlreadyInSession);
        }
        let session = match (name, stored) {
            (Some(name), Some(data)) => {
                match Model::find(&self.models, data.model_id.as_str()) {
                    Some(model) => {
                        self.model = model;
                        Session::load(name, data)
                    },
                    None => {
                        return Err(ConfigError::NoModel(data.model_id));
                    },
                }
            },
            (Some(name), None) => self.new_session(name),
            (None, _) => self.new_session(TEMP_SESSION_NAME),
        };
        let offer = session.is_empty() && self.last_message.is_some();
        self.session = Some(session);
        Ok(offer)
    }

    fn new_session(&self, name: &str) -> (r: Session)
        ensures
            Some(r@) == self@.with_new_session(name@).session,
    {
        Session::new(
            name,
            self.model.id.as_str(),
            clone_real(&self.temperature),
            clone_real(&self.top_p),
            self.save_session,
        )
    }

    /// Takes the answer to the offer that `use_session` made: where it is
    /// yes, the latest exchange becomes the first of the session.
    pub fn seed_session(&mut self, accept: bool)
        ensures
            final(self)@ == old(self)@.seed_session(accept),
    {
        if !accept {
            return ;
        }
        match &mut self.session {
            Some(session) => {
                if session.is_empty() {
                    match &self.last_message {
                        Some(turn) => {
                            session.add_message(turn.clone());
                        },
                        None => {},
                    }
                }
            },
            None => {},
        }
    }

    /// Whether the session has to be written down before it can end.
    pub fn needs_persisting(&self) -> (r: bool)
        ensures
            r == self@.needs_persisting(),
    {
        match &self.session {
            Some(session) => session.dirty() && self.effective_save_session(),
            None => false,
        }
    }

    /// Ends the session. A session that has changed and is to be kept stays
    /// until it has been written down. Else it is dropped, with the latest
    /// exchange, and the noted model is put in use again; where the catalog
    /// no longer holds that model the session is dropped all the same.
    pub fn exit_session(&mut self) -> (r: Result<ExitStep, ConfigError>)
        ensures
            old(self)@.session is None ==> r == Ok::<ExitStep, ConfigError>(ExitStep::Idle)
                && final(self)@ == old(self)@,
            old(self)@.needs_persisting() ==> r == Ok::<ExitStep, ConfigError>(ExitStep::Persist)
                && final(self)@ == old(self)@,
            old(self)@.session is Some && !old(self)@.needs_persisting() ==> {
                &&& final(self)@ == old(self)@.exit_session()
                &&& match find_model(old(self)@.models, old(self)@.model_id) {
                    Some(_) => r == Ok::<ExitStep, ConfigError>(ExitStep::Done),
                    None => r is Err && r->Err_0@ == ConfigErrorView::NoModel(old(self)@.model_id),
                }
            },
    {
        if self.session.is_none() {
            return Ok(ExitStep::Idle);
        }
        if self.needs_persisting() {
            return Ok(ExitStep::Persist);
        }
        self.session = None;
        self.last_message = None;
        match self.restore_model() {
            Ok(()) => Ok(ExitStep::Done),
            Err(e) => Err(e),
        }
    }

    /// Prepares the session for being written down: renames it to `name`
    /// where `name` is not empty. Says whether there is a session to write.
    pub fn save_session(&mut self, name: &str) -> (r: bool)
        ensures
            final(self)@ == old(self)@.save_session(name@),
            r == old(self)@.session is Some,
    {
        match &mut self.session {
            Some(session) => {
                if name.unicode_len() != 0 {
                    session.set_name(name);
                }
                true
            },
            None => false,
        }
    }

    /// Records that the session has been written down as it is.
    pub fn session_saved(&mut self)
        ensures
            final(self)@ == old(self)@.session_saved(),
    {
        match &mut self.session {
            Some(session) => {
                session.mark_saved();
            },
            None => {},
        }
    }

    /// Empties the history of the session.
    pub fn clear_session_messages(&mut self) -> (r: Result<(), ConfigError>)
        ensures
            r is Ok,
            final(self)@ == old(self)@.clear_session_messages(),
    {
        match &mut self.session {
            Some(session) => {
                session.clear_messages();
            },
            None => {},
        }
        Ok(())
    }

    /// Whether a summary of the session's history is awaited.
    pub fn is_compressing_session(&self) -> (r: bool)
        ensures
            r == (self@.session matches Some(session) && session.compressing),
    {
        match &self.session {
            Some(session) => session.compressing(),
            None => false,
        }
    }

    /// Records that a summary of the session's history has been asked for.
    pub fn begin_compressing_session(&mut self)
        ensures
            final(self)@ == old(self)@.set_compressing(true),
    {
        match &mut self.session {
            Some(session) => {
                session.set_compressing(true);
            },
            None => {},
        }
    }

    /// Records that the summary has come and is part of the history.
    pub fn end_compressing_session(&mut self)
        ensures
            final(self)@ == old(self)@.set_compressing(false),
    {
        match &mut self.session {
            Some(session) => {
                session.set_compressing(false);
            },
            None => {},
        }
    }
}

/// A model found under an identifier has that identifier.
pub proof fn lemma_found_has_id(models: Seq<ModelView>, id: Seq<char>)
    ensures
        find_model(models, id) matches Some(model) ==> model.id == id && models.contains(model),
    decreases models.len(),
{
    if models.len() > 0 && models[0].id != id {
        lemma_found_has_id(models.drop_first(), id);
        if find_model(models, id) is Some {
            let model = find_model(models, id).unwrap();
            let k = choose|k: int| 0 <= k < models.drop_first().len() && models.drop_first()[k] == model;
            assert(models[k + 1] == model);
        }
    } else if models.len() > 0 {
        assert(models[0] == models[0]);
    }
}

} // verus!
