//! What holds of the configuration whatever is done with it.

use crate::config::{lemma_found_has_id, ConfigView};
use crate::decimal::{all_digits, decimal, digit, digits_value, integer_of, is_digit, signed_decimal};
use crate::error::ConfigErrorView;
use crate::flags::{SESSION, SESSION_EMPTY};
use crate::model::find_model;
use crate::number::RealView;
use crate::session::{SessionDataView, SessionView, TurnView};
use crate::sessions::{session_file_of, stems, SESSION_SUFFIX};
use crate::text::{is_space, lemma_word_len_run, words};
use vstd::prelude::*;
use vstd::string::*;

verus! {

/// A change of one of the two sampling settings.
pub enum Adjust {
    Temperature(Option<RealView>),
    TopP(Option<RealView>),
}

/// Something that is done while a session is active and that leaves the
/// noted model alone. A request that is refused changes nothing.
pub enum Step {
    SetTemperature(Option<RealView>),
    SetTopP(Option<RealView>),
    SetSaveSession(Option<bool>),
    SetModel(Seq<char>),
    Update(Seq<char>, Option<RealView>),
    SaveMessage(TurnView),
    Seed(bool),
    Rename(Seq<char>),
    Saved,
    Clear,
    Compressing(bool),
}

impl ConfigView {
    pub open spec fn adjust(self, change: Adjust) -> ConfigView {
        match change {
            Adjust::Temperature(value) => self.set_temperature(value),
            Adjust::TopP(value) => self.set_top_p(value),
        }
    }

    /// The configuration after the changes `changes`, made in order.
    pub open spec fn adjust_all(self, changes: Seq<Adjust>) -> ConfigView
        decreases changes.len(),
    {
        if changes.len() == 0 {
            self
        } else {
            self.adjust_all(changes.drop_last()).adjust(changes.last())
        }
    }

    pub open spec fn step(self, step: Step) -> ConfigView {
        match step {
            Step::SetTemperature(value) => self.set_temperature(value),
            Step::SetTopP(value) => self.set_top_p(value),
            Step::SetSaveSession(value) => self.set_save_session(value),
            Step::SetModel(id) => match self.set_model(id) {
                Ok(next) => next,
                Err(_) => self,
            },
            Step::Update(data, number) => match self.update(data, number) {
                Ok(next) => next,
                Err(_) => self,
            },
            Step::SaveMessage(turn) => self.save_message(turn),
            Step::Seed(accept) => self.seed_session(accept),
            Step::Rename(name) => self.save_session(name),
            Step::Saved => self.session_saved(),
            Step::Clear => self.clear_session_messages(),
            Step::Compressing(value) => self.set_compressing(value),
        }
    }

    /// The configuration after the steps `steps`, taken in order.
    pub open spec fn run(self, steps: Seq<Step>) -> ConfigView
        decreases steps.len(),
    {
        if steps.len() == 0 {
            self
        } else {
            self.run(steps.drop_last()).step(steps.last())
        }
    }

    /// Whether the session, where one is active, names the model in use.
    pub open spec fn session_names_model(self) -> bool {
        self.session matches Some(session) ==> session.model_id == self.model.id
    }

    /// Whether the catalog holds a model under the identifier of the one in
    /// use.
    pub open spec fn model_is_listed(self) -> bool {
        find_model(self.models, self.model.id) is Some
    }
}

/// The temperature that was set last by `changes`; `start` where none was.
pub open spec fn last_temperature(start: Option<RealView>, changes: Seq<Adjust>) -> Option<
    RealView,
>
    decreases changes.len(),
{
    if changes.len() == 0 {
        start
    } else {
        match changes.last() {
            Adjust::Temperature(value) => value,
            Adjust::TopP(_) => last_temperature(start, changes.drop_last()),
        }
    }
}

/// The top-p that was set last by `changes`; `start` where none was.
pub open spec fn last_top_p(start: Option<RealView>, changes: Seq<Adjust>) -> Option<RealView>
    decreases changes.len(),
{
    if changes.len() == 0 {
        start
    } else {
        match changes.last() {
            Adjust::TopP(value) => value,
            Adjust::Temperature(_) => last_top_p(start, changes.drop_last()),
        }
    }
}

/// After any changes of the temperature and the top-p, each of the two reads
/// back as it was set last. The values are kept in the session where one is
/// active, and the defaults then stay as they were; else they are kept as the
/// defaults, and there is still no session.
pub proof fn lemma_last_value_set_is_read_back(config: ConfigView, changes: Seq<Adjust>)
    ensures
        config.adjust_all(changes).effective_temperature() == last_temperature(
            config.effective_temperature(),
            changes,
        ),
        config.adjust_all(changes).effective_top_p() == last_top_p(
            config.effective_top_p(),
            changes,
        ),
        config.session is Some ==> {
            &&& config.adjust_all(changes).session is Some
            &&& config.adjust_all(changes).temperature == config.temperature
            &&& config.adjust_all(changes).top_p == config.top_p
        },
        config.session is None ==> config.adjust_all(changes).session is None,
    decreases changes.len(),
{
    if changes.len() > 0 {
        lemma_last_value_set_is_read_back(config, changes.drop_last());
    }
}

/// While a session is active, starting one is refused.
pub proof fn lemma_second_session_is_refused(
    config: ConfigView,
    name: Option<Seq<char>>,
    stored: Option<SessionDataView>,
)
    requires
        config.session is Some,
    ensures
        config.use_session(name, stored) == Err::<ConfigView, ConfigErrorView>(
            ConfigErrorView::AlreadyInSession,
        ),
{
}

/// A session that has just been started has not changed, be it new or
/// stored, and a new one has no history.
pub proof fn lemma_started_session_is_clean(
    config: ConfigView,
    name: Option<Seq<char>>,
    stored: Option<SessionDataView>,
)
    requires
        config.use_session(name, stored) is Ok,
    ensures
        config.use_session(name, stored)->Ok_0.session is Some,
        !config.use_session(name, stored)->Ok_0.session->0.dirty,
        (name is None || stored is None) ==> config.use_session(
            name,
            stored,
        )->Ok_0.session->0.is_empty(),
        config.use_session(name, stored)->Ok_0.session_names_model(),
        config.model_is_listed() ==> config.use_session(name, stored)->Ok_0.model_is_listed(),
        config.use_session(name, stored)->Ok_0.models == config.models,
        config.use_session(name, stored)->Ok_0.model_id == config.model_id,
{
    if name is Some && stored is Some {
        lemma_found_has_id(config.models, stored->0.model_id);
    }
}

/// A step in a session touches neither the catalog nor the noted model, keeps
/// the session, keeps the session naming the model in use, and keeps that
/// model one that the catalog lists.
pub proof fn lemma_step_keeps_session(config: ConfigView, step: Step)
    requires
        config.session is Some,
        config.session_names_model(),
    ensures
        config.step(step).session is Some,
        config.step(step).session_names_model(),
        config.model_is_listed() ==> config.step(step).model_is_listed(),
        config.step(step).models == config.models,
        config.step(step).model_id == config.model_id,
{
    match step {
        Step::SetModel(id) => {
            lemma_found_has_id(config.models, id);
        },
        _ => {},
    }
}

/// The same, of any number of steps.
pub proof fn lemma_run_keeps_session(config: ConfigView, steps: Seq<Step>)
    requires
        config.session is Some,
        config.session_names_model(),
    ensures
        config.run(steps).session is Some,
        config.run(steps).session_names_model(),
        config.model_is_listed() ==> config.run(steps).model_is_listed(),
        config.run(steps).models == config.models,
        config.run(steps).model_id == config.model_id,
    decreases steps.len(),
{
    if steps.len() > 0 {
        lemma_run_keeps_session(config, steps.drop_last());
        lemma_step_keeps_session(config.run(steps.drop_last()), steps.last());
    }
}

/// Where the noted model is the one in use when a session starts, the end of
/// the session brings that model back, whatever was done in between, and to
/// restore the model once more changes nothing.
pub proof fn lemma_exit_brings_model_back(
    config: ConfigView,
    name: Option<Seq<char>>,
    stored: Option<SessionDataView>,
    steps: Seq<Step>,
)
    requires
        find_model(config.models, config.model_id) == Some(config.model),
        config.use_session(name, stored) is Ok,
    ensures
        config.use_session(name, stored)->Ok_0.run(steps).exit_session().model == config.model,
        config.use_session(name, stored)->Ok_0.run(steps).exit_session().restore_model() == Ok::<
            ConfigView,
            ConfigErrorView,
        >(config.use_session(name, stored)->Ok_0.run(steps).exit_session()),
        config.use_session(name, stored)->Ok_0.run(steps).exit_session().session is None,
        config.use_session(name, stored)->Ok_0.run(steps).exit_session().last_message is None,
{
    let started = config.use_session(name, stored)->Ok_0;
    lemma_started_session_is_clean(config, name, stored);
    lemma_run_keeps_session(started, steps);
}

/// What is written down of a session gives the session back: the same
/// settings and the same history in the same order, unchanged since.
pub proof fn lemma_stored_session_comes_back(session: SessionView)
    ensures
        SessionView::loaded(session.name, session.data()) == (SessionView {
            dirty: false,
            compressing: false,
            ..session
        }),
        SessionView::loaded(session.name, session.data()).data() == session.data(),
{
}

/// A session that was written down and is started again under its name is
/// the session that it was, as long as the catalog holds its model.
pub proof fn lemma_saved_session_starts_again(config: ConfigView, session: SessionView)
    requires
        config.session is None,
        find_model(config.models, session.model_id) is Some,
    ensures
        config.use_session(Some(session.name), Some(session.data())) is Ok,
        config.use_session(Some(session.name), Some(session.data()))->Ok_0.session == Some(
            SessionView { dirty: false, compressing: false, ..session },
        ),
{
}

/// To set `save_session` to `null` unsets it, for the session where one is
/// active and as the default else. Whether sessions are written down then
/// follows the default where the session was unset, and is yes where the
/// default was.
pub proof fn lemma_null_unsets_save_session(
    config: ConfigView,
    data: Seq<char>,
    number: Option<RealView>,
)
    requires
        words(data) == seq!["save_session"@, "null"@],
    ensures
        config.update(data, number) == Ok::<ConfigView, ConfigErrorView>(
            config.set_save_session(None),
        ),
        config.session is Some ==> {
            &&& config.set_save_session(None).session->0.save_session is None
            &&& config.set_save_session(None).effective_save_session() == (
            match config.save_session {
                Some(default) => default,
                None => true,
            })
        },
        config.session is None ==> {
            &&& config.set_save_session(None).save_session is None
            &&& config.set_save_session(None).effective_save_session()
        },
{
    reveal_strlit("save_session");
    reveal_strlit("max_output_tokens");
    reveal_strlit("temperature");
    reveal_strlit("top_p");
    reveal_strlit("function_calling");
    reveal_strlit("save");
    reveal_strlit("null");
    let parts = words(data);
    assert(parts.len() == 2);
    assert(parts[0] == "save_session"@);
    assert(parts[1] == "null"@);
    assert("save_session"@.len() == 12);
    assert("save_session"@[0] == 's');
    assert("save_session"@ != "max_output_tokens"@);
    assert("save_session"@ != "temperature"@);
    assert("save_session"@ != "top_p"@);
    assert("save_session"@ != "function_calling"@);
    assert("save_session"@ != "save"@);
}

/// The file of a session, alone in the directory, gives the session's name.
pub proof fn lemma_session_file_is_listed(name: Seq<char>)
    ensures
        stems(seq![session_file_of(name)]) == seq![name],
{
    let file = session_file_of(name);
    let entries = seq![file];
    assert(file.skip(file.len() - SESSION_SUFFIX@.len()) =~= SESSION_SUFFIX@);
    assert(file.take(file.len() - SESSION_SUFFIX@.len()) =~= name);
    assert(entries.drop_last() =~= Seq::<Seq<char>>::empty());
    assert(stems(entries.drop_last()) =~= Seq::<Seq<char>>::empty());
    assert(entries.last() == file);
    assert(stems(entries) =~= seq![name]);
}

/// An empty directory holds no session.
pub proof fn lemma_no_files_no_sessions()
    ensures
        stems(Seq::<Seq<char>>::empty()) == Seq::<Seq<char>>::empty(),
{
}

/// Two words with one space between them are split into those two words.
pub proof fn lemma_words_of_pair(key: Seq<char>, value: Seq<char>)
    requires
        key.len() > 0,
        value.len() > 0,
        forall|i: int| 0 <= i < key.len() ==> !is_space(#[trigger] key[i]),
        forall|i: int| 0 <= i < value.len() ==> !is_space(#[trigger] value[i]),
    ensures
        words(key + seq![' '] + value) == seq![key, value],
{
    let line = key + seq![' '] + value;
    let n = key.len() as int;
    assert forall|k: int| 0 <= k < n implies !is_space(#[trigger] line[k]) by {
        assert(line[k] == key[k]);
    }
    assert(line[n] == ' ');
    lemma_word_len_run(line, n);
    assert(line.take(n) =~= key);
    let rest = line.skip(n);
    assert(rest[0] == ' ');
    assert(rest.drop_first() =~= value);
    lemma_word_len_run(value, value.len() as int);
    assert(value.take(value.len() as int) =~= value);
    assert(value.skip(value.len() as int) =~= Seq::<char>::empty());
    assert(words(Seq::<char>::empty()) =~= Seq::<Seq<char>>::empty());
    assert(!is_space(value[0]));
    assert(words(value) =~= seq![value]);
    assert(words(rest) == words(value));
    assert(line[0] == key[0]);
    assert(words(line) =~= seq![key, value]);
}

/// The line `save_session null` unsets whether sessions are written down.
pub proof fn lemma_save_session_null(config: ConfigView, number: Option<RealView>)
    ensures
        config.update("save_session null"@, number) == Ok::<ConfigView, ConfigErrorView>(
            config.set_save_session(None),
        ),
{
    reveal_strlit("save_session null");
    reveal_strlit("save_session");
    reveal_strlit("null");
    let key = "save_session"@;
    let value = "null"@;
    assert("save_session null"@ =~= key + seq![' '] + value);
    lemma_words_of_pair(key, value);
    lemma_null_unsets_save_session(config, "save_session null"@, number);
}

/// The place of a name among the names that the prompt can be given.
pub open spec fn name_rank(name: Seq<char>) -> int {
    if name == "model"@ {
        0
    } else if name == "client_name"@ {
        1
    } else if name == "model_name"@ {
        2
    } else if name == "max_input_tokens"@ {
        3
    } else if name == "temperature"@ {
        4
    } else if name == "top_p"@ {
        5
    } else if name == "save"@ {
        6
    } else if name == "session"@ {
        7
    } else if name == "dirty"@ {
        8
    } else if name == "consume_tokens"@ {
        9
    } else if name == "consume_percent"@ {
        10
    } else if name == "user_messages_len"@ {
        11
    } else {
        12
    }
}

proof fn lemma_name_ranks()
    ensures
        name_rank("model"@) == 0,
        name_rank("client_name"@) == 1,
        name_rank("model_name"@) == 2,
        name_rank("max_input_tokens"@) == 3,
        name_rank("temperature"@) == 4,
        name_rank("top_p"@) == 5,
        name_rank("save"@) == 6,
        name_rank("session"@) == 7,
        name_rank("dirty"@) == 8,
        name_rank("consume_tokens"@) == 9,
        name_rank("consume_percent"@) == 10,
        name_rank("user_messages_len"@) == 11,
{
    reveal_strlit("model");
    reveal_strlit("client_name");
    reveal_strlit("model_name");
    reveal_strlit("max_input_tokens");
    reveal_strlit("temperature");
    reveal_strlit("top_p");
    reveal_strlit("save");
    reveal_strlit("session");
    reveal_strlit("dirty");
    reveal_strlit("consume_tokens");
    reveal_strlit("consume_percent");
    reveal_strlit("user_messages_len");
    assert("model"@.len() == 5 && "top_p"@.len() == 5 && "dirty"@.len() == 5);
    assert("client_name"@.len() == 11 && "temperature"@.len() == 11);
    assert("model_name"@.len() == 10 && "max_input_tokens"@.len() == 16);
    assert("save"@.len() == 4 && "session"@.len() == 7);
    assert("consume_tokens"@.len() == 14 && "consume_percent"@.len() == 15);
    assert("user_messages_len"@.len() == 17);
    assert("model"@[0] == 'm' && "top_p"@[0] == 't' && "dirty"@[0] == 'd');
    assert("client_name"@[0] == 'c' && "temperature"@[0] == 't');
}

/// No name comes twice among what the prompt is given: the names stand in one
/// fixed order.
pub proof fn lemma_prompt_names_differ(config: ConfigView)
    ensures
        forall|i: int, j: int|
            0 <= i < j < config.prompt_context().len() ==> name_rank(
                #[trigger] config.prompt_context()[i].0,
            ) < name_rank(#[trigger] config.prompt_context()[j].0),
        forall|i: int, j: int|
            0 <= i < j < config.prompt_context().len() ==> (
            #[trigger] config.prompt_context()[i]).0 != (#[trigger] config.prompt_context()[j]).0,
{
    lemma_name_ranks();
    let first = config.model_entries();
    let second = config.setting_entries();
    let third = config.session_entries();
    let all = config.prompt_context();
    assert(all == first + second + third);
    assert(first.len() == 4);
    assert forall|k: int| 0 <= k < first.len() implies name_rank(#[trigger] first[k].0) == k by {}
    assert forall|k: int| 0 <= k < third.len() implies name_rank(#[trigger] third[k].0) == 7
        + k by {}
    assert forall|k: int, m: int| 0 <= k < m < second.len() implies name_rank(
        #[trigger] second[k].0,
    ) < name_rank(#[trigger] second[m].0) by {}
    assert forall|k: int| 0 <= k < second.len() implies 4 <= name_rank(#[trigger] second[k].0)
        <= 6 by {}
    assert forall|i: int, j: int| 0 <= i < j < all.len() implies name_rank(#[trigger] all[i].0)
        < name_rank(#[trigger] all[j].0) by {
        if i < 4 {
            assert(all[i] == first[i]);
        } else if i < 4 + second.len() {
            assert(all[i] == second[i - 4]);
        } else {
            assert(all[i] == third[i - 4 - second.len()]);
        }
        if j < 4 {
            assert(all[j] == first[j]);
        } else if j < 4 + second.len() {
            assert(all[j] == second[j - 4]);
        } else {
            assert(all[j] == third[j - 4 - second.len()]);
        }
    }
}

/// A model that was put in use by its identifier has that identifier, the
/// session names it where one is active, and the catalog lists it.
pub proof fn lemma_set_model_agrees(config: ConfigView, id: Seq<char>)
    requires
        config.set_model(id) is Ok,
    ensures
        config.set_model(id)->Ok_0.model.id == id,
        config.set_model(id)->Ok_0.session_names_model(),
        config.set_model(id)->Ok_0.model_is_listed(),
{
    lemma_found_has_id(config.models, id);
}

/// The state tells of the session and of nothing else: no fact without a
/// session, and with one either that it is empty or that it is not.
pub proof fn lemma_state_is_of_the_session(config: ConfigView)
    ensures
        config.session is None <==> config.state() == 0,
        config.session matches Some(session) ==> (config.state() == SESSION_EMPTY
            <==> session.is_empty()) && (config.state() == SESSION <==> !session.is_empty()),
{
}

/// The digits of a number denote that number.
pub proof fn lemma_decimal_denotes(n: nat)
    ensures
        decimal(n).len() > 0,
        all_digits(decimal(n)),
        digits_value(decimal(n)) == n,
    decreases n,
{
    let text = decimal(n);
    let last = digit((n % 10) as int);
    assert(is_digit(last) && last as u32 - 0x30 == n % 10);
    if n < 10 {
        assert(text =~= seq![last]);
        assert(text.drop_last() =~= Seq::<char>::empty());
        assert(digits_value(text.drop_last()) == 0);
    } else {
        lemma_decimal_denotes(n / 10);
        assert(text.drop_last() =~= decimal(n / 10));
        assert(text.last() == last);
        assert forall|i: int| 0 <= i < text.len() implies is_digit(#[trigger] text[i]) by {
            if i < text.len() - 1 {
                assert(text[i] == decimal(n / 10)[i]);
            }
        }
    }
}

/// An integer that is written and read again is the same integer.
pub proof fn lemma_written_integer_reads_back(v: int)
    ensures
        integer_of(signed_decimal(v)) == Some(v),
{
    if v < 0 {
        let body = decimal((-v) as nat);
        lemma_decimal_denotes((-v) as nat);
        let text = signed_decimal(v);
        assert(text[0] == '-');
        assert(text.drop_first() =~= body);
    } else {
        let text = decimal(v as nat);
        lemma_decimal_denotes(v as nat);
        assert(is_digit(text[0]));
    }
}

} // verus!
