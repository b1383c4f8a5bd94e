//! What the prompt can show of the configuration: named texts, of which a
//! reader takes those it knows and does without those that are missing.

use crate::config::{Config, ConfigView};
use crate::decimal::{decimal, decimal_text, hundredths, hundredths_text};
use crate::number::{Real, RealView};
use crate::session::percent_of;
use crate::values::{bool_text, bool_to_text};
use vstd::prelude::*;
use vstd::string::*;

verus! {

/// The views of named texts.
pub open spec fn entries_view(entries: Seq<(String, String)>) -> Seq<(Seq<char>, Seq<char>)> {
    Seq::new(entries.len(), |i: int| (entries[i].0@, entries[i].1@))
}

/// The entry of a real-valued setting: none where it is unset or zero.
pub open spec fn real_entry(name: Seq<char>, value: Option<RealView>) -> Seq<
    (Seq<char>, Seq<char>),
> {
    match value {
        Some(v) if !v.is_zero() => seq![(name, v.text)],
        _ => Seq::empty(),
    }
}

impl ConfigView {
    /// The size of the input window of the model in use, 0 where it is not
    /// known.
    pub open spec fn window(self) -> usize {
        match self.model.max_input_tokens {
            Some(n) => n,
            None => 0,
        }
    }

    /// What is always shown: the model in use.
    pub open spec fn model_entries(self) -> Seq<(Seq<char>, Seq<char>)> {
        seq![
            ("model"@, self.model.id),
            ("client_name"@, self.model.client_name),
            ("model_name"@, self.model.name),
            ("max_input_tokens"@, decimal(self.window() as nat)),
        ]
    }

    /// What is shown of the default settings: the temperature and the top-p
    /// where they are set and not zero, and the log where it is on.
    pub open spec fn setting_entries(self) -> Seq<(Seq<char>, Seq<char>)> {
        real_entry("temperature"@, self.temperature) + real_entry("top_p"@, self.top_p) + (
        if self.save {
            seq![("save"@, "true"@)]
        } else {
            Seq::empty()
        })
    }

    /// What is shown of the session, while one is active: its name, whether
    /// it has changed, the tokens it has consumed and the share of the
    /// model's window that they fill, and the number of turns.
    pub open spec fn session_entries(self) -> Seq<(Seq<char>, Seq<char>)> {
        match self.session {
            Some(session) => seq![
                ("session"@, session.name),
                ("dirty"@, bool_text(session.dirty)),
                ("consume_tokens"@, decimal(session.tokens() as nat)),
                (
                    "consume_percent"@,
                    hundredths(percent_of(session.tokens() as nat, self.window() as nat)),
                ),
                ("user_messages_len"@, decimal(session.messages.len())),
            ],
            None => Seq::empty(),
        }
    }

    /// All that the prompt can show, in order.
    pub open spec fn prompt_context(self) -> Seq<(Seq<char>, Seq<char>)> {
        self.model_entries() + self.setting_entries() + self.session_entries()
    }
}

fn push_entry(entries: &mut Vec<(String, String)>, name: &str, value: String)
    ensures
        entries_view(final(entries)@) == entries_view(old(entries)@).push((name@, value@)),
{
    entries.push((name.to_owned(), value));
    assert(entries_view(entries@) =~= entries_view(old(entries)@).push((name@, value@)));
}

fn push_real(entries: &mut Vec<(String, String)>, name: &str, value: &Option<Real>)
    ensures
        entries_view(final(entries)@) == entries_view(old(entries)@) + real_entry(
            name@,
            crate::views::option_view(*value),
        ),
{
    match value {
        Some(v) => {
            if !v.is_zero() {
                push_entry(entries, name, v.text.clone());
                assert(entries_view(entries@) =~= entries_view(old(entries)@) + seq![
                    (name@, v@.text),
                ]);
                return ;
            }
        },
        None => {},
    }
    assert(entries_view(entries@) =~= entries_view(old(entries)@) + Seq::<
        (Seq<char>, Seq<char>),
    >::empty());
}

impl Config {
    /// All that the prompt can show of the configuration, in order; no name
    /// comes twice.
    pub fn generate_prompt_context(&self) -> (r: Vec<(String, String)>)
        ensures
            entries_view(r@) == self@.prompt_context(),
    {
        let model = self.model();
        let window: usize = match model.max_input_tokens {
            Some(n) => n,
            None => 0,
        };
        let mut r: Vec<(String, String)> = Vec::new();
        assert(entries_view(r@) =~= Seq::<(Seq<char>, Seq<char>)>::empty());
        push_entry(&mut r, "model", model.id.clone());
        push_entry(&mut r, "client_name", model.client_name.clone());
        push_entry(&mut r, "model_name", model.name.clone());
        push_entry(&mut r, "max_input_tokens", decimal_text(window as u128));
        assert(entries_view(r@) =~= self@.model_entries());
        let ghost shown = entries_view(r@);
        let temperature = self.default_temperature();
        push_real(&mut r, "temperature", &temperature);
        let top_p = self.default_top_p();
        push_real(&mut r, "top_p", &top_p);
        if self.save() {
            push_entry(&mut r, "save", "true".to_owned());
        }
        assert(entries_view(r@) =~= shown + self@.setting_entries());
        let ghost shown = entries_view(r@);
        match self.session() {
            Some(session) => {
                push_entry(&mut r, "session", session.name().to_owned());
                push_entry(&mut r, "dirty", bool_to_text(session.dirty()));
                let (tokens, percent) = session.tokens_and_percent(window);
                push_entry(&mut r, "consume_tokens", decimal_text(tokens as u128));
                push_entry(&mut r, "consume_percent", hundredths_text(percent));
                push_entry(
                    &mut r,
                    "user_messages_len",
                    decimal_text(session.user_messages_len() as u128),
                );
            },
            None => {},
        }
        assert(entries_view(r@) =~= shown + self@.session_entries());
        r
    }
}

} // verus!
