//! A conversation: its own settings, its history, and whether it has changed
//! since it was last written down.

use crate::model::Model;
use crate::number::{clone_real, Real, RealView};
use crate::views::{option_view, seq_view};
use vstd::prelude::*;
use vstd::string::*;

verus! {

/// The name of the session that is started without a name.
pub const TEMP_SESSION_NAME: &'static str = "temp";

/// One exchange: what was asked, what was answered, and what it costs in
/// tokens by the caller's count.
#[derive(Debug)]
pub struct Turn {
    pub input: String,
    pub output: String,
    pub tokens: usize,
}

pub struct TurnView {
    pub input: Seq<char>,
    pub output: Seq<char>,
    pub tokens: usize,
}

impl View for Turn {
    type V = TurnView;

    open spec fn view(&self) -> TurnView {
        TurnView { input: self.input@, output: self.output@, tokens: self.tokens }
    }
}

impl Clone for Turn {
    fn clone(&self) -> (r: Turn)
        ensures
            r@ == self@,
    {
        Turn { input: self.input.clone(), output: self.output.clone(), tokens: self.tokens }
    }
}

impl Turn {
    pub fn new(input: &str, output: &str, tokens: usize) -> (r: Turn)
        ensures
            r@ == (TurnView { input: input@, output: output@, tokens }),
    {
        Turn { input: input.to_owned(), output: output.to_owned(), tokens }
    }
}

/// A copy of a history.
pub fn clone_turns(turns: &Vec<Turn>) -> (r: Vec<Turn>)
    ensures
        seq_view(r@) == seq_view(turns@),
{
    let mut r: Vec<Turn> = Vec::new();
    let mut i: usize = 0;
    while i < turns.len()
        invariant
            i <= turns.len(),
            r.len() == i,
            forall|k: int| 0 <= k < i ==> r@[k]@ == turns@[k]@,
        decreases turns.len() - i,
    {
        r.push(turns[i].clone());
        i = i + 1;
    }
    assert(seq_view(r@) =~= seq_view(turns@));
    r
}

/// What is written down of a session: its settings and its history.
#[derive(Debug)]
pub struct SessionData {
    pub model_id: String,
    pub temperature: Option<Real>,
    pub top_p: Option<Real>,
    pub save_session: Option<bool>,
    pub messages: Vec<Turn>,
}

pub struct SessionDataView {
    pub model_id: Seq<char>,
    pub temperature: Option<RealView>,
    pub top_p: Option<RealView>,
    pub save_session: Option<bool>,
    pub messages: Seq<TurnView>,
}

impl View for SessionData {
    type V = SessionDataView;

    open spec fn view(&self) -> SessionDataView {
        SessionDataView {
            model_id: self.model_id@,
            temperature: option_view(self.temperature),
            top_p: option_view(self.top_p),
            save_session: self.save_session,
            messages: seq_view(self.messages@),
        }
    }
}

/// The sum of the token counts of `messages`.
pub open spec fn sum_tokens(messages: Seq<TurnView>) -> nat
    decreases messages.len(),
{
    if messages.len() == 0 {
        0
    } else {
        sum_tokens(messages.drop_last()) + messages.last().tokens as nat
    }
}

/// How much of a window of `window` tokens `tokens` tokens fill, in hundredths
/// of a percent, rounded to the nearest; 0 where the window is unknown.
pub open spec fn percent_of(tokens: nat, window: nat) -> nat {
    if window == 0 {
        0
    } else {
        (tokens * 20000 + window) / (2 * window)
    }
}

/// A session.
#[derive(Debug)]
pub struct Session {
    name: String,
    model_id: String,
    temperature: Option<Real>,
    top_p: Option<Real>,
    save_session: Option<bool>,
    messages: Vec<Turn>,
    dirty: bool,
    compressing: bool,
}

pub struct SessionView {
    pub name: Seq<char>,
    pub model_id: Seq<char>,
    pub temperature: Option<RealView>,
    pub top_p: Option<RealView>,
    pub save_session: Option<bool>,
    pub messages: Seq<TurnView>,
    /// Changed since it was made or last written down.
    pub dirty: bool,
    /// A summary of the history has been asked for and is still awaited.
    pub compressing: bool,
}

impl View for Session {
    type V = SessionView;

    closed spec fn view(&self) -> SessionView {
        SessionView {
            name: self.name@,
            model_id: self.model_id@,
            temperature: option_view(self.temperature),
            top_p: option_view(self.top_p),
            save_session: self.save_session,
            messages: seq_view(self.messages@),
            dirty: self.dirty,
            compressing: self.compressing,
        }
    }
}

impl SessionView {
    /// A session that starts from the given settings, without history.
    pub open spec fn fresh(
        name: Seq<char>,
        model_id: Seq<char>,
        temperature: Option<RealView>,
        top_p: Option<RealView>,
        save_session: Option<bool>,
    ) -> SessionView {
        SessionView {
            name,
            model_id,
            temperature,
            top_p,
            save_session,
            messages: Seq::empty(),
            dirty: false,
            compressing: false,
        }
    }

    /// The session that `data` was written down of, under the name `name`.
    pub open spec fn loaded(name: Seq<char>, data: SessionDataView) -> SessionView {
        SessionView {
            name,
            model_id: data.model_id,
            temperature: data.temperature,
            top_p: data.top_p,
            save_session: data.save_session,
            messages: data.messages,
            dirty: false,
            compressing: false,
        }
    }

    /// What is written down of the session.
    pub open spec fn data(self) -> SessionDataView {
        SessionDataView {
            model_id: self.model_id,
            temperature: self.temperature,
            top_p: self.top_p,
            save_session: self.save_session,
            messages: self.messages,
        }
    }

    pub open spec fn is_empty(self) -> bool {
        self.messages.len() == 0
    }

    pub open spec fn add_message(self, turn: TurnView) -> SessionView {
        SessionView { messages: self.messages.push(turn), dirty: true, ..self }
    }

    pub open spec fn clear_messages(self) -> SessionView {
        SessionView { messages: Seq::empty(), dirty: true, ..self }
    }

    pub open spec fn set_temperature(self, value: Option<RealView>) -> SessionView {
        SessionView { temperature: value, dirty: true, ..self }
    }

    pub open spec fn set_top_p(self, value: Option<RealView>) -> SessionView {
        SessionView { top_p: value, dirty: true, ..self }
    }

    pub open spec fn set_save_session(self, value: Option<bool>) -> SessionView {
        SessionView { save_session: value, dirty: true, ..self }
    }

    pub open spec fn set_model(self, model_id: Seq<char>) -> SessionView {
        SessionView { model_id, dirty: true, ..self }
    }

    pub open spec fn renamed(self, name: Seq<char>) -> SessionView {
        SessionView { name, ..self }
    }

    pub open spec fn saved(self) -> SessionView {
        SessionView { dirty: false, ..self }
    }

    pub open spec fn set_compressing(self, value: bool) -> SessionView {
        SessionView { compressing: value, ..self }
    }

    /// The tokens that the history has consumed, as far as a machine word
    /// counts.
    pub open spec fn tokens(self) -> usize {
        if sum_tokens(self.messages) <= usize::MAX {
            sum_tokens(self.messages) as usize
        } else {
            usize::MAX
        }
    }
}

impl Session {
    /// A session that starts from the given settings, without history.
    pub fn new(
        name: &str,
        model_id: &str,
        temperature: Option<Real>,
        top_p: Option<Real>,
        save_session: Option<bool>,
    ) -> (r: Session)
        ensures
            r@ == SessionView::fresh(
                name@,
                model_id@,
                option_view(temperature),
                option_view(top_p),
                save_session,
            ),
            r@.is_empty(),
            !r@.dirty,
    {
        let r = Session {
            name: name.to_owned(),
            model_id: model_id.to_owned(),
            temperature,
            top_p,
            save_session,
            messages: Vec::new(),
            dirty: false,
            compressing: false,
        };
        assert(seq_view(r.messages@) =~= Seq::<TurnView>::empty());
        r
    }

    /// The session that `data` was written down of, under the name `name`.
    pub fn load(name: &str, data: SessionData) -> (r: Session)
        ensures
            r@ == SessionView::loaded(name@, data@),
            !r@.dirty,
    {
        Session {
            name: name.to_owned(),
            model_id: data.model_id,
            temperature: data.temperature,
            top_p: data.top_p,
            save_session: data.save_session,
            messages: data.messages,
            dirty: false,
            compressing: false,
        }
    }

    /// What is to be written down of the session.
    pub fn data(&self) -> (r: SessionData)
        ensures
            r@ == self@.data(),
    {
        SessionData {
            model_id: self.model_id.clone(),
            temperature: clone_real(&self.temperature),
            top_p: clone_real(&self.top_p),
            save_session: self.save_session,
            messages: clone_turns(&self.messages),
        }
    }

    pub fn name(&self) -> (r: &str)
        ensures
            r@ == self@.name,
    {
        self.name.as_str()
    }

    pub fn model_id(&self) -> (r: &str)
        ensures
            r@ == self@.model_id,
    {
        self.model_id.as_str()
    }

    pub fn temperature(&self) -> (r: Option<Real>)
        ensures
            option_view(r) == self@.temperature,
    {
        clone_real(&self.temperature)
    }

    pub fn top_p(&self) -> (r: Option<Real>)
        ensures
            option_view(r) == self@.top_p,
    {
        clone_real(&self.top_p)
    }

    pub fn save_session(&self) -> (r: Option<bool>)
        ensures
            r == self@.save_session,
    {
        self.save_session
    }

    pub fn messages(&self) -> (r: &Vec<Turn>)
        ensures
            seq_view(r@) == self@.messages,
    {
        &self.messages
    }

    pub fn dirty(&self) -> (r: bool)
        ensures
            r == self@.dirty,
    {
        self.dirty
    }

    pub fn compressing(&self) -> (r: bool)
        ensures
            r == self@.compressing,
    {
        self.compressing
    }

    pub fn is_empty(&self) -> (r: bool)
        ensures
            r == self@.is_empty(),
    {
        self.messages.len() == 0
    }

    /// The number of turns that the user has written.
    pub fn user_messages_len(&self) -> (r: usize)
        ensures
            r == self@.messages.len(),
    {
        self.messages.len()
    }

    pub fn add_message(&mut self, turn: Turn)
        ensures
            final(self)@ == old(self)@.add_message(turn@),
    {
        self.messages.push(turn);
        self.dirty = true;
        assert(seq_view(self.messages@) =~= seq_view(old(self).messages@).push(turn@));
    }

    pub fn clear_messages(&mut self)
        ensures
            final(self)@ == old(self)@.clear_messages(),
    {
        self.messages.clear();
        self.dirty = true;
        assert(seq_view(self.messages@) =~= Seq::<TurnView>::empty());
    }

    pub fn set_temperature(&mut self, value: Option<Real>)
        ensures
            final(self)@ == old(self)@.set_temperature(option_view(value)),
    {
        self.temperature = value;
        self.dirty = true;
    }

    pub fn set_top_p(&mut self, value: Option<Real>)
        ensures
            final(self)@ == old(self)@.set_top_p(option_view(value)),
    {
        self.top_p = value;
        self.dirty = true;
    }

    pub fn set_save_session(&mut self, value: Option<bool>)
        ensures
            final(self)@ == old(self)@.set_save_session(value),
    {
        self.save_session = value;
        self.dirty = true;
    }

    pub fn set_model(&mut self, model: &Model)
        ensures
            final(self)@ == old(self)@.set_model(model@.id),
    {
        self.model_id = model.id.clone();
        self.dirty = true;
    }

    pub fn set_name(&mut self, name: &str)
        ensures
            final(self)@ == old(self)@.renamed(name@),
    {
        self.name = name.to_owned();
    }

    /// Records that the session has been written down as it is.
    pub fn mark_saved(&mut self)
        ensures
            final(self)@ == old(self)@.saved(),
    {
        self.dirty = false;
    }

    pub fn set_compressing(&mut self, value: bool)
        ensures
            final(self)@ == old(self)@.set_compressing(value),
    {
        self.compressing = value;
    }

    /// The tokens that the history has consumed.
    pub fn tokens(&self) -> (r: usize)
        ensures
            r == self@.tokens(),
    {
        let ghost all = seq_view(self.messages@);
        let mut total: usize = 0;
        let mut i: usize = 0;
        assert(all.take(0) =~= Seq::<TurnView>::empty());
        while i < self.messages.len()
            invariant
                i <= self.messages.len(),
                all == seq_view(self.messages@),
                sum_tokens(all.take(i as int)) <= usize::MAX ==> total == sum_tokens(
                    all.take(i as int),
                ),
                sum_tokens(all.take(i as int)) > usize::MAX ==> total == usize::MAX,
            decreases self.messages.len() - i,
        {
            let t = self.messages[i].tokens;
            proof {
                let next = all.take(i + 1);
                assert(next.drop_last() =~= all.take(i as int));
                assert(next.last().tokens == t);
            }
            if t > usize::MAX - total {
                total = usize::MAX;
            } else {
                total = total + t;
            }
            i = i + 1;
        }
        assert(all.take(i as int) =~= all);
        total
    }

    /// The tokens that the history has consumed, and how much of a window of
    /// `window` tokens they fill, in hundredths of a percent.
    pub fn tokens_and_percent(&self, window: usize) -> (r: (usize, u128))
        ensures
            r.0 == self@.tokens(),
            r.1 == percent_of(self@.tokens() as nat, window as nat),
    {
        let tokens = self.tokens();
        let percent: u128 = if window == 0 {
            0
        } else {
            (tokens as u128 * 20000 + window as u128) / (2 * window as u128)
        };
        (tokens, percent)
    }
}

} // verus!
