//! The settings as a table for the user to read.

use crate::config::{Config, ConfigView};
use crate::decimal::{signed_decimal, signed_decimal_text};
use crate::number::{Real, RealView};
use crate::text::{pad_right, padded};
use crate::values::{bool_text, bool_to_text};
use vstd::prelude::*;
use vstd::string::*;

verus! {

/// Where the files are that the configuration speaks of.
#[derive(Debug)]
pub struct Paths {
    pub config_file: String,
    pub messages_file: String,
    pub sessions_dir: String,
    pub functions_dir: String,
}

pub struct PathsView {
    pub config_file: Seq<char>,
    pub messages_file: Seq<char>,
    pub sessions_dir: Seq<char>,
    pub functions_dir: Seq<char>,
}

impl View for Paths {
    type V = PathsView;

    open spec fn view(&self) -> PathsView {
        PathsView {
            config_file: self.config_file@,
            messages_file: self.messages_file@,
            sessions_dir: self.sessions_dir@,
            functions_dir: self.functions_dir@,
        }
    }
}

/// The width of the column of names.
pub const NAME_WIDTH: usize = 20;

/// The lines of a text, put together with a line break between every two.
pub open spec fn join_lines(lines: Seq<Seq<char>>) -> Seq<char>
    decreases lines.len(),
{
    if lines.len() == 0 {
        Seq::empty()
    } else if lines.len() == 1 {
        lines[0]
    } else {
        join_lines(lines.drop_last()) + seq!['\n'] + lines.last()
    }
}

/// A line of the table: the name, filled up to the width of its column, and
/// the value.
pub open spec fn info_line(name: Seq<char>, value: Seq<char>) -> Seq<char> {
    padded(name, NAME_WIDTH as nat) + value
}

/// How an optional number is shown: a dash where it is unset.
pub open spec fn real_text(value: Option<RealView>) -> Seq<char> {
    match value {
        Some(v) => v.text,
        None => "-"@,
    }
}

/// How an optional switch is shown: a dash where it is unset.
pub open spec fn switch_text(value: Option<bool>) -> Seq<char> {
    match value {
        Some(v) => bool_text(v),
        None => "-"@,
    }
}

/// How the limit on the output is shown: a dash where there is none.
pub open spec fn limit_text(value: Option<isize>) -> Seq<char> {
    match value {
        Some(v) => signed_decimal(v as int) + " (current model)"@,
        None => "-"@,
    }
}

impl ConfigView {
    /// The lines of the table of settings.
    pub open spec fn info_lines(self, paths: PathsView) -> Seq<Seq<char>> {
        seq![
            info_line("model"@, self.model.id),
            info_line("max_output_tokens"@, limit_text(self.model.max_output_tokens)),
            info_line("temperature"@, real_text(self.effective_temperature())),
            info_line("top_p"@, real_text(self.effective_top_p())),
            info_line("function_calling"@, bool_text(self.function_calling)),
            info_line("save"@, bool_text(self.save)),
            info_line("save_session"@, switch_text(self.save_session)),
            info_line("config_file"@, paths.config_file),
            info_line("messages_file"@, paths.messages_file),
            info_line("sessions_dir"@, paths.sessions_dir),
            info_line("functions_dir"@, paths.functions_dir),
        ]
    }

    /// The table of settings.
    pub open spec fn system_info(self, paths: PathsView) -> Seq<char> {
        join_lines(self.info_lines(paths))
    }
}

fn real_to_text(value: &Option<Real>) -> (r: String)
    ensures
        r@ == real_text(crate::views::option_view(*value)),
{
    match value {
        Some(v) => v.text.clone(),
        None => "-".to_owned(),
    }
}

fn switch_to_text(value: Option<bool>) -> (r: String)
    ensures
        r@ == switch_text(value),
{
    match value {
        Some(v) => bool_to_text(v),
        None => "-".to_owned(),
    }
}

fn limit_to_text(value: Option<isize>) -> (r: String)
    ensures
        r@ == limit_text(value),
{
    match value {
        Some(v) => {
            let mut r = signed_decimal_text(v);
            r.append(" (current model)");
            r
        },
        None => "-".to_owned(),
    }
}

/// Puts lines together, with a line break between every two.
pub fn join_text(lines: &Vec<String>) -> (r: String)
    ensures
        r@ == join_lines(lines.deep_view()),
{
    let ghost all = lines.deep_view();
    let mut r = String::new();
    let mut i: usize = 0;
    assert(all.take(0) =~= Seq::<Seq<char>>::empty());
    while i < lines.len()
        invariant
            i <= lines.len(),
            all == lines.deep_view(),
            r@ == join_lines(all.take(i as int)),
        decreases lines.len() - i,
    {
        let ghost next = all.take(i + 1);
        assert(next.drop_last() =~= all.take(i as int));
        assert(next.last() == lines@[i as int]@);
        if i > 0 {
            r.append("\n");
        }
        r.append(lines[i].as_str());
        proof {
            reveal_strlit("\n");
            if i == 0 {
                assert(r@ =~= next[0]);
            } else {
                assert(r@ =~= join_lines(all.take(i as int)) + seq!['\n'] + next.last());
            }
        }
        i = i + 1;
    }
    assert(all.take(i as int) =~= all);
    r
}

fn line(name: &str, value: &str) -> (r: String)
    ensures
        r@ == info_line(name@, value@),
{
    let mut r = pad_right(name, NAME_WIDTH);
    r.append(value);
    r
}

impl Config {
    /// The table of settings: one line for each, the name in a column of its
    /// own. The temperature and the top-p are those in force.
    pub fn system_info(&self, paths: &Paths) -> (r: String)
        ensures
            r@ == self@.system_info(paths@),
    {
        let model = self.model();
        let temperature = self.temperature();
        let top_p = self.top_p();
        let mut lines: Vec<String> = Vec::new();
        lines.push(line("model", model.id.as_str()));
        lines.push(line("max_output_tokens", limit_to_text(model.max_output_tokens).as_str()));
        lines.push(line("temperature", real_to_text(&temperature).as_str()));
        lines.push(line("top_p", real_to_text(&top_p).as_str()));
        lines.push(line("function_calling", bool_to_text(self.function_calling()).as_str()));
        lines.push(line("save", bool_to_text(self.save()).as_str()));
        lines.push(line("save_session", switch_to_text(self.default_save_session()).as_str()));
        lines.push(line("config_file", paths.config_file.as_str()));
        lines.push(line("messages_file", paths.messages_file.as_str()));
        lines.push(line("sessions_dir", paths.sessions_dir.as_str()));
        lines.push(line("functions_dir", paths.functions_dir.as_str()));
        assert(lines.deep_view() =~= self@.info_lines(paths@));
        join_text(&lines)
    }
}

} // verus!
