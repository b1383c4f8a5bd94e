//! Settings that come from the platform's name alone, and what is said when
//! the file of settings cannot be read.

use crate::config::{Config, ConfigView};
use crate::model::Model;
use crate::text::{begins_with, find, first_occurrence, same_text, starts_with};
use crate::views::{option_view, seq_view};
use vstd::prelude::*;
use vstd::string::*;

verus! {

/// The kind of a client that speaks the common protocol under a name of its
/// own.
pub const COMPATIBLE_KIND: &'static str = "openai-compatible";

/// The one client of a configuration that is made for a platform.
#[derive(Debug)]
pub struct PlatformClient {
    pub kind: String,
    pub name: Option<String>,
}

pub struct PlatformClientView {
    pub kind: Seq<char>,
    pub name: Option<Seq<char>>,
}

impl View for PlatformClient {
    type V = PlatformClientView;

    open spec fn view(&self) -> PlatformClientView {
        PlatformClientView { kind: self.kind@, name: option_view(self.name) }
    }
}

/// The identifier of the model to start with on `platform`: the platform and
/// the model's name with a colon between them, or the platform alone.
pub open spec fn platform_model_id_of(platform: Seq<char>, model_name: Option<Seq<char>>) -> Seq<
    char,
> {
    match model_name {
        Some(name) => platform + ":"@ + name,
        None => platform,
    }
}

/// The client for `platform`: of the common kind and named after the
/// platform where `compatible` lists the platform, else of the platform's
/// own kind.
pub open spec fn platform_client_of(
    platform: Seq<char>,
    compatible: Seq<Seq<char>>,
) -> PlatformClientView {
    if compatible.contains(platform) {
        PlatformClientView { kind: COMPATIBLE_KIND@, name: Some(platform) }
    } else {
        PlatformClientView { kind: platform, name: None }
    }
}

pub fn platform_model_id(platform: &str, model_name: Option<&str>) -> (r: String)
    ensures
        r@ == platform_model_id_of(platform@, option_view(model_name)),
{
    let mut r = platform.to_owned();
    match model_name {
        Some(name) => {
            r.append(":");
            r.append(name);
        },
        None => {},
    }
    r
}

pub fn platform_client(platform: &str, compatible: &Vec<String>) -> (r: PlatformClient)
    ensures
        r@ == platform_client_of(platform@, compatible.deep_view()),
{
    let ghost all = compatible.deep_view();
    let mut i: usize = 0;
    while i < compatible.len()
        invariant
            i <= compatible.len(),
            all == compatible.deep_view(),
            forall|k: int| 0 <= k < i ==> all[k] != platform@,
        decreases compatible.len() - i,
    {
        assert(all[i as int] == compatible@[i as int]@);
        if same_text(compatible[i].as_str(), platform) {
            assert(all.contains(platform@));
            return PlatformClient {
                kind: COMPATIBLE_KIND.to_owned(),
                name: Some(platform.to_owned()),
            };
        }
        i = i + 1;
    }
    assert(!all.contains(platform@));
    PlatformClient { kind: platform.to_owned(), name: None }
}

/// The start of a message about the list of clients.
pub const CLIENTS_PREFIX: &'static str = "clients: ";

/// Where such a message begins to say where the fault was found.
pub const LOCATION_MARK: &'static str = " at line";

/// What is said of a fault in the file of settings, given what the reader of
/// the file said. Of a fault in the list of clients the reader names a wrong
/// place, which is left out.
pub open spec fn load_error_of(message: Seq<char>) -> Seq<char> {
    if starts_with(message, CLIENTS_PREFIX@) {
        match first_occurrence(message, LOCATION_MARK@, 0) {
            Some(i) => message.take(i)
                + " (Sorry for being unable to provide an exact location)"@,
            None => "clients: invalid value"@,
        }
    } else {
        message
    }
}

pub fn load_error(message: &str) -> (r: String)
    ensures
        r@ == load_error_of(message@),
{
    if begins_with(message, CLIENTS_PREFIX) {
        match find(message, LOCATION_MARK) {
            Some(i) => {
                let mut r = message.substring_char(0, i).to_owned();
                assert(r@ =~= message@.take(i as int));
                r.append(" (Sorry for being unable to provide an exact location)");
                r
            },
            None => "clients: invalid value".to_owned(),
        }
    } else {
        message.to_owned()
    }
}

impl Config {
    /// The configuration for a platform that was named in place of a file of
    /// settings: the model to start with, nothing written to the log, and
    /// all else unset.
    pub fn for_platform(platform: &str, model_name: Option<&str>, models: Vec<Model>) -> (r:
        Config)
        ensures
            r@ == (ConfigView {
                model_id: platform_model_id_of(platform@, option_view(model_name)),
                models: seq_view(models@),
                ..ConfigView::blank()
            }),
    {
        let id = platform_model_id(platform, model_name);
        Config::new(id.as_str(), None, None, false, None, false, models)
    }
}

} // verus!
