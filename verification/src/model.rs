//! Chat models and the catalog they are looked up in.

use crate::text::same_text;
use crate::views::seq_view;
use vstd::prelude::*;
use vstd::string::*;

verus! {

/// One chat model of the catalog.
#[derive(Debug)]
pub struct Model {
    /// The identifier by which the model is asked for.
    pub id: String,
    pub client_name: String,
    pub name: String,
    /// The size of the input window, in tokens, where it is known.
    pub max_input_tokens: Option<usize>,
    pub max_output_tokens: Option<isize>,
}

pub struct ModelView {
    pub id: Seq<char>,
    pub client_name: Seq<char>,
    pub name: Seq<char>,
    pub max_input_tokens: Option<usize>,
    pub max_output_tokens: Option<isize>,
}

impl View for Model {
    type V = ModelView;

    open spec fn view(&self) -> ModelView {
        ModelView {
            id: self.id@,
            client_name: self.client_name@,
            name: self.name@,
            max_input_tokens: self.max_input_tokens,
            max_output_tokens: self.max_output_tokens,
        }
    }
}

impl ModelView {
    /// The model that stands in where none was chosen: no names, no limits.
    pub open spec fn blank() -> ModelView {
        ModelView {
            id: Seq::empty(),
            client_name: Seq::empty(),
            name: Seq::empty(),
            max_input_tokens: None,
            max_output_tokens: None,
        }
    }
}

/// The first model of `models` whose identifier is `id`.
pub open spec fn find_model(models: Seq<ModelView>, id: Seq<char>) -> Option<ModelView>
    decreases models.len(),
{
    if models.len() == 0 {
        None
    } else if models[0].id == id {
        Some(models[0])
    } else {
        find_model(models.drop_first(), id)
    }
}

impl Clone for Model {
    fn clone(&self) -> (r: Model)
        ensures
            r@ == self@,
    {
        Model {
            id: self.id.clone(),
            client_name: self.client_name.clone(),
            name: self.name.clone(),
            max_input_tokens: self.max_input_tokens,
            max_output_tokens: self.max_output_tokens,
        }
    }
}

impl Default for Model {
    fn default() -> (r: Model)
        ensures
            r@ == ModelView::blank(),
    {
        Model {
            id: String::new(),
            client_name: String::new(),
            name: String::new(),
            max_input_tokens: None,
            max_output_tokens: None,
        }
    }
}

impl Model {
    pub fn new(id: &str, client_name: &str, name: &str) -> (r: Model)
        ensures
            r@ == (ModelView {
                id: id@,
                client_name: client_name@,
                name: name@,
                max_input_tokens: None,
                max_output_tokens: None,
            }),
    {
        Model {
            id: id.to_owned(),
            client_name: client_name.to_owned(),
            name: name.to_owned(),
            max_input_tokens: None,
            max_output_tokens: None,
        }
    }

    /// Looks `id` up in the catalog `models`.
    pub fn find(models: &Vec<Model>, id: &str) -> (r: Option<Model>)
        ensures
            crate::views::option_view(r) == find_model(seq_view(models@), id@),
    {
        let ghost all = seq_view(models@);
        let mut i: usize = 0;
        assert(all.skip(0) =~= all);
        while i < models.len()
            invariant
                i <= models.len(),
                all == seq_view(models@),
                find_model(all, id@) == find_model(all.skip(i as int), id@),
            decreases models.len() - i,
        {
            let ghost rest = all.skip(i as int);
            assert(rest[0] == models@[i as int]@);
            if same_text(models[i].id.as_str(), id) {
                return Some(models[i].clone());
            }
            assert(rest.drop_first() =~= all.skip(i + 1));
            i = i + 1;
        }
        None
    }
}

} // verus!
