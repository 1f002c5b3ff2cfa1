//! The models that the user curated, and the providers whose models can be
//! discovered.

use crate::seqs::{any, distinct_keys, first_index, lemma_first_index_is};
use crate::text::same;
use vstd::prelude::*;

verus! {

/// Errors of reading and writing the file of models.
#[derive(Debug, Clone, PartialEq, Eq)]
pub enum ModelConfigError {
    Read(String),
    Parse(String),
    Write(String),
}

impl ModelConfigError {
    /// The message that the error shows.
    pub open spec fn spec_message(self) -> Seq<char> {
        match self {
            ModelConfigError::Read(e) => "Failed to read models.toml: "@ + e@,
            ModelConfigError::Parse(e) => "Failed to parse models.toml: "@ + e@,
            ModelConfigError::Write(e) => "Failed to write models.toml: "@ + e@,
        }
    }

    /// The message that the error shows.
    pub fn message(&self) -> (r: String)
        ensures
            r@ == self.spec_message(),
    {
        match self {
            ModelConfigError::Read(e) => "Failed to read models.toml: ".to_string().concat(
                e.as_str(),
            ),
            ModelConfigError::Parse(e) => "Failed to parse models.toml: ".to_string().concat(
                e.as_str(),
            ),
            ModelConfigError::Write(e) => "Failed to write models.toml: ".to_string().concat(
                e.as_str(),
            ),
        }
    }
}

/// A model that the user put on the short list.
#[derive(Debug, Clone, PartialEq, Eq)]
pub struct CuratedModel {
    pub name: String,
    pub provider: String,
    pub model_id: String,
}

/// A curated model as a mathematical value.
pub struct CuratedModelView {
    pub name: Seq<char>,
    pub provider: Seq<char>,
    pub model_id: Seq<char>,
}

impl View for CuratedModel {
    type V = CuratedModelView;

    open spec fn view(&self) -> CuratedModelView {
        CuratedModelView { name: self.name@, provider: self.provider@, model_id: self.model_id@ }
    }
}

impl DeepView for CuratedModel {
    type V = CuratedModelView;

    open spec fn deep_view(&self) -> CuratedModelView {
        self@
    }
}

impl CuratedModel {
    /// The model `model_id` of `provider`, shown as `name`.
    pub fn new(name: &str, provider: &str, model_id: &str) -> (r: CuratedModel)
        ensures
            r@ == (CuratedModelView { name: name@, provider: provider@, model_id: model_id@ }),
    {
        CuratedModel {
            name: name.to_string(),
            provider: provider.to_string(),
            model_id: model_id.to_string(),
        }
    }

    /// A copy of the model.
    pub fn copy(&self) -> (r: CuratedModel)
        ensures
            r@ == self@,
    {
        CuratedModel {
            name: self.name.clone(),
            provider: self.provider.clone(),
            model_id: self.model_id.clone(),
        }
    }
}

/// How the answer of a provider is read.
#[derive(Debug, Clone, PartialEq, Eq)]
pub struct ResponseFormat {
    /// The member of the answer that holds the array of models.
    pub models_path: String,
    /// The member of a model that holds its id.
    pub model_id_field: String,
    /// What to take off the front of an id, where it stands there.
    pub model_id_strip_prefix: Option<String>,
    /// The member of a model that holds its name.
    pub model_name_field: String,
}

/// A response format as a mathematical value.
pub struct ResponseFormatView {
    pub models_path: Seq<char>,
    pub model_id_field: Seq<char>,
    pub model_id_strip_prefix: Option<Seq<char>>,
    pub model_name_field: Seq<char>,
}

impl View for ResponseFormat {
    type V = ResponseFormatView;

    open spec fn view(&self) -> ResponseFormatView {
        ResponseFormatView {
            models_path: self.models_path@,
            model_id_field: self.model_id_field@,
            model_id_strip_prefix: self.model_id_strip_prefix.deep_view(),
            model_name_field: self.model_name_field@,
        }
    }
}

/// A provider whose models can be asked for.
#[derive(Debug, Clone, PartialEq, Eq)]
pub struct ProviderConfig {
    pub name: String,
    pub display_name: String,
    pub api_key_env: String,
    pub models_url: String,
    /// "bearer", "header" or "query_param".
    pub auth_type: String,
    pub auth_header: Option<String>,
    pub auth_param: Option<String>,
    /// More headers for every request, each as name and value. The list
    /// stands for a map: see [`ProviderConfigView::wf`].
    pub extra_headers: Vec<(String, String)>,
    pub response_format: ResponseFormat,
}

/// A provider as a mathematical value.
pub struct ProviderConfigView {
    pub name: Seq<char>,
    pub display_name: Seq<char>,
    pub api_key_env: Seq<char>,
    pub models_url: Seq<char>,
    pub auth_type: Seq<char>,
    pub auth_header: Option<Seq<char>>,
    pub auth_param: Option<Seq<char>>,
    pub extra_headers: Seq<(Seq<char>, Seq<char>)>,
    pub response_format: ResponseFormatView,
}

impl ProviderConfigView {
    /// What a well-formed provider keeps: its extra headers are a map from
    /// names to values, so no name occurs twice.
    pub open spec fn wf(self) -> bool {
        distinct_keys(self.extra_headers)
    }
}

impl View for ProviderConfig {
    type V = ProviderConfigView;

    open spec fn view(&self) -> ProviderConfigView {
        ProviderConfigView {
            name: self.name@,
            display_name: self.display_name@,
            api_key_env: self.api_key_env@,
            models_url: self.models_url@,
            auth_type: self.auth_type@,
            auth_header: self.auth_header.deep_view(),
            auth_param: self.auth_param.deep_view(),
            extra_headers: self.extra_headers.deep_view(),
            response_format: self.response_format@,
        }
    }
}

impl DeepView for ProviderConfig {
    type V = ProviderConfigView;

    open spec fn deep_view(&self) -> ProviderConfigView {
        self@
    }
}

/// The model that a conversation uses unless told otherwise.
pub fn default_model() -> (r: String)
    ensures
        r@ == "openai/gpt-4"@,
{
    "openai/gpt-4".to_string()
}

/// The models: the default and the short list.
#[derive(Debug, Clone, PartialEq, Eq)]
pub struct ModelsSection {
    pub default_model: String,
    pub curated: Vec<CuratedModel>,
}

impl Default for ModelsSection {
    fn default() -> (r: ModelsSection)
        ensures
            r.default_model@ == "openai/gpt-4"@,
            r.curated.deep_view() == Seq::<CuratedModelView>::empty(),
    {
        let r = ModelsSection { default_model: default_model(), curated: Vec::new() };
        assert(r.curated.deep_view() =~= Seq::empty());
        r
    }
}

/// The file of models.
#[derive(Debug, Clone, PartialEq, Eq)]
pub struct ModelsConfig {
    pub providers: Vec<ProviderConfig>,
    pub models: ModelsSection,
}

impl Default for ModelsConfig {
    fn default() -> (r: ModelsConfig)
        ensures
            r.models.default_model@ == "openai/gpt-4"@,
            r.models.curated.deep_view() == Seq::<CuratedModelView>::empty(),
            r.providers.deep_view() == Seq::<ProviderConfigView>::empty(),
    {
        let r = ModelsConfig { providers: Vec::new(), models: ModelsSection::default() };
        assert(r.providers.deep_view() =~= Seq::empty());
        r
    }
}

/// The condition "this is the model `model_id` of `provider`".
pub open spec fn is_model(provider: Seq<char>, model_id: Seq<char>) -> spec_fn(
    CuratedModelView,
) -> bool {
    |m: CuratedModelView| m.provider == provider && m.model_id == model_id
}

/// The condition "this is not the model `model_id` of `provider`".
pub open spec fn is_other_model(provider: Seq<char>, model_id: Seq<char>) -> spec_fn(
    CuratedModelView,
) -> bool {
    |m: CuratedModelView| !(m.provider == provider && m.model_id == model_id)
}

/// The condition "this provider is called `name`".
pub open spec fn is_called(name: Seq<char>) -> spec_fn(ProviderConfigView) -> bool {
    |p: ProviderConfigView| p.name == name
}

/// The short list with a model added: at the end, unless the list holds a
/// model with its provider and id.
pub open spec fn with_model(curated: Seq<CuratedModelView>, m: CuratedModelView) -> Seq<
    CuratedModelView,
> {
    if any(curated, is_model(m.provider, m.model_id)) {
        curated
    } else {
        curated.push(m)
    }
}

/// The short list without the model `model_id` of `provider`.
pub open spec fn without_model(
    curated: Seq<CuratedModelView>,
    provider: Seq<char>,
    model_id: Seq<char>,
) -> Seq<CuratedModelView> {
    curated.filter(is_other_model(provider, model_id))
}

impl ModelsConfig {
    /// Adds a model to the short list, unless the list holds a model with its
    /// provider and id. Nothing else changes.
    pub fn add_curated_model(&mut self, model: CuratedModel)
        ensures
            final(self).models.curated.deep_view() == with_model(
                old(self).models.curated.deep_view(),
                model@,
            ),
            final(self).models.default_model == old(self).models.default_model,
            final(self).providers == old(self).providers,
    {
        let ghost p = is_model(model@.provider, model@.model_id);
        let ghost all = self.models.curated.deep_view();
        let mut i: usize = 0;
        while i < self.models.curated.len()
            invariant
                0 <= i <= self.models.curated.len(),
                *self == *old(self),
                all == self.models.curated.deep_view(),
                p == is_model(model@.provider, model@.model_id),
                forall|j: int| 0 <= j < i ==> !p(#[trigger] all[j]),
            decreases self.models.curated.len() - i,
        {
            if same(self.models.curated[i].provider.as_str(), model.provider.as_str()) && same(
                self.models.curated[i].model_id.as_str(),
                model.model_id.as_str(),
            ) {
                proof {
                    assert(p(all[i as int]));
                    lemma_first_index_is(all, p, i as int);
                }
                return ;
            }
            assert(!p(all[i as int]));
            i = i + 1;
        }
        proof {
            lemma_first_index_is(all, p, i as int);
        }
        self.models.curated.push(model);
        assert(self.models.curated.deep_view() =~= all.push(model@));
    }

    /// Removes the model `model_id` of `provider` from the short list. The
    /// other models stay, in their order. Nothing else changes.
    pub fn remove_curated_model(&mut self, provider: &str, model_id: &str)
        ensures
            final(self).models.curated.deep_view() == without_model(
                old(self).models.curated.deep_view(),
                provider@,
                model_id@,
            ),
            final(self).models.default_model == old(self).models.default_model,
            final(self).providers == old(self).providers,
    {
        let ghost p = is_other_model(provider@, model_id@);
        let ghost all = self.models.curated.deep_view();
        let mut kept: Vec<CuratedModel> = Vec::new();
        let mut i: usize = 0;
        proof {
            reveal(Seq::filter);
            assert(all.take(0) =~= Seq::empty());
            assert(kept.deep_view() =~= Seq::empty());
        }
        while i < self.models.curated.len()
            invariant
                0 <= i <= self.models.curated.len(),
                *self == *old(self),
                all == self.models.curated.deep_view(),
                p == is_other_model(provider@, model_id@),
                kept.deep_view() == all.take(i as int).filter(p),
            decreases self.models.curated.len() - i,
        {
            let ghost held = kept.deep_view();
            proof {
                reveal(Seq::filter);
                assert(all.take(i as int + 1).drop_last() =~= all.take(i as int));
                assert(all.take(i as int + 1).last() == all[i as int]);
            }
            let m = &self.models.curated[i];
            if !(same(m.provider.as_str(), provider) && same(m.model_id.as_str(), model_id)) {
                kept.push(m.copy());
                assert(kept.deep_view() =~= held.push(all[i as int]));
            }
            i = i + 1;
        }
        assert(all.take(self.models.curated.len() as int) =~= all);
        self.models.curated = kept;
    }

    /// The short list.
    pub fn get_curated_models(&self) -> (r: &[CuratedModel])
        ensures
            r@ == self.models.curated@,
    {
        self.models.curated.as_slice()
    }

    /// The first provider called `name`, if there is one.
    pub fn get_provider(&self, name: &str) -> (r: Option<&ProviderConfig>)
        ensures
            r is Some <==> any(self.providers.deep_view(), is_called(name@)),
            r is Some ==> *r->Some_0 == self.providers[first_index(
                self.providers.deep_view(),
                is_called(name@),
            )],
    {
        let ghost p = is_called(name@);
        let ghost all = self.providers.deep_view();
        let mut i: usize = 0;
        while i < self.providers.len()
            invariant
                0 <= i <= self.providers.len(),
                all == self.providers.deep_view(),
                p == is_called(name@),
                forall|j: int| 0 <= j < i ==> !p(#[trigger] all[j]),
            decreases self.providers.len() - i,
        {
            if same(self.providers[i].name.as_str(), name) {
                proof {
                    assert(p(all[i as int]));
                    lemma_first_index_is(all, p, i as int);
                }
                return Some(&self.providers[i]);
            }
            assert(!p(all[i as int]));
            i = i + 1;
        }
        proof {
            lemma_first_index_is(all, p, i as int);
        }
        None
    }

    /// The providers.
    pub fn get_providers(&self) -> (r: &[ProviderConfig])
        ensures
            r@ == self.providers@,
    {
        self.providers.as_slice()
    }
}

} // verus!
