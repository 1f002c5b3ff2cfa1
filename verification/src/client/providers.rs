//! Asking a provider for its models: the request, and the reading of the
//! answer.

use crate::config::models::{ProviderConfig, ProviderConfigView, ResponseFormat, ResponseFormatView};
use crate::decode::text_at;
use crate::json::{as_elements, json_of, jsons_of, member, Json};
use crate::text::{same, strip_prefix};
use vstd::prelude::*;

verus! {

/// Errors of asking a provider.
#[derive(Debug, Clone, PartialEq, Eq)]
pub enum ProviderError {
    Http(String),
    Parse(String),
    Auth(String),
    FieldNotFound(String),
}

/// A provider error as a mathematical value.
pub enum ProviderErrorView {
    Http(Seq<char>),
    Parse(Seq<char>),
    Auth(Seq<char>),
    FieldNotFound(Seq<char>),
}

impl View for ProviderError {
    type V = ProviderErrorView;

    open spec fn view(&self) -> ProviderErrorView {
        match self {
            ProviderError::Http(e) => ProviderErrorView::Http(e@),
            ProviderError::Parse(e) => ProviderErrorView::Parse(e@),
            ProviderError::Auth(e) => ProviderErrorView::Auth(e@),
            ProviderError::FieldNotFound(e) => ProviderErrorView::FieldNotFound(e@),
        }
    }
}

impl ProviderError {
    /// The message that the error shows.
    pub open spec fn spec_message(self) -> Seq<char> {
        match self {
            ProviderError::Http(e) => "HTTP request failed: "@ + e@,
            ProviderError::Parse(e) => "Failed to parse response: "@ + e@,
            ProviderError::Auth(e) => "Invalid auth configuration: "@ + e@,
            ProviderError::FieldNotFound(e) => "Model field not found: "@ + e@,
        }
    }

    /// The message that the error shows.
    pub fn message(&self) -> (r: String)
        ensures
            r@ == self.spec_message(),
    {
        match self {
            ProviderError::Http(e) => "HTTP request failed: ".to_string().concat(e.as_str()),
            ProviderError::Parse(e) => "Failed to parse response: ".to_string().concat(e.as_str()),
            ProviderError::Auth(e) => "Invalid auth configuration: ".to_string().concat(
                e.as_str(),
            ),
            ProviderError::FieldNotFound(e) => "Model field not found: ".to_string().concat(
                e.as_str(),
            ),
        }
    }
}

/// A model that a provider offers.
#[derive(Debug, Clone, PartialEq, Eq)]
pub struct DiscoveredModel {
    pub id: String,
    pub name: String,
}

/// A discovered model as a mathematical value.
pub struct DiscoveredModelView {
    pub id: Seq<char>,
    pub name: Seq<char>,
}

impl View for DiscoveredModel {
    type V = DiscoveredModelView;

    open spec fn view(&self) -> DiscoveredModelView {
        DiscoveredModelView { id: self.id@, name: self.name@ }
    }
}

impl DeepView for DiscoveredModel {
    type V = DiscoveredModelView;

    open spec fn deep_view(&self) -> DiscoveredModelView {
        self@
    }
}

/// An id without the prefix, where the format names one and the id begins
/// with it.
pub open spec fn stripped(id: Seq<char>, prefix: Option<Seq<char>>) -> Seq<char> {
    if prefix is Some && prefix->0.is_prefix_of(id) {
        id.skip(prefix->0.len() as int)
    } else {
        id
    }
}

/// The model that one element of the answer describes; the field that it
/// lacks where it lacks one, the id's before the name's.
pub open spec fn model_in(m: Json, format: ResponseFormatView) -> Result<
    DiscoveredModelView,
    ProviderErrorView,
> {
    match m.text_field(format.model_id_field) {
        None => Err(ProviderErrorView::FieldNotFound(format.model_id_field)),
        Some(id) => match m.text_field(format.model_name_field) {
            None => Err(ProviderErrorView::FieldNotFound(format.model_name_field)),
            Some(name) => Ok(
                DiscoveredModelView { id: stripped(id, format.model_id_strip_prefix), name },
            ),
        },
    }
}

/// The models that the elements of the answer describe, in order; the error
/// of the first element that describes none.
pub open spec fn models_in(elements: Seq<Json>, format: ResponseFormatView) -> Result<
    Seq<DiscoveredModelView>,
    ProviderErrorView,
>
    decreases elements.len(),
{
    if elements.len() == 0 {
        Ok(Seq::empty())
    } else {
        match models_in(elements.drop_last(), format) {
            Err(e) => Err(e),
            Ok(before) => match model_in(elements.last(), format) {
                Err(e) => Err(e),
                Ok(m) => Ok(before.push(m)),
            },
        }
    }
}

/// What is said where the answer holds no array of models.
pub open spec fn no_models_notice(path: Seq<char>) -> Seq<char> {
    "Models array not found at path: "@ + path
}

/// The models that the answer of a provider describes.
pub open spec fn parsed_response(j: Json, format: ResponseFormatView) -> Result<
    Seq<DiscoveredModelView>,
    ProviderErrorView,
> {
    match j.field(format.models_path) {
        Some(Json::Array(elements)) => models_in(elements, format),
        _ => Err(ProviderErrorView::Parse(no_models_notice(format.models_path))),
    }
}

/// A result with a list of models in it, as a mathematical value.
pub open spec fn models_view(r: Result<Vec<DiscoveredModel>, ProviderError>) -> Result<
    Seq<DiscoveredModelView>,
    ProviderErrorView,
> {
    match r {
        Ok(ms) => Ok(ms.deep_view()),
        Err(e) => Err(e@),
    }
}

/// A result with one model in it, as a mathematical value.
pub open spec fn model_view(r: Result<DiscoveredModel, ProviderError>) -> Result<
    DiscoveredModelView,
    ProviderErrorView,
> {
    match r {
        Ok(m) => Ok(m@),
        Err(e) => Err(e@),
    }
}

/// Reads the model that one element of the answer describes.
pub fn parse_model(m: &serde_json::Value, format: &ResponseFormat) -> (r: Result<
    DiscoveredModel,
    ProviderError,
>)
    ensures
        model_view(r) == model_in(json_of(*m), format@),
{
    let id = match text_at(m, format.model_id_field.as_str()) {
        Some(id) => id,
        None => {
            return Err(ProviderError::FieldNotFound(format.model_id_field.clone()));
        },
    };
    let id = match &format.model_id_strip_prefix {
        Some(prefix) => match strip_prefix(id.as_str(), prefix.as_str()) {
            Some(rest) => rest.to_string(),
            None => id,
        },
        None => id,
    };
    let name = match text_at(m, format.model_name_field.as_str()) {
        Some(name) => name,
        None => {
            return Err(ProviderError::FieldNotFound(format.model_name_field.clone()));
        },
    };
    Ok(DiscoveredModel { id, name })
}

/// Reads the models that the answer of a provider describes. Fails where
/// the answer holds no array under the format's path, and where an element
/// of the array lacks the id or the name as a string.
pub fn parse_provider_response(json: serde_json::Value, format: &ResponseFormat) -> (r: Result<
    Vec<DiscoveredModel>,
    ProviderError,
>)
    ensures
        models_view(r) == parsed_response(json_of(json), format@),
{
    let elements = match member(&json, format.models_path.as_str()) {
        Some(v) => match as_elements(v) {
            Some(elements) => elements,
            None => {
                return Err(
                    ProviderError::Parse(
                        "Models array not found at path: ".to_string().concat(
                            format.models_path.as_str(),
                        ),
                    ),
                );
            },
        },
        None => {
            return Err(
                ProviderError::Parse(
                    "Models array not found at path: ".to_string().concat(
                        format.models_path.as_str(),
                    ),
                ),
            );
        },
    };
    let ghost all = jsons_of(elements@);
    let mut models: Vec<DiscoveredModel> = Vec::new();
    let mut i: usize = 0;
    proof {
        assert(all.take(0) =~= Seq::empty());
        assert(models.deep_view() =~= Seq::empty());
    }
    while i < elements.len()
        invariant
            0 <= i <= elements.len(),
            all == jsons_of(elements@),
            parsed_response(json_of(json), format@) == models_in(all, format@),
            models_in(all.take(i as int), format@) == Ok::<
                Seq<DiscoveredModelView>,
                ProviderErrorView,
            >(models.deep_view()),
        decreases elements.len() - i,
    {
        let ghost held = models.deep_view();
        proof {
            assert(all.take(i as int + 1).drop_last() =~= all.take(i as int));
            assert(all.take(i as int + 1).last() == json_of(elements@[i as int]));
        }
        match parse_model(&elements[i], format) {
            Ok(m) => {
                models.push(m);
                assert(models.deep_view() =~= held.push(m@));
            },
            Err(e) => {
                proof {
                    assert(models_in(all.take(i as int + 1), format@) == Err::<
                        Seq<DiscoveredModelView>,
                        ProviderErrorView,
                    >(e@));
                    lemma_error_stays(all, format@, i as int + 1);
                }
                return Err(e);
            },
        }
        i = i + 1;
    }
    assert(all.take(elements.len() as int) =~= all);
    Ok(models)
}

/// An error among the first elements is the error of the whole.
pub proof fn lemma_error_stays(elements: Seq<Json>, format: ResponseFormatView, n: int)
    requires
        0 <= n <= elements.len(),
        models_in(elements.take(n), format) is Err,
    ensures
        models_in(elements, format) == models_in(elements.take(n), format),
    decreases elements.len() - n,
{
    if n < elements.len() {
        assert(elements.take(n + 1).drop_last() =~= elements.take(n));
        lemma_error_stays(elements, format, n + 1);
    } else {
        assert(elements.take(n) =~= elements);
    }
}

/// A request to a provider: where it goes and the headers it carries.
#[derive(Debug, Clone, PartialEq, Eq)]
pub struct RequestPlan {
    pub url: String,
    pub headers: Vec<(String, String)>,
}

/// A request as a mathematical value.
pub struct RequestPlanView {
    pub url: Seq<char>,
    pub headers: Seq<(Seq<char>, Seq<char>)>,
}

impl View for RequestPlan {
    type V = RequestPlanView;

    open spec fn view(&self) -> RequestPlanView {
        RequestPlanView { url: self.url@, headers: self.headers.deep_view() }
    }
}

/// A result with a request in it, as a mathematical value.
pub open spec fn plan_view(r: Result<RequestPlan, ProviderError>) -> Result<
    RequestPlanView,
    ProviderErrorView,
> {
    match r {
        Ok(p) => Ok(p@),
        Err(e) => Err(e@),
    }
}

/// The request that asks a provider for its models. The key travels as a
/// bearer token, in a header of the provider's choice, or in the address,
/// as the provider's `auth_type` says; the provider's extra headers follow.
pub open spec fn planned(config: ProviderConfigView, api_key: Seq<char>) -> Result<
    RequestPlanView,
    ProviderErrorView,
> {
    if config.auth_type == "bearer"@ {
        Ok(
            RequestPlanView {
                url: config.models_url,
                headers: seq![("Authorization"@, "Bearer "@ + api_key)] + config.extra_headers,
            },
        )
    } else if config.auth_type == "header"@ {
        match config.auth_header {
            Some(name) => Ok(
                RequestPlanView {
                    url: config.models_url,
                    headers: seq![(name, api_key)] + config.extra_headers,
                },
            ),
            None => Err(ProviderErrorView::Auth("auth_header required for header auth type"@)),
        }
    } else if config.auth_type == "query_param"@ {
        match config.auth_param {
            Some(name) => Ok(
                RequestPlanView {
                    url: config.models_url + "?"@ + name + "="@ + api_key,
                    headers: config.extra_headers,
                },
            ),
            None => Err(
                ProviderErrorView::Auth("auth_param required for query_param auth type"@),
            ),
        }
    } else {
        Err(ProviderErrorView::Auth("Unknown auth_type: "@ + config.auth_type))
    }
}

/// Adds a provider's extra headers to the headers of a request.
pub fn add_headers(headers: &mut Vec<(String, String)>, extra: &Vec<(String, String)>)
    ensures
        final(headers).deep_view() == old(headers).deep_view() + extra.deep_view(),
{
    let ghost first = headers.deep_view();
    let mut i: usize = 0;
    assert(first + extra.deep_view().take(0) =~= first);
    while i < extra.len()
        invariant
            0 <= i <= extra.len(),
            headers.deep_view() == first + extra.deep_view().take(i as int),
        decreases extra.len() - i,
    {
        let ghost held = headers.deep_view();
        let entry = (extra[i].0.clone(), extra[i].1.clone());
        assert(entry.deep_view() == extra.deep_view()[i as int]);
        headers.push(entry);
        assert(headers.deep_view() =~= held.push(extra.deep_view()[i as int]));
        assert(headers.deep_view() =~= first + extra.deep_view().take(i as int + 1));
        i = i + 1;
    }
    assert(extra.deep_view().take(extra.len() as int) =~= extra.deep_view());
}

/// Plans the request that asks a provider for its models.
pub fn plan_discovery(config: &ProviderConfig, api_key: &str) -> (r: Result<
    RequestPlan,
    ProviderError,
>)
    ensures
        plan_view(r) == planned(config@, api_key@),
{
    let mut headers: Vec<(String, String)> = Vec::new();
    assert(headers.deep_view() =~= Seq::empty());
    let url = if same(config.auth_type.as_str(), "bearer") {
        headers.push(("Authorization".to_string(), "Bearer ".to_string().concat(api_key)));
        assert(headers.deep_view() =~= seq![("Authorization"@, "Bearer "@ + api_key@)]);
        config.models_url.clone()
    } else if same(config.auth_type.as_str(), "header") {
        match &config.auth_header {
            Some(name) => {
                headers.push((name.clone(), api_key.to_string()));
                assert(headers.deep_view() =~= seq![(name@, api_key@)]);
                config.models_url.clone()
            },
            None => {
                return Err(
                    ProviderError::Auth("auth_header required for header auth type".to_string()),
                );
            },
        }
    } else if same(config.auth_type.as_str(), "query_param") {
        match &config.auth_param {
            Some(name) => {
                let mut url = config.models_url.clone();
                url.append("?");
                url.append(name.as_str());
                url.append("=");
                url.append(api_key);
                url
            },
            None => {
                return Err(
                    ProviderError::Auth(
                        "auth_param required for query_param auth type".to_string(),
                    ),
                );
            },
        }
    } else {
        return Err(
            ProviderError::Auth(
                "Unknown auth_type: ".to_string().concat(config.auth_type.as_str()),
            ),
        );
    };
    let ghost first = headers.deep_view();
    add_headers(&mut headers, &config.extra_headers);
    assert(Seq::<(Seq<char>, Seq<char>)>::empty() + config@.extra_headers
        =~= config@.extra_headers);
    Ok(RequestPlan { url, headers })
}

} // verus!
