//! Models, and the request that sends a message to one.

use vstd::prelude::*;

verus! {

/// What a model can take in or give out.
#[derive(Debug, Clone, Copy, Default, PartialEq, Eq, Structural)]
pub struct IOCapabilities {
    pub text: bool,
    pub audio: bool,
    pub image: bool,
    pub video: bool,
    pub pdf: bool,
}

/// What a model can do.
#[derive(Debug, Clone, Copy, Default, PartialEq, Eq, Structural)]
pub struct ModelCapabilities {
    pub temperature: bool,
    pub reasoning: bool,
    pub attachment: bool,
    pub toolcall: bool,
    pub input: IOCapabilities,
    pub output: IOCapabilities,
}

/// The limits of a model, in tokens.
#[derive(Debug, Clone, Copy, Default, PartialEq, Eq, Structural)]
pub struct ModelLimits {
    pub context: u32,
    pub output: u32,
}

/// The model chosen for a conversation.
#[derive(Debug, Clone, PartialEq, Eq)]
pub struct ModelSelection {
    pub provider: String,
    pub model_id: String,
    pub name: String,
}

/// A model selection as a mathematical value.
pub struct ModelSelectionView {
    pub provider: Seq<char>,
    pub model_id: Seq<char>,
    pub name: Seq<char>,
}

impl View for ModelSelection {
    type V = ModelSelectionView;

    open spec fn view(&self) -> ModelSelectionView {
        ModelSelectionView { provider: self.provider@, model_id: self.model_id@, name: self.name@ }
    }
}

/// A provider and a model of it, written as the server's routes write them.
pub open spec fn qualified(provider: Seq<char>, model_id: Seq<char>) -> Seq<char> {
    provider + "/"@ + model_id
}

impl ModelSelection {
    /// The selection of the model `model_id` of `provider`, shown as `name`.
    pub fn new(provider: &str, model_id: &str, name: &str) -> (r: ModelSelection)
        ensures
            r@ == (ModelSelectionView { provider: provider@, model_id: model_id@, name: name@ }),
    {
        ModelSelection {
            provider: provider.to_string(),
            model_id: model_id.to_string(),
            name: name.to_string(),
        }
    }

    /// The selection as "provider/model_id".
    pub fn display_id(&self) -> (r: String)
        ensures
            r@ == qualified(self@.provider, self@.model_id),
    {
        let mut out = self.provider.clone();
        out.append("/");
        out.append(self.model_id.as_str());
        out
    }
}

/// The model that a message is sent to.
#[derive(Debug, Clone, PartialEq, Eq)]
pub struct ModelIdentifier {
    pub provider_id: String,
    pub model_id: String,
}

/// A model identifier as a mathematical value.
pub struct ModelIdentifierView {
    pub provider_id: Seq<char>,
    pub model_id: Seq<char>,
}

impl View for ModelIdentifier {
    type V = ModelIdentifierView;

    open spec fn view(&self) -> ModelIdentifierView {
        ModelIdentifierView { provider_id: self.provider_id@, model_id: self.model_id@ }
    }
}

impl DeepView for ModelIdentifier {
    type V = ModelIdentifierView;

    open spec fn deep_view(&self) -> ModelIdentifierView {
        self@
    }
}

impl ModelIdentifier {
    /// The model `model_id` of the provider `provider_id`.
    pub fn new(provider_id: &str, model_id: &str) -> (r: ModelIdentifier)
        ensures
            r@ == (ModelIdentifierView { provider_id: provider_id@, model_id: model_id@ }),
    {
        ModelIdentifier { provider_id: provider_id.to_string(), model_id: model_id.to_string() }
    }
}

/// One part of a message that the user sends.
#[derive(Debug, Clone, PartialEq, Eq)]
pub enum MessagePart {
    Text { text: String },
    /// A file, as a data URI or an external URL.
    File { mime: String, filename: Option<String>, url: String },
}

/// A message part as a mathematical value.
pub enum MessagePartView {
    Text { text: Seq<char> },
    File { mime: Seq<char>, filename: Option<Seq<char>>, url: Seq<char> },
}

impl View for MessagePart {
    type V = MessagePartView;

    open spec fn view(&self) -> MessagePartView {
        match self {
            MessagePart::Text { text } => MessagePartView::Text { text: text@ },
            MessagePart::File { mime, filename, url } => MessagePartView::File {
                mime: mime@,
                filename: filename.deep_view(),
                url: url@,
            },
        }
    }
}

impl DeepView for MessagePart {
    type V = MessagePartView;

    open spec fn deep_view(&self) -> MessagePartView {
        self@
    }
}

/// The body of the request that sends a message.
#[derive(Debug, Clone, PartialEq, Eq)]
pub struct MessageRequest {
    pub parts: Vec<MessagePart>,
    pub model: Option<ModelIdentifier>,
    pub agent: Option<String>,
}

/// A message request as a mathematical value.
pub struct MessageRequestView {
    pub parts: Seq<MessagePartView>,
    pub model: Option<ModelIdentifierView>,
    pub agent: Option<Seq<char>>,
}

impl View for MessageRequest {
    type V = MessageRequestView;

    open spec fn view(&self) -> MessageRequestView {
        MessageRequestView {
            parts: self.parts.deep_view(),
            model: self.model.deep_view(),
            agent: self.agent.deep_view(),
        }
    }
}

} // verus!
