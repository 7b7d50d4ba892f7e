//! Reconciling the metadata of a graph with a request: what changes, and
//! whether the backend has to be told.

use crate::graph::Metadata;
use crate::request::{
    ChatCompletionRequestMessage, ChatCompletionUserMessageContent, ContentPart, Image,
};
use vstd::prelude::*;

verus! {

impl Metadata {
    /// A copy of the metadata.
    pub fn copy(&self) -> (copy: Metadata)
        ensures
            copy == *self,
    {
        Metadata {
            ctx_size: self.ctx_size,
            n_predict: self.n_predict,
            embeddings: self.embeddings,
            prompt_template: self.prompt_template,
            image: match &self.image {
                Some(image) => Some(image.clone()),
                None => None,
            },
        }
    }
}

/// The address of the first image among `parts` that is referred to.
pub open spec fn first_image_url(parts: Seq<ContentPart>) -> Option<String>
    decreases parts.len(),
{
    if parts.len() == 0 {
        None
    } else {
        match first_image_url(parts.drop_last()) {
            Some(url) => Some(url),
            None => match parts.last() {
                ContentPart::Image(Image::Url(url)) => Some(url),
                _ => None,
            },
        }
    }
}

/// The address of the image that a conversation asks to look at: that of the
/// first image that its last turn refers to, where that turn is the user's.
pub open spec fn requested_image(messages: Seq<ChatCompletionRequestMessage>) -> Option<String> {
    if messages.len() == 0 {
        None
    } else {
        match messages.last() {
            ChatCompletionRequestMessage::User(message) => match message.content {
                ChatCompletionUserMessageContent::Parts(parts) => first_image_url(parts@),
                ChatCompletionUserMessageContent::Text(_) => None,
            },
            _ => None,
        }
    }
}

/// An image that is found among the first parts is found among all.
proof fn lemma_first_image_url(parts: Seq<ContentPart>, k: int)
    requires
        0 <= k <= parts.len(),
        first_image_url(parts.take(k)) is Some,
    ensures
        first_image_url(parts) == first_image_url(parts.take(k)),
    decreases parts.len() - k,
{
    if k == parts.len() {
        assert(parts.take(k) =~= parts);
    } else {
        assert(parts.take(k + 1).drop_last() =~= parts.take(k));
        lemma_first_image_url(parts, k + 1);
    }
}

/// The address of the image that a conversation asks to look at, which is to
/// be fetched before the computation.
pub fn image_to_download(messages: &Vec<ChatCompletionRequestMessage>) -> (url: Option<&String>)
    ensures
        match url {
            Some(url) => requested_image(messages@) == Some(*url),
            None => requested_image(messages@) is None,
        },
{
    if messages.len() == 0 {
        return None;
    }
    let parts = match &messages[messages.len() - 1] {
        ChatCompletionRequestMessage::User(message) => match &message.content {
            ChatCompletionUserMessageContent::Parts(parts) => parts,
            ChatCompletionUserMessageContent::Text(_) => {
                return None;
            },
        },
        _ => {
            return None;
        },
    };
    let mut i: usize = 0;
    while i < parts.len()
        invariant
            i <= parts.len(),
            requested_image(messages@) == first_image_url(parts@),
            first_image_url(parts@.take(i as int)) is None,
        decreases parts.len() - i,
    {
        assert(parts@.take(i + 1).drop_last() =~= parts@.take(i as int));
        match &parts[i] {
            ContentPart::Image(Image::Url(url)) => {
                proof {
                    lemma_first_image_url(parts@, i + 1);
                }
                return Some(url);
            },
            _ => {},
        }
        i = i + 1;
    }
    assert(parts@.take(parts.len() as int) =~= parts@);
    None
}

/// The metadata that a chat request computes with.
///
/// It is the graph's, with the image that was fetched for the request in
/// place, where one was, and never with embeddings. `sampling_changed` says
/// whether the request asks for a sampling setting that the graph does not
/// have yet.
pub open spec fn reconciled(metadata: Metadata, image: Option<String>) -> Metadata {
    Metadata {
        embeddings: false,
        image: match image {
            Some(image) => Some(image),
            None => metadata.image,
        },
        ..metadata
    }
}

/// Reconciles the metadata of a graph with a chat request: gives the
/// metadata to compute with, and says whether the backend has to be told of
/// it.
///
/// `image` is the image that was fetched for the request, and
/// `sampling_changed` whether the request asks for a sampling setting that
/// the graph does not have yet. The backend has to be told where either is
/// the case, and where the graph computed embeddings.
pub fn check_model_metadata(metadata: &Metadata, image: Option<String>, sampling_changed: bool) -> (r:
    (Metadata, bool))
    ensures
        r.0 == reconciled(*metadata, image),
        !r.0.embeddings,
        r.1 == (image is Some || sampling_changed || metadata.embeddings),
{
    let mut should_update = sampling_changed;
    let mut reconciled = metadata.copy();
    match image {
        Some(image) => {
            reconciled.image = Some(image);
            should_update = true;
        },
        None => {},
    }
    if reconciled.embeddings {
        reconciled.embeddings = false;
        should_update = true;
    }
    (reconciled, should_update)
}

/// The most tokens to generate for a request: what the request asks for,
/// where it asks, and what the graph is set to, where it does not; but never
/// more than are available for the completion.
pub open spec fn n_predict_of(n_predict: u64, max_tokens: Option<u64>, available: u64) -> u64 {
    let wanted = match max_tokens {
        Some(max_tokens) => max_tokens,
        None => n_predict,
    };
    if available < wanted {
        available
    } else {
        wanted
    }
}

/// Sets the most tokens to generate for a request, and says whether the
/// backend has to be told of it: where the request asks for a number of its
/// own, and where the graph's number is cut down to what is available.
pub fn update_n_predict(
    max_tokens: Option<u64>,
    metadata: &mut Metadata,
    available_completion_tokens: u64,
) -> (should_update: bool)
    ensures
        *final(metadata) == (Metadata {
            n_predict: n_predict_of(old(metadata).n_predict, max_tokens, available_completion_tokens),
            ..*old(metadata)
        }),
        final(metadata).n_predict <= available_completion_tokens,
        should_update == (max_tokens is Some || old(metadata).n_predict
            > available_completion_tokens),
{
    match max_tokens {
        Some(max_tokens) => {
            metadata.n_predict = if available_completion_tokens < max_tokens {
                available_completion_tokens
            } else {
                max_tokens
            };
            true
        },
        None => {
            if metadata.n_predict > available_completion_tokens {
                metadata.n_predict = available_completion_tokens;
                true
            } else {
                false
            }
        },
    }
}

} // verus!
