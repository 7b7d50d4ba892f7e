//! What the registries answer, and the identifiers of completions.

use crate::error::{ErrorView, LlamaCoreError};
use crate::graph::{distinct, names_of, selected, GraphRegistry, Metadata};
use crate::template::PromptTemplateType;
use crate::text::{has_prefix, join};
use vstd::prelude::*;

verus! {

/// Whether `c` may stand at index `i` of an identifier in hyphenated form: a
/// hyphen after its groups of 8, 4, 4 and 4 characters, and a hexadecimal
/// digit in lower case anywhere else.
pub open spec fn is_hyphenated_at(i: int, c: char) -> bool {
    if i == 8 || i == 13 || i == 18 || i == 23 {
        c == '-'
    } else {
        ('0' <= c <= '9') || ('a' <= c <= 'f')
    }
}

/// Whether `text` is an identifier in hyphenated form: 32 hexadecimal digits
/// in lower case, in groups of 8, 4, 4, 4 and 12 that hyphens part.
pub open spec fn is_hyphenated(text: Seq<char>) -> bool {
    text.len() == 36 && forall|i: int| 0 <= i < 36 ==> is_hyphenated_at(i, #[trigger] text[i])
}

/// A random identifier in its hyphenated form, by `uuid::Uuid::new_v4` and
/// the identifier's `to_string`.
///
/// Trusted: every outcome is in hyphenated form. Nothing else is stated of
/// an outcome: two calls may give whatever identifiers.
#[verifier::external_body]
pub(crate) fn new_uuid() -> (uuid: String)
    ensures
        is_hyphenated(uuid@),
{
    uuid::Uuid::new_v4().to_string()
}

/// Whether `id` is `prefix` and an identifier in hyphenated form.
pub open spec fn is_fresh_id(id: Seq<char>, prefix: Seq<char>) -> bool {
    has_prefix(id, prefix) && is_hyphenated(id.subrange(prefix.len() as int, id.len() as int))
}

/// The identifier of a chat completion that is made of `uuid`.
pub fn chat_id(uuid: &str) -> (id: String)
    ensures
        id@ == "chatcmpl-"@ + uuid@,
{
    join("chatcmpl-", uuid)
}

/// A fresh identifier for a chat completion: `chatcmpl-` and a random
/// identifier in hyphenated form.
pub fn gen_chat_id() -> (id: String)
    ensures
        is_fresh_id(id@, "chatcmpl-"@),
{
    let uuid = new_uuid();
    let id = chat_id(uuid.as_str());
    proof {
        let prefix = "chatcmpl-"@;
        assert(id@.subrange(0, prefix.len() as int) =~= prefix);
        assert(id@.subrange(prefix.len() as int, id@.len() as int) =~= uuid@);
    }
    id
}

/// The error of a lookup in a registry that was never set up.
pub open spec fn registry_missing(registry: Seq<char>) -> ErrorView {
    ErrorView::Operation("Fail to get the underlying value of `"@ + registry + "`."@)
}

/// The error of a lookup in a registry that was never set up.
pub fn missing_registry(registry: &str) -> (e: LlamaCoreError)
    ensures
        e@ == registry_missing(registry@),
{
    let mut message = join("Fail to get the underlying value of `", registry);
    message.append("`.");
    LlamaCoreError::Operation(message)
}

/// The error of a lookup of a model that is not registered.
pub open spec fn model_missing(name: Seq<char>) -> ErrorView {
    ErrorView::Operation("The model `"@ + name + "` does not exist in the chat graphs."@)
}

/// The error of a lookup of the first model where none is registered.
pub open spec fn no_model() -> ErrorView {
    ErrorView::Operation("There is no model available in the chat graphs."@)
}

/// The value of an optional name.
pub open spec fn name_view(name: Option<&str>) -> Option<Seq<char>> {
    match name {
        Some(name) => Some(name@),
        None => None,
    }
}

/// The index of the chat graph that serves `name`: the graph of that name,
/// or the first graph where no name is given.
///
/// It is an error if the registry was never set up, if it holds no model of
/// that name, and, where no name is given, if it holds no model at all.
pub fn find_graph<C>(chat_graphs: Option<&GraphRegistry<C>>, name: Option<&str>) -> (r: Result<
    usize,
    LlamaCoreError,
>)
    ensures
        match r {
            Ok(i) => {
                &&& chat_graphs matches Some(graphs)
                &&& selected(graphs@, name_view(name)) == Some(i as int)
                &&& i < graphs@.len()
            },
            Err(e) => match chat_graphs {
                None => e@ == registry_missing("CHAT_GRAPHS"@),
                Some(graphs) => selected(graphs@, name_view(name)) is None && e@ == match name {
                    Some(name) => model_missing(name@),
                    None => no_model(),
                },
            },
        },
{
    let graphs = match chat_graphs {
        Some(graphs) => graphs,
        None => {
            return Err(missing_registry("CHAT_GRAPHS"));
        },
    };
    match graphs.select(name) {
        Some(i) => Ok(i),
        None => match name {
            Some(name) => {
                let mut message = join("The model `", name);
                message.append("` does not exist in the chat graphs.");
                Err(LlamaCoreError::Operation(message))
            },
            None => Err(
                LlamaCoreError::operation("There is no model available in the chat graphs."),
            ),
        },
    }
}

/// The error of a lookup, for a prompt, in a registry that was never set up.
pub open spec fn registry_missing_for_prompt(name: Option<Seq<char>>) -> ErrorView {
    ErrorView::Operation(
        match name {
            Some(name) =>
                "Fail to get the underlying value of `CHAT_GRAPHS` while trying to set prompt to the model named "@
                    + name + "."@,
            None =>
                "Fail to get the underlying value of `CHAT_GRAPHS` while trying to set prompt to the default model."@,
        },
    )
}

/// The error of a lookup, for a prompt, of a model that is not registered.
pub open spec fn model_missing_for_prompt(name: Option<Seq<char>>) -> ErrorView {
    ErrorView::Operation(
        match name {
            Some(name) => "The model `"@ + name
                + "` does not exist in the chat graphs while trying to set prompt."@,
            None =>
                "There is no model available in the chat graphs while trying to set prompt to the default model."@,
        },
    )
}

/// The index of the chat graph that the prompt of a request is set to: the
/// graph of the name `name`, or the first graph where no name is given.
///
/// It is an error if the registry was never set up, if it holds no model of
/// that name, and, where no name is given, if it holds no model at all.
pub fn set_prompt<C>(chat_graphs: Option<&GraphRegistry<C>>, name: Option<&str>) -> (r: Result<
    usize,
    LlamaCoreError,
>)
    ensures
        match r {
            Ok(i) => {
                &&& chat_graphs matches Some(graphs)
                &&& selected(graphs@, name_view(name)) == Some(i as int)
                &&& i < graphs@.len()
            },
            Err(e) => match chat_graphs {
                None => e@ == registry_missing_for_prompt(name_view(name)),
                Some(graphs) => selected(graphs@, name_view(name)) is None && e@
                    == model_missing_for_prompt(name_view(name)),
            },
        },
{
    let graphs = match chat_graphs {
        Some(graphs) => graphs,
        None => {
            return Err(
                match name {
                    Some(name) => {
                        let mut message = join(
                            "Fail to get the underlying value of `CHAT_GRAPHS` while trying to set prompt to the model named ",
                            name,
                        );
                        message.append(".");
                        LlamaCoreError::Operation(message)
                    },
                    None => LlamaCoreError::operation(
                        "Fail to get the underlying value of `CHAT_GRAPHS` while trying to set prompt to the default model.",
                    ),
                },
            );
        },
    };
    match graphs.select(name) {
        Some(i) => Ok(i),
        None => Err(
            match name {
                Some(name) => {
                    let mut message = join("The model `", name);
                    message.append(
                        "` does not exist in the chat graphs while trying to set prompt.",
                    );
                    LlamaCoreError::Operation(message)
                },
                None => LlamaCoreError::operation(
                    "There is no model available in the chat graphs while trying to set prompt to the default model.",
                ),
            },
        ),
    }
}

/// A copy of the metadata of the chat model `name`, or of the first chat
/// model where no name is given. The errors are those of [`find_graph`].
pub fn get_model_metadata<C>(chat_graphs: Option<&GraphRegistry<C>>, name: Option<&str>) -> (r:
    Result<Metadata, LlamaCoreError>)
    ensures
        match r {
            Ok(metadata) => {
                &&& chat_graphs matches Some(graphs)
                &&& selected(graphs@, name_view(name)) matches Some(i)
                &&& 0 <= i < graphs@.len()
                &&& metadata == graphs@[i].spec_metadata()
            },
            Err(e) => match chat_graphs {
                None => e@ == registry_missing("CHAT_GRAPHS"@),
                Some(graphs) => selected(graphs@, name_view(name)) is None && e@ == match name {
                    Some(name) => model_missing(name@),
                    None => no_model(),
                },
            },
        },
{
    match find_graph(chat_graphs, name) {
        Ok(i) => match chat_graphs {
            Some(graphs) => Ok(graphs.graph(i).metadata().copy()),
            None => Err(missing_registry("CHAT_GRAPHS")),
        },
        Err(e) => Err(e),
    }
}

/// The names of the chat models, in the order in which they were
/// registered; no name stands twice among them where the registry is well
/// formed. `chat_graphs` is the registry of the chat models, `None` where it
/// was never set up, which is an error.
pub fn chat_model_names<C>(chat_graphs: Option<&GraphRegistry<C>>) -> (r: Result<
    Vec<String>,
    LlamaCoreError,
>)
    ensures
        match chat_graphs {
            Some(graphs) => r matches Ok(names) && names@.map_values(|n: String| n@) == names_of(
                graphs@,
            ) && (graphs.well_formed() ==> distinct(names@.map_values(|n: String| n@))),
            None => r matches Err(e) && e@ == registry_missing("CHAT_GRAPHS"@),
        },
{
    match chat_graphs {
        Some(graphs) => Ok(graphs.names()),
        None => Err(missing_registry("CHAT_GRAPHS")),
    }
}

/// The names of the embedding models, in the order in which they were
/// registered; no name stands twice among them where the registry is well
/// formed. `embedding_graphs` is the registry of the embedding models, `None`
/// where it was never set up, which is an error.
pub fn embedding_model_names<C>(embedding_graphs: Option<&GraphRegistry<C>>) -> (r: Result<
    Vec<String>,
    LlamaCoreError,
>)
    ensures
        match embedding_graphs {
            Some(graphs) => r matches Ok(names) && names@.map_values(|n: String| n@) == names_of(
                graphs@,
            ) && (graphs.well_formed() ==> distinct(names@.map_values(|n: String| n@))),
            None => r matches Err(e) && e@ == registry_missing("EMBEDDING_GRAPHS"@),
        },
{
    match embedding_graphs {
        Some(graphs) => Ok(graphs.names()),
        None => Err(missing_registry("EMBEDDING_GRAPHS")),
    }
}

/// The prompt template of the chat model `name`, or of the first chat model
/// where no name is given.
///
/// It is an error if the registry was never set up, if it holds no model of
/// that name, and, where no name is given, if it holds no model at all.
pub fn chat_prompt_template<C>(chat_graphs: Option<&GraphRegistry<C>>, name: Option<&str>) -> (r:
    Result<PromptTemplateType, LlamaCoreError>)
    ensures
        match chat_graphs {
            None => r matches Err(e) && e@ == registry_missing("CHAT_GRAPHS"@),
            Some(graphs) => match name {
                Some(name) => match selected(graphs@, Some(name@)) {
                    Some(i) => r == Ok::<PromptTemplateType, LlamaCoreError>(
                        graphs@[i].spec_metadata().prompt_template,
                    ),
                    None => r matches Err(e) && e@ == ErrorView::Operation(
                        "Not found `"@ + name@ + "` chat model."@,
                    ),
                },
                None => match selected(graphs@, None) {
                    Some(i) => r == Ok::<PromptTemplateType, LlamaCoreError>(
                        graphs@[i].spec_metadata().prompt_template,
                    ),
                    None => r matches Err(e) && e@ == ErrorView::Operation(
                        "There is no model available in the chat graphs."@,
                    ),
                },
            },
        },
{
    let graphs = match chat_graphs {
        Some(graphs) => graphs,
        None => {
            return Err(missing_registry("CHAT_GRAPHS"));
        },
    };
    match graphs.select(name) {
        Some(i) => Ok(graphs.graph(i).prompt_template()),
        None => match name {
            Some(name) => {
                let mut message = join("Not found `", name);
                message.append("` chat model.");
                Err(LlamaCoreError::Operation(message))
            },
            None => Err(
                LlamaCoreError::operation("There is no model available in the chat graphs."),
            ),
        },
    }
}

} // verus!
