//! Loaded models: a graph, its metadata, and the registry that maps the name
//! of each model to its graph.

use crate::template::PromptTemplateType;
use crate::text::same;
use vstd::prelude::*;

verus! {

/// The configuration of a graph, as far as the core reads and changes it.
/// The sampling settings belong to whoever owns the backend.
#[derive(Debug, Clone, PartialEq, Eq)]
pub struct Metadata {
    /// The size of the context window, in tokens.
    pub ctx_size: u64,
    /// The most tokens to generate.
    pub n_predict: u64,
    /// Whether the graph computes embeddings; never while it serves a chat.
    pub embeddings: bool,
    /// The template of the model's prompts.
    pub prompt_template: PromptTemplateType,
    /// The image that the next computation looks at.
    pub image: Option<String>,
}

/// A loaded model: its name, its metadata and the execution context of the
/// backend, which the core hands on and never looks into.
#[derive(Debug)]
pub struct Graph<C> {
    name: String,
    metadata: Metadata,
    context: C,
}

impl<C> Graph<C> {
    /// The name of the model.
    pub closed spec fn spec_name(&self) -> Seq<char> {
        self.name@
    }

    /// The metadata of the model.
    pub closed spec fn spec_metadata(&self) -> Metadata {
        self.metadata
    }

    /// The execution context of the model.
    pub closed spec fn spec_context(&self) -> C {
        self.context
    }

    /// A graph of the given name, metadata and execution context.
    pub fn new(name: String, metadata: Metadata, context: C) -> (graph: Graph<C>)
        ensures
            graph.spec_name() == name@,
            graph.spec_metadata() == metadata,
            graph.spec_context() == context,
    {
        Graph { name, metadata, context }
    }

    /// The name of the model.
    pub fn name(&self) -> (name: &str)
        ensures
            name@ == self.spec_name(),
    {
        self.name.as_str()
    }

    /// The metadata of the model.
    pub fn metadata(&self) -> (metadata: &Metadata)
        ensures
            *metadata == self.spec_metadata(),
    {
        &self.metadata
    }

    /// The template of the model's prompts.
    pub fn prompt_template(&self) -> (template: PromptTemplateType)
        ensures
            template == self.spec_metadata().prompt_template,
    {
        self.metadata.prompt_template
    }

    /// The execution context of the model.
    pub fn context(&self) -> (context: &C)
        ensures
            *context == self.spec_context(),
    {
        &self.context
    }

    /// The execution context of the model, to compute with.
    pub fn context_mut(&mut self) -> (context: &mut C)
        ensures
            *context == old(self).spec_context(),
            final(self).spec_context() == *final(context),
            final(self).spec_name() == old(self).spec_name(),
            final(self).spec_metadata() == old(self).spec_metadata(),
    {
        &mut self.context
    }

    /// Replaces the metadata of the model.
    pub fn set_metadata(&mut self, metadata: Metadata)
        ensures
            final(self).spec_metadata() == metadata,
            final(self).spec_name() == old(self).spec_name(),
            final(self).spec_context() == old(self).spec_context(),
    {
        self.metadata = metadata;
    }
}

/// The graphs of the loaded models, each under the name of its model, in the
/// order in which they were registered.
#[derive(Debug)]
pub struct GraphRegistry<C> {
    graphs: Vec<Graph<C>>,
}

/// The first index at which a graph of the given name stands in `graphs`.
pub open spec fn index_of<C>(graphs: Seq<Graph<C>>, name: Seq<char>) -> Option<int>
    decreases graphs.len(),
{
    if graphs.len() == 0 {
        None
    } else {
        match index_of(graphs.drop_last(), name) {
            Some(i) => Some(i),
            None => if graphs.last().spec_name() == name {
                Some(graphs.len() - 1)
            } else {
                None
            },
        }
    }
}

/// The index of the graph that serves `name`: the graph of that name, or the
/// first graph where no name is given.
pub open spec fn selected<C>(graphs: Seq<Graph<C>>, name: Option<Seq<char>>) -> Option<int> {
    match name {
        Some(name) => index_of(graphs, name),
        None => if graphs.len() > 0 {
            Some(0)
        } else {
            None
        },
    }
}

/// Whether no text stands twice in `names`.
pub open spec fn distinct(names: Seq<Seq<char>>) -> bool {
    forall|i: int, j: int| 0 <= i < j < names.len() ==> names[i] != names[j]
}

/// The names of the given graphs, in their order.
pub open spec fn names_of<C>(graphs: Seq<Graph<C>>) -> Seq<Seq<char>> {
    graphs.map_values(|g: Graph<C>| g.spec_name())
}

/// A graph that is found stands at its index under its name, and none of
/// that name stands before it; where none is found, none has the name.
pub proof fn lemma_index_of<C>(graphs: Seq<Graph<C>>, name: Seq<char>)
    ensures
        match index_of(graphs, name) {
            Some(i) => 0 <= i < graphs.len() && graphs[i].spec_name() == name && forall|j: int|
                0 <= j < i ==> graphs[j].spec_name() != name,
            None => forall|j: int| 0 <= j < graphs.len() ==> graphs[j].spec_name() != name,
        },
    decreases graphs.len(),
{
    if graphs.len() > 0 {
        lemma_index_of(graphs.drop_last(), name);
        assert forall|j: int| 0 <= j < graphs.len() - 1 implies graphs[j]
            == graphs.drop_last()[j] by {}
    }
}

impl<C> View for GraphRegistry<C> {
    type V = Seq<Graph<C>>;

    closed spec fn view(&self) -> Seq<Graph<C>> {
        self.graphs@
    }
}

impl<C> GraphRegistry<C> {
    /// Whether no two graphs have the same name.
    pub open spec fn names_distinct(graphs: Seq<Graph<C>>) -> bool {
        forall|i: int, j: int|
            0 <= i < j < graphs.len() ==> (#[trigger] graphs[i]).spec_name() != (
            #[trigger] graphs[j]).spec_name()
    }

    /// Whether the registry is as its operations keep it: no two of its
    /// graphs have the same name.
    pub open spec fn well_formed(&self) -> bool {
        Self::names_distinct(self@)
    }

    /// A registry without graphs.
    pub fn new() -> (registry: GraphRegistry<C>)
        ensures
            registry@.len() == 0,
            registry.well_formed(),
    {
        GraphRegistry { graphs: Vec::new() }
    }

    /// The number of graphs.
    pub fn len(&self) -> (n: usize)
        ensures
            n == self@.len(),
    {
        self.graphs.len()
    }

    /// The index of the first graph of the given name.
    pub fn position(&self, name: &str) -> (found: Option<usize>)
        ensures
            match found {
                Some(i) => index_of(self@, name@) == Some(i as int) && i < self@.len(),
                None => index_of(self@, name@) is None,
            },
    {
        let mut i: usize = 0;
        while i < self.graphs.len()
            invariant
                i <= self.graphs.len(),
                index_of(self.graphs@.take(i as int), name@) is None,
            decreases self.graphs.len() - i,
        {
            proof {
                lemma_index_of(self.graphs@.take(i as int), name@);
            }
            if same(self.graphs[i].name.as_str(), name) {
                proof {
                    lemma_index_found(self.graphs@, name@, i as int);
                }
                return Some(i);
            }
            assert(self.graphs@.take(i + 1).drop_last() =~= self.graphs@.take(i as int));
            i = i + 1;
        }
        assert(self.graphs@.take(i as int) =~= self.graphs@);
        None
    }

    /// The graph at the given index.
    pub fn graph(&self, index: usize) -> (graph: &Graph<C>)
        requires
            index < self@.len(),
        ensures
            *graph == self@[index as int],
    {
        &self.graphs[index]
    }

    /// The execution context of the graph at the given index, to compute
    /// with. Nothing else changes in the registry.
    pub fn context_mut(&mut self, index: usize) -> (context: &mut C)
        requires
            index < old(self)@.len(),
        ensures
            *context == old(self)@[index as int].spec_context(),
            final(self)@.len() == old(self)@.len(),
            forall|i: int|
                0 <= i < old(self)@.len() && i != index ==> final(self)@[i] == old(self)@[i],
            final(self)@[index as int].spec_name() == old(self)@[index as int].spec_name(),
            final(self)@[index as int].spec_metadata() == old(self)@[index as int].spec_metadata(),
            final(self)@[index as int].spec_context() == *final(context),
    {
        &mut self.graphs[index].context
    }

    /// Replaces the metadata of the graph at the given index. Nothing else
    /// changes in the registry.
    pub fn set_metadata(&mut self, index: usize, metadata: Metadata)
        requires
            index < old(self)@.len(),
        ensures
            final(self)@.len() == old(self)@.len(),
            forall|i: int|
                0 <= i < old(self)@.len() && i != index ==> final(self)@[i] == old(self)@[i],
            final(self)@[index as int].spec_name() == old(self)@[index as int].spec_name(),
            final(self)@[index as int].spec_metadata() == metadata,
            final(self)@[index as int].spec_context() == old(self)@[index as int].spec_context(),
            old(self).well_formed() ==> final(self).well_formed(),
    {
        self.graphs[index].metadata = metadata;
    }

    /// The index of the graph that serves `name`: the graph of that name, or
    /// the first graph where no name is given.
    pub fn select(&self, name: Option<&str>) -> (found: Option<usize>)
        ensures
            match found {
                Some(i) => selected(
                    self@,
                    match name {
                        Some(n) => Some(n@),
                        None => None,
                    },
                ) == Some(i as int) && i < self@.len(),
                None => selected(
                    self@,
                    match name {
                        Some(n) => Some(n@),
                        None => None,
                    },
                ) is None,
            },
    {
        match name {
            Some(name) => self.position(name),
            None => if self.graphs.len() > 0 {
                Some(0)
            } else {
                None
            },
        }
    }

    /// The names of the models, in the order in which their graphs were
    /// registered.
    pub fn names(&self) -> (names: Vec<String>)
        ensures
            names@.map_values(|n: String| n@) == names_of(self@),
            self.well_formed() ==> distinct(names@.map_values(|n: String| n@)),
    {
        let mut names: Vec<String> = Vec::new();
        let mut i: usize = 0;
        while i < self.graphs.len()
            invariant
                i <= self.graphs.len(),
                names@.map_values(|n: String| n@) == names_of(self.graphs@.take(i as int)),
            decreases self.graphs.len() - i,
        {
            let ghost before = names@.map_values(|n: String| n@);
            names.push(self.graphs[i].name.clone());
            assert(names@.map_values(|n: String| n@) =~= before.push(
                self.graphs@[i as int].spec_name(),
            ));
            i = i + 1;
        }
        names
    }

    /// Registers a graph under the name of its model. A graph that stood
    /// under that name is replaced, and returned.
    pub fn insert(&mut self, graph: Graph<C>) -> (replaced: Option<Graph<C>>)
        ensures
            old(self).well_formed() ==> final(self).well_formed(),
            match index_of(old(self)@, graph.spec_name()) {
                Some(i) => replaced == Some(old(self)@[i]) && final(self)@ == old(self)@.update(
                    i,
                    graph,
                ),
                None => replaced is None && final(self)@ == old(self)@.push(graph),
            },
    {
        proof {
            lemma_index_of(self.graphs@, graph.spec_name());
        }
        match self.position(graph.name.as_str()) {
            Some(i) => {
                self.graphs.push(graph);
                Some(self.graphs.swap_remove(i))
            },
            None => {
                self.graphs.push(graph);
                None
            },
        }
    }
}

/// A graph of the name that is looked for, with none of that name before it,
/// is the one that is found.
pub proof fn lemma_index_found<C>(graphs: Seq<Graph<C>>, name: Seq<char>, i: int)
    requires
        0 <= i < graphs.len(),
        graphs[i].spec_name() == name,
        index_of(graphs.take(i), name) is None,
    ensures
        index_of(graphs, name) == Some(i),
    decreases graphs.len(),
{
    if graphs.len() - 1 != i {
        assert(graphs.drop_last().take(i) =~= graphs.take(i));
        lemma_index_found(graphs.drop_last(), name, i);
    }
}

} // verus!
