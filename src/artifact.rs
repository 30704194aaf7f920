//! The documentation artifact: each documented item's docs by item id, and
//! the id of the package's root item.
use vstd::prelude::*;
use std::collections::HashMap;
use crate::markdown::{parsed_markdown, report_views};
use crate::pipeline::{render_markdown, rendered_doc, Rendered, RenderError};

verus! {

broadcast use vstd::std_specs::hash::group_hash_axioms;

/// Why no README was produced.
#[derive(Debug, PartialEq, Eq, Structural)]
pub enum ExtractError {
    /// The root item has no documentation, or only an empty string.
    MissingRootDocs,
    /// The serializer refused an event or could not write its output.
    CouldNotWrite,
}

pub struct DocArtifact {
    root: u32,
    docs: HashMap<u32, Option<String>>,
}

/// The root's documentation text, when it has a non-empty one.
pub open spec fn usable_docs(docs: Option<String>) -> bool {
    docs is Some && docs->Some_0@.len() > 0
}

impl DocArtifact {
    pub closed spec fn root_id(&self) -> u32 {
        self.root
    }

    /// Each item's documentation, by item id.
    pub closed spec fn items(&self) -> Map<u32, Option<String>> {
        self.docs@
    }

    /// An artifact with no items yet, whose root item is `root`.
    pub fn new(root: u32) -> (a: DocArtifact)
        ensures
            a.root_id() == root,
            a.items() == Map::<u32, Option<String>>::empty(),
    {
        DocArtifact { root, docs: HashMap::new() }
    }

    /// Records item `id` with its documentation; a second record of the same
    /// id replaces the first.
    pub fn add_item(&mut self, id: u32, docs: Option<String>)
        ensures
            final(self).root_id() == old(self).root_id(),
            final(self).items() == old(self).items().insert(id, docs),
    {
        self.docs.insert(id, docs);
    }

    pub fn root(&self) -> (r: u32)
        ensures
            r == self.root_id(),
    {
        self.root
    }

    pub fn has_item(&self, id: u32) -> (r: bool)
        ensures
            r == self.items().contains_key(id),
    {
        self.docs.contains_key(&id)
    }

    /// The root item's documentation text; absent or empty documentation is
    /// an error.
    pub fn root_docs(&self) -> (r: Result<&String, ExtractError>)
        requires
            self.items().contains_key(self.root_id()),
        ensures
            usable_docs(self.items()[self.root_id()]) ==> r == Ok::<&String, ExtractError>(
                &self.items()[self.root_id()]->Some_0,
            ),
            !usable_docs(self.items()[self.root_id()]) ==> r == Err::<&String, ExtractError>(
                ExtractError::MissingRootDocs,
            ),
    {
        match self.docs.get(&self.root) {
            Some(Some(d)) => {
                if d.as_str().is_empty() {
                    Err(ExtractError::MissingRootDocs)
                } else {
                    Ok(d)
                }
            },
            _ => Err(ExtractError::MissingRootDocs),
        }
    }
}

/// Extracts the root item's documentation and renders it as a standalone
/// markdown document. Nothing is rendered when the root has no usable
/// documentation; otherwise the result is that of `render_markdown`.
pub fn extract_readme(artifact: &DocArtifact, default_hint: &str) -> (r: Result<Rendered, ExtractError>)
    requires
        artifact.items().contains_key(artifact.root_id()),
    ensures
        !usable_docs(artifact.items()[artifact.root_id()]) <==> r == Err::<Rendered, ExtractError>(
            ExtractError::MissingRootDocs,
        ),
        usable_docs(artifact.items()[artifact.root_id()]) ==> (r is Ok <==> rendered_doc(
            artifact.items()[artifact.root_id()]->Some_0@,
            default_hint@,
        ) is Some),
        r is Ok ==> r->Ok_0.markdown@ == rendered_doc(
            artifact.items()[artifact.root_id()]->Some_0@,
            default_hint@,
        )->Some_0,
        r is Ok ==> report_views(r->Ok_0.broken_links@) == parsed_markdown(
            artifact.items()[artifact.root_id()]->Some_0@,
        ).1,
{
    let docs = artifact.root_docs()?;
    match render_markdown(docs.as_str(), default_hint) {
        Ok(rendered) => Ok(rendered),
        Err(RenderError::CouldNotWrite) => Err(ExtractError::CouldNotWrite),
    }
}

} // verus!
