use crate::index::paths::path_file_stem;
use crate::index::{Index, IndexError};
use crate::parser::models::{Wikilink, WikilinkModel};
use vstd::prelude::*;

verus! {

/// Asks for the links that stand in a note.
#[derive(Debug, Clone, PartialEq)]
pub struct ForwardLinksRequest {
    pub file_path: String,
}

/// The links that stand in a note, in the order in which they stand there.
#[derive(Debug, Clone, PartialEq)]
pub struct ForwardLinksResponse {
    pub links: Vec<Wikilink>,
}

/// Asks for the links that point to a note.
#[derive(Debug, Clone, PartialEq)]
pub struct BackwardLinksRequest {
    pub file_path: String,
}

/// The links that point to a note.
#[derive(Debug, Clone, PartialEq)]
pub struct BackwardLinksResponse {
    pub links: Vec<BacklinkInfo>,
}

/// A link that points to a note, with the note in which it stands.
#[derive(Debug, Clone, PartialEq)]
pub struct BacklinkInfo {
    pub source_file: String,
    pub wikilink: Wikilink,
}

impl DeepView for BacklinkInfo {
    type V = (Seq<char>, WikilinkModel);

    open spec fn deep_view(&self) -> (Seq<char>, WikilinkModel) {
        (self.source_file@, self.wikilink@)
    }
}

/// The links of an answer of the index, each with its source, in the same
/// order.
pub fn backlink_infos(found: Vec<(String, Wikilink)>) -> (links: Vec<BacklinkInfo>)
    ensures
        links.deep_view() == found.deep_view(),
{
    let mut found = found;
    let ghost all = found.deep_view();
    let mut stack: Vec<(String, Wikilink)> = Vec::new();
    while found.len() > 0
        invariant
            stack.len() + found.len() == all.len(),
            forall|j: int| 0 <= j < found.len() ==> (#[trigger] found[j]).deep_view() == all[j],
            forall|j: int| 0 <= j < stack.len() ==> (#[trigger] stack[j]).deep_view() == all[all.len() - 1 - j],
        decreases found.len(),
    {
        match found.pop() {
            Some(pair) => {
                stack.push(pair);
            },
            None => {},
        }
    }
    let mut links: Vec<BacklinkInfo> = Vec::new();
    while stack.len() > 0
        invariant
            stack.len() + links.len() == all.len(),
            forall|j: int| 0 <= j < stack.len() ==> (#[trigger] stack[j]).deep_view() == all[all.len() - 1 - j],
            forall|j: int| 0 <= j < links.len() ==> (#[trigger] links[j]).deep_view() == all[j],
        decreases stack.len(),
    {
        match stack.pop() {
            Some((source_file, wikilink)) => {
                links.push(BacklinkInfo { source_file, wikilink });
            },
            None => {},
        }
    }
    assert(links.deep_view() =~= all);
    links
}

/// The answer to a request for the links that stand in a note, from what
/// the index answered: its links as they are, or its error.
pub fn forward_links_response(found: Result<Vec<Wikilink>, IndexError>) -> (r: Result<
    ForwardLinksResponse,
    IndexError,
>)
    ensures
        match found {
            Ok(links) => r == Ok::<ForwardLinksResponse, IndexError>(ForwardLinksResponse { links }),
            Err(e) => r == Err::<ForwardLinksResponse, IndexError>(e),
        },
{
    match found {
        Ok(links) => Ok(ForwardLinksResponse { links }),
        Err(e) => Err(e),
    }
}

/// The answer to a request for the links that point to a note, from what
/// the index answered: its links, each with its source and in the same
/// order, or its error.
pub fn backward_links_response(found: Result<Vec<(String, Wikilink)>, IndexError>) -> (r: Result<
    BackwardLinksResponse,
    IndexError,
>)
    ensures
        match found {
            Ok(pairs) => r matches Ok(response) && response.links.deep_view() == pairs.deep_view(),
            Err(e) => r == Err::<BackwardLinksResponse, IndexError>(e),
        },
{
    match found {
        Ok(pairs) => Ok(BackwardLinksResponse { links: backlink_infos(pairs) }),
        Err(e) => Err(e),
    }
}

/// Answers a request for the links that stand in a note: with
/// `forward_links_response` of what `Index::get_forward_links` answers.
pub fn handle_forward_links(index: &Index, request: ForwardLinksRequest) -> (r: Result<
    ForwardLinksResponse,
    IndexError,
>)
    ensures
        !index.in_scope(request.file_path@) <==> r matches Err(IndexError::OutOfScope),
        r is Ok || r matches Err(IndexError::OutOfScope) || r matches Err(IndexError::Database(_))
            || r matches Err(IndexError::MalformedRow),
{
    forward_links_response(index.get_forward_links(request.file_path.as_str()))
}

/// Answers a request for the links that point to a note: with
/// `backward_links_response` of what `Index::get_backward_links` answers.
pub fn handle_backward_links(index: &Index, request: BackwardLinksRequest) -> (r: Result<
    BackwardLinksResponse,
    IndexError,
>)
    ensures
        !index.in_scope(request.file_path@) <==> r matches Err(IndexError::OutOfScope),
        index.in_scope(request.file_path@) && path_file_stem(request.file_path@) is None <==> r matches Err(
            IndexError::InvalidFileName,
        ),
        r is Ok || r matches Err(IndexError::OutOfScope) || r matches Err(IndexError::InvalidFileName)
            || r matches Err(IndexError::Database(_)) || r matches Err(IndexError::MalformedRow),
{
    backward_links_response(index.get_backward_links(request.file_path.as_str()))
}

} // verus!
