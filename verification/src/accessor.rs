//! What the core asks of a backend, and what it makes of the answer.
//!
//! The core reads no archive and opens no connection. An operation that
//! needs bytes which are not in memory returns a `FetchRequest` or the index
//! of a missing page; the caller fetches and hands the outcome to `unpack`.

use vstd::prelude::*;
use std::io::Read;
use std::sync::Arc;
use crate::cache::{node_lookup, node_lookup_view};
use crate::err::{ErrorView, I3SError};
use crate::node::{Node, NodePage, NodePageDefinition};

verus! {

/// The outcome of an operation that may need a node page which is not in
/// memory: the result, or the index of the page to load before the
/// operation is repeated.
#[derive(Debug, Clone, PartialEq, Eq)]
pub enum Lookup<T> {
    Ready(T),
    Missing(usize),
}

/// Bytes to fetch: the path, relative to the backend's root, and whether
/// what is stored under it is gzip data.
#[derive(Debug, Clone, PartialEq, Eq)]
pub struct FetchRequest {
    pub path: String,
    pub gzip: bool,
}

/// What `flate2::read::GzDecoder` reads out of `data`: the decompressed
/// bytes of the first gzip member, or the text of the error it stops with.
pub uninterp spec fn gzip_decoded(data: Seq<u8>) -> Result<Seq<u8>, Seq<char>>;

/// Runs `flate2::read::GzDecoder` over `data` to its end. The outcome is
/// that of `gzip_decoded` on the same bytes; nothing else is claimed of it.
#[verifier::external_body]
fn gunzip(data: &[u8]) -> (decoded: Result<Vec<u8>, String>)
    ensures
        match decoded {
            Ok(bytes) => gzip_decoded(data@) == Ok::<Seq<u8>, Seq<char>>(bytes@),
            Err(reason) => gzip_decoded(data@) == Err::<Seq<u8>, Seq<char>>(reason@),
        },
{
    let mut bytes = Vec::new();
    match flate2::read::GzDecoder::new(data).read_to_end(&mut bytes) {
        Ok(_) => Ok(bytes),
        Err(e) => Err(e.to_string()),
    }
}

/// `Arc::clone`: another handle to the same value.
#[verifier::external_body]
pub(crate) fn share<T>(handle: &Arc<T>) -> (shared: Arc<T>)
    ensures
        shared == *handle,
{
    Arc::clone(handle)
}

/// The bytes fetched for a request, or the error the fetch ended with, as
/// contracts speak of them.
pub open spec fn fetched_view(fetched: Result<Vec<u8>, I3SError>) -> Result<Seq<u8>, ErrorView> {
    match fetched {
        Ok(bytes) => Ok(bytes@),
        Err(e) => Err(e@),
    }
}

/// The detail of the error for a payload that is not gzip data: the path,
/// then the decoder's reason.
pub open spec fn corrupt_detail(path: Seq<char>, reason: Seq<char>) -> Seq<char> {
    path + ": "@ + reason
}

/// What decompression yields for the payload stored under `path`: the bytes,
/// or a decompression error that names the path.
pub open spec fn decompression_outcome(
    path: Seq<char>,
    decoded: Result<Seq<u8>, Seq<char>>,
) -> Result<Seq<u8>, ErrorView> {
    match decoded {
        Ok(bytes) => Ok(bytes),
        Err(reason) => Err(ErrorView::DecompressionError(corrupt_detail(path, reason))),
    }
}

/// The payload stored under `path`, given what the fetch returned: a failed
/// fetch stays the failure it was, gzip data is decompressed, anything else
/// is taken as it is.
pub open spec fn unpacked(
    path: Seq<char>,
    gzip: bool,
    fetched: Result<Seq<u8>, ErrorView>,
) -> Result<Seq<u8>, ErrorView> {
    match fetched {
        Err(e) => Err(e),
        Ok(data) => if gzip {
            decompression_outcome(path, gzip_decoded(data))
        } else {
            Ok(data)
        },
    }
}

impl FetchRequest {
    /// Turns the outcome of decompression into the payload or the error of
    /// this request.
    pub fn decompressed(&self, decoded: Result<Vec<u8>, String>) -> (r: Result<Vec<u8>, I3SError>)
        ensures
            fetched_view(r) == decompression_outcome(
                self.path@,
                match decoded {
                    Ok(bytes) => Ok(bytes@),
                    Err(reason) => Err(reason@),
                },
            ),
            decoded matches Ok(bytes) ==> r == Ok::<Vec<u8>, I3SError>(bytes),
    {
        match decoded {
            Ok(bytes) => Ok(bytes),
            Err(reason) => {
                let mut detail = self.path.clone();
                detail.append(": ");
                detail.append(reason.as_str());
                Err(I3SError::DecompressionError(detail))
            },
        }
    }

    /// Turns what a fetch returned into the payload of this request.
    pub fn unpack(&self, fetched: Result<Vec<u8>, I3SError>) -> (r: Result<Vec<u8>, I3SError>)
        ensures
            fetched_view(r) == unpacked(self.path@, self.gzip, fetched_view(fetched)),
            fetched matches Err(e) ==> r == Err::<Vec<u8>, I3SError>(e),
            !self.gzip ==> r == fetched,
    {
        match fetched {
            Err(e) => Err(e),
            Ok(data) => {
                if self.gzip {
                    self.decompressed(gunzip(data.as_slice()))
                } else {
                    Ok(data)
                }
            },
        }
    }
}

/// A backend as the core sees it: the page layout of the scene, the pages in
/// memory, and the way from a path to the place the bytes are fetched from.
/// Fetching itself is the caller's part.
pub trait Accessor {
    /// The page layout that the scene declares.
    spec fn layout(&self) -> Option<NodePageDefinition>;

    /// The node pages in memory.
    spec fn pages(&self) -> Map<usize, NodePage>;

    /// Where the bytes of `path` are fetched from.
    spec fn address(&self, path: Seq<char>) -> Seq<char>;

    /// Looks a node up in the pages in memory.
    fn get_node(&self, index: &usize) -> (r: Result<Lookup<Arc<Node>>, I3SError>)
        ensures
            node_lookup_view(r) == node_lookup(self.layout(), self.pages(), *index),
    ;

    /// The place to fetch the bytes of `path` from: the name of an archive
    /// entry, or the address of a service resource.
    fn locate(&self, path: &str) -> (address: String)
        ensures
            address@ == self.address(path@),
    ;
}

/// A failed fetch is never turned into a success, nor into another failure.
pub proof fn lemma_unpack_keeps_failure(path: Seq<char>, gzip: bool, e: ErrorView)
    ensures
        unpacked(path, gzip, Err(e)) == Err::<Seq<u8>, ErrorView>(e),
{
}

} // verus!
