//! Document entities: value-like handles to one file or directory inside the
//! permission-scoped tree, and the decisions behind the operations on them.
//!
//! An entity is created by resolution — from a root locator granted by the
//! platform, or from a live foreign document object whose fields the glue
//! has read — and never mutated in place. Each operation first decides here,
//! under a proved contract, whether it applies to the entity's kind and what
//! the glue must ask the platform; the foreign call itself happens outside.

use vstd::prelude::*;
use crate::error::SafError;
use crate::text::is_prefix_of;
use crate::text::str_is_prefix;

verus! {

/// One file-or-directory handle inside the permission-scoped tree.
///
/// `locator` is the durable content-locator string, the only field safe to
/// persist and later exchange for an equivalent entity. `display_path` is
/// informational only and never a valid filesystem path. `byte_size` is
/// undefined for directories. `foreign_ref` (of the glue's reference type
/// `H`) is a durable reference to the underlying foreign document object,
/// owned by this entity alone.
#[derive(Debug, Clone, PartialEq, Eq)]
pub struct DocumentEntity<H> {
    pub name: String,
    pub byte_size: u64,
    pub display_path: String,
    pub locator: String,
    pub is_directory: bool,
    pub foreign_ref: H,
}

/// How a requested locator is resolved against the tree's root entity.
///
/// `UseRoot`: the request denotes the root itself, so the root entity is
/// returned directly. `SynthesizeDescendant`: a descendant entity is built
/// from the parent/context/locator triple alone — no listing call and no
/// walk over the tree is needed to reach one known child.
#[derive(Debug, Clone, Copy, PartialEq, Eq, Structural)]
pub enum LocatorResolution {
    UseRoot,
    SynthesizeDescendant,
}

/// What an open decision asks the glue to do: obtain a byte stream for this
/// locator with this access mode. The mode tokens' exact semantics are
/// defined by the platform's document provider, not by this layer.
#[derive(Debug, Clone, PartialEq, Eq)]
pub struct OpenRequest {
    pub locator: String,
    pub mode: String,
}

/// What a list decision asks the glue to do: one structured child query
/// against this parent locator.
#[derive(Debug, Clone, PartialEq, Eq)]
pub struct ListRequest {
    pub parent_locator: String,
}

/// What a create decision asks the glue to do: create a child under this
/// parent locator — a file when `mime_type` is present, a directory when it
/// is not. The platform resolves name collisions and MIME mismatches itself;
/// the entity reported back carries whatever name the platform chose.
#[derive(Debug, Clone, PartialEq, Eq)]
pub struct CreateRequest {
    pub parent_locator: String,
    pub mime_type: Option<String>,
    pub name: String,
}

/// What resolution from a foreign object yields: the entity wrapping exactly
/// the fields read from the object, or invalid-argument for a null
/// reference.
pub open spec fn spec_resolve_from_foreign<H>(fields: Option<DocumentEntity<H>>) -> Result<
    DocumentEntity<H>,
    SafError,
> {
    match fields {
        Some(entity) => Ok(entity),
        None => Err(SafError::InvalidArgument),
    }
}

/// Resolution from a foreign document object. A null reference — `None`
/// here, since there are no fields to read from it — is rejected as an
/// invalid argument; otherwise the entity carries exactly the fields the
/// glue read from the live object.
pub fn resolve_from_foreign<H>(fields: Option<DocumentEntity<H>>) -> (r: Result<
    DocumentEntity<H>,
    SafError,
>)
    ensures
        r == spec_resolve_from_foreign(fields),
        fields is None <==> r == Err::<DocumentEntity<H>, SafError>(SafError::InvalidArgument),
{
    match fields {
        Some(entity) => Ok(entity),
        None => Err(SafError::InvalidArgument),
    }
}

/// The root-or-descendant decision of locator resolution: the root entity is
/// used directly exactly when the requested locator is a prefix of the
/// canonical string form of the root's own resolved locator; otherwise the
/// descendant is synthesized directly, without enumerating any children.
pub fn locator_resolution_route(requested: &str, root_resolved: &str) -> (r: LocatorResolution)
    ensures
        r == LocatorResolution::UseRoot <==> is_prefix_of(requested@, root_resolved@),
        r == LocatorResolution::SynthesizeDescendant <==> !is_prefix_of(requested@, root_resolved@),
{
    if str_is_prefix(requested, root_resolved) {
        LocatorResolution::UseRoot
    } else {
        LocatorResolution::SynthesizeDescendant
    }
}

impl<H> DocumentEntity<H> {
    /// Decides an open. Opening requires a non-directory entity; on a
    /// directory the decision is not-applicable. Otherwise the glue is asked
    /// to open this entity's locator with the given mode, whose behavior
    /// (truncation, append, seek support) the platform's provider defines.
    pub fn open_request(&self, mode: &str) -> (r: Result<OpenRequest, SafError>)
        ensures
            self.is_directory <==> r == Err::<OpenRequest, SafError>(SafError::NotApplicable),
            !self.is_directory ==> (r matches Ok(q) && q.locator@ == self.locator@ && q.mode@
                == mode@),
    {
        if self.is_directory {
            return Err(SafError::NotApplicable);
        }
        Ok(OpenRequest { locator: self.locator.clone(), mode: mode.to_owned() })
    }

    /// Decides a listing. Listing requires a directory entity; on a plain
    /// file the decision is not-applicable. Otherwise the glue is asked to
    /// run the single structured child query against this entity's locator.
    pub fn list_request(&self) -> (r: Result<ListRequest, SafError>)
        ensures
            !self.is_directory <==> r == Err::<ListRequest, SafError>(SafError::NotApplicable),
            self.is_directory ==> (r matches Ok(q) && q.parent_locator@ == self.locator@),
    {
        if !self.is_directory {
            return Err(SafError::NotApplicable);
        }
        Ok(ListRequest { parent_locator: self.locator.clone() })
    }

    /// Decides a file creation. Creating requires a directory entity; on a
    /// plain file the decision is not-applicable. Otherwise the glue is
    /// asked to create a child file with this MIME type and name under this
    /// entity's locator.
    pub fn create_file_request(&self, mime_type: &str, name: &str) -> (r: Result<
        CreateRequest,
        SafError,
    >)
        ensures
            !self.is_directory <==> r == Err::<CreateRequest, SafError>(SafError::NotApplicable),
            self.is_directory ==> (r matches Ok(q) && q.parent_locator@ == self.locator@ && (
            q.mime_type matches Some(m) && m@ == mime_type@) && q.name@ == name@),
    {
        if !self.is_directory {
            return Err(SafError::NotApplicable);
        }
        Ok(
            CreateRequest {
                parent_locator: self.locator.clone(),
                mime_type: Some(mime_type.to_owned()),
                name: name.to_owned(),
            },
        )
    }

    /// Decides a directory creation. Creating requires a directory entity;
    /// on a plain file the decision is not-applicable. Otherwise the glue is
    /// asked to create a child directory with this name under this entity's
    /// locator; no MIME type is involved.
    pub fn create_directory_request(&self, name: &str) -> (r: Result<CreateRequest, SafError>)
        ensures
            !self.is_directory <==> r == Err::<CreateRequest, SafError>(SafError::NotApplicable),
            self.is_directory ==> (r matches Ok(q) && q.parent_locator@ == self.locator@
                && q.mime_type is None && q.name@ == name@),
    {
        if !self.is_directory {
            return Err(SafError::NotApplicable);
        }
        Ok(
            CreateRequest {
                parent_locator: self.locator.clone(),
                mime_type: None,
                name: name.to_owned(),
            },
        )
    }
}

/// Round trip of a locator through resolution: resolution wraps the fields
/// the provider reported without altering them, so as long as the provider
/// reports the same display name and the same kind for one locator each time
/// it is resolved — the capability the platform's document provider
/// guarantees for a durable locator — two resolutions of that locator yield
/// entities with the same `name` and the same `is_directory`.
pub proof fn lemma_locator_round_trip<H>(first: DocumentEntity<H>, again: DocumentEntity<H>)
    requires
        first.name@ == again.name@,
        first.is_directory == again.is_directory,
    ensures
        spec_resolve_from_foreign(Some(first)) matches Ok(a)
            && spec_resolve_from_foreign(Some(again)) matches Ok(b) && a.name@ == b.name@
            && a.is_directory == b.is_directory,
{
}

} // verus!
