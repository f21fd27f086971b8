//! The two closed operation taxonomies over a Sequence, with their
//! classifiers: required authorization, destination content name,
//! error correlation and diagnostic naming.

use crate::types::{
    Address, AuthorisationKind, CmdError, DataAuthKind, Entry, Error, Index, Owner,
    PrivatePermissions, PublicPermissions, QueryResponse, Sequence, User, WriteOp, XorName,
};
use vstd::prelude::*;

verus! {

/// A read operation over one Sequence instance. The set is closed:
/// every classifier below handles each variant exhaustively.
#[derive(Clone, Copy, Hash, PartialEq, Eq, PartialOrd, Debug)]
pub enum SequenceRead {
    /// Get Sequence from the network.
    Get(Address),
    /// Get a range of entries from a Sequence object on the network.
    GetRange {
        /// Sequence address.
        address: Address,
        /// Range of entries to fetch, passed through untouched.
        ///
        /// For example, get 10 last entries:
        /// range: (Index::FromEnd(10), Index::FromEnd(0))
        ///
        /// Get all entries:
        /// range: (Index::FromStart(0), Index::FromEnd(0))
        ///
        /// Get first 5 entries:
        /// range: (Index::FromStart(0), Index::FromStart(5))
        range: (Index, Index),
    },
    /// Get last entry from the Sequence.
    GetLastEntry(Address),
    /// List all current users permissions.
    GetPermissions(Address),
    /// Get current permissions for a specified user.
    GetUserPermissions {
        /// Sequence address.
        address: Address,
        /// User to get permissions for.
        user: User,
    },
    /// Get current owner.
    GetOwner(Address),
}

/// A write operation over one Sequence instance. The set is closed:
/// every classifier below handles each variant exhaustively.
#[derive(Clone, Hash, PartialEq, Eq, PartialOrd, Debug)]
pub enum SequenceWrite {
    /// Create a new Sequence on the network.
    New(Sequence),
    /// Edit the Sequence (insert/remove entry).
    Edit(WriteOp<Entry>),
    /// Delete a private Sequence.
    ///
    /// This operation MUST return an error if applied to a public
    /// Sequence, and only the current owner may perform it; both
    /// preconditions are enforced by the execution layer, not here.
    Delete(Address),
    /// Set a new owner. Only the current owner can perform this action.
    SetOwner(WriteOp<Owner>),
    /// Set new permissions for a public Sequence.
    SetPubPermissions(WriteOp<PublicPermissions>),
    /// Set new permissions for a private Sequence.
    SetPrivPermissions(WriteOp<PrivatePermissions>),
}

impl SequenceRead {
    /// The one Address every read variant wraps.
    pub open spec fn spec_address(self) -> Address {
        match self {
            SequenceRead::Get(address) => address,
            SequenceRead::GetRange { address, .. } => address,
            SequenceRead::GetLastEntry(address) => address,
            SequenceRead::GetPermissions(address) => address,
            SequenceRead::GetUserPermissions { address, .. } => address,
            SequenceRead::GetOwner(address) => address,
        }
    }

    /// The response a failed execution of this read is answered with:
    /// the response variant corresponding to the read variant, with the
    /// error in its failure channel.
    pub open spec fn spec_error(self, error: Error) -> QueryResponse {
        match self {
            SequenceRead::Get(_) => QueryResponse::GetSequence(Err(error)),
            SequenceRead::GetRange { .. } => QueryResponse::GetSequenceRange(Err(error)),
            SequenceRead::GetLastEntry(_) => QueryResponse::GetSequenceLastEntry(Err(error)),
            SequenceRead::GetPermissions(_) => QueryResponse::GetSequencePermissions(Err(error)),
            SequenceRead::GetUserPermissions { .. } => QueryResponse::GetSequenceUserPermissions(
                Err(error),
            ),
            SequenceRead::GetOwner(_) => QueryResponse::GetSequenceOwner(Err(error)),
        }
    }

    /// The capability class this read requires: decided by the wrapped
    /// Address's visibility alone, never by the query kind.
    pub open spec fn spec_authorisation_kind(self) -> AuthorisationKind {
        if self.spec_address().is_public() {
            AuthorisationKind::Data(DataAuthKind::PublicRead)
        } else {
            AuthorisationKind::Data(DataAuthKind::PrivateRead)
        }
    }

    /// The content name that routes this read.
    pub open spec fn spec_dst_address(self) -> XorName {
        self.spec_address().spec_name()
    }

    /// The fixed diagnostic short name of this read's variant.
    pub open spec fn spec_kind_name(self) -> Seq<char> {
        match self {
            SequenceRead::Get(_) => "GetSequence"@,
            SequenceRead::GetRange { .. } => "GetSequenceRange"@,
            SequenceRead::GetLastEntry(_) => "GetSequenceLastEntry"@,
            SequenceRead::GetPermissions(_) => "GetSequencePermissions"@,
            SequenceRead::GetUserPermissions { .. } => "GetUserPermissions"@,
            SequenceRead::GetOwner(_) => "GetOwner"@,
        }
    }

    /// Creates a response containing an error, with the response variant
    /// corresponding to the request variant.
    pub fn error(&self, error: Error) -> (r: QueryResponse)
        ensures
            r == self.spec_error(error),
    {
        match self {
            SequenceRead::Get(_) => QueryResponse::GetSequence(Err(error)),
            SequenceRead::GetRange { .. } => QueryResponse::GetSequenceRange(Err(error)),
            SequenceRead::GetLastEntry(_) => QueryResponse::GetSequenceLastEntry(Err(error)),
            SequenceRead::GetPermissions(_) => QueryResponse::GetSequencePermissions(Err(error)),
            SequenceRead::GetUserPermissions { .. } => QueryResponse::GetSequenceUserPermissions(
                Err(error),
            ),
            SequenceRead::GetOwner(_) => QueryResponse::GetSequenceOwner(Err(error)),
        }
    }

    /// Returns the access categorisation of the request.
    pub fn authorisation_kind(&self) -> (r: AuthorisationKind)
        ensures
            r == self.spec_authorisation_kind(),
    {
        let address = match self {
            SequenceRead::Get(address) => address,
            SequenceRead::GetRange { address, .. } => address,
            SequenceRead::GetLastEntry(address) => address,
            SequenceRead::GetPermissions(address) => address,
            SequenceRead::GetUserPermissions { address, .. } => address,
            SequenceRead::GetOwner(address) => address,
        };
        if address.is_pub() {
            AuthorisationKind::Data(DataAuthKind::PublicRead)
        } else {
            AuthorisationKind::Data(DataAuthKind::PrivateRead)
        }
    }

    /// Returns the address of the destination for the request.
    pub fn dst_address(&self) -> (r: XorName)
        ensures
            r == self.spec_dst_address(),
    {
        match self {
            SequenceRead::Get(address) => address.name(),
            SequenceRead::GetRange { address, .. } => address.name(),
            SequenceRead::GetLastEntry(address) => address.name(),
            SequenceRead::GetPermissions(address) => address.name(),
            SequenceRead::GetUserPermissions { address, .. } => address.name(),
            SequenceRead::GetOwner(address) => address.name(),
        }
    }

    /// Returns the fixed short name of the request's variant, for logs
    /// and traces; it depends on the variant alone, never on the payload.
    pub fn kind_name(&self) -> (r: &'static str)
        ensures
            r@ == self.spec_kind_name(),
    {
        match self {
            SequenceRead::Get(_) => "GetSequence",
            SequenceRead::GetRange { .. } => "GetSequenceRange",
            SequenceRead::GetLastEntry(_) => "GetSequenceLastEntry",
            SequenceRead::GetPermissions(_) => "GetSequencePermissions",
            SequenceRead::GetUserPermissions { .. } => "GetUserPermissions",
            SequenceRead::GetOwner(_) => "GetOwner",
        }
    }
}

impl SequenceWrite {
    /// The one Address this write resolves to: for `New`, the new
    /// Sequence's own address; otherwise the envelope's target.
    pub open spec fn spec_address(self) -> Address {
        match self {
            SequenceWrite::New(data) => data.address,
            SequenceWrite::Edit(op) => op.address,
            SequenceWrite::Delete(address) => address,
            SequenceWrite::SetOwner(op) => op.address,
            SequenceWrite::SetPubPermissions(op) => op.address,
            SequenceWrite::SetPrivPermissions(op) => op.address,
        }
    }

    /// The response a failed execution of this write is answered with:
    /// one uniform shape, whichever write kind failed.
    pub open spec fn spec_error(self, error: Error) -> CmdError {
        CmdError::Data(error)
    }

    /// The capability class this write requires: the single `Write`
    /// class, for every variant. Fine-grained gating (owner-only for
    /// `SetOwner` and `Delete`) is deferred to the permission engine.
    pub open spec fn spec_authorisation_kind(self) -> AuthorisationKind {
        AuthorisationKind::Data(DataAuthKind::Write)
    }

    /// The content name that routes this write.
    pub open spec fn spec_dst_address(self) -> XorName {
        self.spec_address().spec_name()
    }

    /// The fixed diagnostic short name of this write's variant.
    pub open spec fn spec_kind_name(self) -> Seq<char> {
        match self {
            SequenceWrite::New(_) => "NewSequence"@,
            SequenceWrite::Edit(_) => "EditSequence"@,
            SequenceWrite::Delete(_) => "DeleteSequence"@,
            SequenceWrite::SetOwner(_) => "SetOwner"@,
            SequenceWrite::SetPubPermissions(_) => "SetPublicPermissions"@,
            SequenceWrite::SetPrivPermissions(_) => "SetPrivatePermissions"@,
        }
    }

    /// Creates a response containing an error: the uniform write-failure
    /// shape, independent of the request variant.
    pub fn error(&self, error: Error) -> (r: CmdError)
        ensures
            r == self.spec_error(error),
            r == CmdError::Data(error),
    {
        CmdError::Data(error)
    }

    /// Returns the access categorisation of the request.
    pub fn authorisation_kind(&self) -> (r: AuthorisationKind)
        ensures
            r == self.spec_authorisation_kind(),
            r == AuthorisationKind::Data(DataAuthKind::Write),
    {
        AuthorisationKind::Data(DataAuthKind::Write)
    }

    /// Returns the address of the destination for the request.
    pub fn dst_address(&self) -> (r: XorName)
        ensures
            r == self.spec_dst_address(),
    {
        match self {
            SequenceWrite::New(data) => data.name(),
            SequenceWrite::Edit(op) => op.address.name(),
            SequenceWrite::Delete(address) => address.name(),
            SequenceWrite::SetOwner(op) => op.address.name(),
            SequenceWrite::SetPubPermissions(op) => op.address.name(),
            SequenceWrite::SetPrivPermissions(op) => op.address.name(),
        }
    }

    /// Returns the fixed short name of the request's variant, for logs
    /// and traces; it depends on the variant alone, never on the payload.
    pub fn kind_name(&self) -> (r: &'static str)
        ensures
            r@ == self.spec_kind_name(),
    {
        match self {
            SequenceWrite::New(_) => "NewSequence",
            SequenceWrite::Edit(_) => "EditSequence",
            SequenceWrite::Delete(_) => "DeleteSequence",
            SequenceWrite::SetOwner(_) => "SetOwner",
            SequenceWrite::SetPubPermissions(_) => "SetPublicPermissions",
            SequenceWrite::SetPrivPermissions(_) => "SetPrivatePermissions",
        }
    }
}

} // verus!
