//! Shared data-model types for the Sequence request taxonomy.
//!
//! These are the values that operations carry: the address of a Sequence
//! instance, position descriptors for range reads, entry and permission
//! payloads, and the response families handed back on failure. The full
//! Sequence CRDT lives outside this layer; the types here hold exactly
//! what classification, routing and error correlation read.

use vstd::prelude::*;

verus! {

/// Fixed-size content name derived from content/identity, used for routing
/// within the distributed storage space.
#[derive(Clone, Copy, Hash, PartialEq, Eq, PartialOrd, Debug)]
pub struct XorName(pub [u8; 32]);

/// Identifies one Sequence instance: a visibility flag (public or private)
/// together with the underlying content name used for routing.
/// Immutable once constructed.
#[derive(Clone, Copy, Hash, PartialEq, Eq, PartialOrd, Debug)]
pub enum Address {
    /// A publicly readable Sequence.
    Public(XorName),
    /// A Sequence readable only by authorized principals.
    Private(XorName),
}

impl Address {
    /// Whether the address refers to a publicly readable Sequence.
    pub open spec fn is_public(self) -> bool {
        self is Public
    }

    /// The content name the address carries.
    pub open spec fn spec_name(self) -> XorName {
        match self {
            Address::Public(name) => name,
            Address::Private(name) => name,
        }
    }

    /// Returns true exactly when the address is public.
    pub fn is_pub(&self) -> (r: bool)
        ensures
            r == self.is_public(),
    {
        match self {
            Address::Public(_) => true,
            Address::Private(_) => false,
        }
    }

    /// Returns the content name the address carries.
    pub fn name(&self) -> (r: XorName)
        ensures
            r == self.spec_name(),
    {
        match self {
            Address::Public(name) => *name,
            Address::Private(name) => *name,
        }
    }
}

/// A position descriptor relative to the start or the end of a Sequence.
/// Range reads carry a pair of these; this layer passes them through
/// without interpreting them.
#[derive(Clone, Copy, Hash, PartialEq, Eq, PartialOrd, Debug)]
pub enum Index {
    /// Offset counted from the first entry.
    FromStart(u64),
    /// Offset counted from behind the last entry.
    FromEnd(u64),
}

/// One appended or removed element; opaque payload at this layer.
#[derive(Clone, Hash, PartialEq, Eq, PartialOrd, Debug)]
pub struct Entry(pub Vec<u8>);

/// A principal's public key.
#[derive(Clone, Copy, Hash, PartialEq, Eq, PartialOrd, Debug)]
pub struct PublicKey(pub [u8; 32]);

/// Identifies a principal for permission lookups: either one specific
/// key-holder or the catch-all "any user".
#[derive(Clone, Copy, Hash, PartialEq, Eq, PartialOrd, Debug)]
pub enum User {
    /// Any user at all.
    Anyone,
    /// The holder of one specific key.
    Key(PublicKey),
}

/// The principal currently authorized to perform owner-gated actions
/// (delete, re-own, permission changes) on a given Sequence.
#[derive(Clone, Copy, Hash, PartialEq, Eq, PartialOrd, Debug)]
pub struct Owner {
    /// The owning key.
    pub public_key: PublicKey,
    /// Entry count at the time ownership was set.
    pub entries_index: u64,
    /// Permission-change count at the time ownership was set.
    pub permissions_index: u64,
}

/// What a user may do to a public Sequence. Public data is always
/// readable, so no read flag appears here.
#[derive(Clone, Copy, Hash, PartialEq, Eq, PartialOrd, Debug)]
pub struct PubPermissionSet {
    /// May append entries.
    pub append: bool,
    /// May change permissions.
    pub manage_permissions: bool,
}

/// What a key-holder may do to a private Sequence.
#[derive(Clone, Copy, Hash, PartialEq, Eq, PartialOrd, Debug)]
pub struct PrivPermissionSet {
    /// May read entries.
    pub read: bool,
    /// May append entries.
    pub append: bool,
    /// May change permissions.
    pub manage_permissions: bool,
}

/// Access-control payload for a public Sequence, keyed by User.
#[derive(Clone, Hash, PartialEq, Eq, PartialOrd, Debug)]
pub struct PublicPermissions {
    /// Per-user rights.
    pub permissions: Vec<(User, PubPermissionSet)>,
    /// Entry count at the time the rights were set.
    pub entries_index: u64,
    /// Owner-change count at the time the rights were set.
    pub owners_index: u64,
}

/// Access-control payload for a private Sequence, keyed by specific keys
/// (a private Sequence grants nothing to "anyone").
#[derive(Clone, Hash, PartialEq, Eq, PartialOrd, Debug)]
pub struct PrivatePermissions {
    /// Per-key rights.
    pub permissions: Vec<(PublicKey, PrivPermissionSet)>,
    /// Entry count at the time the rights were set.
    pub entries_index: u64,
    /// Owner-change count at the time the rights were set.
    pub owners_index: u64,
}

/// Causal/version context a mutation carries for conflict-free merge;
/// opaque to this layer.
#[derive(Clone, Copy, Hash, PartialEq, Eq, PartialOrd, Debug)]
pub struct VersionContext {
    /// The replica that issued the mutation.
    pub actor: u64,
    /// That replica's operation counter.
    pub counter: u64,
}

/// A mutation envelope binding a target Address to a payload of type `T`,
/// plus the causal context the CRDT engine needs to merge it.
#[derive(Clone, Hash, PartialEq, Eq, PartialOrd, Debug)]
pub struct WriteOp<T> {
    /// The Sequence the mutation targets.
    pub address: Address,
    /// The mutation payload: an entry, an owner, or a permission set.
    pub payload: T,
    /// Causal context for CRDT merge; passed through untouched.
    pub context: VersionContext,
}

/// Descriptor of a Sequence instance, as carried by a creation request.
/// The full CRDT state is external; this layer reads only its address.
#[derive(Clone, Copy, Hash, PartialEq, Eq, PartialOrd, Debug)]
pub struct Sequence {
    /// The address the new Sequence will live at.
    pub address: Address,
}

impl Sequence {
    /// The content name of the Sequence's own address.
    pub open spec fn spec_name(self) -> XorName {
        self.address.spec_name()
    }

    /// Returns the content name of the Sequence's own address.
    pub fn name(&self) -> (r: XorName)
        ensures
            r == self.spec_name(),
    {
        self.address.name()
    }
}

/// Opaque domain error produced by the execution or authorization layers.
/// This layer never originates errors; it only re-shapes them.
#[derive(Clone, Copy, Hash, PartialEq, Eq, PartialOrd, Debug)]
pub enum Error {
    /// The requested data does not exist.
    NotFound,
    /// The requesting principal lacks the required capability.
    AccessDenied,
    /// The operation is invalid for the targeted data.
    InvalidOperation,
}

/// Capability class that reads of a Sequence require, and the single
/// class shared by every mutation.
#[derive(Clone, Copy, Hash, PartialEq, Eq, PartialOrd, Debug)]
pub enum DataAuthKind {
    /// Reading publicly readable data.
    PublicRead,
    /// Reading access-controlled data.
    PrivateRead,
    /// Mutating data; fine-grained gating is deferred to the
    /// permission engine.
    Write,
}

/// Classification of the capability required to perform an operation,
/// as handed to the authorization engine.
#[derive(Clone, Copy, Hash, PartialEq, Eq, PartialOrd, Debug)]
pub enum AuthorisationKind {
    /// Access to stored data.
    Data(DataAuthKind),
}

/// All current permission entries of a Sequence, shaped by its visibility.
#[derive(Clone, Hash, PartialEq, Eq, PartialOrd, Debug)]
pub enum Permissions {
    /// Rights of a public Sequence.
    Public(PublicPermissions),
    /// Rights of a private Sequence.
    Private(PrivatePermissions),
}

/// One user's rights on a Sequence, shaped by its visibility.
#[derive(Clone, Copy, Hash, PartialEq, Eq, PartialOrd, Debug)]
pub enum UserPermissions {
    /// Rights on a public Sequence.
    Public(PubPermissionSet),
    /// Rights on a private Sequence.
    Private(PrivPermissionSet),
}

/// Response to a Sequence query. Each variant corresponds to exactly one
/// read operation, so a caller inspecting the tag learns which query was
/// being answered.
#[derive(Hash, PartialEq, Eq, PartialOrd, Debug)]
pub enum QueryResponse {
    /// Answer to a full-state fetch.
    GetSequence(Result<Sequence, Error>),
    /// Answer to a range fetch.
    GetSequenceRange(Result<Vec<Entry>, Error>),
    /// Answer to a last-entry fetch, carrying the entry's position.
    GetSequenceLastEntry(Result<(u64, Entry), Error>),
    /// Answer to a fetch of all permission entries.
    GetSequencePermissions(Result<Permissions, Error>),
    /// Answer to a fetch of one user's permissions.
    GetSequenceUserPermissions(Result<UserPermissions, Error>),
    /// Answer to an owner fetch.
    GetSequenceOwner(Result<Owner, Error>),
}

/// Response to a failed Sequence mutation: one uniform shape, whichever
/// write kind failed.
#[derive(Clone, Copy, Hash, PartialEq, Eq, PartialOrd, Debug)]
pub enum CmdError {
    /// A data command failed with the wrapped domain error.
    Data(Error),
}

} // verus!
