//! The laws of the taxonomy, stated over the spec functions that the
//! classifiers' contracts use and proved once for all operation values:
//! shape fidelity of read-error responses, uniformity of write-error
//! responses, the classification rules, destination stability, and
//! distinctness of the diagnostic names.

use crate::sequence::{SequenceRead, SequenceWrite};
use crate::types::{AuthorisationKind, DataAuthKind, Error, QueryResponse};
use vstd::prelude::*;

verus! {

/// The failure channel of a query response: the wrapped error, if the
/// response reports one.
pub open spec fn response_error(r: QueryResponse) -> Option<Error> {
    match r {
        QueryResponse::GetSequence(result) => result_error(result),
        QueryResponse::GetSequenceRange(result) => result_error(result),
        QueryResponse::GetSequenceLastEntry(result) => result_error(result),
        QueryResponse::GetSequencePermissions(result) => result_error(result),
        QueryResponse::GetSequenceUserPermissions(result) => result_error(result),
        QueryResponse::GetSequenceOwner(result) => result_error(result),
    }
}

/// The error a result carries, if any.
pub open spec fn result_error<T>(result: Result<T, Error>) -> Option<Error> {
    match result {
        Ok(_) => None,
        Err(e) => Some(e),
    }
}

/// Whether a query response is tagged with the variant that answers the
/// given read operation.
pub open spec fn response_corresponds(q: SequenceRead, r: QueryResponse) -> bool {
    match q {
        SequenceRead::Get(_) => r is GetSequence,
        SequenceRead::GetRange { .. } => r is GetSequenceRange,
        SequenceRead::GetLastEntry(_) => r is GetSequenceLastEntry,
        SequenceRead::GetPermissions(_) => r is GetSequencePermissions,
        SequenceRead::GetUserPermissions { .. } => r is GetSequenceUserPermissions,
        SequenceRead::GetOwner(_) => r is GetSequenceOwner,
    }
}

/// A small ordinal naming a read operation's variant, payloads ignored.
pub open spec fn read_variant(q: SequenceRead) -> int {
    match q {
        SequenceRead::Get(_) => 0,
        SequenceRead::GetRange { .. } => 1,
        SequenceRead::GetLastEntry(_) => 2,
        SequenceRead::GetPermissions(_) => 3,
        SequenceRead::GetUserPermissions { .. } => 4,
        SequenceRead::GetOwner(_) => 5,
    }
}

/// A small ordinal naming a write operation's variant, payloads ignored.
pub open spec fn write_variant(w: SequenceWrite) -> int {
    match w {
        SequenceWrite::New(_) => 0,
        SequenceWrite::Edit(_) => 1,
        SequenceWrite::Delete(_) => 2,
        SequenceWrite::SetOwner(_) => 3,
        SequenceWrite::SetPubPermissions(_) => 4,
        SequenceWrite::SetPrivPermissions(_) => 5,
    }
}

/// Every read operation's error response is tagged identically to the
/// operation's own kind and wraps exactly the error handed in, so a
/// caller inspecting the response's tag learns which query was being
/// answered without separately tracking the request.
pub proof fn lemma_read_error_shape(q: SequenceRead, e: Error)
    ensures
        response_corresponds(q, q.spec_error(e)),
        response_error(q.spec_error(e)) == Some(e),
{
}

/// Every write operation's error response is the same uniform shape,
/// independent of the write variant: two writes given the same error
/// yield equal responses.
pub proof fn lemma_write_error_uniform(w1: SequenceWrite, w2: SequenceWrite, e: Error)
    ensures
        w1.spec_error(e) == w2.spec_error(e),
{
}

/// The required authorization of a write is the constant `Write` class,
/// across all variants and for any payload.
pub proof fn lemma_write_auth_constant(w: SequenceWrite)
    ensures
        w.spec_authorisation_kind() == AuthorisationKind::Data(DataAuthKind::Write),
{
}

/// The required authorization of a read depends only on the wrapped
/// Address's visibility: public gives `PublicRead`, private gives
/// `PrivateRead`, for every read variant alike.
pub proof fn lemma_read_auth_by_visibility(q: SequenceRead)
    ensures
        q.spec_address().is_public() ==> q.spec_authorisation_kind()
            == AuthorisationKind::Data(DataAuthKind::PublicRead),
        !q.spec_address().is_public() ==> q.spec_authorisation_kind()
            == AuthorisationKind::Data(DataAuthKind::PrivateRead),
{
}

/// Two read operations wrapping the same Address are classified alike,
/// whatever their variants.
pub proof fn lemma_read_auth_same_address(q1: SequenceRead, q2: SequenceRead)
    requires
        q1.spec_address() == q2.spec_address(),
    ensures
        q1.spec_authorisation_kind() == q2.spec_authorisation_kind(),
{
}

/// Two read operations wrapping the same Address resolve to the same
/// destination content name, whatever their variants.
pub proof fn lemma_read_dst_same_address(q1: SequenceRead, q2: SequenceRead)
    requires
        q1.spec_address() == q2.spec_address(),
    ensures
        q1.spec_dst_address() == q2.spec_dst_address(),
{
}

/// Two read operations bear the same diagnostic name exactly when they
/// are the same variant: names are distinct across variants and depend
/// on nothing but the variant.
pub proof fn lemma_read_names_distinct(q1: SequenceRead, q2: SequenceRead)
    ensures
        q1.spec_kind_name() == q2.spec_kind_name() <==> read_variant(q1) == read_variant(q2),
{
    reveal_strlit("GetSequence");
    reveal_strlit("GetSequenceRange");
    reveal_strlit("GetSequenceLastEntry");
    reveal_strlit("GetSequencePermissions");
    reveal_strlit("GetUserPermissions");
    reveal_strlit("GetOwner");
    assert("GetSequence"@.len() == 11);
    assert("GetSequenceRange"@.len() == 16);
    assert("GetSequenceLastEntry"@.len() == 20);
    assert("GetSequencePermissions"@.len() == 22);
    assert("GetUserPermissions"@.len() == 18);
    assert("GetOwner"@.len() == 8);
}

/// Two write operations bear the same diagnostic name exactly when they
/// are the same variant: names are distinct across variants and depend
/// on nothing but the variant.
pub proof fn lemma_write_names_distinct(w1: SequenceWrite, w2: SequenceWrite)
    ensures
        w1.spec_kind_name() == w2.spec_kind_name() <==> write_variant(w1) == write_variant(w2),
{
    reveal_strlit("NewSequence");
    reveal_strlit("EditSequence");
    reveal_strlit("DeleteSequence");
    reveal_strlit("SetOwner");
    reveal_strlit("SetPublicPermissions");
    reveal_strlit("SetPrivatePermissions");
    assert("NewSequence"@.len() == 11);
    assert("EditSequence"@.len() == 12);
    assert("DeleteSequence"@.len() == 14);
    assert("SetOwner"@.len() == 8);
    assert("SetPublicPermissions"@.len() == 20);
    assert("SetPrivatePermissions"@.len() == 21);
}

/// No read operation shares a diagnostic name with any write operation:
/// every read name starts with 'G' and no write name does.
pub proof fn lemma_read_write_names_distinct(q: SequenceRead, w: SequenceWrite)
    ensures
        q.spec_kind_name() != w.spec_kind_name(),
{
    reveal_strlit("GetSequence");
    reveal_strlit("GetSequenceRange");
    reveal_strlit("GetSequenceLastEntry");
    reveal_strlit("GetSequencePermissions");
    reveal_strlit("GetUserPermissions");
    reveal_strlit("GetOwner");
    reveal_strlit("NewSequence");
    reveal_strlit("EditSequence");
    reveal_strlit("DeleteSequence");
    reveal_strlit("SetOwner");
    reveal_strlit("SetPublicPermissions");
    reveal_strlit("SetPrivatePermissions");
    assert(q.spec_kind_name()[0] == 'G');
    assert(w.spec_kind_name()[0] != 'G');
}

} // verus!
