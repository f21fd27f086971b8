use sequence_messaging::sequence::{SequenceRead, SequenceWrite};
use sequence_messaging::types::{
    Address, AuthorisationKind, CmdError, DataAuthKind, Entry, Error, Index, Owner,
    PrivPermissionSet, PrivatePermissions, PubPermissionSet, PublicPermissions, QueryResponse,
    Sequence, User, VersionContext, WriteOp, XorName,
};

fn name(b: u8) -> XorName {
    XorName([b; 32])
}

fn key(b: u8) -> sequence_messaging::types::PublicKey {
    sequence_messaging::types::PublicKey([b; 32])
}

fn ctx() -> VersionContext {
    VersionContext { actor: 1, counter: 1 }
}

fn all_reads(address: Address) -> Vec<SequenceRead> {
    vec![
        SequenceRead::Get(address),
        SequenceRead::GetRange { address, range: (Index::FromStart(0), Index::FromEnd(0)) },
        SequenceRead::GetLastEntry(address),
        SequenceRead::GetPermissions(address),
        SequenceRead::GetUserPermissions { address, user: User::Anyone },
        SequenceRead::GetOwner(address),
    ]
}

fn all_writes(address: Address) -> Vec<SequenceWrite> {
    vec![
        SequenceWrite::New(Sequence { address }),
        SequenceWrite::Edit(WriteOp { address, payload: Entry(vec![1, 2, 3]), context: ctx() }),
        SequenceWrite::Delete(address),
        SequenceWrite::SetOwner(WriteOp {
            address,
            payload: Owner { public_key: key(9), entries_index: 0, permissions_index: 0 },
            context: ctx(),
        }),
        SequenceWrite::SetPubPermissions(WriteOp {
            address,
            payload: PublicPermissions {
                permissions: vec![(
                    User::Anyone,
                    PubPermissionSet { append: true, manage_permissions: false },
                )],
                entries_index: 0,
                owners_index: 0,
            },
            context: ctx(),
        }),
        SequenceWrite::SetPrivPermissions(WriteOp {
            address,
            payload: PrivatePermissions {
                permissions: vec![(
                    key(9),
                    PrivPermissionSet { read: true, append: true, manage_permissions: false },
                )],
                entries_index: 0,
                owners_index: 0,
            },
            context: ctx(),
        }),
    ]
}

#[test]
fn get_public_not_found_scenario() {
    let a = Address::Public(name(7));
    let q = SequenceRead::Get(a);
    assert_eq!(q.error(Error::NotFound), QueryResponse::GetSequence(Err(Error::NotFound)));
    assert_eq!(q.authorisation_kind(), AuthorisationKind::Data(DataAuthKind::PublicRead));
    assert_eq!(q.dst_address(), name(7));
}

#[test]
fn get_range_routes_like_get() {
    let a = Address::Private(name(3));
    let whole = SequenceRead::GetRange { address: a, range: (Index::FromStart(0), Index::FromEnd(0)) };
    assert_eq!(whole.dst_address(), SequenceRead::Get(a).dst_address());
}

#[test]
fn get_range_ignores_the_range() {
    let a = Address::Public(name(3));
    let whole = SequenceRead::GetRange { address: a, range: (Index::FromStart(0), Index::FromEnd(0)) };
    let last_ten = SequenceRead::GetRange { address: a, range: (Index::FromEnd(10), Index::FromEnd(0)) };
    assert_eq!(whole.dst_address(), last_ten.dst_address());
    assert_eq!(whole.authorisation_kind(), last_ten.authorisation_kind());
    assert_eq!(whole.error(Error::NotFound), last_ten.error(Error::NotFound));
    assert_eq!(whole.kind_name(), last_ten.kind_name());
}

#[test]
fn delete_public_is_not_special_cased() {
    // Deleting a public Sequence violates the operation's precondition,
    // but rejection belongs to the execution layer: classification and
    // routing still answer normally here.
    let b = Address::Public(name(11));
    let w = SequenceWrite::Delete(b);
    assert_eq!(w.authorisation_kind(), AuthorisationKind::Data(DataAuthKind::Write));
    assert_eq!(w.dst_address(), name(11));
    assert_eq!(w.error(Error::InvalidOperation), CmdError::Data(Error::InvalidOperation));
}

#[test]
fn set_owner_and_edit_fail_alike() {
    let a = Address::Private(name(5));
    let set_owner = SequenceWrite::SetOwner(WriteOp {
        address: a,
        payload: Owner { public_key: key(2), entries_index: 4, permissions_index: 1 },
        context: ctx(),
    });
    let edit = SequenceWrite::Edit(WriteOp {
        address: a,
        payload: Entry(vec![42]),
        context: ctx(),
    });
    assert_eq!(set_owner.error(Error::AccessDenied), edit.error(Error::AccessDenied));
}

#[test]
fn read_error_shapes_follow_the_variant() {
    let a = Address::Private(name(8));
    let e = Error::AccessDenied;
    let responses: Vec<QueryResponse> = all_reads(a).iter().map(|q| q.error(e)).collect();
    assert_eq!(responses[0], QueryResponse::GetSequence(Err(e)));
    assert_eq!(responses[1], QueryResponse::GetSequenceRange(Err(e)));
    assert_eq!(responses[2], QueryResponse::GetSequenceLastEntry(Err(e)));
    assert_eq!(responses[3], QueryResponse::GetSequencePermissions(Err(e)));
    assert_eq!(responses[4], QueryResponse::GetSequenceUserPermissions(Err(e)));
    assert_eq!(responses[5], QueryResponse::GetSequenceOwner(Err(e)));
}

#[test]
fn every_error_value_is_wrapped_unchanged() {
    let q = SequenceRead::GetLastEntry(Address::Public(name(1)));
    for e in [Error::NotFound, Error::AccessDenied, Error::InvalidOperation] {
        assert_eq!(q.error(e), QueryResponse::GetSequenceLastEntry(Err(e)));
    }
    let w = SequenceWrite::Delete(Address::Private(name(1)));
    for e in [Error::NotFound, Error::AccessDenied, Error::InvalidOperation] {
        assert_eq!(w.error(e), CmdError::Data(e));
    }
}

#[test]
fn write_errors_are_uniform_across_variants() {
    let a = Address::Private(name(4));
    let e = Error::NotFound;
    let responses: Vec<CmdError> = all_writes(a).iter().map(|w| w.error(e)).collect();
    for r in &responses {
        assert_eq!(*r, CmdError::Data(e));
    }
}

#[test]
fn write_authorisation_is_constant() {
    for address in [Address::Public(name(6)), Address::Private(name(6))] {
        for w in all_writes(address) {
            assert_eq!(w.authorisation_kind(), AuthorisationKind::Data(DataAuthKind::Write));
        }
    }
}

#[test]
fn read_authorisation_follows_visibility_alone() {
    for q in all_reads(Address::Public(name(2))) {
        assert_eq!(q.authorisation_kind(), AuthorisationKind::Data(DataAuthKind::PublicRead));
    }
    for q in all_reads(Address::Private(name(2))) {
        assert_eq!(q.authorisation_kind(), AuthorisationKind::Data(DataAuthKind::PrivateRead));
    }
}

#[test]
fn reads_of_one_address_share_a_destination() {
    let a = Address::Private(name(13));
    let expected = SequenceRead::Get(a).dst_address();
    for q in all_reads(a) {
        assert_eq!(q.dst_address(), expected);
    }
    assert_eq!(SequenceRead::GetOwner(a).dst_address(), expected);
}

#[test]
fn write_destinations_follow_the_envelope() {
    let a = Address::Private(name(14));
    for w in all_writes(a) {
        assert_eq!(w.dst_address(), name(14));
    }
}

#[test]
fn diagnostic_names_are_pairwise_distinct() {
    let a = Address::Public(name(1));
    let mut names: Vec<&'static str> = Vec::new();
    for q in all_reads(a) {
        names.push(q.kind_name());
    }
    for w in all_writes(a) {
        names.push(w.kind_name());
    }
    assert_eq!(names.len(), 12);
    for i in 0..names.len() {
        for j in 0..names.len() {
            if i != j {
                assert_ne!(names[i], names[j]);
            }
        }
    }
}

#[test]
fn diagnostic_names_are_stable() {
    let a = Address::Private(name(9));
    for q in all_reads(a) {
        assert_eq!(q.kind_name(), q.kind_name());
    }
    for w in all_writes(a) {
        assert_eq!(w.kind_name(), w.kind_name());
    }
    assert_eq!(SequenceRead::Get(a).kind_name(), "GetSequence");
    assert_eq!(
        SequenceRead::GetUserPermissions { address: a, user: User::Key(key(3)) }.kind_name(),
        "GetUserPermissions",
    );
    assert_eq!(SequenceWrite::Delete(a).kind_name(), "DeleteSequence");
    assert_eq!(
        SequenceWrite::New(Sequence { address: a }).kind_name(),
        "NewSequence",
    );
}

#[test]
fn new_routes_by_the_descriptor_address() {
    let w = SequenceWrite::New(Sequence { address: Address::Public(name(21)) });
    assert_eq!(w.dst_address(), name(21));
}
