use destination::addr::{Addr, NameAddr};
use destination::default_profile;
use destination::default_profile::Profile;
use destination::default_resolve;
use destination::default_resolve::Resolution;
use destination::failure::{Failure, FailureKind, Rejected, INVALID_ARGUMENT};

fn addr() -> Addr {
    Addr::Name(NameAddr { name: "foo.example.com".to_string(), port: 80 })
}

fn wrapped(kind: FailureKind) -> Failure {
    Failure::caused_by(FailureKind::Other, Failure::caused_by(FailureKind::Other, Failure::new(kind)))
}

#[test]
fn resolve_passes_success_through() {
    let layer = default_resolve::layer(());
    assert_eq!(layer.recover(addr(), Ok(41u32)), Ok(Resolution::Resolved(41u32)));
}

#[test]
fn resolve_rejection_becomes_unresolved() {
    let layer = default_resolve::layer(());
    let r: Result<u32, Failure> = Err(Rejected.into_failure());
    assert_eq!(layer.recover(addr(), r), Ok(Resolution::Unresolved(addr())));
    let r: Result<u32, Failure> = Err(Failure::new(FailureKind::Status(INVALID_ARGUMENT)));
    assert_eq!(layer.recover(addr(), r), Ok(Resolution::Unresolved(addr())));
    let r: Result<u32, Failure> = Err(wrapped(FailureKind::Rejected));
    assert_eq!(layer.recover(addr(), r), Ok(Resolution::Unresolved(addr())));
    let r: Result<u32, Failure> = Err(wrapped(FailureKind::Status(INVALID_ARGUMENT)));
    assert_eq!(layer.recover(addr(), r), Ok(Resolution::Unresolved(addr())));
}

#[test]
fn resolve_other_failure_is_handed_on() {
    let layer = default_resolve::layer(());
    for kind in [FailureKind::Other, FailureKind::Timeout, FailureKind::Status(14), FailureKind::Status(13)] {
        let r: Result<u32, Failure> = Err(wrapped(kind));
        assert_eq!(layer.recover(addr(), r), Err(wrapped(kind)));
    }
}

#[test]
fn profile_passes_success_through() {
    let layer = default_profile::layer(());
    assert_eq!(layer.recover(Ok("routes")), Ok(Profile::Discovered("routes")));
}

#[test]
fn profile_rejection_becomes_default() {
    let layer = default_profile::layer(());
    let r: Result<u32, Failure> = Err(Rejected.into_failure());
    assert_eq!(layer.recover(r), Ok(Profile::Default));
    let r: Result<u32, Failure> = Err(wrapped(FailureKind::Status(INVALID_ARGUMENT)));
    assert_eq!(layer.recover(r), Ok(Profile::Default));
}

#[test]
fn profile_other_failure_is_handed_on() {
    let layer = default_profile::layer(());
    for kind in [FailureKind::Other, FailureKind::Timeout, FailureKind::Status(14)] {
        let r: Result<u32, Failure> = Err(wrapped(kind));
        assert_eq!(layer.recover(r), Err(wrapped(kind)));
    }
}

#[test]
fn layers_keep_what_they_wrap() {
    assert_eq!(default_resolve::layer(5u8).inner, 5u8);
    assert_eq!(default_profile::layer(6u8).inner, 6u8);
}
