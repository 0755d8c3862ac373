use core::time::Duration;
use destination::addr::{Addr, NameAddr, SocketAddr, Suffix};
use destination::backoff::ExponentialBackoff;
use destination::control;
use destination::default_resolve::Resolution;
use destination::default_profile::Profile;
use destination::discover::Step;
use destination::failure::{Failure, FailureKind, INVALID_ARGUMENT};
use destination::net::{IpAddr, IpNet, Ipv4Net};
use destination::profiles::initial_timeout_failure;
use destination::request_filter::RequestFilter;
use destination::permit::PermitConfiguredDsts;
use destination::resolve::Recovery;
use destination::{Config, Dst};
use indexmap::IndexSet;

const UNAVAILABLE: i32 = 14;

fn name(n: &str) -> Addr {
    Addr::Name(NameAddr { name: n.to_string(), port: 8080 })
}

fn suffixes(list: &[&str]) -> IndexSet<Suffix> {
    let mut set = IndexSet::new();
    for s in list {
        set.insert(Suffix::new(s.to_string()));
    }
    set
}

fn config() -> Config {
    let mut profile_networks = IndexSet::new();
    profile_networks.insert(IpNet::V4(Ipv4Net::new(u32::from_be_bytes([10, 0, 0, 0]), 8).unwrap()));
    Config {
        control: control::Config {
            addr: control::ControlAddr { addr: name("dst.linkerd.svc.cluster.local") },
            connect: control::ConnectConfig { backoff: ExponentialBackoff::new(100, 1000, 0).unwrap() },
        },
        context: "ns:test".to_string(),
        get_suffixes: suffixes(&["svc.cluster.local"]),
        get_networks: IndexSet::new(),
        profile_suffixes: suffixes(&["svc.cluster.local"]),
        profile_networks,
        initial_profile_timeout: Duration::from_millis(500),
    }
}

fn dst() -> Dst<u8> {
    let channel: Result<u8, String> = Ok(9);
    config().build(channel).unwrap()
}

fn status(code: i32) -> Failure {
    Failure::new(FailureKind::Status(code))
}

#[test]
fn build_hands_on_a_channel_failure() {
    let channel: Result<u8, String> = Err("no channel".to_string());
    let r = config().build(channel);
    assert_eq!(r.err(), Some("no channel".to_string()));
}

#[test]
fn build_wires_both_handles() {
    let d = dst();
    assert_eq!(d.addr.addr, name("dst.linkerd.svc.cluster.local"));
    let schedule = ExponentialBackoff::new(100, 1000, 0).unwrap();
    assert_eq!(d.resolve.inner.service.service, 9);
    assert_eq!(d.resolve.inner.service.context_token, "ns:test");
    assert_eq!(d.resolve.inner.service.recover.0, schedule);
    assert_eq!(d.profiles.inner.service.service, 9);
    assert_eq!(d.profiles.inner.service.context_token, "ns:test");
    assert_eq!(d.profiles.inner.service.recover.0, schedule);
    assert_eq!(d.profiles.inner.service.initial_timeout, Duration::from_millis(500));
}

#[test]
fn build_gives_each_handle_its_own_lists() {
    let d = dst();
    let ten = Addr::Socket(SocketAddr { ip: IpAddr::V4(u32::from_be_bytes([10, 1, 2, 3])), port: 80 });
    assert_eq!(d.resolve.start(&ten), Step::Default);
    assert_eq!(d.profiles.start(&ten), Step::Call);
    assert!(!d.resolve.inner.filter.permits(&ten));
    assert!(d.profiles.inner.filter.permits(&ten));
}

#[test]
fn permitted_name_is_discovered() {
    let d = dst();
    assert_eq!(d.resolve.start(&name("foo.svc.cluster.local")), Step::Call);
    assert_eq!(d.profiles.start(&name("foo.svc.cluster.local")), Step::Call);
}

#[test]
fn rejected_name_falls_back_without_a_call() {
    let d = dst();
    let a = name("foo.example.com");
    assert_eq!(d.resolve.start(&a), Step::Default);
    assert_eq!(d.profiles.start(&a), Step::Default);
    // the layers, one by one: the filter fails fast, the recovery absorbs it
    let rejected = d.resolve.inner.filter_request(name("foo.example.com"));
    assert_eq!(rejected, Err(Failure::new(FailureKind::Rejected)));
    let calls: Result<u32, Failure> = rejected.map(|_| panic!("no call is made"));
    assert_eq!(d.resolve.recover(name("foo.example.com"), calls), Ok(Resolution::Unresolved(a)));
}

#[test]
fn filter_hands_a_permitted_request_on_unchanged() {
    let f = RequestFilter::new(PermitConfiguredDsts::new(suffixes(&["test"]), IndexSet::new()), ());
    assert_eq!(f.filter_request(name("a.test")), Ok(name("a.test")));
}

#[test]
fn unavailable_three_times_then_success() {
    let d = dst();
    let mut state = Recovery::new();
    assert_eq!(d.resolve.start(&name("foo.svc.cluster.local")), Step::Call);
    assert_eq!(d.resolve.on_failure(&mut state, status(UNAVAILABLE), 0), Step::RetryAfter(100));
    assert_eq!(d.resolve.on_failure(&mut state, status(UNAVAILABLE), 0), Step::RetryAfter(200));
    assert_eq!(d.resolve.on_failure(&mut state, status(UNAVAILABLE), 0), Step::RetryAfter(400));
    assert_eq!(state.failures(), 3);
    assert_eq!(d.resolve.on_update(&mut state), Step::Yield);
    assert!(!state.is_recovering());
    let found: Result<u32, Failure> = Ok(4);
    assert_eq!(d.resolve.recover(name("foo.svc.cluster.local"), found), Ok(Resolution::Resolved(4)));
}

#[test]
fn invalid_argument_yields_the_default_profile() {
    let d = dst();
    let mut state = Recovery::new();
    assert_eq!(d.profiles.start(&name("foo.svc.cluster.local")), Step::Call);
    assert_eq!(d.profiles.on_failure(&mut state, status(INVALID_ARGUMENT), 0), Step::Default);
    assert!(!state.is_recovering());
    let declined: Result<u32, Failure> = Err(status(INVALID_ARGUMENT));
    assert_eq!(d.profiles.recover(declined), Ok(Profile::Default));
}

#[test]
fn invalid_argument_yields_the_unresolved_default() {
    let d = dst();
    let mut state = Recovery::new();
    assert_eq!(d.resolve.on_failure(&mut state, status(UNAVAILABLE), 0), Step::RetryAfter(100));
    let wrapped = Failure::caused_by(FailureKind::Other, status(INVALID_ARGUMENT));
    assert_eq!(d.resolve.on_failure(&mut state, wrapped, 0), Step::Default);
    assert_eq!(state.failures(), 1);
}

#[test]
fn no_failure_ever_surfaces() {
    let d = dst();
    let kinds = [
        FailureKind::Rejected,
        FailureKind::Status(INVALID_ARGUMENT),
        FailureKind::Status(UNAVAILABLE),
        FailureKind::Status(13),
        FailureKind::Timeout,
        FailureKind::Other,
    ];
    for outer in kinds {
        for inner in kinds {
            let mut state = Recovery::new();
            let f = Failure::caused_by(outer, Failure::new(inner));
            let invalid = f.has_invalid_argument();
            let step = d.resolve.on_failure(&mut state, f, 12345);
            if invalid {
                assert_eq!(step, Step::Default);
            } else {
                assert_eq!(step, Step::RetryAfter(100));
            }
        }
    }
}

#[test]
fn first_profile_has_a_time_limit() {
    let d = dst();
    assert_eq!(d.profiles.timeout(false), Some(Duration::from_millis(500)));
    assert_eq!(d.profiles.timeout(true), None);
}

#[test]
fn late_first_profile_counts_as_a_transient_failure() {
    let f = initial_timeout_failure();
    assert_eq!(f, Failure::new(FailureKind::Timeout));
    assert!(!f.has_invalid_argument());
    let d = dst();
    let mut state = Recovery::new();
    assert_eq!(d.profiles.on_timeout(&mut state, 0), Step::RetryAfter(100));
    assert_eq!(d.profiles.on_timeout(&mut state, 0), Step::RetryAfter(200));
    assert_eq!(d.profiles.on_failure(&mut state, status(UNAVAILABLE), 0), Step::RetryAfter(400));
    assert_eq!(d.profiles.on_timeout(&mut state, 0), Step::RetryAfter(800));
    assert_eq!(d.profiles.on_update(&mut state), Step::Yield);
    assert_eq!(d.profiles.on_timeout(&mut state, 0), Step::RetryAfter(100));
}
