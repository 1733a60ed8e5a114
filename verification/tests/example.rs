use trace::demo;
use trace::{BarError, FileNotFound, Location, PermissionDenied, ReturnTrace, Trace};

fn listed(t: &ReturnTrace) -> Vec<Location> {
    (0..t.len()).map(|i| t.get(i).unwrap()).collect()
}

fn at(line: u32, column: u32) -> Location {
    Location::new("src/demo.rs", line, column)
}

fn bang1_site() -> Location {
    at(demo::BANG1_LINE, demo::BANG1_COLUMN)
}

fn bang2_site() -> Location {
    at(demo::BANG2_LINE, demo::BANG2_COLUMN)
}

#[test]
fn messages_describe_the_errors() {
    assert_eq!(FileNotFound.message(), "File not found");
    assert_eq!(PermissionDenied.message(), "Permission denied");
    assert_eq!(BarError::FileNotFound(FileNotFound).message(), "File not found");
    assert_eq!(BarError::PermissionDenied(PermissionDenied).message(), "Permission denied");
}

#[test]
fn narrower_errors_widen_into_their_own_variant() {
    assert_eq!(BarError::from(FileNotFound), BarError::FileNotFound(FileNotFound));
    assert_eq!(BarError::from(PermissionDenied), BarError::PermissionDenied(PermissionDenied));
    let widened: BarError = FileNotFound.into();
    assert_ne!(widened, BarError::PermissionDenied(PermissionDenied));
}

#[test]
fn bang1_raises_file_not_found_at_its_site() {
    match demo::bang1() {
        Trace::Success(()) => panic!("expected a failure"),
        Trace::Failure(e, t) => {
            assert_eq!(e, FileNotFound);
            assert_eq!(listed(&t), vec![bang1_site()]);
        }
    }
}

#[test]
fn bang2_raises_permission_denied_at_its_site() {
    match demo::bang2() {
        Trace::Success(()) => panic!("expected a failure"),
        Trace::Failure(e, t) => {
            assert_eq!(e, PermissionDenied);
            assert_eq!(listed(&t), vec![bang2_site()]);
        }
    }
}

#[test]
fn baz_quux_and_hello_add_their_own_site() {
    match demo::baz() {
        Trace::Success(()) => panic!("expected a failure"),
        Trace::Failure(_, t) => {
            assert_eq!(listed(&t), vec![bang1_site(), at(demo::BAZ_LINE, demo::BAZ_COLUMN)])
        }
    }
    match demo::quux() {
        Trace::Success(()) => panic!("expected a failure"),
        Trace::Failure(_, t) => {
            assert_eq!(listed(&t), vec![bang2_site(), at(demo::QUUX_LINE, demo::QUUX_COLUMN)])
        }
    }
    match demo::hello() {
        Trace::Success(()) => panic!("expected a failure"),
        Trace::Failure(_, t) => {
            assert_eq!(listed(&t), vec![bang2_site(), at(demo::HELLO_LINE, demo::HELLO_COLUMN)])
        }
    }
}

#[test]
fn bar_reports_the_fallback_with_its_cause_in_front() {
    match demo::bar() {
        Trace::Success(()) => panic!("expected a failure"),
        Trace::Failure(e, t) => {
            assert_eq!(e, BarError::PermissionDenied(PermissionDenied));
            assert_eq!(
                listed(&t),
                vec![
                    bang1_site(),
                    at(demo::BAZ_LINE, demo::BAZ_COLUMN),
                    bang2_site(),
                    at(demo::HELLO_LINE, demo::HELLO_COLUMN),
                    at(demo::BAR_HELLO_LINE, demo::BAR_HELLO_COLUMN),
                ]
            );
        }
    }
}

#[test]
fn foo_of_twelve_goes_through_bar() {
    match demo::foo(12) {
        Trace::Success(()) => panic!("expected a failure"),
        Trace::Failure(e, t) => {
            assert_eq!(e, BarError::PermissionDenied(PermissionDenied));
            assert_eq!(t.len(), 6);
            assert_eq!(t.get(5), Some(at(demo::FOO_BAR_LINE, demo::FOO_BAR_COLUMN)));
            assert_eq!(t.get(0), Some(bang1_site()));
        }
    }
}

#[test]
fn foo_turns_at_five() {
    for x in [5, 6, i32::MAX] {
        match demo::foo(x) {
            Trace::Success(()) => panic!("expected a failure"),
            Trace::Failure(_, t) => assert_eq!(t.len(), 6),
        }
    }
    for x in [4, 0, -1, i32::MIN] {
        match demo::foo(x) {
            Trace::Success(()) => panic!("expected a failure"),
            Trace::Failure(e, t) => {
                assert_eq!(e, BarError::PermissionDenied(PermissionDenied));
                assert_eq!(
                    listed(&t),
                    vec![bang2_site(), at(demo::FOO_BANG2_LINE, demo::FOO_BANG2_COLUMN)]
                );
            }
        }
    }
}

#[test]
fn sites_are_distinct() {
    let sites = [
        bang1_site(),
        bang2_site(),
        at(demo::BAZ_LINE, demo::BAZ_COLUMN),
        at(demo::QUUX_LINE, demo::QUUX_COLUMN),
        at(demo::HELLO_LINE, demo::HELLO_COLUMN),
        at(demo::BAR_QUUX_LINE, demo::BAR_QUUX_COLUMN),
        at(demo::BAR_HELLO_LINE, demo::BAR_HELLO_COLUMN),
        at(demo::FOO_BAR_LINE, demo::FOO_BAR_COLUMN),
        at(demo::FOO_BANG2_LINE, demo::FOO_BANG2_COLUMN),
    ];
    for i in 0..sites.len() {
        for j in 0..sites.len() {
            assert_eq!(i == j, sites[i] == sites[j]);
        }
    }
}
