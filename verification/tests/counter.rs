use guarded_counter::{AccessControl, AccountId, Counter, Error, Method, Role};

struct World {
    acl: AccessControl,
    counter: Counter,
    system: AccountId,
}

fn world() -> World {
    let system = AccountId::new("counter.near");
    let mut acl = AccessControl::new();
    let counter = Counter::new(&mut acl, system.clone()).expect("first construction succeeds");
    World { acl, counter, system }
}

fn denied(method: Method) -> Result<(), Error> {
    Err(Error::PermissionDenied { method })
}

#[test]
fn construction_starts_at_zero_and_bootstraps_the_system() {
    let w = world();
    assert_eq!(w.counter.value(), 0);
    assert!(w.acl.is_super_admin(&w.system));
    assert_eq!(w.acl.super_admin(), Some(w.system.clone()));
    assert!(w.acl.grantees(Role::Decrementer).is_empty());
    assert!(w.acl.grantees(Role::Resetter).is_empty());
}

#[test]
fn construction_fails_where_a_super_admin_exists() {
    let mut w = world();
    let second = AccountId::new("second.near");
    let made = Counter::new(&mut w.acl, second.clone());
    match made {
        Err(err) => {
            assert_eq!(err, Error::SuperAdminInitFailed);
            assert_eq!(err.message(), "Failed to initialize super admin");
        }
        Ok(_) => panic!("a second construction should fail"),
    }
    assert!(!w.acl.is_super_admin(&second));
    assert!(w.acl.is_super_admin(&w.system));
}

#[test]
fn increment_is_open_to_everyone() {
    let mut w = world();
    // Nobody is asked who calls: the value goes up by one each time.
    w.counter.increment();
    assert_eq!(w.counter.value(), 1);
    w.counter.increment();
    w.counter.increment();
    assert_eq!(w.counter.value(), 3);
}

#[test]
fn increment_reaches_the_largest_value() {
    let mut counter = Counter::from_value(i64::MAX - 1);
    counter.increment();
    assert_eq!(counter.value(), i64::MAX);
}

#[test]
fn from_value_takes_the_value_up() {
    assert_eq!(Counter::from_value(0).value(), 0);
    assert_eq!(Counter::from_value(-17).value(), -17);
    assert_eq!(Counter::from_value(i64::MIN).value(), i64::MIN);
}

#[test]
fn decrement_is_denied_without_the_role() {
    let mut w = world();
    let stranger = AccountId::new("stranger.near");
    let resetter = AccountId::new("resetter.near");
    assert_eq!(w.acl.grant_role(&w.system, &resetter, Role::Resetter), Some(true));
    w.counter.increment();
    w.counter.increment();

    assert_eq!(w.counter.decrement(&w.acl, &stranger), denied(Method::Decrement));
    assert_eq!(w.counter.value(), 2);
    // Another role does not help, nor does being super admin.
    assert_eq!(w.counter.decrement(&w.acl, &resetter), denied(Method::Decrement));
    assert_eq!(w.counter.decrement(&w.acl, &w.system), denied(Method::Decrement));
    assert_eq!(w.counter.value(), 2);
}

#[test]
fn decrement_takes_one_off() {
    let mut w = world();
    let dec = AccountId::new("dec.near");
    assert_eq!(w.acl.grant_role(&w.system, &dec, Role::Decrementer), Some(true));
    w.counter.increment();
    assert_eq!(w.counter.decrement(&w.acl, &dec), Ok(()));
    assert_eq!(w.counter.value(), 0);
    assert_eq!(w.counter.decrement(&w.acl, &dec), Ok(()));
    assert_eq!(w.counter.value(), -1);
}

#[test]
fn decrement_reaches_the_smallest_value() {
    let w = world();
    let mut acl = w.acl;
    let dec = AccountId::new("dec.near");
    assert_eq!(acl.grant_role(&w.system, &dec, Role::Decrementer), Some(true));
    let mut counter = Counter::from_value(i64::MIN + 1);
    assert_eq!(counter.decrement(&acl, &dec), Ok(()));
    assert_eq!(counter.value(), i64::MIN);
    // Without the role nothing is subtracted, so the smallest value is no obstacle.
    let stranger = AccountId::new("stranger.near");
    assert_eq!(counter.decrement(&acl, &stranger), denied(Method::Decrement));
    assert_eq!(counter.value(), i64::MIN);
}

#[test]
fn decrement_follows_grant_and_revoke() {
    let mut w = world();
    let dec = AccountId::new("dec.near");
    w.counter.increment();
    w.counter.increment();
    assert_eq!(w.counter.decrement(&w.acl, &dec), denied(Method::Decrement));
    assert_eq!(w.acl.grant_role(&w.system, &dec, Role::Decrementer), Some(true));
    assert_eq!(w.counter.decrement(&w.acl, &dec), Ok(()));
    assert_eq!(w.counter.value(), 1);
    assert_eq!(w.acl.revoke_role(&w.system, &dec, Role::Decrementer), Some(true));
    assert_eq!(w.counter.decrement(&w.acl, &dec), denied(Method::Decrement));
    assert_eq!(w.counter.value(), 1);
}

#[test]
fn reset_is_denied_without_the_role() {
    let mut w = world();
    let stranger = AccountId::new("stranger.near");
    let dec = AccountId::new("dec.near");
    assert_eq!(w.acl.grant_role(&w.system, &dec, Role::Decrementer), Some(true));
    w.counter.increment();
    assert_eq!(w.counter.reset(&w.acl, &stranger), denied(Method::Reset));
    assert_eq!(w.counter.reset(&w.acl, &dec), denied(Method::Reset));
    assert_eq!(w.counter.reset(&w.acl, &w.system), denied(Method::Reset));
    assert_eq!(w.counter.value(), 1);
}

#[test]
fn reset_goes_back_to_zero() {
    let mut w = world();
    let res = AccountId::new("res.near");
    assert_eq!(w.acl.grant_role(&w.system, &res, Role::Resetter), Some(true));
    w.counter.increment();
    w.counter.increment();
    w.counter.increment();
    assert_eq!(w.counter.reset(&w.acl, &res), Ok(()));
    assert_eq!(w.counter.value(), 0);
    assert_eq!(w.counter.reset(&w.acl, &res), Ok(()));
    assert_eq!(w.counter.value(), 0);

    let mut low = Counter::from_value(-5);
    assert_eq!(low.reset(&w.acl, &res), Ok(()));
    assert_eq!(low.value(), 0);
}

#[test]
fn no_op_is_open_to_either_role() {
    let mut w = world();
    let dec = AccountId::new("dec.near");
    let res = AccountId::new("res.near");
    let stranger = AccountId::new("stranger.near");
    assert_eq!(w.acl.grant_role(&w.system, &dec, Role::Decrementer), Some(true));
    assert_eq!(w.acl.grant_role(&w.system, &res, Role::Resetter), Some(true));
    w.counter.increment();

    assert_eq!(w.counter.no_op(&w.acl, &dec), Ok(()));
    assert_eq!(w.counter.no_op(&w.acl, &res), Ok(()));
    assert_eq!(w.counter.no_op(&w.acl, &stranger), denied(Method::NoOp));
    assert_eq!(w.counter.no_op(&w.acl, &w.system), denied(Method::NoOp));
    assert_eq!(w.counter.value(), 1);
}

#[test]
fn authorize_asks_for_the_roles_of_the_method() {
    let mut w = world();
    let dec = AccountId::new("dec.near");
    assert_eq!(w.acl.grant_role(&w.system, &dec, Role::Decrementer), Some(true));
    assert_eq!(Counter::authorize(&w.acl, &dec, Method::Decrement), Ok(()));
    assert_eq!(Counter::authorize(&w.acl, &dec, Method::Reset), denied(Method::Reset));
    assert_eq!(Counter::authorize(&w.acl, &dec, Method::NoOp), Ok(()));
    assert_eq!(
        Counter::authorize(&w.acl, &w.system, Method::Decrement),
        denied(Method::Decrement)
    );
}

#[test]
fn methods_declare_their_roles() {
    assert_eq!(Method::Decrement.roles(), vec![Role::Decrementer]);
    assert_eq!(Method::Reset.roles(), vec![Role::Resetter]);
    assert_eq!(Method::NoOp.roles(), vec![Role::Decrementer, Role::Resetter]);
}

#[test]
fn denial_names_the_method_and_the_roles() {
    assert_eq!(
        Error::PermissionDenied { method: Method::Decrement }.message(),
        "Insufficient permissions for method decrement restricted by access control. Requires one of these roles: [\"Decrementer\"]"
    );
    assert_eq!(
        Error::PermissionDenied { method: Method::Reset }.message(),
        "Insufficient permissions for method reset restricted by access control. Requires one of these roles: [\"Resetter\"]"
    );
    assert_eq!(
        Error::PermissionDenied { method: Method::NoOp }.message(),
        "Insufficient permissions for method no_op restricted by access control. Requires one of these roles: [\"Decrementer\", \"Resetter\"]"
    );
    assert_eq!(Error::SuperAdminInitFailed.message(), "Failed to initialize super admin");
}
