use hdf5_rs::silence::{silence_errors, Handler};

#[test]
fn scope_installs_silence_and_restores_what_was_there() {
    let installed = Handler::Installed { routine: 0xbeef, data: 0x10 };
    let (scope, now) = silence_errors(installed);
    assert_eq!(now, Handler::Silent);
    assert_eq!(scope.saved(), installed);
    assert_eq!(scope.close(), installed);
}

#[test]
fn scope_over_silence_restores_silence() {
    let (scope, now) = silence_errors(Handler::Silent);
    assert_eq!(now, Handler::Silent);
    assert_eq!(scope.close(), Handler::Silent);
}

#[test]
fn nested_scopes_restore_in_turn() {
    let installed = Handler::Installed { routine: 1, data: 2 };
    let mut current = installed;
    let (outer, now) = silence_errors(current);
    current = now;
    let (middle, now) = silence_errors(current);
    current = now;
    let (inner, now) = silence_errors(current);
    current = now;
    assert_eq!(current, Handler::Silent);
    current = inner.close();
    assert_eq!(current, Handler::Silent);
    current = middle.close();
    assert_eq!(current, Handler::Silent);
    current = outer.close();
    assert_eq!(current, installed);
}

#[test]
fn scope_restores_after_failure_inside() {
    let installed = Handler::Installed { routine: 3, data: 4 };
    let (scope, _) = silence_errors(installed);
    let work: Result<(), &str> = Err("the call inside failed");
    assert!(work.is_err());
    assert_eq!(scope.close(), installed);
}
