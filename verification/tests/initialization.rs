use accord::{Error, GlobalInitGuard};

#[test]
fn global_init_runs_once() {
    let mut guard = GlobalInitGuard::new();
    assert_eq!(guard.try_init(), Ok(()));
}

#[test]
fn double_global_init_is_refused() {
    let mut guard = GlobalInitGuard::new();
    assert_eq!(guard.try_init(), Ok(()));
    assert_eq!(guard.try_init(), Err(Error::DoubleInit));
    // The first initialization stays intact: refusing again, not resetting.
    assert_eq!(guard.try_init(), Err(Error::DoubleInit));
}
