use std::ops::ControlFlow;

use try_more::BoolFlow;

fn guard_break(condition: bool) -> ControlFlow<()> {
    BoolFlow::break_(condition)?;
    ControlFlow::Continue(())
}

fn guard_break_with(condition: bool) -> ControlFlow<bool> {
    condition.break_with(true)?;
    ControlFlow::Break(false)
}

fn guard_break_lazy(condition: bool) -> ControlFlow<bool> {
    condition.break_lazy(|| true)?;
    ControlFlow::Break(false)
}

fn should_continue(condition: bool, continued: &mut bool) -> ControlFlow<()> {
    BoolFlow::continue_(condition)?;
    *continued = true;
    ControlFlow::Break(())
}

fn guard_continue_or(condition: bool) -> ControlFlow<bool> {
    condition.continue_or(true)?;
    ControlFlow::Break(false)
}

fn guard_continue_or_else(condition: bool) -> ControlFlow<bool> {
    condition.continue_or_else(|| true)?;
    ControlFlow::Break(false)
}

#[test]
fn break_works() {
    assert_eq!(guard_break(true), ControlFlow::Break(()));
    assert_eq!(guard_break_with(true), ControlFlow::Break(true));
    assert_eq!(guard_break_lazy(true), ControlFlow::Break(true));

    assert_eq!(guard_break(false), ControlFlow::Continue(()));
    assert_eq!(guard_break_with(false), ControlFlow::Break(false));
    assert_eq!(guard_break_lazy(false), ControlFlow::Break(false));
}

#[test]
fn continue_works() {
    {
        let mut continued = false;
        let _ = should_continue(true, &mut continued);
        assert!(continued);
    }
    assert_eq!(guard_continue_or(true), ControlFlow::Break(false));
    assert_eq!(guard_continue_or_else(true), ControlFlow::Break(false));

    {
        let mut continued = false;
        let _ = should_continue(false, &mut continued);
        assert!(!continued);
    }
    assert_eq!(guard_continue_or(false), ControlFlow::Break(true));
    assert_eq!(guard_continue_or_else(false), ControlFlow::Break(true));
}
