use tss_esapi::context::{Context, LifecycleState};
use tss_esapi::handle_manager::HandleDisposition;

#[test]
fn teardown_flushes_and_closes_every_registered_handle() {
    let mut ctx = Context::new(1);
    ctx.handle_manager.add_handle(7, HandleDisposition::Flush).unwrap();
    ctx.handle_manager.add_handle(9, HandleDisposition::Close).unwrap();

    let (to_flush, to_close) = ctx.begin_teardown();
    assert_eq!(to_flush, vec![7]);
    assert_eq!(to_close, vec![9]);

    for h in to_flush {
        ctx.record_released_handle(h);
    }
    for h in to_close {
        ctx.record_released_handle(h);
    }
    let leaked = ctx.finish_teardown();
    assert!(!leaked);
    assert!(!ctx.handle_manager.has_open_handles());
    assert_eq!(ctx.state, LifecycleState::Closed);
}

#[test]
fn sweep_attempts_one_release_call_per_handle() {
    let mut ctx = Context::new(1);
    for h in 0..5u32 {
        ctx.handle_manager.add_handle(h, HandleDisposition::Flush).unwrap();
    }
    for h in 5..8u32 {
        ctx.handle_manager.add_handle(h, HandleDisposition::Close).unwrap();
    }
    let (to_flush, to_close) = ctx.begin_teardown();
    assert_eq!(to_flush.len(), 5);
    assert_eq!(to_close.len(), 3);
    assert_eq!(to_flush.len() + to_close.len(), 8);
}

#[test]
fn failed_release_calls_leave_a_leak_signal() {
    let mut ctx = Context::new(1);
    ctx.handle_manager.add_handle(7, HandleDisposition::Flush).unwrap();
    ctx.handle_manager.add_handle(9, HandleDisposition::Close).unwrap();

    let (to_flush, _to_close) = ctx.begin_teardown();
    // Only the flush succeeds; the close's failure is not recorded.
    for h in to_flush {
        ctx.record_released_handle(h);
    }
    let leaked = ctx.finish_teardown();
    assert!(leaked);
    assert!(ctx.handle_manager.has_open_handles());
    assert_eq!(ctx.handle_manager.handles_to_close(), vec![9]);
}

#[test]
fn empty_registry_tears_down_without_leak() {
    let mut ctx = Context::new(1);
    let (to_flush, to_close) = ctx.begin_teardown();
    assert!(to_flush.is_empty());
    assert!(to_close.is_empty());
    assert!(!ctx.finish_teardown());
}
