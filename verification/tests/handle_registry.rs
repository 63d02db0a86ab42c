use tss_esapi::errors::{Error, WrapperErrorKind};
use tss_esapi::handle_manager::{HandleDisposition, HandleManager};

#[test]
fn new_registry_is_empty() {
    let m = HandleManager::new();
    assert!(!m.has_open_handles());
    assert_eq!(m.handles_to_flush(), Vec::<u32>::new());
    assert_eq!(m.handles_to_close(), Vec::<u32>::new());
}

#[test]
fn add_handle_registers_under_disposition() {
    let mut m = HandleManager::new();
    assert_eq!(m.add_handle(7, HandleDisposition::Flush), Ok(()));
    assert_eq!(m.add_handle(9, HandleDisposition::Close), Ok(()));
    assert!(m.has_open_handles());
    assert_eq!(m.handles_to_flush(), vec![7]);
    assert_eq!(m.handles_to_close(), vec![9]);
}

#[test]
fn add_handle_same_disposition_is_idempotent() {
    let mut m = HandleManager::new();
    assert_eq!(m.add_handle(7, HandleDisposition::Flush), Ok(()));
    assert_eq!(m.add_handle(7, HandleDisposition::Flush), Ok(()));
    assert_eq!(m.handles_to_flush(), vec![7]);
    assert_eq!(m.handles_to_close(), Vec::<u32>::new());
}

#[test]
fn add_handle_conflicting_disposition_fails_and_preserves_entry() {
    let mut m = HandleManager::new();
    assert_eq!(m.add_handle(7, HandleDisposition::Flush), Ok(()));
    assert_eq!(
        m.add_handle(7, HandleDisposition::Close),
        Err(Error::WrapperError(WrapperErrorKind::InconsistentParams))
    );
    assert_eq!(m.handles_to_flush(), vec![7]);
    assert_eq!(m.handles_to_close(), Vec::<u32>::new());
}

#[test]
fn remove_handle_deregisters() {
    let mut m = HandleManager::new();
    m.add_handle(7, HandleDisposition::Flush).unwrap();
    m.add_handle(9, HandleDisposition::Close).unwrap();
    m.remove_handle(7);
    assert_eq!(m.handles_to_flush(), Vec::<u32>::new());
    assert_eq!(m.handles_to_close(), vec![9]);
    assert!(m.has_open_handles());
    m.remove_handle(9);
    assert!(!m.has_open_handles());
}

#[test]
fn remove_handle_absent_is_a_no_op() {
    let mut m = HandleManager::new();
    m.add_handle(7, HandleDisposition::Flush).unwrap();
    m.remove_handle(42);
    m.remove_handle(7);
    m.remove_handle(7);
    assert!(!m.has_open_handles());
}

#[test]
fn release_lists_keep_registry_order() {
    let mut m = HandleManager::new();
    m.add_handle(5, HandleDisposition::Flush).unwrap();
    m.add_handle(6, HandleDisposition::Close).unwrap();
    m.add_handle(7, HandleDisposition::Flush).unwrap();
    m.add_handle(8, HandleDisposition::Close).unwrap();
    assert_eq!(m.handles_to_flush(), vec![5, 7]);
    assert_eq!(m.handles_to_close(), vec![6, 8]);
}
