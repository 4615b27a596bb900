//! Tests of the guest-side request-dispatch state machine.

use mjsc::guest::{GuestError, GuestState};

#[test]
fn lifecycle_reaches_serving() {
    let mut guest = GuestState::new();
    assert_eq!(Ok(()), guest.init());
    assert_eq!(Ok(()), guest.register(7));
    assert_eq!(Ok(7), guest.handle_request());
    assert_eq!(Ok(7), guest.handle_request());
}

#[test]
fn double_initialization_is_fatal() {
    let mut guest = GuestState::new();
    assert_eq!(Ok(()), guest.init());
    assert_eq!(Err(GuestError::AlreadyInitialized), guest.init());
}

#[test]
fn registration_requires_initialization() {
    let mut guest = GuestState::new();
    assert_eq!(Err(GuestError::NotInitialized), guest.register(1));
}

#[test]
fn double_registration_is_fatal_and_keeps_first_handler() {
    let mut guest = GuestState::new();
    guest.init().unwrap();
    guest.register(1).unwrap();
    assert_eq!(Err(GuestError::HandlerAlreadyRegistered), guest.register(2));
    assert_eq!(Ok(1), guest.handle_request());
}

#[test]
fn request_without_handler_is_fatal() {
    let mut guest = GuestState::new();
    guest.init().unwrap();
    assert_eq!(Err(GuestError::NoHandlerRegistered), guest.handle_request());
}

#[test]
fn guest_error_messages() {
    assert_eq!("Runtime already initialized", GuestError::AlreadyInitialized.message());
    assert_eq!("Runtime not initialized", GuestError::NotInitialized.message());
    assert_eq!("Handler already registered", GuestError::HandlerAlreadyRegistered.message());
    assert_eq!("No handler registered", GuestError::NoHandlerRegistered.message());
}
