use backend_supervisor::registry::{
    session_config, AccessError, ProcessSlot, SessionDescriptor, SessionSlot,
};

fn sample_credential() -> String {
    "abc0123456789def".repeat(4)
}

fn sample_descriptor() -> SessionDescriptor {
    SessionDescriptor { base_url: "http://127.0.0.1:8765".to_string(), token: sample_credential() }
}

#[test]
fn get_session_before_publish_is_not_initialized() {
    let slot = SessionSlot::new();
    assert_eq!(slot.get_session().err(), Some(AccessError::NotInitialized));
    assert_eq!(slot.get_session().err(), Some(AccessError::NotInitialized));
}

#[test]
fn get_session_returns_the_published_descriptor() {
    let mut slot = SessionSlot::new();
    slot.publish_session(sample_descriptor());
    let got = slot.get_session().expect("a descriptor was published");
    assert_eq!(sample_credential().len(), 64);
    assert_eq!(got.base_url, "http://127.0.0.1:8765");
    assert_eq!(got.token, sample_credential());
    let again = slot.get_session().expect("reading does not empty the slot");
    assert_eq!(again.base_url, got.base_url);
    assert_eq!(again.token, got.token);
}

#[test]
fn get_session_returns_the_descriptor_published_last() {
    let mut slot = SessionSlot::new();
    slot.publish_session(sample_descriptor());
    slot.publish_session(SessionDescriptor {
        base_url: "http://127.0.0.1:9000".to_string(),
        token: "f".repeat(64),
    });
    let got = slot.get_session().expect("a descriptor was published");
    assert_eq!(got.base_url, "http://127.0.0.1:9000");
    assert_eq!(got.token, "f".repeat(64));
}

#[test]
fn descriptor_clone_is_equal_in_all_fields() {
    let descriptor = sample_descriptor();
    let copy = descriptor.clone();
    assert_eq!(copy.base_url, descriptor.base_url);
    assert_eq!(copy.token, descriptor.token);
}

#[test]
fn session_config_under_a_lock() {
    let mut slot = SessionSlot::new();
    assert_eq!(session_config(Some(&slot)).err(), Some(AccessError::NotInitialized));
    slot.publish_session(sample_descriptor());
    let got = session_config(Some(&slot)).expect("a descriptor was published");
    assert_eq!(got.base_url, "http://127.0.0.1:8765");
    assert_eq!(got.token, sample_credential());
}

#[test]
fn session_config_without_the_lock() {
    assert_eq!(session_config(None).err(), Some(AccessError::LockUnavailable));
}

#[test]
fn access_error_messages() {
    assert_eq!(AccessError::LockUnavailable.message(), "Session lock failed");
    assert_eq!(AccessError::NotInitialized.message(), "Session has not been initialized");
}

#[test]
fn take_process_on_an_empty_slot() {
    let mut slot: ProcessSlot<u32> = ProcessSlot::new();
    assert_eq!(slot.take_process(), None);
}

#[test]
fn take_process_returns_the_handle_exactly_once() {
    let mut slot: ProcessSlot<u32> = ProcessSlot::new();
    slot.publish_process(4242);
    assert_eq!(slot.take_process(), Some(4242));
    assert_eq!(slot.take_process(), None);
    assert_eq!(slot.take_process(), None);
}

#[test]
fn publish_process_overwrites() {
    let mut slot: ProcessSlot<String> = ProcessSlot::new();
    slot.publish_process("first".to_string());
    slot.publish_process("second".to_string());
    assert_eq!(slot.take_process(), Some("second".to_string()));
    assert_eq!(slot.take_process(), None);
}

#[test]
fn take_process_after_a_new_publish() {
    let mut slot: ProcessSlot<u32> = ProcessSlot::new();
    slot.publish_process(1);
    assert_eq!(slot.take_process(), Some(1));
    slot.publish_process(2);
    assert_eq!(slot.take_process(), Some(2));
    assert_eq!(slot.take_process(), None);
}
