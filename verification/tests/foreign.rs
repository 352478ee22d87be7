use wispers_connect::errors::{StorageError, WispersStatus};
use wispers_connect::foreign::{
    check_callbacks, delete_outcome, registration_load_step, root_key_load_outcome, save_outcome,
    CallbackSet, RegistrationLoadStep, RegistrationLoader, INITIAL_REGISTRATION_BUFFER,
};

fn all_present() -> CallbackSet {
    CallbackSet {
        load_root_key: true,
        save_root_key: true,
        delete_root_key: true,
        load_registration: true,
        save_registration: true,
        delete_registration: true,
    }
}

#[test]
fn complete_callback_set_is_accepted() {
    assert!(check_callbacks(&all_present()).is_ok());
}

#[test]
fn first_missing_callback_is_named() {
    let mut c = all_present();
    c.save_registration = false;
    c.delete_registration = false;
    match check_callbacks(&c) {
        Err(StorageError::MissingCallback(name)) => assert_eq!(name, "save_registration"),
        other => panic!("unexpected {other:?}"),
    }
    let mut c = all_present();
    c.load_root_key = false;
    c.delete_root_key = false;
    match check_callbacks(&c) {
        Err(StorageError::MissingCallback(name)) => assert_eq!(name, "load_root_key"),
        other => panic!("unexpected {other:?}"),
    }
}

#[test]
fn root_key_statuses() {
    assert!(matches!(root_key_load_outcome(WispersStatus::Success), Ok(true)));
    assert!(matches!(root_key_load_outcome(WispersStatus::NotFound), Ok(false)));
    assert!(matches!(
        root_key_load_outcome(WispersStatus::StoreError),
        Err(StorageError::ForeignStatus(WispersStatus::StoreError))
    ));
}

#[test]
fn save_and_delete_statuses() {
    assert!(save_outcome(WispersStatus::Success).is_ok());
    assert!(matches!(
        save_outcome(WispersStatus::NotFound),
        Err(StorageError::ForeignStatus(WispersStatus::NotFound))
    ));
    assert!(delete_outcome(WispersStatus::Success).is_ok());
    assert!(delete_outcome(WispersStatus::NotFound).is_ok());
    assert!(matches!(
        delete_outcome(WispersStatus::Timeout),
        Err(StorageError::ForeignStatus(WispersStatus::Timeout))
    ));
}

#[test]
fn registration_load_steps() {
    assert_eq!(INITIAL_REGISTRATION_BUFFER, 256);
    assert!(matches!(registration_load_step(WispersStatus::Success, 42), RegistrationLoadStep::Decode(42)));
    assert!(matches!(registration_load_step(WispersStatus::NotFound, 0), RegistrationLoadStep::Missing));
    assert!(matches!(
        registration_load_step(WispersStatus::BufferTooSmall, 512),
        RegistrationLoadStep::Grow(512)
    ));
    assert!(matches!(
        registration_load_step(WispersStatus::BufferTooSmall, 0),
        RegistrationLoadStep::Fail(StorageError::ForeignStatus(WispersStatus::BufferTooSmall))
    ));
    assert!(matches!(
        registration_load_step(WispersStatus::NullPointer, 7),
        RegistrationLoadStep::Fail(StorageError::ForeignStatus(WispersStatus::NullPointer))
    ));
}

#[test]
fn loader_starts_at_256_bytes_and_grows_on_request() {
    let mut loader = RegistrationLoader::new();
    assert_eq!(loader.buffer_len, 256);
    assert!(matches!(loader.next(WispersStatus::BufferTooSmall, 1000), RegistrationLoadStep::Grow(1000)));
    assert_eq!(loader.buffer_len, 1000);
    assert!(matches!(loader.next(WispersStatus::Success, 900), RegistrationLoadStep::Decode(900)));
    assert_eq!(loader.buffer_len, 1000);
    let mut loader = RegistrationLoader::new();
    assert!(matches!(
        loader.next(WispersStatus::BufferTooSmall, 0),
        RegistrationLoadStep::Fail(StorageError::ForeignStatus(WispersStatus::BufferTooSmall))
    ));
    assert_eq!(loader.buffer_len, 256);
}
