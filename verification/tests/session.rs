use easy_steamworks::{
    FileType, MaybeAPICall, MaybeRaw, Pipe, RemoteStorage, Steam, User, Utils, Visibility,
    CLIENT_VERSION, REMOTE_STORAGE_VERSION, UTILS_VERSION,
};
use std::marker::PhantomData;

#[test]
fn failed_init_ends_the_attempt() {
    let mut steam = Steam {};
    assert!(steam.new_client(false).is_none());
}

#[test]
fn missing_root_interface_ends_the_attempt() {
    let mut steam = Steam {};
    let lookup = steam.new_client(true).unwrap();
    assert!(lookup.found(MaybeRaw::from(0)).is_none());
}

#[test]
fn missing_registry_accessor_ends_the_attempt() {
    let mut steam = Steam {};
    let lookup = steam.new_client(true).unwrap();
    let lookup = lookup.found(MaybeRaw::from(0x1000)).unwrap();
    assert_eq!(lookup.client().address(), 0x1000);
    assert!(lookup.found(MaybeRaw::from(0)).is_none());
}

#[test]
fn three_good_answers_make_a_session() {
    let mut steam = Steam {};
    let lookup = steam.new_client(true).unwrap();
    assert_eq!(lookup.version(), "SteamClient017");
    let lookup = lookup.found(MaybeRaw::from(0x1000)).unwrap();
    assert_eq!(lookup.version(), "SteamUtils009");
    let client = lookup.found(MaybeRaw::from(0x2000)).unwrap();
    assert_eq!(client.raw().address(), 0x1000);
    assert_eq!(client.utils().raw().address(), 0x2000);
    let utils = Utils::new(&client).unwrap();
    assert_eq!(utils.raw().address(), 0x2000);
}

#[test]
fn interface_names() {
    assert_eq!(CLIENT_VERSION, "SteamClient017");
    assert_eq!(UTILS_VERSION, "SteamUtils009");
    assert_eq!(REMOTE_STORAGE_VERSION, "STEAMREMOTESTORAGE_INTERFACE_VERSION014");
}

#[test]
fn user_and_pipe_compare_by_number() {
    assert_eq!(User(3, PhantomData), User(3, PhantomData));
    assert_ne!(User(3, PhantomData), User(4, PhantomData));
    assert_eq!(Pipe(1, PhantomData), Pipe(1, PhantomData));
    assert_ne!(Pipe(1, PhantomData), Pipe(2, PhantomData));
}

#[test]
fn remote_storage_needs_a_live_interface() {
    let mut steam = Steam {};
    let lookup = steam.new_client(true).unwrap();
    let lookup = lookup.found(MaybeRaw::from(0x1000)).unwrap();
    let client = lookup.found(MaybeRaw::from(0x2000)).unwrap();
    assert!(RemoteStorage::new(&client, MaybeRaw::from(0)).is_none());
    let storage = RemoteStorage::new(&client, MaybeRaw::from(0x3000)).unwrap();
    assert_eq!(storage.raw().address(), 0x3000);
    assert_eq!(storage.utils().raw().address(), 0x2000);
}

#[test]
fn publication_options_and_their_codes() {
    let mut steam = Steam {};
    let lookup = steam.new_client(true).unwrap();
    let lookup = lookup.found(MaybeRaw::from(0x1000)).unwrap();
    let client = lookup.found(MaybeRaw::from(0x2000)).unwrap();
    let storage = RemoteStorage::new(&client, MaybeRaw::from(0x3000)).unwrap();
    assert_eq!(storage.publish_visibility(), Visibility::Public);
    assert_eq!(storage.publish_file_type(), FileType::Community);
    assert_eq!(Visibility::Public.to_raw(), 0);
    assert_eq!(Visibility::FriendsOnly.to_raw(), 1);
    assert_eq!(Visibility::Private.to_raw(), 2);
    assert_eq!(FileType::Community.to_raw(), 0);
    assert_eq!(FileType::Microtransaction.to_raw(), 1);
    assert_eq!(FileType::Collection.to_raw(), 2);
}

#[test]
fn file_delete_reports_the_answer() {
    let mut steam = Steam {};
    let lookup = steam.new_client(true).unwrap();
    let lookup = lookup.found(MaybeRaw::from(0x1000)).unwrap();
    let client = lookup.found(MaybeRaw::from(0x2000)).unwrap();
    let storage = RemoteStorage::new(&client, MaybeRaw::from(0x3000)).unwrap();
    assert_eq!(storage.file_delete(true), Ok(()));
    assert_eq!(storage.file_delete(false), Err(()));
}

#[test]
fn update_goes_on_while_parts_are_accepted() {
    let mut steam = Steam {};
    let lookup = steam.new_client(true).unwrap();
    let lookup = lookup.found(MaybeRaw::from(0x1000)).unwrap();
    let client = lookup.found(MaybeRaw::from(0x2000)).unwrap();
    let storage = RemoteStorage::new(&client, MaybeRaw::from(0x3000)).unwrap();
    let updater = storage.update(0xabc);
    assert_eq!(updater.update_handle(), 0xabc);
    assert_eq!(updater.remote_storage().raw().address(), 0x3000);
    let updater = updater.updated(true).ok().unwrap();
    let updater = updater.tags(true).ok().unwrap();
    assert_eq!(updater.update_handle(), 0xabc);
    let handle = updater.finish(MaybeAPICall(5)).unwrap();
    assert_eq!(handle.api_call().id(), 5);
    assert!(storage.update(1).updated(false).is_err());
    assert!(storage.update(1).tags(false).is_err());
}
