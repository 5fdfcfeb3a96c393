use easy_steamworks::{
    APICall, APICallResult, Client, FetchReply, FileWriteResult, Item, MaybeAPICall, MaybeRaw,
    PublishResult, PublishedFile, RawResult, Steam, UpdateResult, Utils,
};

fn session(steam: &mut Steam) -> Client<'_> {
    let lookup = steam.new_client(true).unwrap();
    let lookup = lookup.found(MaybeRaw::from(0x1000)).unwrap();
    lookup.found(MaybeRaw::from(0x2000)).unwrap()
}

fn reply(accepted: bool, payload: &[u8]) -> FetchReply {
    FetchReply { accepted, io_failure: false, payload: payload.to_vec() }
}

const PUBLISHED_42: [u8; 13] = [1, 0, 0, 0, 42, 0, 0, 0, 0, 0, 0, 0, 0];

#[test]
fn shapes_have_their_kind_and_size() {
    assert_eq!(FileWriteResult::id(), 1331);
    assert_eq!(FileWriteResult::size(), 4);
    assert_eq!(PublishResult::id(), 1309);
    assert_eq!(PublishResult::size(), 13);
    assert_eq!(UpdateResult::id(), 1316);
    assert_eq!(UpdateResult::size(), 13);
}

#[test]
fn request_names_ticket_kind_and_size() {
    let mut steam = Steam {};
    let client = session(&mut steam);
    let utils = Utils::new(&client).unwrap();
    let call = APICall::new(MaybeAPICall(77)).unwrap();
    let request = utils.apicall_result_request::<PublishResult>(call);
    assert_eq!(request.call.id(), 77);
    assert_eq!(request.kind, 1309);
    assert_eq!(request.size, 13);
    let request = utils.apicall_result_request::<FileWriteResult>(call);
    assert_eq!(request.call.id(), 77);
    assert_eq!(request.kind, 1331);
    assert_eq!(request.size, 4);
}

#[test]
fn accepted_reply_of_the_right_size_is_read() {
    let mut steam = Steam {};
    let client = session(&mut steam);
    let utils = Utils::new(&client).unwrap();
    let result = utils.get_apicall_result::<PublishResult>(&reply(true, &PUBLISHED_42));
    assert_eq!(
        result,
        Ok(PublishResult(PublishedFile {
            result: RawResult(1),
            item: Item(42),
            accept_agreement: false,
        }))
    );
    let result = utils.get_apicall_result::<FileWriteResult>(&reply(true, &[2, 0, 0, 0]));
    assert_eq!(result, Ok(FileWriteResult { result: RawResult(2) }));
}

#[test]
fn reply_of_the_wrong_size_is_a_decode_failure() {
    let mut steam = Steam {};
    let client = session(&mut steam);
    let utils = Utils::new(&client).unwrap();
    assert_eq!(utils.get_apicall_result::<PublishResult>(&reply(true, &PUBLISHED_42[..12])), Err(()));
    assert_eq!(utils.get_apicall_result::<PublishResult>(&reply(true, &[0; 14])), Err(()));
    assert_eq!(utils.get_apicall_result::<PublishResult>(&reply(true, &[])), Err(()));
    assert_eq!(utils.get_apicall_result::<PublishResult>(&reply(true, &[1, 0, 0, 0])), Err(()));
    assert_eq!(utils.get_apicall_result::<FileWriteResult>(&reply(true, &PUBLISHED_42)), Err(()));
}

#[test]
fn refused_reply_is_a_decode_failure() {
    let mut steam = Steam {};
    let client = session(&mut steam);
    let utils = Utils::new(&client).unwrap();
    assert_eq!(utils.get_apicall_result::<PublishResult>(&reply(false, &PUBLISHED_42)), Err(()));
}

#[test]
fn io_failure_flag_changes_nothing() {
    let mut steam = Steam {};
    let client = session(&mut steam);
    let utils = Utils::new(&client).unwrap();
    let flagged = FetchReply { accepted: true, io_failure: true, payload: PUBLISHED_42.to_vec() };
    assert_eq!(
        utils.get_apicall_result::<PublishResult>(&flagged),
        utils.get_apicall_result::<PublishResult>(&reply(true, &PUBLISHED_42))
    );
    let flagged = FetchReply { accepted: false, io_failure: true, payload: PUBLISHED_42.to_vec() };
    assert_eq!(utils.get_apicall_result::<PublishResult>(&flagged), Err(()));
}

#[test]
fn flag_byte_is_read_as_agreement() {
    let mut bytes = PUBLISHED_42;
    bytes[12] = 1;
    let PublishResult(file) = PublishResult::decode(&bytes);
    assert!(file.accept_agreement);
    assert!(!file.is_readable());
    let UpdateResult(file) = UpdateResult::decode(&PUBLISHED_42);
    assert!(!file.accept_agreement);
    assert!(file.is_readable());
    assert_eq!(file.to_result(), Ok(Item(42)));
}
