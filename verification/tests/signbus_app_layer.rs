use capsules::returncode::ReturnCode;
use capsules::signbus_app_layer::{
    App, SendAction, SignbusApiType, SignbusAppLayer, SignbusFrameType,
};

#[test]
fn frame_types_have_their_bus_codes() {
    assert_eq!(SignbusFrameType::NotificationFrame.code(), 0);
    assert_eq!(SignbusFrameType::CommandFrame.code(), 1);
    assert_eq!(SignbusFrameType::ResponseFrame.code(), 2);
    assert_eq!(SignbusFrameType::ErrorFrame.code(), 3);
}

#[test]
fn api_types_have_their_bus_codes() {
    assert_eq!(SignbusApiType::InitializationApiType.code(), 1);
    assert_eq!(SignbusApiType::StorageApiType.code(), 2);
    assert_eq!(SignbusApiType::NetworkingApiType.code(), 3);
    assert_eq!(SignbusApiType::ProcessingApiType.code(), 4);
    assert_eq!(SignbusApiType::EnergyApiType.code(), 5);
    assert_eq!(SignbusApiType::TimeLocationApiType.code(), 6);
    assert_eq!(SignbusApiType::EdisonApiType.code(), 7);
    assert_eq!(SignbusApiType::JsonApiType.code(), 8);
    assert_eq!(SignbusApiType::WatchdogApiType.code(), 9);
    assert_eq!(SignbusApiType::HighestApiType.code(), 10);
}

#[test]
fn default_app_has_nothing_registered() {
    let app: App<u32> = App::default();
    assert_eq!(
        app,
        App {
            callback: None,
            master_tx_buffer: None,
            master_rx_buffer: None,
            slave_tx_buffer: None,
            slave_rx_buffer: None,
        }
    );
}

#[test]
fn new_layer_owns_its_payload_buffer() {
    let layer = SignbusAppLayer::new(vec![7; 12]);
    assert_eq!(layer.payload(), Some(&vec![7; 12]));
}

#[test]
fn send_builds_the_frame_and_hands_the_buffer_out() {
    let mut layer = SignbusAppLayer::new(vec![0xEE; 12]);
    let action = layer.signbus_app_send(
        0x32,
        SignbusFrameType::CommandFrame,
        SignbusApiType::NetworkingApiType,
        9,
        4,
        &[10, 20, 30, 40, 50],
    );
    assert_eq!(
        action,
        SendAction::Send {
            address: 0x32,
            payload: vec![1, 3, 9, 10, 20, 30, 40, 0xEE, 0xEE, 0xEE, 0xEE, 0xEE],
            len: 7,
        }
    );
    assert!(layer.payload().is_none());
}

#[test]
fn send_of_an_empty_message_is_the_header_alone() {
    let mut layer = SignbusAppLayer::new(vec![0xEE; 3]);
    let action = layer.signbus_app_send(
        1,
        SignbusFrameType::ErrorFrame,
        SignbusApiType::HighestApiType,
        255,
        0,
        &[],
    );
    assert_eq!(action, SendAction::Send { address: 1, payload: vec![3, 10, 255], len: 3 });
}

#[test]
fn send_that_fills_the_payload_buffer() {
    let mut layer = SignbusAppLayer::new(vec![0; 6]);
    let action = layer.signbus_app_send(
        0,
        SignbusFrameType::NotificationFrame,
        SignbusApiType::InitializationApiType,
        0,
        3,
        &[7, 8, 9],
    );
    assert_eq!(action, SendAction::Send { address: 0, payload: vec![0, 1, 0, 7, 8, 9], len: 6 });
}

#[test]
fn send_after_the_buffer_left_does_nothing_and_succeeds() {
    let mut layer = SignbusAppLayer::new(vec![0; 8]);
    layer.signbus_app_send(
        5,
        SignbusFrameType::ResponseFrame,
        SignbusApiType::StorageApiType,
        1,
        2,
        &[1, 2],
    );
    let again = layer.signbus_app_send(
        5,
        SignbusFrameType::ResponseFrame,
        SignbusApiType::StorageApiType,
        1,
        2,
        &[1, 2],
    );
    assert_eq!(again, SendAction::Done(ReturnCode::SUCCESS));
    assert!(layer.payload().is_none());
}
