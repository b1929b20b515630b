//! The bot facade: connection state, buffers and errors.

use electron_bot::bot::ElectronBot;
use electron_bot::error::BotError;
use electron_bot::types::{Color, JointAngles};

#[test]
fn disconnect_is_idempotent_and_safe_before_connect() {
    let mut bot = ElectronBot::new();
    assert!(!bot.is_connected());
    bot.disconnect();
    assert!(!bot.is_connected());
    bot.disconnect();
    assert!(!bot.is_connected());
}

#[test]
fn sync_without_a_binding_is_refused() {
    let mut bot = ElectronBot::new();
    assert!(matches!(bot.sync(), Err(BotError::NotConnected)));
    assert!(!bot.is_connected());
}

#[test]
fn color_fill_stores_device_order() {
    let mut bot = ElectronBot::new();
    bot.set_image_from_color(&vec![0, 255, 255]).unwrap();
    assert_eq!(bot.image.get_pixel(0, 0), Some(Color::Custom(0, 255, 255)));
    assert_eq!(bot.image.as_data()[0], 255);
    assert_eq!(bot.image.as_data()[1], 255);
    assert_eq!(bot.image.as_data()[2], 0);
}

#[test]
fn short_color_is_refused() {
    let mut bot = ElectronBot::new();
    assert!(matches!(bot.set_image_from_color(&vec![1, 2]), Err(BotError::ImageError(_))));
}

#[test]
fn image_data_loads_centered() {
    let mut bot = ElectronBot::new();
    let mut src = vec![0u8; 100 * 100 * 3];
    src[0] = 11;
    src[1] = 22;
    src[2] = 33;
    bot.set_image_from_data(&src, 100, 100).unwrap();
    assert_eq!(bot.image.get_pixel(70, 70), Some(Color::Custom(11, 22, 33)));
    assert_eq!(bot.image.get_pixel(0, 0), Some(Color::Custom(0, 0, 0)));
}

#[test]
fn short_image_data_is_refused() {
    let mut bot = ElectronBot::new();
    assert!(matches!(
        bot.set_image_from_data(&vec![0u8; 5], 100, 100),
        Err(BotError::ImageError(_))
    ));
}

#[test]
fn extra_data_accepts_up_to_the_block_size() {
    let mut bot = ElectronBot::new();
    bot.set_extra_data(&vec![9u8; 32]).unwrap();
    assert!(bot.get_extra_data().iter().all(|b| *b == 0));
    assert!(bot.extra.get_raw().iter().all(|b| *b == 9));
    assert!(matches!(bot.set_extra_data(&vec![0u8; 33]), Err(BotError::ImageError(_))));
}

#[test]
fn joint_angles_land_in_the_control_block() {
    let mut bot = ElectronBot::new();
    let bits: Vec<u32> = [10.0f32, 20.0, 30.0, 40.0, 50.0, 60.0]
        .iter()
        .map(|v| v.to_bits())
        .collect();
    bot.set_joint_angles(&JointAngles(bits.clone()), true).unwrap();
    let block = bot.extra.get_raw();
    assert_eq!(block[0], 1);
    assert_eq!(&block[1..5], &10.0f32.to_le_bytes());
    assert_eq!(&block[21..25], &60.0f32.to_le_bytes());
}

#[test]
fn received_angles_come_from_the_status_block() {
    let bot = ElectronBot::new();
    let angles = bot.get_joint_angles();
    assert_eq!(angles.as_array(), &vec![0u32; 6]);
    assert_eq!(f32::from_bits(angles.get(0).unwrap()), 0.0);
}

#[test]
fn fresh_bot_starts_clean() {
    let bot = ElectronBot::new();
    assert!(!bot.is_connected());
    assert_eq!(bot.context.timestamp, 0);
    assert_eq!(bot.context.ping_pong_index, 0);
    assert!(bot.image.as_data().iter().all(|b| *b == 0));
    assert!(bot.extra.get_raw().iter().all(|b| *b == 0));
    assert!(bot.get_extra_data().iter().all(|b| *b == 0));
}

#[test]
fn scan_devices_runs_without_hardware() {
    for d in ElectronBot::scan_devices() {
        assert_eq!(d.info, format!("{:04x}:{:04x}", d.vid, d.pid));
    }
}

#[test]
fn error_messages_name_their_kind() {
    assert_eq!(BotError::DeviceNotFound.message(), "device not found");
    assert_eq!(BotError::InterfaceNotFound.message(), "interface not found");
    assert_eq!(BotError::NotConnected.message(), "not connected");
    assert_eq!(BotError::UsbError("x".to_string()).message(), "usb error: x");
    assert_eq!(BotError::SendFailed("y".to_string()).message(), "send failed: y");
    assert_eq!(BotError::ReceiveFailed("z".to_string()).message(), "receive failed: z");
    assert_eq!(BotError::ImageError("w".to_string()).message(), "image error: w");
}
