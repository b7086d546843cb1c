//! The radio catalog, its reservations and the choice of driver settings.

use qsonaut_hostbridge::protocol::{
    RadioDeviceInfo, RadioDriver, RadioRequest, RadioTransportKind,
};
use qsonaut_hostbridge::radio::{
    add_radio_entry, model_for, ConfiguredRadioProvider, FixedRadioProvider, RadioError,
    RadioFactory, RadioProvider,
};

fn request(driver: RadioDriver, model: Option<&str>) -> RadioRequest {
    RadioRequest {
        driver,
        model: model.map(|m| m.to_owned()),
        baud_rate: None,
        radio_address: None,
    }
}

fn two_radios() -> ConfiguredRadioProvider<RadioFactory> {
    let mut entries = Vec::new();
    add_radio_entry(&mut entries, "usb-a".into(), "/dev/serial/by-id/usb-a".into());
    add_radio_entry(&mut entries, "usb-b".into(), "/dev/serial/by-id/usb-b".into());
    ConfiguredRadioProvider::new(entries)
}

#[test]
fn radio_catalog_exposes_physical_devices_without_driver_choice() {
    let mut entries = Vec::new();
    add_radio_entry(
        &mut entries,
        "usb-serial-1".into(),
        "/dev/serial/by-id/usb-serial-1".into(),
    );
    assert_eq!(entries.len(), 1);
    assert_eq!(entries[0].info.id, "usb-serial-1");
    assert_eq!(entries[0].info.label, "usb-serial-1");
    assert!(!entries[0].info.id.contains("/dev/"));
    assert!(!entries[0].info.label.contains("/dev/"));
}

#[test]
fn radio_reservation_blocks_second_session_until_release() {
    let mut provider = FixedRadioProvider::new(
        RadioDeviceInfo {
            id: "usb-1".into(),
            label: "USB radio".into(),
            transport: RadioTransportKind::UsbSerial,
            in_use: false,
        },
        request(RadioDriver::IcomCiv, Some("IC-7300")),
    );
    assert!(provider.acquire("usb-1").is_ok());
    assert!(provider.devices()[0].in_use);
    assert!(provider.acquire("usb-1").is_err());
    provider.release("usb-1");
    assert!(!provider.devices()[0].in_use);
    assert!(provider.acquire("usb-1").is_ok());
}

#[test]
fn fixed_radio_refuses_other_names_and_distrust() {
    let mut provider = FixedRadioProvider::new(
        RadioDeviceInfo {
            id: "usb-1".into(),
            label: "USB radio".into(),
            transport: RadioTransportKind::UsbSerial,
            in_use: true,
        },
        7_u8,
    );
    assert!(!provider.devices()[0].in_use);
    assert_eq!(provider.acquire("usb-2"), Err(RadioError::Unavailable));
    assert_eq!(provider.acquire("usb-1"), Ok(0));
    provider.release("usb-2");
    assert_eq!(provider.acquire("usb-1"), Err(RadioError::InUse));
    provider.poison();
    provider.release("usb-1");
    assert!(provider.devices()[0].in_use);
    assert_eq!(provider.acquire("usb-1"), Err(RadioError::LockPoisoned));
    assert_eq!(*provider.radio(), 7);
}

#[test]
fn radios_are_reserved_one_by_one() {
    let mut radios = two_radios();
    assert_eq!(radios.acquire("usb-b"), Ok(1));
    let marks: Vec<bool> = radios.devices().iter().map(|d| d.in_use).collect();
    assert_eq!(marks, vec![false, true]);
    assert_eq!(radios.acquire("usb-b"), Err(RadioError::InUse));
    assert_eq!(radios.acquire("usb-a"), Ok(0));
    radios.release("usb-b");
    assert_eq!(radios.acquire("usb-b"), Ok(1));
    assert_eq!(radios.factory(1).unwrap().path, "/dev/serial/by-id/usb-b");
    assert!(radios.factory(2).is_none());
}

#[test]
fn distrusted_catalog_shows_everything_in_use() {
    let mut radios = two_radios();
    assert_eq!(radios.acquire("usb-a"), Ok(0));
    radios.poison();
    radios.release("usb-a");
    assert!(radios.devices().iter().all(|d| d.in_use));
    assert_eq!(radios.acquire("usb-b"), Err(RadioError::LockPoisoned));
    assert_eq!(radios.acquire("missing"), Err(RadioError::Unavailable));
}

#[test]
fn refusals_have_words() {
    assert_eq!(RadioError::Unavailable.message(), "radio device is unavailable");
    assert_eq!(RadioError::LockPoisoned.message(), "radio reservation lock poisoned");
    assert_eq!(RadioError::InUse.message(), "radio device is already in use");
}

#[test]
fn driver_without_model_gets_the_generic_one() {
    let factory = RadioFactory { path: "/dev/ttyUSB0".into() };
    let cases = [
        (RadioDriver::IcomCiv, "CI-V (generic)", 115_200),
        (RadioDriver::YaesuCat, "CAT (generic)", 38_400),
        (RadioDriver::YaesuLegacyCat, "classic CAT (generic)", 4_800),
        (RadioDriver::KenwoodCat, "PC control (generic)", 115_200),
    ];
    for (driver, model, baud) in cases {
        let request = request(driver, None);
        assert_eq!(model_for(&request).unwrap(), model);
        let plan = factory.plan(&request, Some(driver)).unwrap();
        assert_eq!(plan.model, model);
        assert_eq!(plan.baud_rate, baud);
        assert_eq!(plan.controller_address, 0xE0);
        assert_eq!(plan.radio_address, None);
        assert_eq!(plan.path, "/dev/ttyUSB0");
    }
}

#[test]
fn client_settings_win_over_defaults() {
    let factory = RadioFactory { path: "/dev/ttyUSB0".into() };
    let request = RadioRequest {
        driver: RadioDriver::ElecraftCat,
        model: Some("K3".into()),
        baud_rate: Some(9_600),
        radio_address: Some(0x94),
    };
    let plan = factory.plan(&request, Some(RadioDriver::ElecraftCat)).unwrap();
    assert_eq!(plan.model, "K3");
    assert_eq!(plan.baud_rate, 9_600);
    assert_eq!(plan.radio_address, Some(0x94));
}

#[test]
fn unusable_models_are_refused() {
    let factory = RadioFactory { path: "p".into() };
    assert_eq!(
        factory.plan(&request(RadioDriver::ElecraftCat, None), None).unwrap_err(),
        "Elecraft requires an explicit model"
    );
    assert_eq!(
        factory.plan(&request(RadioDriver::IcomCiv, Some("X-1")), None).unwrap_err(),
        "unknown HostBridge radio model: X-1"
    );
    assert_eq!(
        factory
            .plan(
                &request(RadioDriver::YaesuCat, Some("IC-7300")),
                Some(RadioDriver::IcomCiv)
            )
            .unwrap_err(),
        "selected driver YaesuCat does not match model IC-7300"
    );
}
