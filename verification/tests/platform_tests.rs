use securewipe::caps::probe;
use securewipe::device::SimDevice;
use securewipe::erasure::ata::{AtaError, AtaStorageDriver};
use securewipe::libs::StorageDriver;
use securewipe::platform::{DeviceStatus, DeviceType, RawDeviceScan, WipeMethod};
use securewipe::registry::{eligible_methods, select, EraseMethod, SanitizeAction, SelectionError};
use securewipe::text::{contains_bytes, parse_u64_dec, starts_with_bytes, trim_ascii, u64_to_dec};
use securewipe::ui::SecureWipeApp;

fn scan(name: &str) -> RawDeviceScan {
    RawDeviceScan {
        name: String::from(name),
        present: true,
        model_file: None,
        name_file: None,
        rotational_file: None,
        size_file: None,
        serial_file: None,
        wwid_file: None,
        vendor_file: None,
        manufacturer_file: None,
        state_file: None,
        usb_link: false,
    }
}

#[test]
fn crypto_erase_request_on_non_sed_device_is_unsupported() {
    // For all devices without SED support, requesting crypto-erase
    // returns SelectionError::Unsupported.
    for class in [DeviceType::HDD, DeviceType::SSD, DeviceType::NVMe, DeviceType::USB] {
        let dev = SimDevice::new(1, class, 512, 16);
        let record = probe(&dev).expect("probe succeeds");
        assert!(!record.sed_supported);
        let r = select(&record, Some(WipeMethod::CryptoErase));
        assert!(matches!(r, Err(SelectionError::Unsupported)));
    }
}

#[test]
fn selection_prefers_crypto_then_hardware_then_overwrite() {
    let mut dev = SimDevice::new(2, DeviceType::NVMe, 512, 16);
    dev.nvme.sanitize_supported = true;
    dev.nvme.crypto_erase_supported = true;
    dev.sed.opal_supported = true;
    dev.sed.locking_range_count = 1;
    let record = probe(&dev).expect("probe succeeds");
    let methods = eligible_methods(&record);
    assert_eq!(methods.len(), 3);
    assert!(matches!(methods[0], EraseMethod::CryptoErase { locking_ranges: 1 }));
    assert!(matches!(
        methods[1],
        EraseMethod::NvmeSanitize { action: SanitizeAction::CryptoScramble }
    ));
    assert!(matches!(methods[2], EraseMethod::Overwrite(_)));
    // With nothing requested the best method is chosen.
    assert!(matches!(
        select(&record, None),
        Ok(EraseMethod::CryptoErase { locking_ranges: 1 })
    ));
}

#[test]
fn overwrite_is_always_eligible() {
    let dev = SimDevice::new(3, DeviceType::HDD, 512, 16);
    let record = probe(&dev).expect("probe succeeds");
    let methods = eligible_methods(&record);
    assert_eq!(methods.len(), 1);
    assert!(matches!(methods[0], EraseMethod::Overwrite(_)));
    assert!(matches!(select(&record, Some(WipeMethod::Overwrite)), Ok(EraseMethod::Overwrite(_))));
    assert!(matches!(
        select(&record, Some(WipeMethod::SecureErase)),
        Err(SelectionError::Unsupported)
    ));
}

#[test]
fn get_all_methods_lists_the_three_families() {
    let all = WipeMethod::get_all_methods();
    assert_eq!(
        all,
        vec![WipeMethod::Overwrite, WipeMethod::SecureErase, WipeMethod::CryptoErase]
    );
    assert_eq!(WipeMethod::Overwrite.label(), "Overwrite (Multiple Pass)");
    assert_eq!(WipeMethod::SecureErase.label(), "Secure Erase (ATA/NVMe)");
    assert_eq!(WipeMethod::CryptoErase.label(), "Crypto Erase (SED)");
}

#[test]
fn format_size_renders_exact_values() {
    assert_eq!(StorageDriver::format_size(0), "0 B");
    assert_eq!(StorageDriver::format_size(512), "512 B");
    assert_eq!(StorageDriver::format_size(1023), "1023 B");
    assert_eq!(StorageDriver::format_size(1024), "1.0 KB");
    assert_eq!(StorageDriver::format_size(1536), "1.5 KB");
    // Rounded to the nearest tenth, as the presentation expects.
    assert_eq!(StorageDriver::format_size(2040), "2.0 KB");
    assert_eq!(StorageDriver::format_size(2047), "2.0 KB");
    assert_eq!(StorageDriver::format_size(1048575), "1024.0 KB");
    // Exact halves go to the even tenth.
    assert_eq!(StorageDriver::format_size(1280), "1.2 KB");
    assert_eq!(StorageDriver::format_size(1792), "1.8 KB");
    assert_eq!(StorageDriver::format_size(1048576), "1.0 MB");
    assert_eq!(StorageDriver::format_size(1073741824), "1.0 GB");
    assert_eq!(StorageDriver::format_size(1649267441664), "1.5 TB");
}

#[test]
fn identify_parses_the_security_word() {
    let driver = AtaStorageDriver::new("/dev/sda");
    assert_eq!(driver.device_path, "/dev/sda");
    let mut words: Vec<u16> = vec![0u16; 256];
    // "AB" in the first model word, space-padded after.
    words[27] = 0x4142;
    for w in 28..47 {
        words[w] = 0x2020;
    }
    words[100] = 1000;
    // security: supported, enabled, frozen, enhanced erase.
    words[128] = 0b10_1011;
    let info = driver.identify_ata_device(&words).expect("identify parses");
    assert!(info.model.starts_with("AB"));
    assert_eq!(info.sector_count, 1000);
    assert_eq!(info.sector_size, 512);
    assert!(info.security_supported);
    assert!(info.security_enabled);
    assert!(!info.security_locked);
    assert!(info.security_frozen);
    assert!(info.enhanced_erase_supported);
    // A short block is refused.
    let short: Vec<u16> = vec![0u16; 10];
    assert!(matches!(driver.identify_ata_device(&short), Err(AtaError::CommandFailed)));
}

#[test]
fn is_ata_device_searches_the_topology_link() {
    let driver = AtaStorageDriver::new("/dev/sda");
    assert!(driver.is_ata_device(b"pci0000:00/ata3/host2"));
    assert!(!driver.is_ata_device(b"pci0000:00/usb1/1-1"));
}

#[test]
fn detection_filters_virtual_devices_and_sorts() {
    let mut sdb = scan("sdb");
    sdb.rotational_file = Some(b"0\n".to_vec());
    sdb.model_file = Some(b" Fast Disk \n".to_vec());
    sdb.size_file = Some(b"2048\n".to_vec());
    let mut sda = scan("sda");
    sda.rotational_file = Some(b"1\n".to_vec());
    sda.state_file = Some(b"running\n".to_vec());
    let mut gone = scan("sdc");
    gone.present = false;
    let entries = vec![scan("loop0"), sdb, scan("ram1"), scan("dm-0"), sda, gone];
    let mounts: Vec<u8> = b"/dev/sda1 / ext4 rw 0 0\n".to_vec();
    let devices = StorageDriver::detect_storage_devices(entries, &mounts);
    assert_eq!(devices.len(), 2);
    assert_eq!(devices[0].path, "/dev/sda");
    assert_eq!(devices[1].path, "/dev/sdb");
    assert!(matches!(devices[0].device_type, DeviceType::HDD));
    assert!(matches!(devices[1].device_type, DeviceType::SSD));
    // "/dev/sda" occurs in the mount table ("/dev/sda1").
    assert!(matches!(devices[0].status, DeviceStatus::Mounted));
    assert!(matches!(devices[1].status, DeviceStatus::Available));
    assert_eq!(devices[1].name, "Fast Disk");
    assert_eq!(devices[1].model.as_deref(), Some("Fast Disk"));
    assert_eq!(devices[1].size, Some(2048 * 512));
    assert_eq!(devices[0].size, None);
}

#[test]
fn description_text_is_kept_verbatim() {
    // A control byte inside valid UTF-8 stays; a candidate file that is
    // not UTF-8 is skipped, as a failed text read skips it.
    let mut sdd = scan("sdd");
    sdd.model_file = Some(vec![0x61, 0x01, 0x62]);
    let mut sde = scan("sde");
    sde.model_file = Some(vec![0xFF, 0x61]);
    sde.name_file = Some(b"fallback name\n".to_vec());
    let entries = vec![sdd, sde];
    let mounts: Vec<u8> = Vec::new();
    let devices = StorageDriver::detect_storage_devices(entries, &mounts);
    assert_eq!(devices.len(), 2);
    assert_eq!(devices[0].name, "a\u{1}b");
    assert_eq!(devices[0].model.as_deref(), Some("a\u{1}b"));
    assert_eq!(devices[1].name, "fallback name");
}

#[test]
fn reduced_listing_mirrors_the_full_one() {
    let mut nv = scan("nvme0n1");
    nv.size_file = Some(b"8\n".to_vec());
    let entries = vec![nv, scan("loop7")];
    let mounts: Vec<u8> = Vec::new();
    let devices = securewipe::utils::detect_storage_devices(entries, &mounts);
    assert_eq!(devices.len(), 1);
    assert_eq!(devices[0].path, "/dev/nvme0n1");
    assert!(matches!(devices[0].device_type, securewipe::utils::DeviceType::NVMe));
    assert_eq!(devices[0].size, Some(4096));
    let line = devices[0].describe();
    assert_eq!(line, "/dev/nvme0n1 - nvme0n1 (4.0 KB)");
}

#[test]
fn app_state_tracks_selection() {
    let mut app = SecureWipeApp::new();
    assert!(app.selected_device_index.is_none());
    assert_eq!(app.selected_wipe_method, WipeMethod::Overwrite);
    let entries = vec![scan("sda"), scan("sdb")];
    let mounts: Vec<u8> = Vec::new();
    let devices = StorageDriver::detect_storage_devices(entries, &mounts);
    app.refresh_devices(devices);
    assert_eq!(app.selected_device_index, Some(0));
    app.select_device(1);
    assert_eq!(app.selected_device_index, Some(1));
    app.select_device(7);
    assert_eq!(app.selected_device_index, Some(1));
    app.select_method(WipeMethod::CryptoErase);
    assert_eq!(app.selected_wipe_method, WipeMethod::CryptoErase);
    app.refresh_devices(Vec::new());
    assert!(app.selected_device_index.is_none());
    assert_eq!(app.selected_wipe_method, WipeMethod::CryptoErase);
}

#[test]
fn text_helpers_parse_and_render() {
    assert_eq!(trim_ascii(b"  hi \n"), b"hi");
    assert_eq!(trim_ascii(b" \t\r\n"), b"");
    assert_eq!(parse_u64_dec(b"1000"), Some(1000));
    assert_eq!(parse_u64_dec(b""), None);
    assert_eq!(parse_u64_dec(b"12a"), None);
    assert_eq!(parse_u64_dec(b"18446744073709551615"), Some(u64::MAX));
    assert_eq!(parse_u64_dec(b"18446744073709551616"), None);
    assert_eq!(u64_to_dec(0), b"0");
    assert_eq!(u64_to_dec(90210), b"90210");
    assert!(starts_with_bytes(b"nvme0n1", b"nvme"));
    assert!(!starts_with_bytes(b"sda", b"nvme"));
    assert!(contains_bytes(b"one two three", b"two"));
    assert!(!contains_bytes(b"one two three", b"four"));
    assert!(contains_bytes(b"anything", b""));
}
