use dsd_native::{
    MarshalError, SafeDsRomLoaderData, SafeDsdConfigData, SyncModule, TryIntoSafe, TryIntoUnsafe,
    free_dsd_sync_data, free_loader_data, get_dsd_sync_data, get_loader_data,
};

#[test]
fn loader_data_round_trip() {
    let owned = SafeDsRomLoaderData {
        title: String::from("GAME TITLE"),
        arm9_base_address: 0x02000000,
        arm9_entry_function: 0x02000800,
        overlay_base_addresses: vec![0x02300000, 0x02310000],
    };
    let data = get_loader_data(owned).unwrap();
    assert_eq!(data.title.buffer, b"GAME TITLE\0".to_vec());
    assert_eq!(data.arm9_base_address, 0x02000000);
    assert_eq!(data.arm9_entry_function, 0x02000800);
    assert_eq!(data.overlay_base_addresses.len, 2);
    let block = data.overlay_base_addresses.items.as_ref().unwrap();
    assert_eq!(block[0], 0x02300000);
    assert_eq!(block[1], 0x02310000);

    let back = data.try_into_safe().unwrap();
    assert_eq!(back.title, "GAME TITLE");
    assert_eq!(back.arm9_base_address, 0x02000000);
    assert_eq!(back.arm9_entry_function, 0x02000800);
    assert_eq!(back.overlay_base_addresses, vec![0x02300000, 0x02310000]);
}

#[test]
fn loader_data_with_null_in_title_fails() {
    let owned = SafeDsRomLoaderData {
        title: String::from("BAD\0TITLE"),
        arm9_base_address: 0,
        arm9_entry_function: 0,
        overlay_base_addresses: Vec::new(),
    };
    assert!(get_loader_data(owned).is_none());
}

#[test]
fn loader_data_externalization_error_is_nul_byte() {
    let owned = SafeDsRomLoaderData {
        title: String::from("BAD\0TITLE"),
        arm9_base_address: 0,
        arm9_entry_function: 0,
        overlay_base_addresses: Vec::new(),
    };
    assert!(matches!(owned.try_into_unsafe(), Err(MarshalError::NulByte)));
}

#[test]
fn loader_data_with_no_overlays_has_null_container() {
    let owned = SafeDsRomLoaderData {
        title: String::from("EMPTY"),
        arm9_base_address: 1,
        arm9_entry_function: 2,
        overlay_base_addresses: Vec::new(),
    };
    let data = get_loader_data(owned).unwrap();
    assert!(data.overlay_base_addresses.items.is_none());
    assert_eq!(data.overlay_base_addresses.len, 0);
}

#[test]
fn sync_data_round_trip() {
    let config = SafeDsdConfigData {
        modules: vec![
            SyncModule { name: String::from("main"), base_address: 0x02000000 },
            SyncModule { name: String::from("overlay_0"), base_address: 0x02300000 },
        ],
    };
    let data = get_dsd_sync_data(config).unwrap();
    assert_eq!(data.modules.len, 2);
    let block = data.modules.items.as_ref().unwrap();
    assert_eq!(block[0].name.buffer, b"main\0".to_vec());
    assert_eq!(block[0].base_address, 0x02000000);
    assert_eq!(block[1].name.buffer, b"overlay_0\0".to_vec());
    assert_eq!(block[1].base_address, 0x02300000);

    let back = data.try_into_safe().unwrap();
    assert_eq!(back.modules.len(), 2);
    assert_eq!(back.modules[0].name, "main");
    assert_eq!(back.modules[1].base_address, 0x02300000);
}

#[test]
fn sync_data_with_null_in_name_fails() {
    let config = SafeDsdConfigData {
        modules: vec![SyncModule { name: String::from("bad\0name"), base_address: 0 }],
    };
    assert!(get_dsd_sync_data(config).is_none());
}

#[test]
fn sync_data_with_no_modules_is_null() {
    let config = SafeDsdConfigData { modules: Vec::new() };
    let data = get_dsd_sync_data(config).unwrap();
    assert!(data.modules.items.is_none());
    assert_eq!(data.modules.len, 0);
}

#[test]
fn free_releases_populated_records() {
    let owned = SafeDsRomLoaderData {
        title: String::from("T"),
        arm9_base_address: 1,
        arm9_entry_function: 2,
        overlay_base_addresses: vec![3],
    };
    let data = get_loader_data(owned).unwrap();
    free_loader_data(data);

    let config = SafeDsdConfigData {
        modules: vec![SyncModule { name: String::from("m"), base_address: 4 }],
    };
    let data = get_dsd_sync_data(config).unwrap();
    free_dsd_sync_data(data);
}
