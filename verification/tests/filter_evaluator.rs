use tauri_plugin_bluetooth::bluetooth::bleuuid::{uuid_from_u32, BLUETOOTH_BASE_UUID};
use tauri_plugin_bluetooth::bluetooth::models::{
    BluetoothLEScanFilter, BluetoothManufacturerDataFilter, BluetoothServiceDataFilter,
    BluetoothServiceUUID, Candidate, FilterExpression, PeripheralProperties,
    RequestDeviceOptions,
};
use tauri_plugin_bluetooth::bluetooth::utils::{
    find_match, includes_service, is_manufacturer_data_match, is_name_match, is_prefix_match,
    is_service_data_match, is_services_match, match_any_filter, match_data, match_expression,
    match_filter, match_manufacturer_filter, match_options, match_service_filter,
    match_services, resolve_service,
};

const HEART_RATE: u128 = 0x0000180d_0000_1000_8000_00805f9b34fb;
const BATTERY: u128 = 0x0000180f_0000_1000_8000_00805f9b34fb;
const DEVICE_INFORMATION: u128 = 0x0000180a_0000_1000_8000_00805f9b34fb;
const CUSTOM: u128 = 0xa1a2a3a4_b1b2_c1c2_d1d2_d3d4d5d6d7d8;

fn advertising(name: Option<&str>, services: Vec<u128>) -> PeripheralProperties {
    PeripheralProperties {
        local_name: name.map(|text| text.to_string()),
        services,
        ..PeripheralProperties::default()
    }
}

fn with_manufacturer_data(records: Vec<(u16, Vec<u8>)>) -> PeripheralProperties {
    PeripheralProperties { manufacturer_data: records, ..PeripheralProperties::default() }
}

fn with_service_data(records: Vec<(u128, Vec<u8>)>) -> PeripheralProperties {
    PeripheralProperties { service_data: records, ..PeripheralProperties::default() }
}

fn manufacturer(
    company_identifier: u16,
    data_prefix: Option<Vec<u8>>,
    mask: Option<Vec<u8>>,
) -> BluetoothLEScanFilter {
    BluetoothLEScanFilter {
        manufacturer_data: Some(vec![BluetoothManufacturerDataFilter {
            data_prefix,
            mask,
            company_identifier,
        }]),
        ..clause()
    }
}

fn service_data(
    service: BluetoothServiceUUID,
    data_prefix: Option<Vec<u8>>,
    mask: Option<Vec<u8>>,
) -> BluetoothLEScanFilter {
    BluetoothLEScanFilter {
        service_data: Some(vec![BluetoothServiceDataFilter { data_prefix, mask, service }]),
        ..clause()
    }
}

fn text(uuid: &str) -> BluetoothServiceUUID {
    BluetoothServiceUUID::String(uuid.to_string())
}

fn clause() -> BluetoothLEScanFilter {
    BluetoothLEScanFilter::default()
}

fn options(
    accept_all_devices: Option<bool>,
    filters: Option<Vec<BluetoothLEScanFilter>>,
) -> RequestDeviceOptions {
    RequestDeviceOptions { accept_all_devices, filters, timeout: None }
}

#[test]
fn short_uuid_expands_with_the_base_uuid() {
    assert_eq!(BLUETOOTH_BASE_UUID, 0x00000000_0000_1000_8000_00805f9b34fb);
    assert_eq!(uuid_from_u32(0), BLUETOOTH_BASE_UUID);
    assert_eq!(uuid_from_u32(0x180d), HEART_RATE);
    assert_eq!(uuid_from_u32(0x11223344), 0x11223344_0000_1000_8000_00805f9b34fb);
    assert_eq!(uuid_from_u32(u32::MAX), 0xffffffff_0000_1000_8000_00805f9b34fb);
}

#[test]
fn service_entries_resolve_to_their_uuid() {
    assert_eq!(resolve_service(&BluetoothServiceUUID::Number(0x180d)), Some(HEART_RATE));
    assert_eq!(resolve_service(&text("0000180d-0000-1000-8000-00805f9b34fb")), Some(HEART_RATE));
    assert_eq!(resolve_service(&text("a1a2a3a4-b1b2-c1c2-d1d2-d3d4d5d6d7d8")), Some(CUSTOM));
    assert_eq!(resolve_service(&text("A1A2A3A4-B1B2-C1C2-D1D2-D3D4D5D6D7D8")), Some(CUSTOM));
    assert_eq!(resolve_service(&text("a1a2a3a4b1b2c1c2d1d2d3d4d5d6d7d8")), Some(CUSTOM));
    assert_eq!(resolve_service(&text("{a1a2a3a4-b1b2-c1c2-d1d2-d3d4d5d6d7d8}")), Some(CUSTOM));
    assert_eq!(
        resolve_service(&text("urn:uuid:a1a2a3a4-b1b2-c1c2-d1d2-d3d4d5d6d7d8")),
        Some(CUSTOM)
    );
}

#[test]
fn text_that_is_no_uuid_resolves_to_nothing() {
    assert_eq!(resolve_service(&text("")), None);
    assert_eq!(resolve_service(&text("heart_rate")), None);
    assert_eq!(resolve_service(&text("180d")), None);
    assert_eq!(resolve_service(&text("0000180d-0000-1000-8000-00805f9b34fg")), None);
    assert_eq!(resolve_service(&text("0000180d_0000_1000_8000_00805f9b34fb")), None);
}

#[test]
fn includes_service_looks_the_uuid_up() {
    let target = vec![HEART_RATE, BATTERY];
    assert!(includes_service(&target, Some(HEART_RATE)));
    assert!(includes_service(&target, Some(BATTERY)));
    assert!(!includes_service(&target, Some(DEVICE_INFORMATION)));
    assert!(!includes_service(&target, None));
    assert!(!includes_service(&[], Some(HEART_RATE)));
}

#[test]
fn required_services_are_a_subset_test() {
    let filter = vec![BluetoothServiceUUID::Number(0x180d), BluetoothServiceUUID::Number(0x180f)];
    assert!(match_services(&[HEART_RATE, BATTERY, DEVICE_INFORMATION], &filter));
    assert!(match_services(&[BATTERY, HEART_RATE], &filter));
    assert!(!match_services(&[HEART_RATE], &filter));
    assert!(!match_services(&[], &filter));
}

#[test]
fn empty_service_filter_matches_every_peripheral() {
    assert!(match_services(&[], &[]));
    assert!(match_services(&[HEART_RATE], &[]));
}

#[test]
fn short_and_full_form_match_interchangeably() {
    let short = vec![BluetoothServiceUUID::Number(0x180d)];
    let full = vec![text("0000180d-0000-1000-8000-00805f9b34fb")];
    let upper = vec![text("0000180D-0000-1000-8000-00805F9B34FB")];
    for target in [vec![HEART_RATE], vec![BATTERY, HEART_RATE], vec![BATTERY], vec![]] {
        let expected = target.contains(&HEART_RATE);
        assert_eq!(match_services(&target, &short), expected);
        assert_eq!(match_services(&target, &full), expected);
        assert_eq!(match_services(&target, &upper), expected);
    }
}

#[test]
fn service_text_that_is_no_uuid_matches_nothing() {
    let filter = vec![text("not-a-uuid")];
    assert!(!match_services(&[HEART_RATE], &filter));
    assert!(!match_services(&[], &filter));
    let mixed = vec![BluetoothServiceUUID::Number(0x180d), text("not-a-uuid")];
    assert!(!match_services(&[HEART_RATE], &mixed));
}

#[test]
fn services_criterion_is_absent_or_a_subset_test() {
    let peripheral = advertising(None, vec![HEART_RATE]);
    assert!(is_services_match(&peripheral, &clause()));
    let asks_heart_rate = BluetoothLEScanFilter {
        services: Some(vec![BluetoothServiceUUID::Number(0x180d)]),
        ..clause()
    };
    assert!(is_services_match(&peripheral, &asks_heart_rate));
    let asks_battery = BluetoothLEScanFilter {
        services: Some(vec![BluetoothServiceUUID::Number(0x180f)]),
        ..clause()
    };
    assert!(!is_services_match(&peripheral, &asks_battery));
    assert!(!is_services_match(&advertising(None, vec![]), &asks_heart_rate));
}

#[test]
fn name_criterion_is_exact() {
    let named = BluetoothLEScanFilter { name: Some("Pixel Buds".to_string()), ..clause() };
    assert!(is_name_match(&advertising(Some("Pixel Buds"), vec![]), &named));
    assert!(!is_name_match(&advertising(Some("Pixel Buds "), vec![]), &named));
    assert!(!is_name_match(&advertising(Some("pixel buds"), vec![]), &named));
    assert!(!is_name_match(&advertising(Some("Pixel"), vec![]), &named));
}

#[test]
fn name_criterion_absent_constrains_nothing() {
    assert!(is_name_match(&advertising(Some("Pixel Buds"), vec![]), &clause()));
    assert!(is_name_match(&advertising(None, vec![]), &clause()));
}

#[test]
fn name_criterion_fails_without_an_advertised_name() {
    let named = BluetoothLEScanFilter { name: Some("Pixel Buds".to_string()), ..clause() };
    assert!(!is_name_match(&advertising(None, vec![]), &named));
    let empty = BluetoothLEScanFilter { name: Some(String::new()), ..clause() };
    assert!(!is_name_match(&advertising(None, vec![]), &empty));
    assert!(is_name_match(&advertising(Some(""), vec![]), &empty));
}

#[test]
fn name_prefix_matches_the_start_of_the_name() {
    let prefixed = BluetoothLEScanFilter { name_prefix: Some("Pix".to_string()), ..clause() };
    assert!(is_prefix_match(&advertising(Some("Pixel Buds"), vec![]), &prefixed));
    assert!(is_prefix_match(&advertising(Some("Pix"), vec![]), &prefixed));
    assert!(!is_prefix_match(&advertising(Some("MyPix"), vec![]), &prefixed));
    assert!(!is_prefix_match(&advertising(Some("Pi"), vec![]), &prefixed));
    assert!(!is_prefix_match(&advertising(Some("pixel"), vec![]), &prefixed));
}

#[test]
fn name_prefix_with_characters_beyond_ascii() {
    let prefixed = BluetoothLEScanFilter { name_prefix: Some("Köp".to_string()), ..clause() };
    assert!(is_prefix_match(&advertising(Some("Köpfhörer"), vec![]), &prefixed));
    assert!(!is_prefix_match(&advertising(Some("Kopfhörer"), vec![]), &prefixed));
}

#[test]
fn name_prefix_absence_policy() {
    let prefixed = BluetoothLEScanFilter { name_prefix: Some("Pix".to_string()), ..clause() };
    assert!(!is_prefix_match(&advertising(None, vec![]), &prefixed));
    assert!(is_prefix_match(&advertising(None, vec![]), &clause()));
    let empty = BluetoothLEScanFilter { name_prefix: Some(String::new()), ..clause() };
    assert!(is_prefix_match(&advertising(Some("anything"), vec![]), &empty));
    assert!(!is_prefix_match(&advertising(None, vec![]), &empty));
}

#[test]
fn clause_needs_every_criterion() {
    let filter = BluetoothLEScanFilter {
        name: Some("Pixel Buds".to_string()),
        name_prefix: Some("Pix".to_string()),
        services: Some(vec![BluetoothServiceUUID::Number(0x180d)]),
        ..clause()
    };
    assert!(match_filter(&advertising(Some("Pixel Buds"), vec![HEART_RATE, BATTERY]), &filter));
    assert!(!match_filter(&advertising(Some("Pixel Buds"), vec![BATTERY]), &filter));
    assert!(!match_filter(&advertising(Some("Pixel"), vec![HEART_RATE]), &filter));
    assert!(!match_filter(&advertising(None, vec![HEART_RATE]), &filter));
    let at_odds = BluetoothLEScanFilter {
        name: Some("Pixel Buds".to_string()),
        name_prefix: Some("Buds".to_string()),
        ..clause()
    };
    assert!(!match_filter(&advertising(Some("Pixel Buds"), vec![]), &at_odds));
}

#[test]
fn clause_without_criteria_matches_every_peripheral() {
    assert!(match_filter(&advertising(None, vec![]), &clause()));
    assert!(match_filter(&advertising(Some("Pixel Buds"), vec![HEART_RATE]), &clause()));
}

#[test]
fn data_matches_by_prefix_under_the_mask() {
    assert!(match_data(&[1, 2, 3], &None, &None));
    assert!(match_data(&[], &None, &None));
    assert!(match_data(&[], &None, &Some(vec![0xff])));
    assert!(match_data(&[1, 2, 3], &Some(vec![]), &None));
    assert!(match_data(&[1, 2, 3], &Some(vec![1, 2]), &None));
    assert!(match_data(&[1, 2, 3], &Some(vec![1, 2, 3]), &None));
    assert!(!match_data(&[1, 2, 3], &Some(vec![1, 2, 3, 4]), &None));
    assert!(!match_data(&[1, 2, 3], &Some(vec![1, 3]), &None));
    assert!(!match_data(&[1, 2, 3], &Some(vec![2]), &None));
    assert!(!match_data(&[], &Some(vec![1]), &None));
    assert!(match_data(&[0x12, 0x34], &Some(vec![0x10, 0x34]), &Some(vec![0xf0, 0xff])));
    assert!(!match_data(&[0x22, 0x34], &Some(vec![0x10, 0x34]), &Some(vec![0xf0, 0xff])));
    assert!(match_data(&[0x22, 0x34], &Some(vec![0x10, 0x34]), &Some(vec![0x00, 0xff])));
    assert!(match_data(&[0xab, 0xcd], &Some(vec![0x12, 0x34]), &Some(vec![0, 0])));
}

#[test]
fn a_mask_of_another_length_than_the_prefix() {
    assert!(match_data(&[0x12, 0x34], &Some(vec![0x10, 0x34]), &Some(vec![0xf0])));
    assert!(!match_data(&[0x12, 0x35], &Some(vec![0x10, 0x34]), &Some(vec![0xf0])));
    assert!(match_data(&[0x12, 0x34], &Some(vec![0x10]), &Some(vec![0xf0, 0x00, 0x00])));
    assert!(!match_data(&[0x12], &Some(vec![0x10, 0x34]), &Some(vec![0xf0, 0x00])));
}

#[test]
fn manufacturer_filter_needs_a_record_of_its_company() {
    let apple = BluetoothManufacturerDataFilter {
        data_prefix: Some(vec![0x02, 0x15]),
        mask: None,
        company_identifier: 0x004c,
    };
    assert!(match_manufacturer_filter(&[(0x004c, vec![0x02, 0x15, 0x00])], &apple));
    assert!(match_manufacturer_filter(
        &[(0x0006, vec![0x02, 0x15]), (0x004c, vec![0x01]), (0x004c, vec![0x02, 0x15])],
        &apple
    ));
    assert!(!match_manufacturer_filter(&[(0x0006, vec![0x02, 0x15, 0x00])], &apple));
    assert!(!match_manufacturer_filter(&[(0x004c, vec![0x02])], &apple));
    assert!(!match_manufacturer_filter(&[], &apple));
    let any_of_apple = BluetoothManufacturerDataFilter {
        data_prefix: None,
        mask: None,
        company_identifier: 0x004c,
    };
    assert!(match_manufacturer_filter(&[(0x004c, vec![])], &any_of_apple));
    assert!(!match_manufacturer_filter(&[(0x004d, vec![])], &any_of_apple));
    assert!(!match_manufacturer_filter(&[], &any_of_apple));
}

#[test]
fn service_filter_needs_a_record_of_its_service() {
    let filter = BluetoothServiceDataFilter {
        data_prefix: Some(vec![0x40]),
        mask: Some(vec![0xc0]),
        service: BluetoothServiceUUID::Number(0x180d),
    };
    assert!(match_service_filter(&[(HEART_RATE, vec![0x7f, 0x00])], &filter));
    assert!(!match_service_filter(&[(HEART_RATE, vec![0x80])], &filter));
    assert!(!match_service_filter(&[(BATTERY, vec![0x40])], &filter));
    assert!(!match_service_filter(&[], &filter));
    let by_text = BluetoothServiceDataFilter {
        data_prefix: None,
        mask: None,
        service: text("0000180d-0000-1000-8000-00805f9b34fb"),
    };
    assert!(match_service_filter(&[(BATTERY, vec![]), (HEART_RATE, vec![])], &by_text));
    assert!(!match_service_filter(&[(BATTERY, vec![])], &by_text));
    let no_uuid =
        BluetoothServiceDataFilter { data_prefix: None, mask: None, service: text("heart_rate") };
    assert!(!match_service_filter(&[(HEART_RATE, vec![])], &no_uuid));
    assert!(!match_service_filter(&[], &no_uuid));
}

#[test]
fn manufacturer_data_criterion_is_strict() {
    let asks = manufacturer(0x004c, None, None);
    assert!(!is_manufacturer_data_match(&advertising(Some("X"), vec![]), &asks));
    assert!(!match_filter(&advertising(Some("X"), vec![]), &asks));
    assert!(!is_manufacturer_data_match(&with_manufacturer_data(vec![(0x0006, vec![1])]), &asks));
    assert!(is_manufacturer_data_match(&with_manufacturer_data(vec![(0x004c, vec![1])]), &asks));
    assert!(match_filter(&with_manufacturer_data(vec![(0x004c, vec![1])]), &asks));
    assert!(is_manufacturer_data_match(&advertising(Some("X"), vec![]), &clause()));
    let none_asked = BluetoothLEScanFilter { manufacturer_data: Some(vec![]), ..clause() };
    assert!(is_manufacturer_data_match(&advertising(None, vec![]), &none_asked));
}

#[test]
fn manufacturer_data_criterion_asks_for_every_filter() {
    let both = BluetoothLEScanFilter {
        manufacturer_data: Some(vec![
            BluetoothManufacturerDataFilter {
                data_prefix: Some(vec![1]),
                mask: None,
                company_identifier: 0x004c,
            },
            BluetoothManufacturerDataFilter {
                data_prefix: None,
                mask: None,
                company_identifier: 0x0006,
            },
        ]),
        ..clause()
    };
    assert!(is_manufacturer_data_match(
        &with_manufacturer_data(vec![(0x0006, vec![]), (0x004c, vec![1, 2])]),
        &both
    ));
    assert!(!is_manufacturer_data_match(
        &with_manufacturer_data(vec![(0x004c, vec![1, 2])]),
        &both
    ));
    assert!(!is_manufacturer_data_match(&with_manufacturer_data(vec![(0x0006, vec![])]), &both));
}

#[test]
fn service_data_criterion_is_strict() {
    let asks = service_data(BluetoothServiceUUID::Number(0x180d), Some(vec![7]), None);
    assert!(!is_service_data_match(&advertising(Some("X"), vec![HEART_RATE]), &asks));
    assert!(!match_filter(&advertising(Some("X"), vec![HEART_RATE]), &asks));
    assert!(!is_service_data_match(&with_service_data(vec![(BATTERY, vec![7])]), &asks));
    assert!(!is_service_data_match(&with_service_data(vec![(HEART_RATE, vec![8])]), &asks));
    assert!(is_service_data_match(&with_service_data(vec![(HEART_RATE, vec![7, 8])]), &asks));
    assert!(match_filter(&with_service_data(vec![(HEART_RATE, vec![7, 8])]), &asks));
    assert!(is_service_data_match(&advertising(None, vec![]), &clause()));
}

#[test]
fn data_criteria_count_in_a_clause_and_in_the_options() {
    let only_manufacturer = manufacturer(0x004c, None, None);
    let named = advertising(Some("X"), vec![]);
    let request = options(None, Some(vec![only_manufacturer.clone()]));
    assert!(!match_options(&named, &request));
    assert!(match_options(&with_manufacturer_data(vec![(0x004c, vec![])]), &request));
    let with_name = BluetoothLEScanFilter { name: Some("X".to_string()), ..only_manufacturer };
    assert!(!match_filter(&named, &with_name));
    assert!(!match_filter(&with_manufacturer_data(vec![(0x004c, vec![])]), &with_name));
    let full = PeripheralProperties {
        local_name: Some("X".to_string()),
        manufacturer_data: vec![(0x004c, vec![])],
        ..PeripheralProperties::default()
    };
    assert!(match_filter(&full, &with_name));
}

#[test]
fn any_clause_suffices() {
    let by_name = BluetoothLEScanFilter { name: Some("Scale".to_string()), ..clause() };
    let by_service = BluetoothLEScanFilter {
        services: Some(vec![BluetoothServiceUUID::Number(0x180d)]),
        ..clause()
    };
    let filters = vec![by_name, by_service];
    assert!(match_any_filter(&advertising(Some("Scale"), vec![]), &filters));
    assert!(match_any_filter(&advertising(None, vec![HEART_RATE]), &filters));
    assert!(!match_any_filter(&advertising(Some("Watch"), vec![BATTERY]), &filters));
    assert!(!match_any_filter(&advertising(Some("Scale"), vec![]), &[]));
}

#[test]
fn options_accepting_all_devices_match_everything() {
    let accept_all = options(Some(true), None);
    assert!(match_options(&advertising(None, vec![]), &accept_all));
    assert!(match_options(&advertising(Some("Pixel Buds"), vec![HEART_RATE]), &accept_all));
    let with_failing_filters = options(
        Some(true),
        Some(vec![BluetoothLEScanFilter { name: Some("Scale".to_string()), ..clause() }]),
    );
    assert!(match_options(&advertising(Some("Watch"), vec![]), &with_failing_filters));
}

#[test]
fn options_with_filters_match_by_any_clause() {
    let filtered = options(
        Some(false),
        Some(vec![BluetoothLEScanFilter { name_prefix: Some("Pix".to_string()), ..clause() }]),
    );
    assert!(match_options(&advertising(Some("Pixel Buds"), vec![]), &filtered));
    assert!(!match_options(&advertising(Some("MyPix"), vec![]), &filtered));
    assert!(!match_options(&advertising(None, vec![]), &filtered));
}

#[test]
fn options_without_anything_match_nothing() {
    let peripheral = advertising(Some("Pixel Buds"), vec![HEART_RATE]);
    assert!(!match_options(&peripheral, &options(None, None)));
    assert!(!match_options(&peripheral, &options(Some(false), None)));
    assert!(!match_options(&peripheral, &options(None, Some(vec![]))));
}

#[test]
fn expression_matches_as_its_options_do() {
    let peripheral = advertising(Some("Pixel Buds"), vec![HEART_RATE]);
    assert!(match_expression(&peripheral, &FilterExpression::AcceptAll));
    let by_prefix =
        vec![BluetoothLEScanFilter { name_prefix: Some("Pix".to_string()), ..clause() }];
    assert!(match_expression(&peripheral, &FilterExpression::AnyOf(by_prefix.clone())));
    assert!(match_options(&peripheral, &options(None, Some(by_prefix))));
    let by_name = vec![BluetoothLEScanFilter { name: Some("Scale".to_string()), ..clause() }];
    assert!(!match_expression(&peripheral, &FilterExpression::AnyOf(by_name.clone())));
    assert!(!match_options(&peripheral, &options(None, Some(by_name))));
}

#[test]
fn find_match_returns_the_first_matching_candidate() {
    let expression = FilterExpression::AnyOf(vec![BluetoothLEScanFilter {
        name_prefix: Some("Pix".to_string()),
        ..clause()
    }]);
    let candidates = vec![
        Candidate { address: "AA".to_string(), properties: None, handle: 0u32 },
        Candidate {
            address: "BB".to_string(),
            properties: Some(advertising(Some("MyPix"), vec![])),
            handle: 1,
        },
        Candidate {
            address: "CC".to_string(),
            properties: Some(advertising(Some("Pixel Buds"), vec![])),
            handle: 2,
        },
        Candidate {
            address: "DD".to_string(),
            properties: Some(advertising(Some("Pixel Watch"), vec![])),
            handle: 3,
        },
    ];
    assert_eq!(find_match(&candidates, &expression), Some(2));
    assert_eq!(find_match(&candidates[..2].to_vec(), &expression), None);
    assert_eq!(find_match(&Vec::<Candidate<u32>>::new(), &expression), None);
}

#[test]
fn find_match_skips_candidates_without_properties() {
    let candidates = vec![
        Candidate { address: "AA".to_string(), properties: None, handle: 0u32 },
        Candidate {
            address: "BB".to_string(),
            properties: Some(advertising(None, vec![])),
            handle: 1,
        },
    ];
    assert_eq!(find_match(&candidates, &FilterExpression::AcceptAll), Some(1));
    assert_eq!(find_match(&candidates[..1].to_vec(), &FilterExpression::AcceptAll), None);
}
