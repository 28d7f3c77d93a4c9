use hidpp::descriptor::Field;
use hidpp::descriptor::InputReport;
use hidpp::descriptor::ReportDescriptor;
use hidpp::descriptor::UsageRange;

fn range(usage_page: u16, minimum: u16, maximum: u16) -> UsageRange {
    UsageRange { usage_page, minimum, maximum }
}

#[test]
fn usage_range_holds_its_bounds_and_what_is_between() {
    let r = range(0xff00, 2, 4);
    assert!(r.lookup_usage(0xff00, 2));
    assert!(r.lookup_usage(0xff00, 3));
    assert!(r.lookup_usage(0xff00, 4));
    assert!(!r.lookup_usage(0xff00, 1));
    assert!(!r.lookup_usage(0xff00, 5));
    assert!(!r.lookup_usage(0xff01, 3));
    assert!(!range(1, 5, 2).lookup_usage(1, 3));
}

#[test]
fn only_arrays_have_a_usage_range() {
    assert_eq!(Field::Variable.usage_range(), None);
    assert_eq!(Field::Constant.usage_range(), None);
    assert_eq!(Field::Array(None).usage_range(), None);
    assert_eq!(Field::Array(Some(range(1, 2, 3))).usage_range(), Some(range(1, 2, 3)));
}

#[test]
fn first_field_decides() {
    let report = InputReport {
        report_id: Some(0x10),
        fields: vec![Field::Variable, Field::Array(Some(range(0xff00, 1, 1)))],
    };
    assert!(!report.first_field_has_usage(0xff00, 1));
    let report = InputReport {
        report_id: Some(0x10),
        fields: vec![Field::Array(Some(range(0xff00, 1, 1))), Field::Variable],
    };
    assert!(report.first_field_has_usage(0xff00, 1));
    assert!(!report.first_field_has_usage(0xff00, 2));
    let report = InputReport { report_id: Some(0x10), fields: vec![] };
    assert!(!report.first_field_has_usage(0xff00, 1));
    let report = InputReport { report_id: Some(0x10), fields: vec![Field::Array(None)] };
    assert!(!report.first_field_has_usage(0xff00, 1));
}

#[test]
fn report_is_found_by_its_id() {
    let a = InputReport { report_id: Some(1), fields: vec![Field::Variable] };
    let b = InputReport { report_id: Some(0x10), fields: vec![Field::Constant] };
    let c = InputReport { report_id: Some(0x10), fields: vec![Field::Variable] };
    let descriptor = ReportDescriptor { input_reports: vec![a.clone(), b.clone(), c] };
    assert_eq!(descriptor.find_input_report(1), Some(&a));
    assert_eq!(descriptor.find_input_report(0x10), Some(&b));
    assert_eq!(descriptor.find_input_report(0x11), None);
    assert_eq!(ReportDescriptor { input_reports: vec![] }.find_input_report(1), None);
}

#[test]
fn descriptor_without_report_ids_has_one_report_for_all() {
    let only = InputReport { report_id: None, fields: vec![Field::Array(Some(range(0xff00, 1, 2)))] };
    let descriptor = ReportDescriptor { input_reports: vec![only.clone()] };
    assert_eq!(descriptor.find_input_report(0x10), Some(&only));
    assert_eq!(descriptor.find_input_report(0x77), Some(&only));
    assert!(descriptor.supports_usage(0x10, 0xff00, 1));
    assert!(descriptor.supports_usage(0x11, 0xff00, 2));
    assert!(!descriptor.supports_usage(0x11, 0xff00, 3));
}

#[test]
fn usage_is_supported_on_the_report_with_the_id_only() {
    let descriptor = ReportDescriptor {
        input_reports: vec![
            InputReport { report_id: Some(2), fields: vec![Field::Array(Some(range(0xff00, 1, 1)))] },
            InputReport { report_id: Some(0x10), fields: vec![Field::Array(Some(range(0xff00, 2, 2)))] },
        ],
    };
    assert!(!descriptor.supports_usage(0x10, 0xff00, 1));
    assert!(descriptor.supports_usage(0x10, 0xff00, 2));
    assert!(descriptor.supports_usage(2, 0xff00, 1));
    assert!(!descriptor.supports_usage(3, 0xff00, 1));
}
