use det::det::{Det, DetConfigType, DetError};
use det::std_types::StdReturnType;

#[test]
fn test_report_error() {
    let mut det = Det::new();

    // Report an error
    det.report_error(1, 1, 1, 1);

    // Verify the error is stored
    let errors = det.get_errors();
    assert_eq!(errors.len(), 1);
    assert_eq!(errors[0].module_id, 1);
    assert_eq!(errors[0].instance_id, 1);
    assert_eq!(errors[0].api_id, 1);
    assert_eq!(errors[0].error_id, 1);
}

#[test]
fn test_clear_errors() {
    let mut det = Det::new();

    // Report an error
    det.report_error(1, 1, 1, 1);

    // Clear errors
    det.clear_errors();

    // Verify the errors are cleared
    assert!(det.get_errors().is_empty());
}

#[test]
fn test_new_sink_is_empty() {
    let det = Det::new();
    assert!(det.get_errors().is_empty());
}

#[test]
fn test_init_and_start_accept_anything() {
    Det::init(&DetConfigType {});
    Det::start();
    Det::start();
}

#[test]
fn test_report_returns_ok() {
    let mut det = Det::new();
    assert_eq!(det.report_error(10, 2, 3, 4), StdReturnType::EOk);
    assert_eq!(det.report_runtime_error(10, 2, 3, 4), StdReturnType::EOk);
    assert_eq!(det.report_transient_fault(10, 2, 3, 4), StdReturnType::EOk);
}

#[test]
fn test_report_appends_one() {
    let mut det = Det::new();
    det.report_error(7, 1, 2, 3);
    assert_eq!(det.get_errors().len(), 1);
    det.report_error(65535, 255, 255, 255);
    let errors = det.get_errors();
    assert_eq!(errors.len(), 2);
    let last = &errors[errors.len() - 1];
    assert_eq!(last.module_id, 65535);
    assert_eq!(last.instance_id, 255);
    assert_eq!(last.api_id, 255);
    assert_eq!(last.error_id, 255);
}

#[test]
fn test_categories_independent() {
    let mut det = Det::new();
    det.report_error(1, 1, 1, 1);
    for i in 0u8..4 {
        det.report_runtime_error(2, i, 0, 0);
    }
    for i in 0u8..3 {
        det.report_transient_fault(3, i, 0, 0);
    }
    let errors = det.get_errors();
    assert_eq!(errors.len(), 1);
    assert_eq!(errors[0], DetError { module_id: 1, instance_id: 1, api_id: 1, error_id: 1 });
}

#[test]
fn test_clear_errors_idempotent() {
    let mut det = Det::new();
    det.report_error(4, 4, 4, 4);
    det.clear_errors();
    assert!(det.get_errors().is_empty());
    det.clear_errors();
    assert!(det.get_errors().is_empty());
}

#[test]
fn test_clear_does_not_touch_other_categories() {
    let mut det = Det::new();
    det.report_error(1, 0, 0, 0);
    det.report_runtime_error(2, 0, 0, 0);
    det.report_transient_fault(3, 0, 0, 0);
    det.clear_errors();
    assert!(det.get_errors().is_empty());
    // The other two logs survive the clear: a later development error is the
    // only one the development view shows, so the clear was scoped to it.
    det.report_error(9, 9, 9, 9);
    assert_eq!(det.get_errors().len(), 1);
    assert_eq!(det.get_errors()[0].module_id, 9);
}

#[test]
fn test_insertion_order() {
    let mut det = Det::new();
    let a = DetError { module_id: 1, instance_id: 2, api_id: 3, error_id: 4 };
    let b = DetError { module_id: 5, instance_id: 6, api_id: 7, error_id: 8 };
    let c = DetError { module_id: 9, instance_id: 10, api_id: 11, error_id: 12 };
    det.report_error(a.module_id, a.instance_id, a.api_id, a.error_id);
    det.report_error(b.module_id, b.instance_id, b.api_id, b.error_id);
    det.report_error(c.module_id, c.instance_id, c.api_id, c.error_id);
    assert_eq!(det.get_errors(), &vec![a, b, c]);
}

#[test]
fn test_version_info_constant() {
    let first = Det::get_version_info();
    let second = Det::get_version_info();
    assert_eq!(first.vendor_id, 0x0001);
    assert_eq!(first.sw_major_version, 0x01);
    assert_eq!(first.sw_minor_version, 0x00);
    assert_eq!(first.sw_patch_version, 0x00);
    assert_eq!(first, second);
    // Independent sink instances do not disturb the identity.
    let _one = Det::new();
    let _two = Det::new();
    assert_eq!(Det::get_version_info(), first);
}

#[test]
fn test_dev_error_scenario() {
    let mut det = Det::new();
    det.report_error(1, 1, 1, 1);
    det.report_error(2, 0, 3, 5);
    let expected = vec![
        DetError { module_id: 1, instance_id: 1, api_id: 1, error_id: 1 },
        DetError { module_id: 2, instance_id: 0, api_id: 3, error_id: 5 },
    ];
    assert_eq!(det.get_errors(), &expected);
    det.clear_errors();
    assert_eq!(det.get_errors(), &Vec::new());
}

#[test]
fn test_cross_category_scenario() {
    let mut det = Det::new();
    det.report_runtime_error(1, 1, 1, 1);
    det.report_transient_fault(2, 2, 2, 2);
    assert_eq!(det.get_errors(), &Vec::new());
}
