use upload_core::progress::{get_unit, Progress, Unit};

#[test]
fn get_0() {
    let (unit, string) = get_unit(0);
    assert_eq!(unit, Unit::Bytes);
    assert_eq!(string, "0".to_string());
}

#[test]
fn get_999() {
    let (unit, string) = get_unit(999);
    assert_eq!(unit, Unit::Bytes);
    assert_eq!(string, "999".to_string());
}

#[test]
fn get_2001() {
    let (unit, string) = get_unit(20001);
    assert_eq!(unit, Unit::Kilobytes);
    assert_eq!(string, "20".to_string());
}

#[test]
fn new_0() {
    let progress = Progress::new(0, 0);
    assert_eq!(progress.loaded(), 0);
    assert_eq!(progress.total(), 0);
    assert_eq!(progress.loaded_string().as_str(), "0");
    assert_eq!(progress.total_string().as_str(), "0");
    assert_eq!(progress.loaded_unit(), Unit::Bytes);
    assert_eq!(progress.total_unit(), Unit::Bytes);
}

#[test]
fn set_values() {
    let mut progress = Progress::new(0, 0);
    progress.set_loaded(50000);
    progress.set_total(3000000000);
    assert_eq!(progress.loaded(), 50000);
    assert_eq!(progress.total(), 3000000000);
    assert_eq!(progress.loaded_string().as_str(), "50");
    assert_eq!(progress.total_string().as_str(), "3000");
    assert_eq!(progress.loaded_unit(), Unit::Kilobytes);
    assert_eq!(progress.total_unit(), Unit::Megabytes);
}

#[test]
fn bytes_below_the_kilobyte_border() {
    for v in 0u64..10000 {
        let (unit, string) = get_unit(v);
        assert_eq!(unit, Unit::Bytes);
        assert_eq!(string, v.to_string());
    }
}

#[test]
fn border_values() {
    assert_eq!(get_unit(9999), (Unit::Bytes, "9999".to_string()));
    assert_eq!(get_unit(10000), (Unit::Kilobytes, "10".to_string()));
    assert_eq!(get_unit(20001), (Unit::Kilobytes, "20".to_string()));
    assert_eq!(get_unit(0), (Unit::Bytes, "0".to_string()));
}

#[test]
fn tier_selection() {
    assert_eq!(get_unit(9_999_999), (Unit::Kilobytes, "10000".to_string()));
    assert_eq!(get_unit(10_000_000), (Unit::Megabytes, "10".to_string()));
    assert_eq!(get_unit(9_999_999_999), (Unit::Megabytes, "10000".to_string()));
    assert_eq!(get_unit(10_000_000_000), (Unit::Gigabytes, "10".to_string()));
    assert_eq!(get_unit(999_999_999_999), (Unit::Gigabytes, "1000".to_string()));
    // The terabyte divisor is a tenth of the border: the first terabyte-tier
    // value reads "10".
    assert_eq!(get_unit(1_000_000_000_000), (Unit::Terabytes, "10".to_string()));
    assert_eq!(get_unit(2_500_000_000_000), (Unit::Terabytes, "25".to_string()));
}

#[test]
fn rounding_is_to_the_nearest_integer() {
    assert_eq!(get_unit(10_499), (Unit::Kilobytes, "10".to_string()));
    assert_eq!(get_unit(10_500), (Unit::Kilobytes, "11".to_string()));
    assert_eq!(get_unit(20_499), (Unit::Kilobytes, "20".to_string()));
    assert_eq!(get_unit(1_499_999), (Unit::Kilobytes, "1500".to_string()));
    assert_eq!(get_unit(12_499_999), (Unit::Megabytes, "12".to_string()));
    assert_eq!(get_unit(12_500_000), (Unit::Megabytes, "13".to_string()));
}

#[test]
fn unit_labels() {
    assert_eq!(Unit::Bytes.label(), "Byte");
    assert_eq!(Unit::Kilobytes.label(), "KB");
    assert_eq!(Unit::Megabytes.label(), "MB");
    assert_eq!(Unit::Gigabytes.label(), "GB");
    assert_eq!(Unit::Terabytes.label(), "TB");
}

#[test]
fn set_loaded_keeps_total() {
    let mut progress = Progress::new(100, 200);
    progress.set_loaded(150);
    assert_eq!(progress.loaded(), 150);
    assert_eq!(progress.total(), 200);
    progress.set_total(2_000_000_000);
    assert_eq!(progress.loaded(), 150);
    assert_eq!(progress.total_string().as_str(), "2000");
    assert_eq!(progress.total_unit(), Unit::Megabytes);
}
