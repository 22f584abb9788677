use rm32::functions::{get_abs_dif, update_crc8, get_crc8};

#[test]
fn test_map_basic() {
    assert_eq!(rm32::functions::map(50, 0, 100, 0, 1000), 500);
    assert_eq!(rm32::functions::map(0, 0, 100, 0, 1000), 0);
    assert_eq!(rm32::functions::map(100, 0, 100, 0, 1000), 1000);
}

#[test]
fn test_map_clamp() {
    assert_eq!(rm32::functions::map(-10, 0, 100, 0, 1000), 0);
    assert_eq!(rm32::functions::map(200, 0, 100, 0, 1000), 1000);
}

#[test]
fn test_get_abs_dif() {
    assert_eq!(get_abs_dif(10, 3), 7);
    assert_eq!(get_abs_dif(3, 10), 7);
    assert_eq!(get_abs_dif(5, 5), 0);
}

#[test]
fn test_crc8() {
    let data = [0x01, 0x02, 0x03, 0x04];
    let crc = get_crc8(&data);
    assert_eq!(crc, get_crc8(&data));
    assert_ne!(crc, 0);
}

#[test]
fn test_map_inverted_range() {
    // Inverted input range: in_min=100 > in_max=0
    // map(50, 100, 0, 0, 1000): 50 is midpoint → 500
    assert_eq!(rm32::functions::map(50, 100, 0, 0, 1000), 500);
    // Below range: clamped to 0 → maps to out_max=1000
    assert_eq!(rm32::functions::map(-5, 100, 0, 0, 1000), 1000);
    // At in_min=100 → maps to out_min=0
    assert_eq!(rm32::functions::map(100, 100, 0, 0, 1000), 0);
}

#[test]
fn test_map_same_output() {
    assert_eq!(rm32::functions::map(50, 0, 100, 500, 500), 500);
}

#[test]
fn test_crc8_empty() {
    assert_eq!(get_crc8(&[]), 0);
}

#[test]
fn test_crc8_single_byte() {
    let crc = get_crc8(&[0xFF]);
    assert_ne!(crc, 0);
}

#[test]
fn test_abs_dif_large() {
    assert_eq!(get_abs_dif(0, -1000), 1000);
    assert_eq!(get_abs_dif(-1000, 0), 1000);
}
