use oled::lidar::Lidar;

#[test]
fn noise_filter_starts_disabled_and_toggles() {
    let mut lidar = Lidar::new();
    assert!(!lidar.noise_filter());
    lidar.set_noise_filter(true);
    assert!(lidar.noise_filter());
    lidar.set_noise_filter(false);
    assert!(!lidar.noise_filter());
}

#[test]
fn packet_analysis_accepts_every_byte() {
    let lidar = Lidar::new();
    for byte in 0..=255u8 {
        assert_eq!(lidar.analysis_one_pkg(byte), Ok(()));
    }
}
