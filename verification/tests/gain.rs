use live_player::gain::{brightness_gain, volume_gain};

#[test]
fn brightness_endpoints() {
    assert_eq!(brightness_gain(0), -1_000_000);
    assert_eq!(brightness_gain(100_000), 0);
    assert_eq!(brightness_gain(200_000), 1_000_000);
    assert_eq!(brightness_gain(50_500), -495_000);
}

#[test]
fn volume_endpoints() {
    assert_eq!(volume_gain(0), 0);
    assert_eq!(volume_gain(100_000), 1_000_000);
    assert_eq!(volume_gain(33_000), 330_000);
}
