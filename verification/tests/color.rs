use rbxl_brs::color::{linear_to_srgb, Color, Color3, SRGB_ONE, SRGB_TABLE};

fn transfer(channel: u8) -> f64 {
    let c = f64::from(channel) / 255.0;
    if c > 0.0031308 {
        1.055 * c.powf(1.0 / 2.4) - 0.055
    } else {
        12.92 * c
    }
}

#[test]
fn table_holds_the_transfer_function() {
    for channel in 0u8..=255 {
        let encoded = f64::from(linear_to_srgb(channel)) / f64::from(SRGB_ONE);
        assert!(
            (encoded - transfer(channel)).abs() <= 0.5000001e-9,
            "channel {}: {} against {}",
            channel,
            encoded,
            transfer(channel)
        );
    }
}

#[test]
fn encoding_reads_the_table() {
    for channel in 0u8..=255 {
        assert_eq!(linear_to_srgb(channel), SRGB_TABLE[usize::from(channel)]);
    }
}

#[test]
fn encoding_stays_between_zero_and_one() {
    assert_eq!(linear_to_srgb(0), 0);
    assert_eq!(linear_to_srgb(255), SRGB_ONE);
    for channel in 0u8..=255 {
        assert!(linear_to_srgb(channel) <= SRGB_ONE);
    }
}

#[test]
fn encoding_never_decreases() {
    for channel in 0u8..255 {
        assert!(linear_to_srgb(channel) <= linear_to_srgb(channel + 1));
    }
}

#[test]
fn encoding_of_some_channels() {
    assert_eq!(linear_to_srgb(1), 49_840_090);
    assert_eq!(linear_to_srgb(128), 736_646_942);
    assert_eq!(SRGB_ONE, 1_000_000_000);
}

#[test]
fn colour_is_encoded_channel_by_channel() {
    let color = Color::new(255, 0, 128, 7);
    assert_eq!(color, Color { r: 255, g: 0, b: 128, a: 7 });
    assert_eq!(color.to_srgb(), Color3 { r: 1_000_000_000, g: 0, b: 736_646_942 });
    let opaque = Color::new(255, 0, 128, 255);
    assert_eq!(opaque.to_srgb(), color.to_srgb());
}
