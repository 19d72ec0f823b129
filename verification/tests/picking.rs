use radiant_core::Color;
use radiant_core::MAX_NODE_ID;
use radiant_core::color::decode_color;
use radiant_core::color::encode_id;

#[test]
fn round_trip_small_ids() {
    for id in 0u64..300 {
        let c = encode_id(id);
        assert_eq!(decode_color(c), Some(id));
    }
}

#[test]
fn round_trip_channel_boundaries() {
    for id in [
        0u64,
        1,
        254,
        255,
        256,
        65534,
        65535,
        65536,
        1 << 20,
        MAX_NODE_ID - 1,
        MAX_NODE_ID,
    ] {
        let c = encode_id(id);
        assert_eq!(decode_color(c), Some(id));
    }
}

#[test]
fn encoding_layout_low_byte_in_red() {
    // id 5 encodes as id + 1 = 6 in the red (low) channel.
    let c = encode_id(5);
    assert_eq!(c, Color { r: 6, g: 0, b: 0 });
    // id 0x01_02_03 - 1 encodes with red = 3, green = 2, blue = 1.
    let c = encode_id(0x010203 - 1);
    assert_eq!(c, Color { r: 3, g: 2, b: 1 });
    let c = encode_id(MAX_NODE_ID);
    assert_eq!(c, Color { r: 255, g: 255, b: 255 });
}

#[test]
fn zero_color_is_background() {
    assert_eq!(decode_color(Color { r: 0, g: 0, b: 0 }), None);
}

#[test]
fn encoding_is_injective_on_samples() {
    let ids = [0u64, 1, 2, 255, 256, 257, 65535, 65536, MAX_NODE_ID];
    for (ai, a) in ids.iter().enumerate() {
        for (bi, b) in ids.iter().enumerate() {
            let ca = encode_id(*a);
            let cb = encode_id(*b);
            if ai == bi {
                assert_eq!(ca, cb);
            } else {
                assert_ne!(ca, cb);
            }
        }
    }
}
