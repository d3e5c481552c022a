use frame_uniform::uniform::word_to_bytes;
use frame_uniform::uniform::Size;
use frame_uniform::uniform::Uniform;
use frame_uniform::uniform::UNIFORM_SIZE;

fn read_word(bytes: &[u8], at: usize) -> u32 {
    u32::from_le_bytes([bytes[at], bytes[at + 1], bytes[at + 2], bytes[at + 3]])
}

#[test]
fn word_bytes_are_least_significant_first() {
    assert_eq!(word_to_bytes(0x1234_5678), [0x78, 0x56, 0x34, 0x12]);
}

#[test]
fn word_bytes_of_zero_and_of_the_largest_word() {
    assert_eq!(word_to_bytes(0), [0, 0, 0, 0]);
    assert_eq!(word_to_bytes(u32::MAX), [0xff, 0xff, 0xff, 0xff]);
}

#[test]
fn word_bytes_of_each_power_of_256() {
    assert_eq!(word_to_bytes(1), [1, 0, 0, 0]);
    assert_eq!(word_to_bytes(256), [0, 1, 0, 0]);
    assert_eq!(word_to_bytes(65536), [0, 0, 1, 0]);
    assert_eq!(word_to_bytes(16777216), [0, 0, 0, 1]);
    assert_eq!(word_to_bytes(255), [255, 0, 0, 0]);
}

#[test]
fn word_bytes_agree_with_the_standard_library() {
    for x in [0u32, 1, 255, 256, 65535, 65536, 0x00ff_ff00, 0x8000_0000, 0xdead_beef, u32::MAX] {
        assert_eq!(word_to_bytes(x), x.to_le_bytes());
    }
}

#[test]
fn new_keeps_both_fields() {
    let size = Size { width: 640, height: 480 };
    let u = Uniform::new(7, size);
    assert_eq!(u, Uniform { secs: 7, size });
}

#[test]
fn layout_of_a_known_block() {
    let u = Uniform::new(1.0f32.to_bits(), Size { width: 800, height: 600 });
    assert_eq!(
        u.to_bytes(),
        [0x00, 0x00, 0x80, 0x3f, 0, 0, 0, 0, 0x20, 0x03, 0x00, 0x00, 0x58, 0x02, 0x00, 0x00]
    );
}

#[test]
fn layout_is_sixteen_bytes() {
    let u = Uniform::new(0, Size { width: 0, height: 0 });
    assert_eq!(u.to_bytes().len(), UNIFORM_SIZE);
    assert_eq!(UNIFORM_SIZE, 16);
    assert_eq!(u.to_bytes(), [0u8; 16]);
}

#[test]
fn layout_pads_with_zeros_between_time_and_size() {
    let u = Uniform::new(u32::MAX, Size { width: u32::MAX, height: u32::MAX });
    let bytes = u.to_bytes();
    assert_eq!(&bytes[0..4], &[0xff; 4]);
    assert_eq!(&bytes[4..8], &[0; 4]);
    assert_eq!(&bytes[8..16], &[0xff; 8]);
}

#[test]
fn layout_keeps_width_before_height() {
    let u = Uniform::new(0, Size { width: 1, height: 2 });
    assert_eq!(u.to_bytes(), [0, 0, 0, 0, 0, 0, 0, 0, 1, 0, 0, 0, 2, 0, 0, 0]);
}

#[test]
fn fields_read_back_from_their_offsets() {
    let secs = 12.75f32;
    let u = Uniform::new(secs.to_bits(), Size { width: 1920, height: 1080 });
    let bytes = u.to_bytes();
    assert_eq!(f32::from_bits(read_word(&bytes, 0)), secs);
    assert_eq!(read_word(&bytes, 4), 0);
    assert_eq!(read_word(&bytes, 8), 1920);
    assert_eq!(read_word(&bytes, 12), 1080);
}

#[test]
fn different_blocks_have_different_bytes() {
    let a = Uniform::new(1, Size { width: 2, height: 3 });
    let b = Uniform::new(1, Size { width: 3, height: 2 });
    let c = Uniform::new(2, Size { width: 2, height: 3 });
    assert_ne!(a.to_bytes(), b.to_bytes());
    assert_ne!(a.to_bytes(), c.to_bytes());
    assert_eq!(a.to_bytes(), Uniform::new(1, Size { width: 2, height: 3 }).to_bytes());
}
