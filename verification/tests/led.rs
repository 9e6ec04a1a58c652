use sensehat_rs::led::{clear, rgb_to_rgb565, set_pixel, Frame, FrameWrite, LedError, FRAME_BYTES};

fn packed(r: u8, g: u8, b: u8) -> u16 {
    let bytes: [u8; 2] = rgb_to_rgb565(r, g, b);
    u16::from_le_bytes(bytes)
}

#[test]
fn primary_colours_pack_to_their_fields() {
    assert_eq!(rgb_to_rgb565(255, 0, 0), [0x00, 0xF8]);
    assert_eq!(rgb_to_rgb565(0, 255, 0), [0xE0, 0x07]);
    assert_eq!(rgb_to_rgb565(0, 0, 255), [0x1F, 0x00]);
    assert_eq!(rgb_to_rgb565(255, 255, 255), [0xFF, 0xFF]);
    assert_eq!(rgb_to_rgb565(0, 0, 0), [0x00, 0x00]);
}

#[test]
fn low_bits_of_a_channel_are_cut_off() {
    assert_eq!(rgb_to_rgb565(7, 3, 7), [0x00, 0x00]);
    assert_eq!(rgb_to_rgb565(8, 4, 8), [0x21, 0x08]);
    assert_eq!(rgb_to_rgb565(15, 7, 15), [0x21, 0x08]);
    assert_eq!(rgb_to_rgb565(248, 252, 248), [0xFF, 0xFF]);
}

#[test]
fn bytes_come_low_byte_first() {
    // r5 = 0x12, g6 = 0x34 >> 2 = 0x0D, b5 = 0x56 >> 3 = 0x0A
    let value: u16 = (0x12 << 11) | (0x0D << 5) | 0x0A;
    assert_eq!(value, 0x91AA);
    assert_eq!(rgb_to_rgb565(0x90, 0x34, 0x56), [0xAA, 0x91]);
}

#[test]
fn every_colour_packs_as_the_formula_says() {
    let mut r: u16 = 0;
    while r < 256 {
        let mut g: u16 = 0;
        while g < 256 {
            let mut b: u16 = 0;
            while b < 256 {
                let want: u16 = (r / 8) * 2048 + (g / 4) * 32 + b / 8;
                assert_eq!(packed(r as u8, g as u8, b as u8), want);
                b += 5;
            }
            g += 3;
        }
        r += 1;
    }
}

#[test]
fn pixel_write_goes_to_the_pixel_offset() {
    let w: FrameWrite = set_pixel(3, 4, 255, 128, 7).unwrap();
    assert_eq!(w.offset, 70);
    assert_eq!(w.data, vec![0x00, 0xFC]);

    assert_eq!(set_pixel(0, 0, 1, 2, 3).unwrap().offset, 0);
    assert_eq!(set_pixel(7, 0, 1, 2, 3).unwrap().offset, 14);
    assert_eq!(set_pixel(0, 1, 1, 2, 3).unwrap().offset, 16);
    assert_eq!(set_pixel(7, 7, 1, 2, 3).unwrap().offset, 126);
}

#[test]
fn pixel_off_the_grid_is_refused() {
    assert_eq!(set_pixel(8, 0, 1, 2, 3), Err(LedError::OutOfGrid { x: 8, y: 0 }));
    assert_eq!(set_pixel(0, 8, 1, 2, 3), Err(LedError::OutOfGrid { x: 0, y: 8 }));
    assert_eq!(
        set_pixel(usize::MAX, usize::MAX, 0, 0, 0),
        Err(LedError::OutOfGrid { x: usize::MAX, y: usize::MAX })
    );
}

#[test]
fn set_pixel_reads_back_at_its_offset() {
    let mut frame: Frame = Frame::new();
    let mut y: usize = 0;
    while y < 8 {
        let mut x: usize = 0;
        while x < 8 {
            let r: u8 = (x * 31 + 5) as u8;
            let g: u8 = (y * 29 + 11) as u8;
            let b: u8 = (x * 8 + y) as u8;
            let before: Vec<u8> = frame.read(0, FRAME_BYTES).unwrap();
            let w: FrameWrite = set_pixel(x, y, r, g, b).unwrap();
            assert_eq!(frame.write(&w), Ok(()));

            let at: usize = (y * 8 + x) * 2;
            let pixel: Vec<u8> = frame.read(at as u64, 2).unwrap();
            assert_eq!(pixel, rgb_to_rgb565(r, g, b).to_vec());

            let after: Vec<u8> = frame.read(0, FRAME_BYTES).unwrap();
            let mut i: usize = 0;
            while i < FRAME_BYTES {
                if i != at && i != at + 1 {
                    assert_eq!(after[i], before[i]);
                }
                i += 1;
            }
            x += 1;
        }
        y += 1;
    }
}

#[test]
fn clear_is_one_write_of_the_whole_frame() {
    let w: FrameWrite = clear();
    assert_eq!(w.offset, 0);
    assert_eq!(w.data, vec![0u8; 128]);
}

#[test]
fn clear_leaves_every_byte_zero() {
    let mut frame: Frame = Frame::new();
    assert_eq!(frame.write(&set_pixel(0, 0, 255, 255, 255).unwrap()), Ok(()));
    assert_eq!(frame.write(&set_pixel(5, 2, 10, 200, 30).unwrap()), Ok(()));
    assert_eq!(frame.write(&set_pixel(7, 7, 0, 0, 255).unwrap()), Ok(()));
    assert_ne!(frame.read(0, FRAME_BYTES).unwrap(), vec![0u8; 128]);

    assert_eq!(frame.write(&clear()), Ok(()));
    assert_eq!(frame.read(0, FRAME_BYTES).unwrap(), vec![0u8; 128]);
}

#[test]
fn new_frame_is_dark() {
    let frame: Frame = Frame::new();
    assert_eq!(frame.read(0, FRAME_BYTES).unwrap(), vec![0u8; 128]);
}

#[test]
fn write_past_the_end_is_refused_and_changes_nothing() {
    let mut frame: Frame = Frame::new();
    assert_eq!(frame.write(&set_pixel(7, 7, 255, 255, 255).unwrap()), Ok(()));
    let before: Vec<u8> = frame.read(0, FRAME_BYTES).unwrap();

    let w: FrameWrite = FrameWrite { offset: 127, data: vec![1, 2] };
    assert_eq!(frame.write(&w), Err(LedError::OutOfFrame { offset: 127, len: 2 }));
    let far: FrameWrite = FrameWrite { offset: u64::MAX, data: vec![1] };
    assert_eq!(frame.write(&far), Err(LedError::OutOfFrame { offset: u64::MAX, len: 1 }));
    assert_eq!(frame.read(0, FRAME_BYTES).unwrap(), before);

    let last: FrameWrite = FrameWrite { offset: 127, data: vec![9] };
    assert_eq!(frame.write(&last), Ok(()));
    assert_eq!(frame.read(127, 1).unwrap(), vec![9]);
    let nothing: FrameWrite = FrameWrite { offset: 128, data: vec![] };
    assert_eq!(frame.write(&nothing), Ok(()));
}

#[test]
fn read_stays_inside_the_frame() {
    let frame: Frame = Frame::new();
    assert_eq!(frame.read(126, 2), Some(vec![0, 0]));
    assert_eq!(frame.read(128, 0), Some(vec![]));
    assert_eq!(frame.read(127, 2), None);
    assert_eq!(frame.read(129, 0), None);
    assert_eq!(frame.read(0, 129), None);
    assert_eq!(frame.read(u64::MAX, usize::MAX), None);
}
