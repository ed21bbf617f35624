use work_timer::icon::{tray_icon_rgba, TRAY_ICON_SIZE};
use work_timer::wav::{chime_wav, SAMPLE_RATE};

#[test]
fn wav_header_and_samples() {
    let data = chime_wav(&vec![1i16, -1, 258]);
    assert_eq!(data.len(), 44 + 6);
    assert_eq!(&data[0..4], b"RIFF");
    assert_eq!(&data[4..8], &(36u32 + 6).to_le_bytes());
    assert_eq!(&data[8..12], b"WAVE");
    assert_eq!(&data[12..16], b"fmt ");
    assert_eq!(&data[16..20], &16u32.to_le_bytes());
    assert_eq!(&data[20..22], &1u16.to_le_bytes());
    assert_eq!(&data[22..24], &1u16.to_le_bytes());
    assert_eq!(&data[24..28], &SAMPLE_RATE.to_le_bytes());
    assert_eq!(&data[28..32], &(SAMPLE_RATE * 2).to_le_bytes());
    assert_eq!(&data[32..34], &2u16.to_le_bytes());
    assert_eq!(&data[34..36], &16u16.to_le_bytes());
    assert_eq!(&data[36..40], b"data");
    assert_eq!(&data[40..44], &6u32.to_le_bytes());
    assert_eq!(&data[44..], &[1, 0, 255, 255, 2, 1]);
}

#[test]
fn wav_without_samples_is_just_a_header() {
    let data = chime_wav(&Vec::new());
    assert_eq!(data.len(), 44);
    assert_eq!(&data[4..8], &36u32.to_le_bytes());
    assert_eq!(&data[40..44], &0u32.to_le_bytes());
}

#[test]
fn wav_extreme_samples() {
    let data = chime_wav(&vec![i16::MIN, i16::MAX]);
    assert_eq!(&data[44..], &[0x00, 0x80, 0xff, 0x7f]);
}

fn float_icon() -> Vec<u8> {
    let size = 16u32;
    let mut rgba = Vec::new();
    for y in 0..size {
        for x in 0..size {
            let cx = (x as f32 - size as f32 / 2.0 + 0.5).abs();
            let cy = (y as f32 - size as f32 / 2.0 + 0.5).abs();
            let dist = (cx * cx + cy * cy).sqrt();
            if dist < size as f32 / 2.0 - 1.0 {
                rgba.extend_from_slice(&[80, 200, 120, 255]);
            } else {
                rgba.extend_from_slice(&[0, 0, 0, 0]);
            }
        }
    }
    rgba
}

#[test]
fn tray_icon_is_a_green_disc() {
    let rgba = tray_icon_rgba();
    assert_eq!(TRAY_ICON_SIZE, 16);
    assert_eq!(rgba.len(), 16 * 16 * 4);
    assert_eq!(&rgba[0..4], &[0, 0, 0, 0]);
    let centre = (7 * 16 + 7) * 4;
    assert_eq!(&rgba[centre..centre + 4], &[80, 200, 120, 255]);
    assert_eq!(rgba, float_icon());
}

#[test]
fn tray_icon_is_symmetric() {
    let rgba = tray_icon_rgba();
    let px = |x: usize, y: usize| rgba[(y * 16 + x) * 4..(y * 16 + x) * 4 + 4].to_vec();
    for y in 0..16 {
        for x in 0..16 {
            assert_eq!(px(x, y), px(15 - x, y));
            assert_eq!(px(x, y), px(y, x));
        }
    }
}
