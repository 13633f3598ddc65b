use autocopy::config::Config;
use autocopy::icon::{decode_icon_png, render_frame, to_rgba8, BitDepth, ColorType, IconError};
use autocopy::menu::{handle_menu_event, MenuAction};
use autocopy::selection::{has_text_selection, SelectedTextAttribute};

#[test]
fn enabled_click_toggles_and_asks_to_save() {
    let mut cfg = Config { enabled: true, action_delay_ms: 70 };
    assert_eq!(handle_menu_event(&mut cfg, "1001", "1002", "1001"), MenuAction::SaveConfig);
    assert_eq!(cfg, Config { enabled: false, action_delay_ms: 70 });
    assert_eq!(handle_menu_event(&mut cfg, "1001", "1002", "1001"), MenuAction::SaveConfig);
    assert_eq!(cfg, Config { enabled: true, action_delay_ms: 70 });
}

#[test]
fn quit_and_unknown_clicks_leave_the_config() {
    let mut cfg = Config { enabled: true, action_delay_ms: 50 };
    assert_eq!(handle_menu_event(&mut cfg, "1002", "1002", "1001"), MenuAction::Quit);
    assert_eq!(handle_menu_event(&mut cfg, "9", "1002", "1001"), MenuAction::Nothing);
    assert_eq!(cfg, Config { enabled: true, action_delay_ms: 50 });
}

#[test]
fn selection_answer_has_three_states() {
    assert_eq!(has_text_selection(SelectedTextAttribute::Text { char_len: 3 }), Some(true));
    assert_eq!(has_text_selection(SelectedTextAttribute::Text { char_len: 0 }), Some(false));
    assert_eq!(has_text_selection(SelectedTextAttribute::NotText), None);
    assert_eq!(has_text_selection(SelectedTextAttribute::Unavailable), None);
}

#[test]
fn rgba_passes_through() {
    let buf = [1, 2, 3, 4, 5, 6, 7, 8, 9];
    assert_eq!(to_rgba8(&buf, ColorType::Rgba, BitDepth::Eight), buf.to_vec());
}

#[test]
fn rgb_gets_opaque_alpha() {
    let buf = [10, 20, 30, 40, 50, 60, 70];
    assert_eq!(
        to_rgba8(&buf, ColorType::Rgb, BitDepth::Eight),
        vec![10, 20, 30, 255, 40, 50, 60, 255]
    );
}

#[test]
fn gray_is_replicated() {
    assert_eq!(
        to_rgba8(&[7, 200], ColorType::Grayscale, BitDepth::Eight),
        vec![7, 7, 7, 255, 200, 200, 200, 255]
    );
    assert_eq!(
        to_rgba8(&[7, 9, 200, 0, 1], ColorType::GrayscaleAlpha, BitDepth::Eight),
        vec![7, 7, 7, 9, 200, 200, 200, 0]
    );
}

fn encode_png(width: u32, height: u32, color: png::ColorType, data: &[u8]) -> Vec<u8> {
    let mut out = Vec::new();
    {
        let mut encoder = png::Encoder::new(&mut out, width, height);
        encoder.set_color(color);
        encoder.set_depth(png::BitDepth::Eight);
        let mut writer = encoder.write_header().unwrap();
        writer.write_image_data(data).unwrap();
    }
    out
}

#[test]
fn decoded_icon_is_rgba() {
    let data = [0, 0, 0, 0, 255, 255, 255, 200, 1, 2, 3, 255, 9, 9, 9, 129];
    let bytes = encode_png(2, 2, png::ColorType::Rgba, &data);
    let (rgba, width, height) = decode_icon_png(&bytes).unwrap();
    assert_eq!((width, height), (2, 2));
    assert_eq!(rgba.len(), (width * height * 4) as usize);
    assert_eq!(rgba, data.to_vec());
    let opaque_pixels = rgba.chunks_exact(4).filter(|p| p[3] > 128).count();
    assert_eq!(opaque_pixels, 3);
}

#[test]
fn decoded_rgb_icon_is_normalised() {
    let data = [1, 2, 3, 4, 5, 6];
    let bytes = encode_png(2, 1, png::ColorType::Rgb, &data);
    let (rgba, width, height) = decode_icon_png(&bytes).unwrap();
    assert_eq!((width, height), (2, 1));
    assert_eq!(rgba, vec![1, 2, 3, 255, 4, 5, 6, 255]);
}

#[test]
fn garbage_is_not_an_icon() {
    assert_eq!(decode_icon_png(b"not a png").unwrap_err(), IconError::InvalidHeader);
    let mut truncated = encode_png(2, 2, png::ColorType::Rgba, &[5; 16]);
    truncated.truncate(truncated.len() - 20);
    assert!(decode_icon_png(&truncated).is_err());
}

#[test]
fn decoded_tall_gray_alpha_icon_keeps_its_shape() {
    let data = [9, 200, 40, 0];
    let bytes = encode_png(1, 2, png::ColorType::GrayscaleAlpha, &data);
    let (rgba, width, height) = decode_icon_png(&bytes).unwrap();
    assert_eq!((width, height), (1, 2));
    assert_eq!(rgba, vec![9, 9, 9, 200, 40, 40, 40, 0]);
}

#[test]
fn app_icon_decodes() {
    // A generated stand-in for the embedded icon: an 8x8 RGBA disc whose
    // colour channels are irrelevant and whose alpha carries the shape.
    let mut data = Vec::new();
    for y in 0..8i32 {
        for x in 0..8i32 {
            let inside = (x - 4) * (x - 4) + (y - 4) * (y - 4) <= 9;
            data.extend_from_slice(&[0, 0, 0, if inside { 255 } else { 0 }]);
        }
    }
    let (rgba, width, height) = decode_icon_png(&encode_png(8, 8, png::ColorType::Rgba, &data)).unwrap();
    assert_eq!(rgba.len(), (width * height * 4) as usize);
    assert!(width > 0 && height > 0);

    let opaque_pixels = rgba.chunks_exact(4).filter(|p| p[3] > 128).count();
    assert!(opaque_pixels > 0, "icon should not be fully transparent");
}

#[test]
fn render_frame_follows_the_colour_code() {
    assert_eq!(render_frame(&[1, 2, 3], 2, 8), vec![1, 2, 3, 255]);
    assert_eq!(render_frame(&[5], 0, 8), vec![5, 5, 5, 255]);
    assert_eq!(render_frame(&[5, 6], 4, 8), vec![5, 5, 5, 6]);
    assert_eq!(render_frame(&[1, 2, 3, 4, 5], 6, 8), vec![1, 2, 3, 4, 5]);
}
