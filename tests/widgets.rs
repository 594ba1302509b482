use avg_ui::config::GameConfig;
use avg_ui::dropdown::DropDownOptions;
use avg_ui::images::{is_supported_image_format, plan_for_extension, resize_plan, ImageKind, ResizeError};
use avg_ui::text::string_auto_split;
use avg_ui::widgets::{
    audio_button_label, audio_toggle, toggle_fields, AudioCommand, BoxShade, Checkbox, Interaction,
    Playback, Visibility,
};

#[test]
fn auto_split_breaks_pieces_at_line_length() {
    assert_eq!(string_auto_split("ab,cde", 20, 10), "abcd\ne");
    assert_eq!(string_auto_split("abcdefg", 35, 10), "abc\ndef\ng");
}

#[test]
fn auto_split_drops_commas_and_restarts_count() {
    assert_eq!(string_auto_split("abc,abc,", 30, 10), "abcabc");
    assert_eq!(string_auto_split(",,", 30, 10), "");
    assert_eq!(string_auto_split("", 30, 10), "");
}

#[test]
fn auto_split_with_zero_line_length() {
    assert_eq!(string_auto_split("ab,c", 5, 10), "\nab\nc");
}

#[test]
fn auto_split_counts_unicode_scalars() {
    assert_eq!(string_auto_split("欢迎游玩DS", 1280, 35), "欢迎游玩DS");
    assert_eq!(string_auto_split("欢迎游玩", 70, 35), "欢迎\n游玩");
}

#[test]
fn supported_image_formats() {
    for ext in ["png", "jpg", "jpeg", "bmp", "gif", "tiff", "webp"] {
        assert!(is_supported_image_format(ext));
    }
    assert!(!is_supported_image_format("PNG"));
    assert!(!is_supported_image_format("txt"));
    assert!(!is_supported_image_format(""));
}

#[test]
fn resize_plan_lowercases_extension() {
    let plan = resize_plan("dir/photo.PNG").unwrap();
    assert_eq!(plan.kind, ImageKind::Png);
    assert_eq!(plan.output_path, "dir/photo.PNG_resized.png");
}

#[test]
fn resize_plan_trims_extension_and_dot() {
    let plan = resize_plan("images/bg2.jpeg").unwrap();
    assert_eq!(plan.kind, ImageKind::Jpeg);
    assert_eq!(plan.output_path, "images/bg2_resized.jpeg");
    let gif = resize_plan("a.b.gif").unwrap();
    assert_eq!(gif.kind, ImageKind::Gif);
    assert_eq!(gif.output_path, "a.b_resized.gif");
    let bmp = resize_plan("x.bmp").unwrap();
    assert_eq!(bmp.kind, ImageKind::Bmp);
    let jpg = resize_plan("x.jpg").unwrap();
    assert_eq!(jpg.kind, ImageKind::Jpeg);
}

#[test]
fn resize_plan_rejects_other_formats() {
    assert!(matches!(resize_plan("notes.txt"), Err(ResizeError::UnsupportedFormat)));
    assert!(matches!(resize_plan("noext"), Err(ResizeError::UnsupportedFormat)));
    assert!(matches!(resize_plan("pic.webp"), Err(ResizeError::UnsupportedFormat)));
}

#[test]
fn plan_trims_repeated_extension() {
    let plan = plan_for_extension("pic.pngpng", "png").unwrap();
    assert_eq!(plan.output_path, "pic_resized.png");
    let twice = plan_for_extension("pic.png.png", "png").unwrap();
    assert_eq!(twice.output_path, "pic.png_resized.png");
    let dots = plan_for_extension("pic..png", "png").unwrap();
    assert_eq!(dots.output_path, "pic_resized.png");
    assert!(matches!(plan_for_extension("pic.png", "PNG"), Err(ResizeError::UnsupportedFormat)));
}

fn options() -> Vec<String> {
    vec!["720p".to_string(), "1080p".to_string(), "720p".to_string()]
}

#[test]
fn dropdown_from_option_takes_last_match() {
    let d = DropDownOptions::from_option(options(), "720p".to_string());
    assert_eq!(d.selected_index, 2);
    assert_eq!(d.selected_option, "720p");
    assert_eq!(d.options, options());
}

#[test]
fn dropdown_from_missing_option_is_empty() {
    let d = DropDownOptions::from_option(options(), "4k".to_string());
    assert_eq!(d.selected_index, 0);
    assert_eq!(d.selected_option, "");
}

#[test]
fn dropdown_select_moves_index() {
    let mut d = DropDownOptions::from_option(options(), "720p".to_string());
    d.select("1080p".to_string());
    assert_eq!(d.selected_index, 1);
    assert_eq!(d.selected_option, "1080p");
    d.select("other".to_string());
    assert_eq!(d.selected_index, 1);
    assert_eq!(d.selected_option, "other");
}

#[test]
fn checkbox_press_toggles_and_hover_shades() {
    let mut c = Checkbox::default();
    assert!(!c.checked);
    assert_eq!(c.size, 20);
    assert_eq!(c.interact(Interaction::Pressed), None);
    assert!(c.checked);
    assert!(c.shows_check());
    assert_eq!(c.interact(Interaction::Hovered), Some(BoxShade::Hovered));
    assert_eq!(c.interact(Interaction::Idle), Some(BoxShade::Normal));
    assert!(c.checked);
}

#[test]
fn disabled_checkbox_ignores_pointer() {
    let mut c = Checkbox { checked: true, size: 24, disabled: true };
    assert_eq!(c.interact(Interaction::Pressed), None);
    assert!(c.checked);
    assert_eq!(c.interact(Interaction::Hovered), None);
}

#[test]
fn toggle_fields_flips_until_always_visible() {
    let mut fields = vec![Visibility::Inherited, Visibility::Hidden];
    toggle_fields(&mut fields);
    assert_eq!(fields, vec![Visibility::Hidden, Visibility::Inherited]);
    let mut mixed = vec![Visibility::Hidden, Visibility::Visible, Visibility::Inherited];
    toggle_fields(&mut mixed);
    assert_eq!(mixed, vec![Visibility::Inherited, Visibility::Visible, Visibility::Inherited]);
}

#[test]
fn audio_button_pauses_and_resumes() {
    assert_eq!(audio_toggle(Playback::Playing), Some(AudioCommand::Pause));
    assert_eq!(audio_toggle(Playback::Paused), Some(AudioCommand::Resume));
    assert_eq!(audio_toggle(Playback::Stopped), None);
    assert_eq!(audio_toggle(Playback::Queued), None);
    assert_eq!(audio_button_label(AudioCommand::Pause), "StopPlay");
    assert_eq!(audio_button_label(AudioCommand::Resume), "AudioPlay");
}

#[test]
fn default_config_is_720p() {
    let c = GameConfig::default();
    assert_eq!(c.resolution, (1280, 720));
    assert_eq!(c.title, "Nooly's AVG Game");
    assert_eq!(c.msaa_samples, 4);
    assert_eq!(c.target_fps, 60);
}
