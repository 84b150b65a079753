use render_engine::descriptor::TextureUsages;
use render_engine::surface::{
    initial_surface_config, preferred_format, select_surface_format, SurfaceConfig,
};
use wgpu::TextureFormat;

#[test]
fn first_gamma_encoded_format_is_preferred() {
    assert_eq!(preferred_format(&[false, true, false, true]), Some(1));
    assert_eq!(preferred_format(&[true, true]), Some(0));
    assert_eq!(preferred_format(&[false, false, false, true]), Some(3));
}

#[test]
fn first_format_is_taken_where_none_is_gamma_encoded() {
    assert_eq!(preferred_format(&[false]), Some(0));
    assert_eq!(preferred_format(&[false, false, false]), Some(0));
}

#[test]
fn nothing_is_preferred_where_nothing_is_offered() {
    assert_eq!(preferred_format(&[]), None);
    assert_eq!(select_surface_format(&[]), None);
}

#[test]
fn surface_format_is_the_first_srgb_one() {
    let formats = [
        TextureFormat::Bgra8Unorm,
        TextureFormat::Rgba8Unorm,
        TextureFormat::Bgra8UnormSrgb,
        TextureFormat::Rgba8UnormSrgb,
    ];
    assert_eq!(select_surface_format(&formats), Some(2));
    assert_eq!(select_surface_format(&formats[3..]), Some(0));
    assert_eq!(select_surface_format(&formats[1..]), Some(1));
}

#[test]
fn surface_format_falls_back_to_the_first() {
    let formats =
        [TextureFormat::Rgba16Float, TextureFormat::Bgra8Unorm, TextureFormat::Rgb10a2Unorm];
    assert_eq!(select_surface_format(&formats), Some(0));
    assert_eq!(select_surface_format(&formats[1..]), Some(0));
}

#[test]
fn srgb_is_told_from_its_linear_twin() {
    assert_eq!(
        select_surface_format(&[TextureFormat::Rgba8Unorm, TextureFormat::Rgba8UnormSrgb]),
        Some(1)
    );
    assert_eq!(
        select_surface_format(&[TextureFormat::Rgba8UnormSrgb, TextureFormat::Rgba8Unorm]),
        Some(0)
    );
    assert_eq!(
        select_surface_format(&[TextureFormat::Bc1RgbaUnorm, TextureFormat::Bc1RgbaUnormSrgb]),
        Some(1)
    );
}

#[test]
fn selection_agrees_with_the_flags_of_the_formats() {
    let formats = [
        TextureFormat::R8Unorm,
        TextureFormat::Bgra8Unorm,
        TextureFormat::Etc2Rgb8UnormSrgb,
        TextureFormat::Bgra8UnormSrgb,
    ];
    for start in 0..formats.len() {
        let offered = &formats[start..];
        let flags: Vec<bool> = offered.iter().map(|format| format.is_srgb()).collect();
        assert_eq!(select_surface_format(offered), preferred_format(&flags));
    }
}

#[test]
fn surface_starts_in_the_size_of_the_window() {
    let formats = [TextureFormat::Bgra8Unorm, TextureFormat::Bgra8UnormSrgb];
    assert_eq!(
        initial_surface_config(&formats, 3, 2, 1200, 800),
        Some(SurfaceConfig {
            usage: TextureUsages {
                copy_src: false,
                copy_dst: false,
                texture_binding: false,
                storage_binding: false,
                render_attachment: true,
            },
            format: 1,
            width: 1200,
            height: 800,
            present_mode: 0,
            alpha_mode: 0,
            desired_maximum_frame_latency: 1,
        })
    );
}

#[test]
fn surface_that_offers_nothing_cannot_be_configured() {
    let formats = [TextureFormat::Bgra8UnormSrgb];
    assert_eq!(initial_surface_config(&[], 1, 1, 1, 1), None);
    assert_eq!(initial_surface_config(&formats, 0, 1, 1, 1), None);
    assert_eq!(initial_surface_config(&formats, 1, 0, 1, 1), None);
    assert_eq!(initial_surface_config(&[], 0, 0, 1, 1), None);
    assert!(initial_surface_config(&formats, 1, 1, 0, 0).is_some());
}
