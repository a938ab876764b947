use scene_render::effects::PostProcessingEffects;
use scene_render::shader::{
    decimal_text, effect_kernel, fixed_decimal_text, fragment_shader_source, kernel_main_code,
    point_light_uniform, FRAGMENT_HEAD, FRAGMENT_TAIL, PLAIN_MAIN,
};
use scene_render::texture::{image_from_top_rows, load_raw_image, ImageKind, ImageLoadError};

#[test]
fn decimal_texts() {
    assert_eq!(decimal_text(0), "0");
    assert_eq!(decimal_text(16), "16");
    assert_eq!(decimal_text(1234567890), "1234567890");
    assert_eq!(decimal_text(u64::MAX), u64::MAX.to_string());
}

#[test]
fn fixed_decimal_texts_are_shortest() {
    assert_eq!(fixed_decimal_text(0), "0");
    assert_eq!(fixed_decimal_text(10000), "1");
    assert_eq!(fixed_decimal_text(90000), "9");
    assert_eq!(fixed_decimal_text(625), "0.0625");
    assert_eq!(fixed_decimal_text(1250), "0.125");
    assert_eq!(fixed_decimal_text(2500), "0.25");
    assert_eq!(fixed_decimal_text(5000), "0.5");
    assert_eq!(fixed_decimal_text(123456), "12.3456");
    assert_eq!(fixed_decimal_text(1), "0.0001");
}

#[test]
fn kernel_weights_read_as_float_display() {
    for (w, x) in [(625u64, 0.0625f32), (1250, 0.125), (2500, 0.25), (10000, 1.0), (90000, 9.0)] {
        assert_eq!(fixed_decimal_text(w), format!("{}", x));
    }
}

#[test]
fn point_light_uniform_names() {
    assert_eq!(point_light_uniform(0, "position"), "point_lights[0].position");
    assert_eq!(point_light_uniform(3, "quadratic"), "point_lights[3].quadratic");
}

#[test]
fn plain_effect_shows_the_frame() {
    let src = fragment_shader_source(PostProcessingEffects::NoPostProcessing);
    assert_eq!(src, format!("{}{}{}", FRAGMENT_HEAD, PLAIN_MAIN, FRAGMENT_TAIL));
    assert!(src.contains("#version 330 core"));
    assert!(src.contains("out_color = texture(screen_texture, v_tex_coords);"));
}

#[test]
fn kernel_effects_declare_their_weights() {
    let blur = fragment_shader_source(PostProcessingEffects::Blur);
    assert!(blur.contains(
        "float kernel[9] = float[](\n            0.0625, 0.125, 0.0625,\n            0.125, 0.25, 0.125,\n            0.0625, 0.125, 0.0625\n        );"
    ));
    let edges = kernel_main_code(&effect_kernel(PostProcessingEffects::Edged).unwrap());
    assert!(edges.contains("1, 1, 1,\n            1, -8, 1,\n            1, 1, 1\n"));
    let fried = fragment_shader_source(PostProcessingEffects::DeepFried);
    assert!(fried.contains("float[](\n            -1, -1, -1,\n            -1, 9, -1,\n            -1, -1, -1\n        );"));
    assert!(fried.contains("col += sampleTex[i] * kernel[i];"));
}

#[test]
fn colour_effects_use_no_kernel() {
    assert_eq!(effect_kernel(PostProcessingEffects::GrayScale), None);
    let gray = fragment_shader_source(PostProcessingEffects::GrayScale);
    assert!(gray.contains("0.2126 * out_color.r"));
    assert!(!gray.contains("kernel"));
    let inv = fragment_shader_source(PostProcessingEffects::Inversed);
    assert!(inv.contains("1.0 - texture(screen_texture, v_tex_coords)"));
}

#[test]
fn rows_are_flipped_bottom_first() {
    let top_first: Vec<u8> = (0..24).collect();
    let img = image_from_top_rows(top_first, 2, 3);
    assert_eq!((img.width, img.height), (2, 3));
    let expected: Vec<u8> = (16..24).chain(8..16).chain(0..8).collect();
    assert_eq!(img.data, expected);
}

#[test]
fn empty_image_stays_empty() {
    let img = image_from_top_rows(Vec::new(), 0, 5);
    assert!(img.data.is_empty());
}

#[test]
fn png_is_decoded_bottom_row_first() {
    let pixels: Vec<u8> = vec![
        255, 0, 0, 255, 0, 255, 0, 255, // top row: red, green
        0, 0, 255, 255, 9, 9, 9, 128, // bottom row: blue, grey
    ];
    let buffer = image::RgbaImage::from_raw(2, 2, pixels).unwrap();
    let mut bytes = std::io::Cursor::new(Vec::new());
    image::DynamicImage::ImageRgba8(buffer)
        .write_to(&mut bytes, image::ImageOutputFormat::Png)
        .unwrap();
    let img = load_raw_image(bytes.get_ref(), ImageKind::Png).unwrap();
    assert_eq!((img.width, img.height), (2, 2));
    assert_eq!(
        img.data,
        vec![0, 0, 255, 255, 9, 9, 9, 128, 255, 0, 0, 255, 0, 255, 0, 255]
    );
}

#[test]
fn garbage_is_not_an_image() {
    assert_eq!(load_raw_image(&[1, 2, 3, 4], ImageKind::Png), Err(ImageLoadError::Decode));
    assert_eq!(load_raw_image(&[], ImageKind::Jpeg), Err(ImageLoadError::Decode));
}

fn float_kernel_decl(k: [[f32; 3]; 3]) -> String {
    format!(
        "\n        float kernel[9] = float[](\n            {}, {}, {},\n            {}, {}, {},\n            {}, {}, {}\n        );\n    ",
        k[0][0], k[0][1], k[0][2], k[1][0], k[1][1], k[1][2], k[2][0], k[2][1], k[2][2]
    )
}

#[test]
fn kernel_declarations_match_float_formatting() {
    let cases = [
        (
            PostProcessingEffects::DeepFried,
            [[-1.0, -1.0, -1.0], [-1.0, 9.0, -1.0], [-1.0, -1.0, -1.0]],
        ),
        (
            PostProcessingEffects::Blur,
            [
                [1.0 / 16.0, 2.0 / 16.0, 1.0 / 16.0],
                [2.0 / 16.0, 4.0 / 16.0, 2.0 / 16.0],
                [1.0 / 16.0, 2.0 / 16.0, 1.0 / 16.0],
            ],
        ),
        (
            PostProcessingEffects::Edged,
            [[1.0, 1.0, 1.0], [1.0, -8.0, 1.0], [1.0, 1.0, 1.0]],
        ),
    ];
    for (effect, kernel) in cases {
        let source = fragment_shader_source(effect);
        assert!(source.contains(&float_kernel_decl(kernel)), "{:?}", effect);
    }
}

#[test]
fn image_without_rows_is_not_flipped() {
    let img = image_from_top_rows(Vec::new(), 1 << 30, 0);
    assert!(img.data.is_empty());
    assert_eq!((img.width, img.height), (1 << 30, 0));
}
