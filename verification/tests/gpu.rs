use microscope::filters::{GpuFilter, GpuFilterSequence};
use microscope::gpu::{plan_passes, row_layout, strip_row_padding, workgroup_count, GpuFilter as Pipeline, Pass, Texture};

#[test]
fn filter_sequences_flatten_in_order() {
    let s = GpuFilter::Sobel + (GpuFilter::BoxHBlur + GpuFilter::BoxVBlur) * 2;
    assert_eq!(
        s.to_vec(),
        vec![GpuFilter::Sobel, GpuFilter::BoxHBlur, GpuFilter::BoxVBlur, GpuFilter::BoxHBlur, GpuFilter::BoxVBlur]
    );
    let one: GpuFilterSequence = GpuFilter::GaussianHBlur.into();
    assert_eq!(one.to_vec(), vec![GpuFilter::GaussianHBlur]);
    let none = GpuFilter::Sobel * 0;
    assert_eq!(none.to_vec(), vec![]);
}

#[test]
fn filter_names() {
    assert_eq!(GpuFilter::Gaussian2dBlur20.to_string(), "gaussian_2d_blur_20");
    assert_eq!(Pipeline::GaussianVBlur.to_string(), "gaussian_vblur");
    assert_eq!(Pipeline::from_pipeline_name("sobel"), Some(Pipeline::Sobel));
    assert_eq!(Pipeline::from_pipeline_name("box_hblur"), None);
}

#[test]
fn workgroups_and_rows() {
    assert_eq!(workgroup_count(0), 0);
    assert_eq!(workgroup_count(1), 1);
    assert_eq!(workgroup_count(16), 1);
    assert_eq!(workgroup_count(17), 2);
    assert_eq!(row_layout(100), (400, 512));
    assert_eq!(row_layout(64), (256, 256));
    let data: Vec<u8> = (0..12).collect();
    assert_eq!(strip_row_padding(&data, 2, 4), vec![0, 1, 4, 5, 8, 9]);
}

#[test]
fn filters_alternate_between_two_textures() {
    let (passes, result) = plan_passes(&[Pipeline::Sobel, Pipeline::GaussianHBlur, Pipeline::GaussianVBlur]);
    assert_eq!(
        passes,
        vec![
            Pass { filter: Pipeline::Sobel, input: Texture::First, output: Texture::Second },
            Pass { filter: Pipeline::GaussianHBlur, input: Texture::Second, output: Texture::First },
            Pass { filter: Pipeline::GaussianVBlur, input: Texture::First, output: Texture::Second },
        ]
    );
    assert_eq!(result, Texture::Second);
    let (none, result) = plan_passes(&[]);
    assert!(none.is_empty());
    assert_eq!(result, Texture::First);
}
