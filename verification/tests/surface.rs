use actual_game::surface::{
    preferred_format, preferred_index, srgb_flags, AcquireError, ConfigError, Severity,
    SurfaceConfig, FRAME_LATENCY,
};
use wgpu::{CompositeAlphaMode, PresentMode, TextureFormat};

#[test]
fn srgb_flags_follow_the_formats() {
    let formats = vec![
        TextureFormat::Bgra8Unorm,
        TextureFormat::Bgra8UnormSrgb,
        TextureFormat::Rgba16Float,
        TextureFormat::Rgba8UnormSrgb,
    ];
    assert_eq!(srgb_flags(&formats), vec![false, true, false, true]);
    assert_eq!(srgb_flags(&Vec::new()), Vec::<bool>::new());
}

#[test]
fn preferred_index_is_the_first_set_flag() {
    assert_eq!(preferred_index(&vec![false, true, true]), Some(1));
    assert_eq!(preferred_index(&vec![true, false]), Some(0));
    assert_eq!(preferred_index(&vec![false, false, true]), Some(2));
}

#[test]
fn preferred_index_falls_back_to_the_first() {
    assert_eq!(preferred_index(&vec![false, false, false]), Some(0));
    assert_eq!(preferred_index(&vec![false]), Some(0));
}

#[test]
fn preferred_index_of_nothing_is_none() {
    assert_eq!(preferred_index(&Vec::new()), None);
}

#[test]
fn preferred_format_is_the_first_srgb_one() {
    let formats = vec![
        TextureFormat::Rgba8Unorm,
        TextureFormat::Bgra8UnormSrgb,
        TextureFormat::Rgba8UnormSrgb,
    ];
    assert_eq!(preferred_format(&formats), Some(TextureFormat::Bgra8UnormSrgb));
}

#[test]
fn preferred_format_falls_back_to_the_first() {
    let formats = vec![TextureFormat::Rgba16Float, TextureFormat::Bgra8Unorm];
    assert_eq!(preferred_format(&formats), Some(TextureFormat::Rgba16Float));
    assert_eq!(preferred_format(&Vec::new()), None);
}

#[test]
fn config_takes_the_first_modes_and_the_given_size() {
    let config = SurfaceConfig::from_capabilities(
        &vec![TextureFormat::Bgra8Unorm, TextureFormat::Bgra8UnormSrgb],
        &vec![PresentMode::Mailbox, PresentMode::Fifo],
        &vec![CompositeAlphaMode::Opaque, CompositeAlphaMode::Inherit],
        800,
        600,
    );
    assert_eq!(
        config,
        Ok(SurfaceConfig {
            format: TextureFormat::Bgra8UnormSrgb,
            width: 800,
            height: 600,
            present_mode: PresentMode::Mailbox,
            alpha_mode: CompositeAlphaMode::Opaque,
            desired_maximum_frame_latency: 2,
        })
    );
    assert_eq!(FRAME_LATENCY, 2);
}

#[test]
fn config_may_start_without_area() {
    let config = SurfaceConfig::from_capabilities(
        &vec![TextureFormat::Bgra8Unorm],
        &vec![PresentMode::Fifo],
        &vec![CompositeAlphaMode::Auto],
        0,
        0,
    )
    .unwrap();
    assert_eq!((config.width, config.height), (0, 0));
    assert_eq!(config.format, TextureFormat::Bgra8Unorm);
}

#[test]
fn config_fails_on_the_first_empty_list() {
    let formats = vec![TextureFormat::Bgra8UnormSrgb];
    let present = vec![PresentMode::Fifo];
    let alpha = vec![CompositeAlphaMode::Auto];
    assert_eq!(
        SurfaceConfig::from_capabilities(&Vec::new(), &Vec::new(), &Vec::new(), 1, 1),
        Err(ConfigError::NoFormat)
    );
    assert_eq!(
        SurfaceConfig::from_capabilities(&Vec::new(), &present, &alpha, 1, 1),
        Err(ConfigError::NoFormat)
    );
    assert_eq!(
        SurfaceConfig::from_capabilities(&formats, &Vec::new(), &Vec::new(), 1, 1),
        Err(ConfigError::NoPresentMode)
    );
    assert_eq!(
        SurfaceConfig::from_capabilities(&formats, &Vec::new(), &alpha, 1, 1),
        Err(ConfigError::NoPresentMode)
    );
    assert_eq!(
        SurfaceConfig::from_capabilities(&formats, &present, &Vec::new(), 1, 1),
        Err(ConfigError::NoAlphaMode)
    );
}

#[test]
fn severity_of_each_failure() {
    assert_eq!(AcquireError::Lost.severity(), Severity::Recoverable);
    assert_eq!(AcquireError::Outdated.severity(), Severity::Recoverable);
    assert_eq!(AcquireError::OutOfMemory.severity(), Severity::Fatal);
    assert_eq!(AcquireError::Timeout.severity(), Severity::Transient);
    assert_eq!(AcquireError::Other.severity(), Severity::Reported);
}
