use voxel_march::graphics::gpu_init::{GraphicsInit, GraphicsInitError, InitSettings, PowerPreference, PresentMode};

#[test]
fn graphics_init_hands_out_its_settings_once() {
    let mut init = GraphicsInit::new();
    match init.init() {
        Ok(settings) => {
            assert_eq!(
                settings,
                InitSettings {
                    power_pref: PowerPreference::NoPreference,
                    present_mode: PresentMode::Fifo,
                    frame_latency: 2,
                    back_end: wgpu::Backends::PRIMARY.bits(),
                }
            );
        },
        Err(e) => panic!("the first call must succeed: {e:?}"),
    }
    assert!(matches!(init.init(), Err(GraphicsInitError::Initialized)));
    assert!(matches!(init.init(), Err(GraphicsInitError::Initialized)));
}

#[test]
fn graphics_init_options_are_kept() {
    let mut init = GraphicsInit::new()
        .with_power_pref(PowerPreference::HighPerformance)
        .with_present_mode(PresentMode::Mailbox)
        .with_max_latency(3)
        .with_backend(wgpu::Backends::VULKAN.bits());
    let settings = init.init().ok().unwrap();
    assert_eq!(settings.power_pref, PowerPreference::HighPerformance);
    assert_eq!(settings.present_mode, PresentMode::Mailbox);
    assert_eq!(settings.frame_latency, 3);
    assert_eq!(settings.back_end, 2);
}
