use ferron::swapchain::{
    image_count, present_mode, resolve, swapchain_color_format, ColorFormat, PresentMode,
    PresentSettings, SwapchainState, VsyncMode, OFFSCREEN_FORMAT, UNCAPPED_MINIMUM,
};

/// A capped mode is handed exactly what was asked for.
#[test]
fn a_capped_mode_gets_the_count_it_asked_for() {
    assert_eq!(image_count(2, PresentMode::Fifo, 1, None), 2);
    assert_eq!(image_count(2, PresentMode::FifoRelaxed, 1, None), 2);
}

/// Two images and `Mailbox` is `Fifo` with extra steps, because the acquire waits
/// for the presentation engine either way.
#[test]
fn an_uncapped_mode_gets_a_third_image() {
    assert_eq!(image_count(2, PresentMode::Mailbox, 1, None), 3);
    assert_eq!(image_count(2, PresentMode::Immediate, 1, None), 3);
}

/// The floor raises a count, never lowers one.
#[test]
fn asking_for_more_than_the_floor_is_honoured() {
    assert_eq!(image_count(5, PresentMode::Mailbox, 1, None), 5);
}

/// And the surface has the last word in both directions.
#[test]
fn the_surface_range_wins_over_both() {
    assert_eq!(image_count(2, PresentMode::Mailbox, 1, Some(2)), 2);
    assert_eq!(image_count(2, PresentMode::Fifo, 4, None), 4);
}

#[test]
fn modes_map_one_to_one() {
    assert_eq!(present_mode(VsyncMode::Fifo), PresentMode::Fifo);
    assert_eq!(present_mode(VsyncMode::FifoRelaxed), PresentMode::FifoRelaxed);
    assert_eq!(present_mode(VsyncMode::Mailbox), PresentMode::Mailbox);
    assert_eq!(present_mode(VsyncMode::Immediate), PresentMode::Immediate);
    assert_eq!(UNCAPPED_MINIMUM, 3);
    assert_eq!(OFFSCREEN_FORMAT, ColorFormat::Rgba8Srgb);
}

#[test]
fn an_unsupported_mode_falls_back() {
    let want = PresentSettings { vsync: VsyncMode::Mailbox, images: 2 };
    let offered = vec![PresentMode::Fifo, PresentMode::Mailbox];
    assert_eq!(resolve(want, Some(offered), Some((2, Some(8)))), (PresentMode::Mailbox, 3));
    let offered = vec![PresentMode::Fifo, PresentMode::Other(9)];
    assert_eq!(resolve(want, Some(offered), Some((2, Some(8)))), (PresentMode::Fifo, 2));
    assert_eq!(resolve(want, None, None), (PresentMode::Fifo, 2));
    assert_eq!(resolve(want, None, Some((4, None))), (PresentMode::Fifo, 4));
}

#[test]
fn a_surface_of_no_area_is_not_rebuilt() {
    let want = PresentSettings { vsync: VsyncMode::Mailbox, images: 2 };
    let modes = || Some(vec![PresentMode::Fifo, PresentMode::Mailbox]);
    let mut window = SwapchainState::new(ColorFormat::Bgra8Srgb, [640, 480], PresentMode::Fifo, 2);
    assert_eq!(window.applied_present(), Some((PresentMode::Fifo, 2)));
    assert!(window.recreate([0, 1], want, modes(), None).is_none());
    assert!(window.recreate([1, 0], want, modes(), None).is_none());
    let plan = window.recreate([800, 600], want, modes(), Some((2, Some(8)))).unwrap();
    assert_eq!(plan.extent, [800, 600]);
    assert_eq!(plan.present, Some((PresentMode::Mailbox, 3)));
    assert!(plan.uses.color_attachment && plan.uses.transfer_dst && !plan.uses.transfer_src);
    window.recreated(plan.extent, PresentMode::Mailbox, 4);
    assert_eq!(window.applied_present(), Some((PresentMode::Mailbox, 4)));
    assert_eq!((window.views, window.readback, window.extent), (4, 0, [800, 600]));

    let (plan, offscreen) = SwapchainState::offscreen(OFFSCREEN_FORMAT, [64, 64]);
    assert!(plan.uses.transfer_src && plan.present.is_none());
    assert!(offscreen.recreate([1, 1], want, modes(), None).is_none());
    assert_eq!(offscreen.applied_present(), None);
    assert_eq!((offscreen.views, offscreen.readback), (1, 1));
}

#[test]
fn the_first_suitable_format_is_taken() {
    let other = ColorFormat::Other(44);
    assert_eq!(
        swapchain_color_format(&[
            (other, true),
            (ColorFormat::Bgra8Srgb, false),
            (ColorFormat::Rgba8Srgb, true),
            (ColorFormat::Bgra8Srgb, true),
        ]),
        ColorFormat::Rgba8Srgb
    );
    assert_eq!(swapchain_color_format(&[(other, true)]), ColorFormat::Bgra8Srgb);
    assert_eq!(swapchain_color_format(&[]), ColorFormat::Bgra8Srgb);
}
