use ferron::frame::ResourceId;
use ferron::resources::{
    share_allocations, BlockKey, Graph, GraphImages, Sharing, TransientImage, ViewType, STORAGE,
};
use ferron::transitions::Subresources;

fn image(id: usize) -> TransientImage {
    TransientImage {
        id,
        format: 97,
        width: 64,
        height: 32,
        depth: None,
        samples: 1,
        array_layers: None,
        mip_levels: 1,
        usage: STORAGE | 4,
        memoryless: false,
        concurrent: false,
        alias: None,
    }
}

/// Two images that differ in name alone, a pyramid, a volume and an array.
fn graph() -> Graph {
    Graph {
        names: ["swap", "blur_x", "blur_y", "hiz", "fog", "shadow"]
            .iter()
            .map(|name| name.to_string())
            .collect(),
        transients: vec![
            TransientImage { alias: Some(0), memoryless: true, ..image(1) },
            TransientImage { alias: Some(0), concurrent: true, ..image(2) },
            TransientImage { mip_levels: 9, memoryless: true, ..image(3) },
            TransientImage { depth: Some(16), ..image(4) },
            TransientImage { array_layers: Some(1), mip_levels: 1, ..image(5) },
        ],
        alias_groups: vec![vec![1, 2]],
    }
}

const ALL: Sharing = Sharing { families: true, aliases: true };
const EXTENT: [u32; 2] = [64, 32];

#[test]
fn every_image_is_asked_for_once() {
    let mut images = GraphImages::allocate(EXTENT);
    let requests = images.rebuild(&graph(), EXTENT, 2, ALL);
    assert_eq!(images.slots(), 2);
    assert_eq!(requests.len(), 10);
    let names: Vec<_> =
        requests.iter().map(|request| (request.key.name.as_str(), request.key.slot)).collect();
    assert_eq!(names[..5], [("blur_x", 0), ("blur_y", 0), ("hiz", 0), ("fog", 0), ("shadow", 0)]);
    assert_eq!(names[5], ("blur_x", 1));
    // Named by its members, so that regrouping is another key.
    assert_eq!(requests[0].key.alias.as_deref(), Some("blur_x+blur_y"));
    assert!(!requests[0].key.concurrent && requests[1].key.concurrent);
    // A chain is no longer than the image allows, and a view over more than one
    // level is not one to store through.
    assert_eq!(requests[2].key.mip_levels, 7);
    assert_eq!((requests[2].view_usage, requests[0].view_usage), (4, STORAGE | 4));
    // Shared memory is never lazy.
    assert!(!requests[0].lazy && requests[2].lazy && !requests[3].lazy);
    let types: Vec<_> = requests[..5].iter().map(|request| request.view_type).collect();
    assert_eq!(
        types,
        vec![
            ViewType::Dim2d,
            ViewType::Dim2d,
            ViewType::Dim2d,
            ViewType::Dim3d,
            ViewType::Dim2dArray
        ]
    );
    assert_eq!((requests[3].key.depth, requests[3].key.array_layers), (16, 1));
}

#[test]
fn a_toggle_back_costs_nothing() {
    let mut images = GraphImages::allocate(EXTENT);
    let mut view = 100;
    for request in images.rebuild(&graph(), EXTENT, 1, ALL) {
        images.install(request, view);
        view += 1;
    }
    assert_eq!(images.try_view(ResourceId { index: 1 }), Some(100));
    assert_eq!(images.try_view(ResourceId { index: 0 }), None);
    assert!(images.rebuild(&graph(), EXTENT, 1, ALL).is_empty());
    assert_eq!(images.try_view(ResourceId { index: 5 }), Some(104));
    // Without sharing, the grouped ones are other images.
    let alone = Sharing { families: true, aliases: false };
    let requests = images.rebuild(&graph(), EXTENT, 1, alone);
    let names: Vec<_> = requests.iter().map(|request| request.key.name.clone()).collect();
    assert_eq!(names, vec!["blur_x", "blur_y"]);
    assert!(requests[0].lazy);
    // And without a second family, nothing is concurrent.
    let single = Sharing { families: false, aliases: true };
    let requests = images.rebuild(&graph(), EXTENT, 1, single);
    assert_eq!(requests.len(), 1);
    assert!(!requests[0].key.concurrent);
}

#[test]
fn an_installed_frame_is_whole() {
    let mut images = GraphImages::allocate(EXTENT);
    for (view, request) in images.rebuild(&graph(), EXTENT, 2, ALL).into_iter().enumerate() {
        images.install(request, 10 + view as u64);
    }
    for (frame, first) in [(0, 10), (1, 15)] {
        images.set_slot(frame);
        let views: Vec<_> =
            (0..6).map(|index| images.try_view(ResourceId { index })).collect();
        let mut expected = vec![None];
        expected.extend((first..first + 5).map(Some));
        assert_eq!(views, expected);
    }
    assert!(images.rebuild(&graph(), EXTENT, 2, ALL).is_empty());
}

#[test]
fn views_cover_one_layer_or_one_level() {
    let mut images = GraphImages::allocate(EXTENT);
    let mut shown = graph();
    shown.transients[4].array_layers = Some(4);
    for (view, request) in images.rebuild(&shown, EXTENT, 1, ALL).into_iter().enumerate() {
        images.install(request, view as u64);
    }
    let (swap, hiz, shadow) =
        (ResourceId { index: 0 }, ResourceId { index: 3 }, ResourceId { index: 5 });
    assert_eq!(images.mip_levels(hiz), Some(7));
    assert_eq!(images.mip_levels(shadow), Some(1));
    assert_eq!(images.mip_levels(swap), None);
    assert_eq!(images.extent(hiz), Some((64, 32)));
    assert_eq!(images.extent(swap), None);
    assert_eq!(
        images.layer_view(shadow, 3),
        Some(Subresources { first_mip: 0, end_mip: 1, first_layer: 3, end_layer: 4 })
    );
    assert_eq!(images.layer_view(shadow, 4), None);
    assert_eq!(images.layer_view(swap, 0), None);
    assert_eq!(
        images.mip_view(hiz, 6),
        Some(Subresources { first_mip: 6, end_mip: 7, first_layer: 0, end_layer: 1 })
    );
    assert_eq!(images.mip_view(hiz, 7), None);
}

#[test]
fn another_extent_drops_everything() {
    let mut images = GraphImages::allocate(EXTENT);
    for (view, request) in images.rebuild(&graph(), EXTENT, 1, ALL).into_iter().enumerate() {
        images.install(request, view as u64);
    }
    images.install_block(
        BlockKey { group: "blur_x+blur_y".to_string(), slot: 0, size: 4096, memory_type_index: 1 },
        7,
    );
    assert_eq!(images.block("blur_x+blur_y", 0, 4096, 1), Some(7));
    assert_eq!(images.block("blur_x+blur_y", 1, 4096, 1), None);
    assert_eq!(images.block("blur_x+blur_y", 0, 4097, 1), None);
    assert_eq!(images.block("blur_x+blur_y", 0, 4096, 2), None);
    assert!(!images.is_stale(EXTENT));
    assert!(images.is_stale([65, 32]));
    assert_eq!(images.rebuild(&graph(), [65, 32], 1, ALL).len(), 5);
    assert_eq!(images.block("blur_x+blur_y", 0, 4096, 1), None);
}

#[test]
fn frames_take_the_sets_in_turn() {
    let mut images = GraphImages::allocate(EXTENT);
    images.set_slot(5);
    assert_eq!(images.slot, 0);
    let requests = images.rebuild(&graph(), EXTENT, 2, ALL);
    for (view, request) in requests.into_iter().enumerate() {
        images.install(request, view as u64);
    }
    images.set_slot(4);
    assert_eq!(images.try_view(ResourceId { index: 1 }), Some(0));
    images.set_slot(5);
    assert_eq!(images.try_view(ResourceId { index: 1 }), Some(5));
    // Fewer sets than before leave the cursor on one there is.
    images.rebuild(&graph(), EXTENT, 1, ALL);
    assert_eq!(images.slot, 0);
}

#[test]
fn sharing_can_be_turned_off() {
    assert!(share_allocations(None));
    assert!(share_allocations(Some("1")));
    assert!(!share_allocations(Some(" 0 ")));
}
