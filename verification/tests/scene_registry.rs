use scene_core::registry::{BuiltDisplayList, Epoch, Scene};
use scene_core::units::{ColorF, LayoutSize};

fn size(w: f32, h: f32) -> LayoutSize {
    LayoutSize { width: w.to_bits(), height: h.to_bits() }
}

fn install(scene: &mut Scene, id: u64, epoch: Epoch) {
    scene.set_display_list(
        id,
        epoch,
        BuiltDisplayList { data: vec![1, 2, 3] },
        None,
        size(800.0, 600.0),
        size(800.0, 600.0),
    );
}

#[test]
fn root_consistency_over_install_and_remove() {
    let mut scene = Scene::new();
    assert!(!scene.has_root_pipeline());

    scene.set_root_pipeline_id(5);
    // The root reference is set but no such pipeline exists yet.
    assert!(!scene.has_root_pipeline());

    install(&mut scene, 5, Epoch(0));
    assert!(scene.has_root_pipeline());

    scene.remove_pipeline(5);
    assert!(!scene.has_root_pipeline());
    assert_eq!(scene.root_pipeline_id, None);
}

#[test]
fn removing_a_non_root_pipeline_keeps_the_root() {
    let mut scene = Scene::new();
    scene.set_root_pipeline_id(1);
    install(&mut scene, 1, Epoch(0));
    install(&mut scene, 2, Epoch(0));
    scene.remove_pipeline(2);
    assert_eq!(scene.root_pipeline_id, Some(1));
    assert!(scene.has_root_pipeline());
}

#[test]
fn removing_an_unknown_pipeline_is_a_no_op() {
    let mut scene = Scene::new();
    scene.set_root_pipeline_id(1);
    install(&mut scene, 1, Epoch(4));
    scene.remove_pipeline(9);
    assert!(scene.has_root_pipeline());
    assert_eq!(scene.pipeline_epochs.get(&1).copied(), Some(Epoch(4)));
    assert!(scene.pipelines.contains_key(&1));
}

#[test]
fn set_display_list_installs_snapshot_and_epoch() {
    let mut scene = Scene::new();
    let background = Some(ColorF {
        r: 1.0f32.to_bits(),
        g: 0.0f32.to_bits(),
        b: 0.0f32.to_bits(),
        a: 1.0f32.to_bits(),
    });
    scene.set_display_list(
        7,
        Epoch(3),
        BuiltDisplayList { data: vec![9, 9] },
        background,
        size(1024.0, 768.0),
        size(2048.0, 768.0),
    );
    let pipeline = scene.pipelines.get(&7).expect("pipeline installed");
    assert_eq!(pipeline.pipeline_id, 7);
    assert_eq!(pipeline.viewport_size, size(1024.0, 768.0));
    assert_eq!(pipeline.content_size, size(2048.0, 768.0));
    assert_eq!(pipeline.background_color, background);
    assert_eq!(pipeline.display_list.data, vec![9, 9]);
    assert_eq!(scene.pipeline_epochs.get(&7).copied(), Some(Epoch(3)));
}

#[test]
fn set_display_list_replaces_a_prior_snapshot_wholesale() {
    let mut scene = Scene::new();
    install(&mut scene, 7, Epoch(0));
    scene.set_display_list(
        7,
        Epoch(1),
        BuiltDisplayList { data: vec![4] },
        None,
        size(10.0, 10.0),
        size(10.0, 10.0),
    );
    assert_eq!(scene.pipelines.len(), 1);
    let pipeline = scene.pipelines.get(&7).expect("pipeline installed");
    assert_eq!(pipeline.display_list.data, vec![4]);
    assert_eq!(scene.pipeline_epochs.get(&7).copied(), Some(Epoch(1)));
}

#[test]
fn update_epoch_bumps_the_version_without_touching_content() {
    let mut scene = Scene::new();
    install(&mut scene, 3, Epoch(0));
    scene.update_epoch(3, Epoch(8));
    assert_eq!(scene.pipeline_epochs.get(&3).copied(), Some(Epoch(8)));
    let pipeline = scene.pipelines.get(&3).expect("pipeline kept");
    assert_eq!(pipeline.display_list.data, vec![1, 2, 3]);
}

#[test]
fn update_epoch_of_an_unknown_pipeline_is_a_no_op() {
    let mut scene = Scene::new();
    scene.update_epoch(3, Epoch(8));
    assert!(scene.pipeline_epochs.get(&3).is_none());
    assert!(scene.pipelines.get(&3).is_none());
}

#[test]
fn set_root_overwrites_the_previous_root() {
    let mut scene = Scene::new();
    install(&mut scene, 1, Epoch(0));
    install(&mut scene, 2, Epoch(0));
    scene.set_root_pipeline_id(1);
    assert!(scene.has_root_pipeline());
    scene.set_root_pipeline_id(2);
    assert_eq!(scene.root_pipeline_id, Some(2));
    assert!(scene.has_root_pipeline());
}

#[test]
fn snapshots_are_shared_not_copied() {
    let mut scene = Scene::new();
    install(&mut scene, 1, Epoch(0));
    let reader = scene.pipelines.get(&1).expect("pipeline installed").clone();
    // Installing a replacement does not disturb the reader's older snapshot.
    scene.set_display_list(
        1,
        Epoch(1),
        BuiltDisplayList { data: vec![7] },
        None,
        size(1.0, 1.0),
        size(1.0, 1.0),
    );
    assert_eq!(reader.display_list.data, vec![1, 2, 3]);
    assert_eq!(scene.pipelines.get(&1).expect("replaced").display_list.data, vec![7]);
}
