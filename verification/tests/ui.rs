use voxel_sculptor::export::export_to_obj;
use voxel_sculptor::shapes::{generate_shape, Shape, ShapeType, VoxelData};
use voxel_sculptor::ui::{UiState, MAX_DIMENSION, MIN_DIMENSION, NO_VOXELS_MESSAGE};

#[test]
fn panel_starts_with_a_cube_of_five_to_generate() {
    let state = UiState::default();
    assert_eq!((state.width, state.height, state.depth), (5, 5, 5));
    assert_eq!(state.shape_type, ShapeType::Cube);
    assert!(state.generate);
    assert!(!state.export);
    assert_eq!(state.error_message, None);
}

#[test]
fn panel_offers_dimensions_from_one_to_thirty_two() {
    assert_eq!((MIN_DIMENSION, MAX_DIMENSION), (1, 32));
}

#[test]
fn controls_describe_a_shape() {
    let mut state = UiState::default();
    state.shape_type = ShapeType::Cone;
    state.width = 7;
    state.height = 8;
    state.depth = 9;
    assert_eq!(
        state.shape(),
        Shape { shape_type: ShapeType::Cone, width: 7, height: 8, depth: 9 }
    );
}

#[test]
fn pending_request_replaces_the_model() {
    let mut state = UiState::default();
    state.shape_type = ShapeType::Sphere;
    state.width = 4;
    state.error_message = Some(String::from("stale"));
    let mut data = VoxelData::default();
    state.regenerate(&mut data);
    let shape = Shape { shape_type: ShapeType::Sphere, width: 4, height: 5, depth: 5 };
    assert_eq!(data.shape, shape);
    assert_eq!(data.voxels, generate_shape(&shape));
    assert!(!data.voxels.is_empty());
    assert!(!state.generate);
    assert_eq!(state.error_message, None);
    assert_eq!((state.width, state.height, state.depth), (4, 5, 5));
    assert_eq!(state.shape_type, ShapeType::Sphere);
    assert!(!state.export);
}

#[test]
fn without_a_request_nothing_changes() {
    let mut state = UiState::default();
    state.generate = false;
    state.export = true;
    state.error_message = Some(String::from("kept"));
    let before = VoxelData::new(Shape {
        shape_type: ShapeType::Cylinder,
        width: 3,
        height: 2,
        depth: 3,
    });
    let mut data = before.clone();
    state.regenerate(&mut data);
    assert_eq!(data.shape, before.shape);
    assert_eq!(data.voxels, before.voxels);
    assert!(!state.generate);
    assert!(state.export);
    assert_eq!(state.error_message, Some(String::from("kept")));
}

#[test]
fn empty_result_leaves_a_message() {
    let mut state = UiState::default();
    state.width = 0;
    let mut data = VoxelData::new(Shape {
        shape_type: ShapeType::Cube,
        width: 2,
        height: 2,
        depth: 2,
    });
    state.regenerate(&mut data);
    assert!(data.voxels.is_empty());
    assert_eq!(data.shape, Shape { shape_type: ShapeType::Cube, width: 0, height: 5, depth: 5 });
    assert_eq!(state.error_message, Some(String::from(NO_VOXELS_MESSAGE)));
    assert_eq!(NO_VOXELS_MESSAGE, "Failed to generate shape: no voxels created");
    assert!(!state.generate);
}

#[test]
fn message_is_cleared_by_the_next_result() {
    let mut state = UiState::default();
    state.width = 0;
    let mut data = VoxelData::default();
    state.regenerate(&mut data);
    assert!(state.error_message.is_some());
    state.width = 3;
    state.generate = true;
    state.regenerate(&mut data);
    assert_eq!(state.error_message, None);
    assert_eq!(data.voxels.len(), 75);
}

#[test]
fn export_is_handed_out_only_on_request() {
    let mut state = UiState::default();
    let mut data = VoxelData::default();
    state.regenerate(&mut data);
    assert_eq!(state.pending_export(&data), None);
    state.export = true;
    assert_eq!(state.pending_export(&data), Some(export_to_obj(&data)));
    assert!(state.export);
}
