use scene_render::controls::{
    Controls, KeyAction, MouseState, KEY_A, KEY_D, KEY_ESCAPE, KEY_L, KEY_S, KEY_T, KEY_W, KEY_X,
    KEY_Y, KEY_Z,
};
use scene_render::effects::PostProcessingEffects;
use scene_render::mesh::{index_faces, Face, FaceError};

#[test]
fn shared_corners_are_stored_once() {
    let faces = vec![
        Face::PTN(vec![(0, 0, 0), (1, 1, 0), (2, 2, 0)]),
        Face::PTN(vec![(0, 0, 0), (2, 2, 0), (3, 3, 0)]),
    ];
    let mesh = index_faces(&faces).unwrap();
    assert_eq!(mesh.corners, vec![(0, 0, 0), (1, 1, 0), (2, 2, 0), (3, 3, 0)]);
    assert_eq!(mesh.indices, vec![0, 1, 2, 0, 2, 3]);
}

#[test]
fn corners_differing_in_one_index_are_distinct() {
    let faces = vec![
        Face::PTN(vec![(0, 0, 0), (0, 1, 0), (0, 0, 1)]),
        Face::PTN(vec![(0, 0, 1), (0, 1, 0), (0, 0, 0)]),
    ];
    let mesh = index_faces(&faces).unwrap();
    assert_eq!(mesh.corners, vec![(0, 0, 0), (0, 1, 0), (0, 0, 1)]);
    assert_eq!(mesh.indices, vec![0, 1, 2, 2, 1, 0]);
}

#[test]
fn no_faces_give_an_empty_mesh() {
    let mesh = index_faces(&Vec::new()).unwrap();
    assert!(mesh.corners.is_empty());
    assert!(mesh.indices.is_empty());
}

#[test]
fn faces_without_normals_or_textures_are_refused() {
    let cases = vec![
        (Face::P(vec![0, 1, 2]), FaceError::MissingNormalAndTexture),
        (Face::PT(vec![(0, 0), (1, 1), (2, 2)]), FaceError::MissingNormal),
        (Face::PN(vec![(0, 0), (1, 1), (2, 2)]), FaceError::MissingTexture),
        (Face::PTN(vec![(0, 0, 0), (1, 1, 1), (2, 2, 2), (3, 3, 3)]), FaceError::NotTriangulated),
    ];
    for (bad, err) in cases {
        let faces = vec![good_face(), bad];
        assert_eq!(index_faces(&faces), Err(err));
    }
}

fn good_face() -> Face {
    Face::PTN(vec![(0, 0, 0), (1, 1, 1), (2, 2, 2)])
}

#[test]
fn the_first_bad_face_decides_the_error() {
    let faces = vec![
        Face::PTN(vec![(0, 0, 0), (1, 1, 1)]),
        Face::P(vec![0, 1, 2]),
    ];
    assert_eq!(index_faces(&faces), Err(FaceError::NotTriangulated));
}

#[test]
fn face_error_messages() {
    assert_eq!(
        FaceError::NotTriangulated.message(),
        "Model should be triangulated first to be loaded properly"
    );
    assert_eq!(
        FaceError::MissingNormal.message(),
        "Tried to extract normal data which are not contained in the model"
    );
}

#[test]
fn effects_cycle_both_ways() {
    let mut e = PostProcessingEffects::NoPostProcessing;
    let mut seen = Vec::new();
    for _ in 0..6 {
        seen.push(e.index());
        assert_eq!(e.next().previous(), e);
        e = e.next();
    }
    assert_eq!(seen, vec![0, 1, 2, 3, 4, 5]);
    assert_eq!(e, PostProcessingEffects::NoPostProcessing);
    assert_eq!(e.previous(), PostProcessingEffects::Edged);
    assert_eq!(PostProcessingEffects::from_index(3), PostProcessingEffects::DeepFried);
}

#[test]
fn movement_keys_follow_press_and_release() {
    let mut c = Controls::new();
    assert_eq!(c.pressed_keys, [false; 4]);
    assert_eq!(c.handle_key(KEY_W, true), KeyAction::Nothing);
    assert_eq!(c.handle_key(KEY_D, true), KeyAction::Nothing);
    assert_eq!(c.pressed_keys, [true, false, false, true]);
    c.handle_key(KEY_W, false);
    c.handle_key(KEY_A, true);
    c.handle_key(KEY_S, true);
    assert_eq!(c.pressed_keys, [false, true, true, true]);
}

#[test]
fn light_steps_never_go_below_zero() {
    let mut c = Controls::new();
    assert_eq!(c.light_steps, 1);
    c.handle_key(KEY_T, true);
    c.handle_key(KEY_T, false);
    assert_eq!(c.light_steps, 3);
    for _ in 0..5 {
        c.handle_key(KEY_Y, true);
    }
    assert_eq!(c.light_steps, 0);
}

#[test]
fn effect_keys_act_on_release() {
    let mut c = Controls::new();
    assert_eq!(c.handle_key(KEY_Z, true), KeyAction::Nothing);
    assert_eq!(c.effect, PostProcessingEffects::NoPostProcessing);
    assert_eq!(c.handle_key(KEY_Z, false), KeyAction::RebuildPostProcessing);
    assert_eq!(c.effect, PostProcessingEffects::Edged);
    assert_eq!(c.handle_key(KEY_X, false), KeyAction::RebuildPostProcessing);
    assert_eq!(c.handle_key(KEY_X, false), KeyAction::RebuildPostProcessing);
    assert_eq!(c.effect, PostProcessingEffects::Inversed);
}

#[test]
fn flashlight_toggles_on_release() {
    let mut c = Controls::new();
    assert!(c.flashlight);
    assert_eq!(c.handle_key(KEY_L, true), KeyAction::Nothing);
    assert!(c.flashlight);
    assert_eq!(c.handle_key(KEY_L, false), KeyAction::SwitchFlashlight);
    assert!(!c.flashlight);
}

#[test]
fn escape_exits_and_other_keys_are_reported() {
    let mut c = Controls::new();
    assert_eq!(c.handle_key(KEY_ESCAPE, true), KeyAction::Exit);
    assert_eq!(c.handle_key(99, true), KeyAction::Unknown(99));
    assert_eq!(c.light_steps, 1);
}

#[test]
fn mouse_movement_counts_only_once_centred() {
    let mut m = MouseState::new();
    assert!(!m.cursor_moved());
    m.cursor_entered();
    m.cursor_left();
    m.cursor_entered();
    assert!(!m.cursor_moved());
    assert!(m.cursor_moved());
    m.cursor_left();
    assert!(!m.cursor_moved());
}

#[test]
fn corners_sharing_a_position_are_told_apart() {
    let mut faces = Vec::new();
    for n in 0..50usize {
        faces.push(Face::PTN(vec![(7, n % 5, n % 3), (n, 0, 0), (7, 0, 0)]));
    }
    let mesh = index_faces(&faces).unwrap();
    let mut expected: Vec<(usize, usize, usize)> = Vec::new();
    for f in &faces {
        if let Face::PTN(v) = f {
            for c in v {
                if !expected.contains(c) {
                    expected.push(*c);
                }
            }
        }
    }
    assert_eq!(mesh.corners, expected);
    assert_eq!(mesh.indices.len(), 150);
    for (k, i) in mesh.indices.iter().enumerate() {
        if let Face::PTN(v) = &faces[k / 3] {
            assert_eq!(mesh.corners[*i], v[k % 3]);
        }
    }
}
