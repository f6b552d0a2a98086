use rustymotion::composition::{composition_lookup_result, Composition};
use rustymotion::errors::ConfigError;
use rustymotion::surface::{apply_set_composition, apply_set_frame, SurfaceState};

fn sample_composition() -> Composition {
    Composition {
        id: "HelloWorld".to_string(),
        fps: 30,
        width: 640,
        height: 360,
        duration_in_frames: 90,
        serialized_resolved_props_with_custom_schema: "{}".to_string(),
        serialized_default_props_with_custom_schema: "{}".to_string(),
    }
}

#[test]
fn preparing_a_composition_twice_equals_preparing_it_once() {
    let blank = SurfaceState {
        prepared: None,
        frame: None,
    };
    let once = apply_set_composition(blank.clone(), sample_composition());
    let twice = apply_set_composition(once.clone(), sample_composition());
    assert_eq!(twice, once);

    // captures after the commands observe the same state either way
    let after_once = apply_set_frame(once, 12);
    let after_twice = apply_set_frame(twice, 12);
    assert_eq!(after_once, after_twice);
}

#[test]
fn set_frame_moves_only_the_frame() {
    let prepared = apply_set_composition(
        SurfaceState {
            prepared: None,
            frame: None,
        },
        sample_composition(),
    );
    let moved = apply_set_frame(prepared.clone(), 5);
    assert_eq!(moved.prepared, prepared.prepared);
    assert_eq!(moved.frame, Some(5));
}

#[test]
fn renderable_composition_is_accepted() {
    assert!(sample_composition().is_renderable());
    let mut flat = sample_composition();
    flat.height = 0;
    assert!(!flat.is_renderable());
    let mut still = sample_composition();
    still.fps = 0;
    assert!(!still.is_renderable());
}

#[test]
fn a_missing_lookup_answer_is_an_unknown_composition() {
    match composition_lookup_result("Nope", None) {
        Err(ConfigError::UnknownComposition { id }) => assert_eq!(id, "Nope"),
        other => panic!("expected an unknown composition, got {:?}", other),
    }
}

#[test]
fn a_lookup_answer_passes_through() {
    assert_eq!(
        composition_lookup_result("HelloWorld", Some("{\"id\":\"HelloWorld\"}".to_string())),
        Ok("{\"id\":\"HelloWorld\"}".to_string())
    );
}
