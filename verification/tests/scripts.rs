use rustymotion::composition::Composition;
use rustymotion::ipc::{event_key, fire_event_script, parse_ipc_message, UserEvent};
use rustymotion::scripts::{
    composition_query_script, evaluation_mode_script, prepare_composition_script,
    set_frame_script, u32_to_decimal,
};

fn sample_composition() -> Composition {
    Composition {
        id: "HelloWorld".to_string(),
        fps: 30,
        width: 640,
        height: 360,
        duration_in_frames: 90,
        serialized_resolved_props_with_custom_schema: "{}".to_string(),
        serialized_default_props_with_custom_schema: "{}".to_string(),
    }
}

#[test]
fn decimal_rendering_matches_expected_numerals() {
    assert_eq!(u32_to_decimal(0), "0");
    assert_eq!(u32_to_decimal(7), "7");
    assert_eq!(u32_to_decimal(30), "30");
    assert_eq!(u32_to_decimal(1080), "1080");
    assert_eq!(u32_to_decimal(u32::MAX), "4294967295");
}

#[test]
fn evaluation_mode_script_is_the_bundle_mode_command() {
    assert_eq!(
        evaluation_mode_script(),
        "window.remotion_setBundleMode({ type: 'evaluation' });"
    );
}

#[test]
fn composition_query_script_embeds_the_id() {
    assert_eq!(
        composition_query_script("HelloWorld"),
        "window.getStaticCompositions().then(cs => cs.find(c => c.id === 'HelloWorld')).then(c => JSON.stringify(c))"
    );
}

#[test]
fn set_frame_script_embeds_frame_and_id() {
    assert_eq!(
        set_frame_script(12, "HelloWorld"),
        "window.remotion_setFrame(12, 'HelloWorld');"
    );
}

#[test]
fn prepare_composition_script_carries_the_whole_descriptor() {
    assert_eq!(
        prepare_composition_script(&sample_composition()),
        "window.remotion_setBundleMode({ type: 'composition', compositionName: 'HelloWorld', \
         serializedResolvedPropsWithSchema: '{}', compositionDurationInFrames: 90, \
         compositionFps: 30, compositionHeight: 360, compositionWidth: 640, });"
    );
}

#[test]
fn event_keys_match_the_wire_tags() {
    assert_eq!(event_key(&UserEvent::PageLoaded), "page-loaded");
    assert_eq!(event_key(&UserEvent::FrameLoaded), "frame-loaded");
    assert_eq!(event_key(&UserEvent::FramesComplete), "frames-complete");
    assert_eq!(
        event_key(&UserEvent::GetCompositions("[]".to_string())),
        "none"
    );
}

#[test]
fn fire_event_script_posts_the_tag() {
    assert_eq!(
        fire_event_script(&UserEvent::FrameLoaded, None),
        "window.ipc.postMessage('frame-loaded');"
    );
}

#[test]
fn fire_event_script_with_delay_wraps_in_a_timeout() {
    assert_eq!(
        fire_event_script(&UserEvent::FramesComplete, Some(250)),
        "setTimeout(() => { window.ipc.postMessage('frames-complete'); }, 250);"
    );
}

#[test]
fn parse_recognises_the_three_bare_tags() {
    assert!(matches!(
        parse_ipc_message("page-loaded"),
        Some(UserEvent::PageLoaded)
    ));
    assert!(matches!(
        parse_ipc_message("frame-loaded"),
        Some(UserEvent::FrameLoaded)
    ));
    assert!(matches!(
        parse_ipc_message("frames-complete"),
        Some(UserEvent::FramesComplete)
    ));
}

#[test]
fn parse_extracts_the_composition_payload() {
    match parse_ipc_message("get-compositions:[{\"id\":\"HelloWorld\"}]") {
        Some(UserEvent::GetCompositions(payload)) => {
            assert_eq!(payload, "[{\"id\":\"HelloWorld\"}]");
        }
        other => panic!("expected a composition list, got {:?}", other),
    }
}

#[test]
fn parse_rejects_unknown_messages() {
    assert!(parse_ipc_message("").is_none());
    assert!(parse_ipc_message("page-loaded-twice").is_none());
    assert!(parse_ipc_message("none").is_none());
    assert!(parse_ipc_message("get-composition").is_none());
}

#[test]
fn bare_tags_round_trip_through_the_wire() {
    for event in [
        UserEvent::PageLoaded,
        UserEvent::FrameLoaded,
        UserEvent::FramesComplete,
    ] {
        let key = event_key(&event);
        let parsed = parse_ipc_message(key).unwrap();
        assert_eq!(event_key(&parsed), key);
    }
}
