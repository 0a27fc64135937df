use staccato::application::{
    ApplicationInformation, Startup, StartupCall, INIT_ALL, INIT_AUDIO, INIT_CAMERA, INIT_EVENTS,
    INIT_GAMEPAD, INIT_HAPTIC, INIT_JOYSTICK, INIT_SENSOR, INIT_VIDEO, METADATA_FIELDS,
};
use staccato::error::{has_nul, MetadataField, SdlError};

fn information() -> ApplicationInformation {
    ApplicationInformation {
        name: "staccato sample - playground".to_string(),
        version: "0.1.0".to_string(),
        identifier: "moe.kawayi.staccato".to_string(),
        creator: "MoeGodot".to_string(),
        copyright: "2026 copyright - moegodot".to_string(),
        url: "http://github.com/moegodot/".to_string(),
        app_type: "application".to_string(),
    }
}

#[test]
fn all_subsystems_are_started() {
    assert_eq!(
        INIT_ALL,
        INIT_AUDIO | INIT_CAMERA | INIT_EVENTS | INIT_HAPTIC | INIT_GAMEPAD | INIT_JOYSTICK | INIT_SENSOR | INIT_VIDEO
    );
    assert_eq!(
        information().initialize_app(0, false),
        Startup::Call { call: StartupCall::InitializePlatform { flags: INIT_ALL } }
    );
}

#[test]
fn start_tells_the_description_in_order() {
    let information = information();
    let expected = [
        (MetadataField::Name, "staccato sample - playground"),
        (MetadataField::Version, "0.1.0"),
        (MetadataField::Identifier, "moe.kawayi.staccato"),
        (MetadataField::Creator, "MoeGodot"),
        (MetadataField::Copyright, "2026 copyright - moegodot"),
        (MetadataField::Url, "http://github.com/moegodot/"),
        (MetadataField::AppType, "application"),
    ];
    for (index, (field, value)) in expected.iter().enumerate() {
        assert_eq!(
            information.initialize_app(index + 1, true),
            Startup::Call { call: StartupCall::SetMetadata { field: *field, value } }
        );
        assert_eq!(
            information.set_sdl_property(index, true),
            Startup::Call { call: StartupCall::SetMetadata { field: *field, value } }
        );
        assert_eq!(information.text(*field), *value);
        assert_eq!(MetadataField::at(index), *field);
    }
    assert_eq!(information.initialize_app(METADATA_FIELDS + 1, true), Startup::Ready);
    assert_eq!(information.set_sdl_property(METADATA_FIELDS, true), Startup::Ready);
}

#[test]
fn start_ends_at_the_first_failure() {
    let information = information();
    assert_eq!(
        information.initialize_app(1, false),
        Startup::Failed { error: SdlError::Initialize }
    );
    assert_eq!(
        information.initialize_app(2, false),
        Startup::Failed { error: SdlError::SetMetadata(MetadataField::Name) }
    );
    assert_eq!(
        information.initialize_app(8, false),
        Startup::Failed { error: SdlError::SetMetadata(MetadataField::AppType) }
    );
    assert_eq!(
        information.set_sdl_property(3, false),
        Startup::Failed { error: SdlError::SetMetadata(MetadataField::Identifier) }
    );
    assert_eq!(
        SdlError::SetMetadata(MetadataField::Identifier).message(),
        "failed to set app metadata - identifier"
    );
}

#[test]
fn text_with_nul_is_not_handed_over() {
    let mut information = information();
    information.creator = "Moe\0Godot".to_string();
    assert_eq!(
        information.set_sdl_property(3, true),
        Startup::Failed { error: SdlError::InvalidMetadata(MetadataField::Creator) }
    );
    assert!(matches!(information.set_sdl_property(2, true), Startup::Call { .. }));
    assert!(has_nul("a\0"));
    assert!(has_nul("\0"));
    assert!(!has_nul(""));
    assert!(!has_nul("abc"));
}

#[test]
fn metadata_keys() {
    assert_eq!(MetadataField::Name.key(), "SDL.app.metadata.name");
    assert_eq!(MetadataField::Version.key(), "SDL.app.metadata.version");
    assert_eq!(MetadataField::Identifier.key(), "SDL.app.metadata.identifier");
    assert_eq!(MetadataField::Creator.key(), "SDL.app.metadata.creator");
    assert_eq!(MetadataField::Copyright.key(), "SDL.app.metadata.copyright");
    assert_eq!(MetadataField::Url.key(), "SDL.app.metadata.url");
    assert_eq!(MetadataField::AppType.key(), "SDL.app.metadata.type");
}
