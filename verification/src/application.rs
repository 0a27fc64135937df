//! What an application tells the platform about itself, and the steps by
//! which it starts.

use vstd::prelude::*;
use crate::error::{has_nul, has_nul_spec, MetadataField, SdlError};

verus! {

/// The audio subsystem of the platform.
pub const INIT_AUDIO: u32 = 0x0000_0010;

/// The video subsystem of the platform.
pub const INIT_VIDEO: u32 = 0x0000_0020;

/// The joystick subsystem of the platform.
pub const INIT_JOYSTICK: u32 = 0x0000_0200;

/// The haptic subsystem of the platform.
pub const INIT_HAPTIC: u32 = 0x0000_1000;

/// The gamepad subsystem of the platform.
pub const INIT_GAMEPAD: u32 = 0x0000_2000;

/// The events subsystem of the platform.
pub const INIT_EVENTS: u32 = 0x0000_4000;

/// The sensor subsystem of the platform.
pub const INIT_SENSOR: u32 = 0x0000_8000;

/// The camera subsystem of the platform.
pub const INIT_CAMERA: u32 = 0x0001_0000;

/// All the subsystems that an application starts.
pub const INIT_ALL: u32 = 0x0001_f230;

/// The number of texts that describe an application.
pub const METADATA_FIELDS: usize = 7;

/// What an application tells the platform about itself.
#[derive(Debug, Clone)]
pub struct ApplicationInformation {
    pub name: String,
    pub version: String,
    pub identifier: String,
    pub creator: String,
    pub copyright: String,
    pub url: String,
    pub app_type: String,
}

/// Something to do while an application starts.
#[derive(Debug, Clone, Copy, PartialEq, Eq)]
pub enum StartupCall<'a> {
    /// Start the platform with the subsystems `flags`.
    InitializePlatform { flags: u32 },
    /// Tell the platform the text `value` of the description.
    SetMetadata { field: MetadataField, value: &'a str },
}

/// How the start of an application goes on.
#[derive(Debug, Clone, Copy, PartialEq, Eq)]
pub enum Startup<'a> {
    /// This is to be done next.
    Call { call: StartupCall<'a> },
    /// The application has started.
    Ready,
    /// The application has not started.
    Failed { error: SdlError },
}

/// How the start of an application goes on, with a text as its
/// characters.
pub enum StartupView {
    InitializePlatform { flags: u32 },
    SetMetadata { field: MetadataField, value: Seq<char> },
    Ready,
    Failed { error: SdlError },
}

impl<'a> View for Startup<'a> {
    type V = StartupView;

    open spec fn view(&self) -> StartupView {
        match self {
            Startup::Call { call: StartupCall::InitializePlatform { flags } } => {
                StartupView::InitializePlatform { flags: *flags }
            },
            Startup::Call { call: StartupCall::SetMetadata { field, value } } => {
                StartupView::SetMetadata { field: *field, value: value@ }
            },
            Startup::Ready => StartupView::Ready,
            Startup::Failed { error } => StartupView::Failed { error: *error },
        }
    }
}

impl MetadataField {
    /// The field at the place `index` in the order in which the texts
    /// are told: name, version, identifier, creator, copyright, address,
    /// kind; the last field for every place from its own on.
    pub open spec fn at_spec(index: int) -> MetadataField {
        if index == 0 {
            MetadataField::Name
        } else if index == 1 {
            MetadataField::Version
        } else if index == 2 {
            MetadataField::Identifier
        } else if index == 3 {
            MetadataField::Creator
        } else if index == 4 {
            MetadataField::Copyright
        } else if index == 5 {
            MetadataField::Url
        } else {
            MetadataField::AppType
        }
    }

    /// The field at the place `index`; the last field for every place
    /// from its own on.
    pub fn at(index: usize) -> (field: MetadataField)
        ensures
            field == MetadataField::at_spec(index as int),
    {
        match index {
            0 => MetadataField::Name,
            1 => MetadataField::Version,
            2 => MetadataField::Identifier,
            3 => MetadataField::Creator,
            4 => MetadataField::Copyright,
            5 => MetadataField::Url,
            _ => MetadataField::AppType,
        }
    }

    /// The name under which the platform keeps the text.
    pub open spec fn key_spec(self) -> Seq<char> {
        match self {
            MetadataField::Name => "SDL.app.metadata.name"@,
            MetadataField::Version => "SDL.app.metadata.version"@,
            MetadataField::Identifier => "SDL.app.metadata.identifier"@,
            MetadataField::Creator => "SDL.app.metadata.creator"@,
            MetadataField::Copyright => "SDL.app.metadata.copyright"@,
            MetadataField::Url => "SDL.app.metadata.url"@,
            MetadataField::AppType => "SDL.app.metadata.type"@,
        }
    }

    /// The name under which the platform keeps the text.
    pub fn key(self) -> (key: &'static str)
        ensures
            key@ == self.key_spec(),
    {
        match self {
            MetadataField::Name => "SDL.app.metadata.name",
            MetadataField::Version => "SDL.app.metadata.version",
            MetadataField::Identifier => "SDL.app.metadata.identifier",
            MetadataField::Creator => "SDL.app.metadata.creator",
            MetadataField::Copyright => "SDL.app.metadata.copyright",
            MetadataField::Url => "SDL.app.metadata.url",
            MetadataField::AppType => "SDL.app.metadata.type",
        }
    }
}

impl ApplicationInformation {
    /// The text of the description that `field` names.
    pub open spec fn text_spec(self, field: MetadataField) -> Seq<char> {
        match field {
            MetadataField::Name => self.name@,
            MetadataField::Version => self.version@,
            MetadataField::Identifier => self.identifier@,
            MetadataField::Creator => self.creator@,
            MetadataField::Copyright => self.copyright@,
            MetadataField::Url => self.url@,
            MetadataField::AppType => self.app_type@,
        }
    }

    /// The text of the description that `field` names.
    pub fn text(&self, field: MetadataField) -> (text: &str)
        ensures
            text@ == self.text_spec(field),
    {
        match field {
            MetadataField::Name => self.name.as_str(),
            MetadataField::Version => self.version.as_str(),
            MetadataField::Identifier => self.identifier.as_str(),
            MetadataField::Creator => self.creator.as_str(),
            MetadataField::Copyright => self.copyright.as_str(),
            MetadataField::Url => self.url.as_str(),
            MetadataField::AppType => self.app_type.as_str(),
        }
    }

    /// How telling the platform the description goes on when `told`
    /// texts have been handed over and the platform took the last of
    /// them or not (`accepted`; of no account before the first).
    ///
    /// The texts are told in order. A text that the platform did not
    /// take ends it with an error, and so does a text with a NUL
    /// character, which is not handed over at all.
    pub open spec fn set_sdl_property_spec(self, told: int, accepted: bool) -> StartupView {
        if told > 0 && !accepted {
            StartupView::Failed { error: SdlError::SetMetadata(MetadataField::at_spec(told - 1)) }
        } else if told >= METADATA_FIELDS {
            StartupView::Ready
        } else {
            let field = MetadataField::at_spec(told);
            if has_nul_spec(self.text_spec(field)) {
                StartupView::Failed { error: SdlError::InvalidMetadata(field) }
            } else {
                StartupView::SetMetadata { field, value: self.text_spec(field) }
            }
        }
    }

    /// How telling the platform the description goes on when `told`
    /// texts have been handed over and the platform took the last of
    /// them or not.
    pub fn set_sdl_property(&self, told: usize, accepted: bool) -> (step: Startup<'_>)
        ensures
            step@ == self.set_sdl_property_spec(told as int, accepted),
    {
        if told > 0 && !accepted {
            return Startup::Failed { error: SdlError::SetMetadata(MetadataField::at(told - 1)) };
        }
        if told >= METADATA_FIELDS {
            return Startup::Ready;
        }
        let field = MetadataField::at(told);
        let value = self.text(field);
        if has_nul(value) {
            Startup::Failed { error: SdlError::InvalidMetadata(field) }
        } else {
            Startup::Call { call: StartupCall::SetMetadata { field, value } }
        }
    }

    /// How the start of the application goes on when `done` things have
    /// been done and the last of them went well or not (`succeeded`; of
    /// no account before the first).
    ///
    /// The platform is started first, with all its subsystems; then the
    /// description is told, text by text. The first thing that fails
    /// ends the start.
    pub open spec fn initialize_app_spec(self, done: int, succeeded: bool) -> StartupView {
        if done <= 0 {
            StartupView::InitializePlatform { flags: INIT_ALL }
        } else if done == 1 && !succeeded {
            StartupView::Failed { error: SdlError::Initialize }
        } else {
            self.set_sdl_property_spec(done - 1, succeeded)
        }
    }

    /// How the start of the application goes on when `done` things have
    /// been done and the last of them went well or not.
    pub fn initialize_app(&self, done: usize, succeeded: bool) -> (step: Startup<'_>)
        ensures
            step@ == self.initialize_app_spec(done as int, succeeded),
    {
        if done == 0 {
            return Startup::Call { call: StartupCall::InitializePlatform { flags: INIT_ALL } };
        }
        if done == 1 && !succeeded {
            return Startup::Failed { error: SdlError::Initialize };
        }
        self.set_sdl_property(done - 1, succeeded)
    }

    /// A start takes nine steps at most, and where every step goes well
    /// it is ready after the ninth; a step that fails ends it at once.
    pub proof fn lemma_start_ends(self, done: int, succeeded: bool)
        requires
            done >= 1,
        ensures
            !succeeded ==> self.initialize_app_spec(done, succeeded) is Failed,
            succeeded && done > METADATA_FIELDS ==> self.initialize_app_spec(done, succeeded)
                is Ready,
    {
    }
}

/// The subsystems that an application starts are audio, camera, events,
/// haptic, gamepad, joystick, sensor and video.
pub proof fn lemma_init_all()
    ensures
        INIT_ALL == INIT_AUDIO | INIT_CAMERA | INIT_EVENTS | INIT_HAPTIC | INIT_GAMEPAD
            | INIT_JOYSTICK | INIT_SENSOR | INIT_VIDEO,
{
    assert(0x0001_f230u32 == 0x0000_0010u32 | 0x0001_0000u32 | 0x0000_4000u32 | 0x0000_1000u32
        | 0x0000_2000u32 | 0x0000_0200u32 | 0x0000_8000u32 | 0x0000_0020u32) by (bit_vector);
}

} // verus!
