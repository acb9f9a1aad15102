//! A verified runtime for branching dialogue scripts: a parser for the script
//! format, an entry interpreter, and the presentation state machines that it
//! drives (dialogue box, choices, actor portrait, background).
pub mod components;
pub mod number;
pub mod presence;
pub mod runtime;
pub mod script;
pub mod settings;
pub mod text;
pub mod typewriter;

pub use components::{
    BackgroundComponent, ChoiceCursorComponent, ChoiceItemComponent, DialogueBoxComponent,
    PortraitComponent, VoiceComponent,
};
pub use runtime::{
    ActorFrame, BackgroundFrame, Birdsong, BoxFrame, ChoiceFrame, ChoiceOption, ChoiceRow, InputAction,
    RangeError,
};
pub use script::{parse_script, FormatError, ScriptTables, Section};
pub use settings::{EntryError, Settings};
