//! Markers for the rendered objects, and the choice cursor's data.
use vstd::prelude::*;

verus! {

/// Marks the dialogue box's text object.
#[derive(Clone, Copy, Debug, PartialEq, Eq, Structural)]
pub struct DialogueBoxComponent;

/// Marks the actor's portrait sprite.
#[derive(Clone, Copy, Debug, PartialEq, Eq, Structural)]
pub struct PortraitComponent;

/// Marks the object that plays the actor's voice cues.
#[derive(Clone, Copy, Debug, PartialEq, Eq, Structural)]
pub struct VoiceComponent;

/// Marks the background sprite.
#[derive(Clone, Copy, Debug, PartialEq, Eq, Structural)]
pub struct BackgroundComponent;

/// Marks every object of the choice menu.
#[derive(Clone, Copy, Debug, PartialEq, Eq, Structural)]
pub struct ChoiceItemComponent;

/// The cursor beside option `num` of a choice menu: the entry it leads to
/// and the point (in thousandths) where its row starts.
#[derive(Clone, Copy, Debug)]
pub struct ChoiceCursorComponent {
    pub num: usize,
    pub next: Option<usize>,
    pub anchor: (i64, i64, i64),
}

} // verus!
