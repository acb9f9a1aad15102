//! The runtime: the script source, the parsed tables, the entry
//! interpreter, and the presentation states that it drives. A host calls
//! the steps of a cycle in order: `parse_pending`, `handle_input`,
//! `process_entry`, `update_dialogue_box`, `update_choices`,
//! `update_background`, `retime_voice`, `update_actor`,
//! `update_exposed_line`.
use vstd::prelude::*;
use crate::components::ChoiceCursorComponent;
use crate::number::{natural_spec, parse_natural};
use crate::presence::{Lifecycle, Presence, sync_spec, enabled_spec, disabled_spec};
use crate::script::{parse_script, parse_spec, script_lines, FormatError, ScriptTables, TablesModel};
use crate::settings::{apply_pairs, fits, last_match, EntryError, Settings};
use crate::text::{is_word, split, split_spec, views};
use crate::typewriter::{advance_cursor, reveal_after, reveal_step, UNITS_PER_CHAR};

verus! {

/// The most digits of a choice's target entry number.
pub const MAX_TARGET_DIGITS: usize = 9;

/// An input, sampled once per cycle.
#[derive(Clone, Copy, Debug, PartialEq, Eq, Structural)]
pub enum InputAction {
    Advance,
    NavigateUp,
    NavigateDown,
    Confirm,
}

/// One option of a choice entry: its label and the entry it leads to
/// (`None` where the target does not read as a number).
#[derive(Debug)]
pub struct ChoiceOption {
    pub label: Vec<char>,
    pub target: Option<usize>,
}

/// A confirmed option whose target is not an entry of the script.
#[derive(Clone, Copy, Debug, PartialEq, Eq, Structural)]
pub struct RangeError {
    pub target: Option<usize>,
}

/// The dialogue box. `cursor` counts millionths of a revealed character;
/// `entry` is the index of the entry whose text the box holds.
#[derive(Debug)]
pub struct DialogueBox {
    pub presence: Presence,
    pub cursor: u128,
    pub entry: usize,
    pub text: Vec<char>,
    pub printing: bool,
}

/// The choice menu and its selected option.
#[derive(Debug)]
pub struct ChoiceMenu {
    pub presence: Presence,
    pub options: Vec<ChoiceOption>,
    pub selection: usize,
}

/// The speaking actor's portrait, and the period (in thousandths of a
/// second) of the timer that paces its voice cues.
#[derive(Debug)]
pub struct ActorState {
    pub presence: Presence,
    pub name: Vec<char>,
    pub timer_period: i64,
}

/// The background image.
#[derive(Debug)]
pub struct BackgroundState {
    pub presence: Presence,
    pub name: Vec<char>,
}

/// What the dialogue box asks of the renderer: the request, and how many
/// characters of the text to show.
#[derive(Clone, Copy, Debug)]
pub struct BoxFrame {
    pub action: Lifecycle,
    pub shown: usize,
}

/// What the choice menu asks of the renderer, and which option is active.
#[derive(Clone, Copy, Debug)]
pub struct ChoiceFrame {
    pub action: Lifecycle,
    pub selection: usize,
}

/// Where one option of the choice menu is drawn, in thousandths: its
/// cursor data, the point of its label, and the point of its cursor sprite.
#[derive(Clone, Copy, Debug)]
pub struct ChoiceRow {
    pub cursor: ChoiceCursorComponent,
    pub label_at: (i64, i64, i64),
    pub cursor_at: (i64, i64, i64),
}

/// What the background asks of the renderer, with the index in the
/// backgrounds table of the image to show (`None`: unknown name).
#[derive(Clone, Copy, Debug)]
pub struct BackgroundFrame {
    pub action: Lifecycle,
    pub background: Option<usize>,
}

/// What the actor asks of the renderer and the audio player, with the
/// index in the actors table of the speaker (`None`: unknown name).
#[derive(Clone, Copy, Debug)]
pub struct ActorFrame {
    pub action: Lifecycle,
    pub actor: Option<usize>,
    pub play_voice: bool,
}

/// The whole state of a dialogue run.
#[derive(Debug)]
pub struct Birdsong {
    pub script: String,
    pub updated: bool,
    pub curr_line: usize,
    pub tables: ScriptTables,
    pub ready: bool,
    pub index: usize,
    pub settings: Settings,
    pub dbox: DialogueBox,
    pub choices: ChoiceMenu,
    pub actor: ActorState,
    pub background: BackgroundState,
}

/// The options of a choice payload `label@target|label@target`.
pub open spec fn options_spec(payload: Seq<char>) -> Seq<(Seq<char>, Option<int>)> {
    let parts = split_spec(payload, '|');
    Seq::new(
        parts.len(),
        |k: int|
            {
                let o = split_spec(parts[k], '@');
                (
                    o[0],
                    if o.len() >= 2 {
                        natural_spec(o[1], MAX_TARGET_DIGITS as nat)
                    } else {
                        None
                    },
                )
            },
    )
}

pub open spec fn option_view(o: ChoiceOption) -> (Seq<char>, Option<int>) {
    (
        o.label@,
        match o.target {
            Some(t) => Some(t as int),
            None => None,
        },
    )
}

pub open spec fn names_of_backgrounds(t: TablesModel) -> Seq<Seq<char>> {
    t.backgrounds.map_values(|e: (Seq<char>, Seq<char>, int, int)| e.0)
}

pub open spec fn names_of_actors(t: TablesModel) -> Seq<Seq<char>> {
    t.actors.map_values(|e: (Seq<char>, Seq<char>, Seq<char>)| e.0)
}

/// Builds the options of a choice payload.
pub fn choice_options(payload: &Vec<char>) -> (r: Vec<ChoiceOption>)
    ensures
        Seq::new(r.len() as nat, |k: int| option_view(r[k])) == options_spec(payload@),
{
    let parts = split(payload, '|');
    let ghost ps = split_spec(payload@, '|');
    let mut out: Vec<ChoiceOption> = Vec::new();
    let mut k: usize = 0;
    while k < parts.len()
        invariant
            k <= parts.len(),
            views(parts@) == ps,
            ps == split_spec(payload@, '|'),
            out.len() == k,
            forall|j: int| 0 <= j < k ==> option_view(#[trigger] out@[j]) == options_spec(payload@)[j],
        decreases parts.len() - k,
    {
        assert(parts@[k as int]@ == ps[k as int]);
        let o = split(&parts[k], '@');
        let label = o[0].clone();
        let target = if o.len() >= 2 {
            match parse_natural(&o[1], MAX_TARGET_DIGITS) {
                Some(v) => {
                    proof {
                        crate::number::lemma_pow10_9();
                    }
                    Some(v as usize)
                },
                None => None,
            }
        } else {
            None
        };
        let opt = ChoiceOption { label, target };
        assert(option_view(opt) == options_spec(payload@)[k as int]);
        out.push(opt);
        k = k + 1;
    }
    assert(Seq::new(out.len() as nat, |j: int| option_view(out[j])) =~= options_spec(payload@));
    out
}

/// Finds the last background named `name`.
pub fn find_background(t: &ScriptTables, name: &Vec<char>) -> (r: Option<usize>)
    ensures
        r matches Some(i) ==> last_match(names_of_backgrounds(t@), name@) == Some(i as int) && i < t.backgrounds.len(),
        r is None ==> last_match(names_of_backgrounds(t@), name@) is None,
{
    let ghost all = names_of_backgrounds(t@);
    let mut i: usize = t.backgrounds.len();
    assert(all.subrange(0, i as int) =~= all);
    while i > 0
        invariant
            i <= t.backgrounds.len(),
            all == names_of_backgrounds(t@),
            last_match(all, name@) == last_match(all.subrange(0, i as int), name@),
        decreases i,
    {
        let ghost pre = all.subrange(0, i as int);
        assert(pre.drop_last() =~= all.subrange(0, i as int - 1));
        assert(pre.last() == t.backgrounds@[i - 1].name@);
        if crate::text::same_chars(&t.backgrounds[i - 1].name, name) {
            return Some(i - 1);
        }
        i = i - 1;
    }
    None
}

/// Finds the last actor named `name`.
pub fn find_actor(t: &ScriptTables, name: &Vec<char>) -> (r: Option<usize>)
    ensures
        r matches Some(i) ==> last_match(names_of_actors(t@), name@) == Some(i as int) && i < t.actors.len(),
        r is None ==> last_match(names_of_actors(t@), name@) is None,
{
    let ghost all = names_of_actors(t@);
    let mut i: usize = t.actors.len();
    assert(all.subrange(0, i as int) =~= all);
    while i > 0
        invariant
            i <= t.actors.len(),
            all == names_of_actors(t@),
            last_match(all, name@) == last_match(all.subrange(0, i as int), name@),
        decreases i,
    {
        let ghost pre = all.subrange(0, i as int);
        assert(pre.drop_last() =~= all.subrange(0, i as int - 1));
        assert(pre.last() == t.actors@[i - 1].name@);
        if crate::text::same_chars(&t.actors[i - 1].name, name) {
            return Some(i - 1);
        }
        i = i - 1;
    }
    None
}

impl Birdsong {
    /// The run's invariant: the entry index stays inside the entry list
    /// while the run goes on, and may stand one past it once the run has
    /// concluded; the selected option stays inside a non-empty option list.
    pub open spec fn wf(&self) -> bool {
        &&& self.index <= self.tables.entries.len()
        &&& (self.ready && self.tables.entries.len() > 0 ==> self.index < self.tables.entries.len())
        &&& (self.choices.options.len() == 0 || self.choices.selection < self.choices.options.len())
        &&& (self.choices.options.len() == 0 ==> self.choices.selection == 0)
    }

    /// A run with no script yet and every presentation hidden.
    pub fn new() -> (r: Birdsong)
        ensures
            r.wf(),
            r.script@.len() == 0,
            r.updated,
            !r.ready,
            r.index == 0,
            r.curr_line == 0,
            r.tables@ == crate::script::empty_tables(),
            r.settings@ == crate::settings::default_model(),
            !r.dbox.presence.enabled && !r.dbox.presence.created,
            !r.choices.presence.enabled && !r.choices.presence.created,
            !r.actor.presence.enabled && !r.actor.presence.created,
            !r.background.presence.enabled && !r.background.presence.created,
            r.dbox.cursor == 0,
            !r.dbox.printing,
            r.dbox.text@.len() == 0,
            r.choices.options.len() == 0,
            r.choices.selection == 0,
            r.actor.timer_period == r.settings.voice_frequency,
            r.actor.name@ == "none"@,
            r.background.name@ == "none"@,
    {
        let settings = Settings::defaults();
        let period = settings.voice_frequency;
        Birdsong {
            script: String::new(),
            updated: true,
            curr_line: 0,
            tables: ScriptTables::new(),
            ready: false,
            index: 0,
            settings,
            dbox: DialogueBox { presence: Presence::hidden(), cursor: 0, entry: 0, text: Vec::new(), printing: false },
            choices: ChoiceMenu { presence: Presence::hidden(), options: Vec::new(), selection: 0 },
            actor: ActorState { presence: Presence::hidden(), name: crate::text::chars_of("none"), timer_period: period },
            background: BackgroundState { presence: Presence::hidden(), name: crate::text::chars_of("none") },
        }
    }

    /// Installs a new script; it is parsed at the start of the next cycle.
    pub fn start(&mut self, script: String)
        ensures
            final(self).script@ == script@,
            *final(self) == (Birdsong { script: final(self).script, updated: true, ..*old(self) }),
    {
        self.script = script;
        self.updated = true;
    }

    /// The entry index as of the last `update_exposed_line`.
    pub fn get_curr_line(&mut self) -> (r: usize)
        ensures
            r == old(self).curr_line,
            *final(self) == *old(self),
    {
        self.curr_line
    }

    /// Publishes the current entry index.
    pub fn update_exposed_line(&mut self)
        ensures
            *final(self) == (Birdsong { curr_line: old(self).index, ..*old(self) }),
    {
        self.curr_line = self.index;
    }

    /// Parses the script if it changed. On success the tables are replaced
    /// and the run restarts at entry 0; on a malformed line nothing but the
    /// pending flag changes and the error is returned.
    pub fn parse_pending(&mut self) -> (r: Option<FormatError>)
        requires
            old(self).wf(),
        ensures
            final(self).wf(),
            !final(self).updated,
            !old(self).updated ==> r is None && *final(self) == *old(self),
            old(self).updated ==> match parse_spec(old(self).script@) {
                Ok(t) => r is None && final(self).tables@ == t && *final(self) == (Birdsong {
                    updated: false,
                    tables: final(self).tables,
                    index: 0,
                    ready: true,
                    dbox: DialogueBox { cursor: 0, ..old(self).dbox },
                    choices: ChoiceMenu {
                        presence: disabled_spec(old(self).choices.presence),
                        ..old(self).choices
                    },
                    ..*old(self)
                }),
                Err(e) => r matches Some(fe) && fe.section == e.0 && fe.line == e.1 + 1
                    && fe.raw@ == script_lines(old(self).script@)[e.1 as int]
                    && *final(self) == (Birdsong { updated: false, ..*old(self) }),
            },
    {
        if !self.updated {
            return None;
        }
        self.updated = false;
        match parse_script(self.script.as_str()) {
            Ok(t) => {
                self.tables = t;
                self.index = 0;
                self.ready = true;
                self.dbox.cursor = 0;
                self.choices.presence.disable();
                None
            },
            Err(e) => Some(e),
        }
    }
}

impl Birdsong {
    /// Dispatches the current entry, if the run is ready and has entries.
    /// `s` applies settings and moves on; `c` opens the choice menu; `t`
    /// shows text, with the speaker before an `@`, revealed from the start
    /// when the box held another entry's text; `i` shows a background and
    /// moves on; any other kind does nothing. Moving on resets the reveal
    /// cursor; moving past the last entry concludes the run. Returns
    /// the errors of the settings pairs that were skipped.
    pub fn process_entry(&mut self) -> (errs: Vec<EntryError>)
        requires
            old(self).wf(),
        ensures
            final(self).wf(),
            !old(self).ready || old(self).tables.entries.len() == 0 ==> *final(self) == *old(self) && errs@.len() == 0,
            old(self).ready && old(self).tables.entries.len() > 0 ==> ({
                let o = *old(self);
                let e = o.tables@.entries[o.index as int];
                let len = o.tables.entries.len();
                if e.0 == "s"@ {
                    let applied = apply_pairs(o.settings@, o.tables@, split_spec(e.1, '|'));
                    &&& final(self).settings@ == applied.0
                    &&& errs@ == applied.1
                    &&& *final(self) == (Birdsong {
                        settings: final(self).settings,
                        index: (o.index + 1) as usize,
                        ready: o.index + 1 < len,
                        dbox: DialogueBox { cursor: 0, ..o.dbox },
                        ..o
                    })
                } else if e.0 == "c"@ {
                    &&& errs@.len() == 0
                    &&& *final(self) == (Birdsong {
                        dbox: DialogueBox { presence: disabled_spec(o.dbox.presence), ..o.dbox },
                        actor: ActorState { presence: disabled_spec(o.actor.presence), ..o.actor },
                        choices: ChoiceMenu { presence: enabled_spec(o.choices.presence), ..o.choices },
                        ..o
                    })
                } else if e.0 == "t"@ {
                    let p = split_spec(e.1, '@');
                    let d0 = DialogueBox {
                        entry: o.index,
                        cursor: if o.dbox.entry == o.index { o.dbox.cursor } else { 0 },
                        ..o.dbox
                    };
                    &&& errs@.len() == 0
                    &&& p.len() == 1 ==> final(self).dbox.text@ == p[0] && *final(self) == (Birdsong {
                        dbox: DialogueBox {
                            presence: enabled_spec(o.dbox.presence),
                            text: final(self).dbox.text,
                            ..d0
                        },
                        ..o
                    })
                    &&& p.len() == 2 ==> final(self).dbox.text@ == p[1] && final(self).actor.name@ == p[0]
                        && *final(self) == (Birdsong {
                        dbox: DialogueBox {
                            presence: enabled_spec(o.dbox.presence),
                            text: final(self).dbox.text,
                            ..d0
                        },
                        actor: ActorState {
                            presence: enabled_spec(o.actor.presence),
                            name: final(self).actor.name,
                            ..o.actor
                        },
                        ..o
                    })
                    &&& p.len() > 2 ==> *final(self) == (Birdsong {
                        dbox: DialogueBox { presence: enabled_spec(o.dbox.presence), ..d0 },
                        ..o
                    })
                } else if e.0 == "i"@ {
                    &&& errs@.len() == 0
                    &&& final(self).background.name@ == e.1
                    &&& *final(self) == (Birdsong {
                        background: BackgroundState {
                            presence: enabled_spec(o.background.presence),
                            name: final(self).background.name,
                        },
                        index: (o.index + 1) as usize,
                        ready: o.index + 1 < len,
                        dbox: DialogueBox { cursor: 0, ..o.dbox },
                        ..o
                    })
                } else {
                    &&& *final(self) == o
                    &&& errs@.len() == 0
                }
            }),
    {
        let mut errs: Vec<EntryError> = Vec::new();
        if !self.ready || self.tables.entries.len() == 0 {
            return errs;
        }
        let i = self.index;
        let kind = self.tables.entries[i].kind.clone();
        let payload = self.tables.entries[i].payload.clone();
        let len = self.tables.entries.len();
        if is_word(&kind, "s") {
            errs = self.settings.apply_entry(&self.tables, &payload);
            self.index = i + 1;
            self.ready = i + 1 < len;
            self.dbox.cursor = 0;
        } else if is_word(&kind, "c") {
            self.dbox.presence.disable();
            self.actor.presence.disable();
            self.choices.presence.enable();
        } else if is_word(&kind, "t") {
            self.dbox.presence.enable();
            if self.dbox.entry != i {
                self.dbox.cursor = 0;
                self.dbox.entry = i;
            }
            let p = split(&payload, '@');
            if p.len() == 1 {
                self.dbox.text = p[0].clone();
            } else if p.len() == 2 {
                self.actor.name = p[0].clone();
                self.actor.presence.enable();
                self.dbox.text = p[1].clone();
            }
        } else if is_word(&kind, "i") {
            self.background.presence.enable();
            self.background.name = payload;
            self.index = i + 1;
            self.ready = i + 1 < len;
            self.dbox.cursor = 0;
        }
        errs
    }
}

impl Birdsong {
    /// Applies one input. Advance and Confirm confirm the selected option
    /// while the choice menu is open, and advance the dialogue otherwise:
    /// a text still revealing is shown whole; a revealed one moves on to
    /// the next entry; at the last entry the run concludes. Confirming an
    /// option whose target is not an entry is refused and the menu stays.
    pub fn handle_input(&mut self, action: InputAction) -> (r: Result<(), RangeError>)
        requires
            old(self).wf(),
        ensures
            final(self).wf(),
            action == InputAction::NavigateUp ==> r is Ok && *final(self) == (Birdsong {
                choices: ChoiceMenu {
                    selection: if old(self).choices.selection > 0 {
                        (old(self).choices.selection - 1) as usize
                    } else {
                        old(self).choices.selection
                    },
                    ..old(self).choices
                },
                ..*old(self)
            }),
            action == InputAction::NavigateDown ==> r is Ok && *final(self) == (Birdsong {
                choices: ChoiceMenu {
                    selection: if old(self).choices.selection + 1 < old(self).choices.options.len() {
                        (old(self).choices.selection + 1) as usize
                    } else {
                        old(self).choices.selection
                    },
                    ..old(self).choices
                },
                ..*old(self)
            }),
            (action == InputAction::Advance || action == InputAction::Confirm)
                && old(self).choices.presence.enabled ==> ({
                let o = *old(self);
                let opts = o.choices.options@;
                if opts.len() == 0 {
                    r is Ok && *final(self) == o
                } else {
                    let target = opts[o.choices.selection as int].target;
                    match target {
                        Some(t) => if t < o.tables.entries.len() {
                            r is Ok && *final(self) == (Birdsong {
                                index: t,
                                ready: true,
                                dbox: DialogueBox { cursor: 0, ..o.dbox },
                                choices: ChoiceMenu {
                                    presence: disabled_spec(o.choices.presence),
                                    ..o.choices
                                },
                                ..o
                            })
                        } else {
                            r == Err::<(), RangeError>(RangeError { target }) && *final(self) == o
                        },
                        None => r == Err::<(), RangeError>(RangeError { target }) && *final(self) == o,
                    }
                }
            }),
            (action == InputAction::Advance || action == InputAction::Confirm)
                && !old(self).choices.presence.enabled ==> ({
                let o = *old(self);
                let len = o.tables.entries.len();
                &&& r is Ok
                &&& if o.index >= len {
                    *final(self) == o
                } else if o.dbox.printing {
                    *final(self) == (Birdsong {
                        dbox: DialogueBox { cursor: (o.dbox.text.len() * UNITS_PER_CHAR) as u128, ..o.dbox },
                        ..o
                    })
                } else if o.index + 1 < len {
                    *final(self) == (Birdsong {
                        index: (o.index + 1) as usize,
                        dbox: DialogueBox { cursor: 0, ..o.dbox },
                        ..o
                    })
                } else {
                    *final(self) == (Birdsong { ready: false, ..o })
                }
            }),
    {
        match action {
            InputAction::NavigateUp => {
                if self.choices.selection > 0 {
                    self.choices.selection = self.choices.selection - 1;
                }
                Ok(())
            },
            InputAction::NavigateDown => {
                if self.choices.selection + 1 < self.choices.options.len() {
                    self.choices.selection = self.choices.selection + 1;
                }
                Ok(())
            },
            InputAction::Advance | InputAction::Confirm => {
                if self.choices.presence.enabled {
                    if self.choices.options.len() == 0 {
                        return Ok(());
                    }
                    let target = self.choices.options[self.choices.selection].target;
                    match target {
                        Some(t) => {
                            if t < self.tables.entries.len() {
                                self.index = t;
                                self.ready = true;
                                self.dbox.cursor = 0;
                                self.choices.presence.disable();
                                Ok(())
                            } else {
                                Err(RangeError { target })
                            }
                        },
                        None => Err(RangeError { target }),
                    }
                } else {
                    let len = self.tables.entries.len();
                    if self.index < len {
                        if self.dbox.printing {
                            self.dbox.cursor = self.dbox.text.len() as u128 * UNITS_PER_CHAR;
                        } else if self.index + 1 < len {
                            self.index = self.index + 1;
                            self.dbox.cursor = 0;
                        } else {
                            self.ready = false;
                        }
                    }
                    Ok(())
                }
            },
        }
    }

    /// One cycle of the dialogue box. While it is shown the cursor moves on
    /// by the text speed times `elapsed_ms`, up to the end of the text, and
    /// the box is printing while the cursor is short of the end.
    pub fn update_dialogue_box(&mut self, elapsed_ms: u32) -> (r: BoxFrame)
        requires
            old(self).wf(),
        ensures
            final(self).wf(),
            *final(self) == (Birdsong {
                dbox: DialogueBox {
                    presence: final(self).dbox.presence,
                    cursor: final(self).dbox.cursor,
                    printing: final(self).dbox.printing,
                    ..old(self).dbox
                },
                ..*old(self)
            }),
            (final(self).dbox.presence, r.action) == sync_spec(old(self).dbox.presence),
            r.action == Lifecycle::Refresh ==> forall|ds: Seq<int>|
                old(self).dbox.cursor == #[trigger] reveal_after(
                    old(self).settings.box_text_speed as int,
                    old(self).dbox.text.len() * UNITS_PER_CHAR,
                    ds,
                ) ==> final(self).dbox.cursor == reveal_after(
                    old(self).settings.box_text_speed as int,
                    old(self).dbox.text.len() * UNITS_PER_CHAR,
                    ds.push(elapsed_ms as int),
                ),
            r.action == Lifecycle::Refresh ==> ({
                let limit = old(self).dbox.text.len() * UNITS_PER_CHAR;
                let start = if old(self).dbox.cursor > limit { limit as int } else { old(self).dbox.cursor as int };
                &&& final(self).dbox.cursor == reveal_step(start, old(self).settings.box_text_speed as int, limit as int, elapsed_ms as int)
                &&& final(self).dbox.printing == (final(self).dbox.cursor < limit)
                &&& r.shown == final(self).dbox.cursor / UNITS_PER_CHAR
            }),
            r.action != Lifecycle::Refresh ==> final(self).dbox.cursor == old(self).dbox.cursor
                && final(self).dbox.printing == old(self).dbox.printing && r.shown == 0,
    {
        let action = self.dbox.presence.sync();
        if action == Lifecycle::Refresh {
            let limit = self.dbox.text.len() as u128 * UNITS_PER_CHAR;
            let start = if self.dbox.cursor > limit { limit } else { self.dbox.cursor };
            let c = advance_cursor(start, self.settings.box_text_speed, limit, elapsed_ms);
            proof {
                let sp = self.settings.box_text_speed as int;
                assert forall|ds: Seq<int>|
                    old(self).dbox.cursor == #[trigger] reveal_after(sp, limit as int, ds) implies c
                        == reveal_after(sp, limit as int, ds.push(elapsed_ms as int)) by {
                    assert(ds.push(elapsed_ms as int).drop_last() =~= ds);
                }
            }
            self.dbox.cursor = c;
            self.dbox.printing = c < limit;
            BoxFrame { action, shown: (c / UNITS_PER_CHAR) as usize }
        } else {
            BoxFrame { action, shown: 0 }
        }
    }

    /// One cycle of the choice menu. When it is created its options are
    /// read from the current entry and the first is selected; when it is
    /// destroyed they are dropped.
    pub fn update_choices(&mut self) -> (r: ChoiceFrame)
        requires
            old(self).wf(),
        ensures
            final(self).wf(),
            *final(self) == (Birdsong { choices: final(self).choices, ..*old(self) }),
            (final(self).choices.presence, r.action) == sync_spec(old(self).choices.presence),
            r.selection == final(self).choices.selection,
            r.action == Lifecycle::Create && old(self).index < old(self).tables.entries.len() ==>
                Seq::new(final(self).choices.options.len() as nat, |k: int| option_view(final(self).choices.options[k]))
                    == options_spec(old(self).tables@.entries[old(self).index as int].1)
                && final(self).choices.selection == 0,
            r.action == Lifecycle::Destroy ==> final(self).choices.options.len() == 0,
            r.action == Lifecycle::Refresh || r.action == Lifecycle::Idle ==>
                final(self).choices.options@ == old(self).choices.options@
                && final(self).choices.selection == old(self).choices.selection,
    {
        let action = self.choices.presence.sync();
        if action == Lifecycle::Create {
            if self.index < self.tables.entries.len() {
                self.choices.options = choice_options(&self.tables.entries[self.index].payload);
            } else {
                self.choices.options = Vec::new();
            }
            self.choices.selection = 0;
        } else if action == Lifecycle::Destroy {
            self.choices.options = Vec::new();
            self.choices.selection = 0;
        }
        ChoiceFrame { action, selection: self.choices.selection }
    }

    /// One cycle of the background, with the image to show where it is
    /// shown.
    pub fn update_background(&mut self) -> (r: BackgroundFrame)
        requires
            old(self).wf(),
        ensures
            final(self).wf(),
            *final(self) == (Birdsong {
                background: BackgroundState { presence: final(self).background.presence, ..old(self).background },
                ..*old(self)
            }),
            (final(self).background.presence, r.action) == sync_spec(old(self).background.presence),
            r.action == Lifecycle::Create || r.action == Lifecycle::Refresh ==> match r.background {
                Some(i) => last_match(names_of_backgrounds(old(self).tables@), old(self).background.name@) == Some(i as int)
                    && i < old(self).tables.backgrounds.len(),
                None => last_match(names_of_backgrounds(old(self).tables@), old(self).background.name@) is None,
            },
            r.action == Lifecycle::Destroy || r.action == Lifecycle::Idle ==> r.background is None,
    {
        let action = self.background.presence.sync();
        if action == Lifecycle::Create || action == Lifecycle::Refresh {
            let b = find_background(&self.tables, &self.background.name);
            BackgroundFrame { action, background: b }
        } else {
            BackgroundFrame { action, background: None }
        }
    }

    /// While the actor is shown, the voice timer must run with the period
    /// of the settings: returns the new period where it changed.
    pub fn retime_voice(&mut self) -> (r: Option<i64>)
        requires
            old(self).wf(),
        ensures
            final(self).wf(),
            *final(self) == (Birdsong {
                actor: ActorState { timer_period: final(self).actor.timer_period, ..old(self).actor },
                ..*old(self)
            }),
            old(self).actor.presence.enabled && old(self).actor.timer_period != old(self).settings.voice_frequency
                ==> r == Some(old(self).settings.voice_frequency)
                && final(self).actor.timer_period == old(self).settings.voice_frequency,
            !(old(self).actor.presence.enabled && old(self).actor.timer_period != old(self).settings.voice_frequency)
                ==> r is None && final(self).actor.timer_period == old(self).actor.timer_period,
    {
        if self.actor.presence.enabled && self.actor.timer_period != self.settings.voice_frequency {
            self.actor.timer_period = self.settings.voice_frequency;
            Some(self.actor.timer_period)
        } else {
            None
        }
    }

    /// One cycle of the actor. `timer_fired` says whether the voice timer
    /// finished a period in this cycle; a voice cue plays exactly when it
    /// did, the actor is shown and known, and the dialogue box is printing.
    pub fn update_actor(&mut self, timer_fired: bool) -> (r: ActorFrame)
        requires
            old(self).wf(),
        ensures
            final(self).wf(),
            *final(self) == (Birdsong {
                actor: ActorState { presence: final(self).actor.presence, ..old(self).actor },
                ..*old(self)
            }),
            (final(self).actor.presence, r.action) == sync_spec(old(self).actor.presence),
            r.action == Lifecycle::Create || r.action == Lifecycle::Refresh ==> match r.actor {
                Some(i) => last_match(names_of_actors(old(self).tables@), old(self).actor.name@) == Some(i as int)
                    && i < old(self).tables.actors.len(),
                None => last_match(names_of_actors(old(self).tables@), old(self).actor.name@) is None,
            },
            r.action == Lifecycle::Destroy || r.action == Lifecycle::Idle ==> r.actor is None,
            r.play_voice == (old(self).actor.presence.enabled && timer_fired && old(self).dbox.printing
                && r.actor is Some),
    {
        let action = self.actor.presence.sync();
        let a = if action == Lifecycle::Create || action == Lifecycle::Refresh {
            find_actor(&self.tables, &self.actor.name)
        } else {
            None
        };
        let play_voice = self.actor.presence.enabled && timer_fired && self.dbox.printing && a.is_some();
        ActorFrame { action, actor: a, play_voice }
    }
}

impl Birdsong {
    /// Where option `k` of the open menu is drawn. Its row starts at the
    /// box position moved down by `k` times the choice spacing; the label
    /// stands the choice indent to the right of that point, and the cursor
    /// the cursor offset below it. `None` where a point does not fit in an
    /// `i64`.
    pub fn choice_row(&self, k: usize) -> (r: Option<ChoiceRow>)
        requires
            k < self.choices.options.len(),
        ensures
            ({
                let b = self.settings.box_position;
                let y = b.1 as int - k as int * self.settings.choice_spacing as int;
                let lx = b.0 as int + self.settings.choice_indent as int;
                let cy = y - self.settings.cursor_offset as int;
                match r {
                    Some(row) => fits(y) && fits(lx) && fits(cy)
                        && row.cursor.num == k
                        && row.cursor.next == self.choices.options@[k as int].target
                        && row.cursor.anchor == (b.0, y as i64, b.2)
                        && row.label_at == (lx as i64, y as i64, b.2)
                        && row.cursor_at == (b.0, cy as i64, b.2),
                    None => !(fits(y) && fits(lx) && fits(cy)),
                }
            }),
    {
        let spacing = self.settings.choice_spacing as i128;
        let kk = k as i128;
        assert(-0x7fff_ffff_ffff_ffff_8000_0000_0000_0000 <= kk * spacing <= 0x7fff_ffff_ffff_ffff_8000_0000_0000_0000) by (nonlinear_arith)
            requires
                0 <= kk <= 0xffff_ffff_ffff_ffff,
                -0x8000_0000_0000_0000 <= spacing <= 0x7fff_ffff_ffff_ffff,
        ;
        let p = self.settings.box_position;
        let y = p.1 as i128 - kk * spacing;
        let lx = p.0 as i128 + self.settings.choice_indent as i128;
        if y < i64::MIN as i128 || y > i64::MAX as i128 || lx < i64::MIN as i128 || lx > i64::MAX as i128 {
            return None;
        }
        let cy = y - self.settings.cursor_offset as i128;
        if cy < i64::MIN as i128 || cy > i64::MAX as i128 {
            return None;
        }
        let cursor = ChoiceCursorComponent { num: k, next: self.choices.options[k].target, anchor: (p.0, y as i64, p.2) };
        Some(ChoiceRow { cursor, label_at: (lx as i64, y as i64, p.2), cursor_at: (p.0, cy as i64, p.2) })
    }
}

} // verus!
