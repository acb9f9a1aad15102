use birdsong::number::{parse_milli, parse_natural};
use birdsong::presence::{Lifecycle, Presence};
use birdsong::text::{chars_of, split};
use birdsong::typewriter::advance_cursor;
use birdsong::{parse_script, Birdsong, EntryError, InputAction, RangeError, Section, Settings};

fn chars(s: &str) -> Vec<char> {
    s.chars().collect()
}

fn text(v: &[char]) -> String {
    v.iter().collect()
}

fn cycle(b: &mut Birdsong, input: Option<InputAction>, dt: u32) -> Vec<EntryError> {
    b.parse_pending();
    if let Some(a) = input {
        let _ = b.handle_input(a);
    }
    let errs = b.process_entry();
    b.update_dialogue_box(dt);
    b.update_choices();
    b.update_background();
    b.retime_voice();
    b.update_actor(false);
    b.update_exposed_line();
    errs
}

fn started(script: &str) -> Birdsong {
    let mut b = Birdsong::new();
    b.start(script.to_string());
    b
}

const FULL: &str = "## FONTS\nmain#fonts/main.ttf\n\n## CURSOR SPRITES\narrow#images/arrow.png\n## BACKGROUNDS\nroom#images/room.png@10.5x-20\nhall#images/hall.png@0x0\n## ACTORS\nann#images/ann.png|audio/ann.ogg\n## ENTRIES\ns#font:main|box_text_speed:50\ni#room\nt#ann@Hello there\nt#Bye\n";

#[test]
fn parse_counts_records_per_section() {
    let t = parse_script(FULL).unwrap();
    assert_eq!(t.fonts.len(), 1);
    assert_eq!(t.cursors.len(), 1);
    assert_eq!(t.backgrounds.len(), 2);
    assert_eq!(t.actors.len(), 1);
    assert_eq!(t.entries.len(), 4);
    assert_eq!(text(&t.backgrounds[0].path), "images/room.png");
    assert_eq!(t.backgrounds[0].x, 10500);
    assert_eq!(t.backgrounds[0].y, -20000);
    assert_eq!(text(&t.actors[0].voice), "audio/ann.ogg");
    assert_eq!(text(&t.entries[2].kind), "t");
    assert_eq!(text(&t.entries[2].payload), "ann@Hello there");
}

#[test]
fn lines_before_any_header_are_fonts() {
    let t = parse_script("serif#fonts/serif.ttf\r\n## ENTRIES\nt#Hi\r\n").unwrap();
    assert_eq!(t.fonts.len(), 1);
    assert_eq!(text(&t.fonts[0].path), "fonts/serif.ttf");
    assert_eq!(text(&t.entries[0].payload), "Hi");
}

#[test]
fn empty_script_parses_to_empty_tables() {
    let t = parse_script("").unwrap();
    assert_eq!(t.fonts.len() + t.cursors.len() + t.backgrounds.len() + t.actors.len() + t.entries.len(), 0);
}

#[test]
fn missing_delimiter_is_a_format_error() {
    let e = parse_script("## FONTS\nok#a.ttf\n## ACTORS\nbob-no-delimiter\n").unwrap_err();
    assert_eq!(e.section, Section::Actors);
    assert_eq!(e.line, 4);
    assert_eq!(text(&e.raw), "bob-no-delimiter");
}

#[test]
fn bad_background_number_is_a_format_error() {
    let e = parse_script("## BACKGROUNDS\nsky#sky.png@12xabc\n").unwrap_err();
    assert_eq!(e.section, Section::Backgrounds);
    assert_eq!(e.line, 2);
    let e = parse_script("## ACTORS\nann#only-portrait.png\n").unwrap_err();
    assert_eq!(e.section, Section::Actors);
}

#[test]
fn reparse_is_atomic() {
    let mut b = started(FULL);
    assert!(b.parse_pending().is_none());
    assert_eq!(b.tables.entries.len(), 4);
    b.start("## ENTRIES\nt#one\nt#two\nbroken line\nt#three\n".to_string());
    let e = b.parse_pending().unwrap();
    assert_eq!(e.section, Section::Entries);
    assert_eq!(e.line, 4);
    assert_eq!(b.tables.entries.len(), 4);
    assert_eq!(b.tables.fonts.len(), 1);
    assert_eq!(text(&b.tables.entries[3].payload), "Bye");
}

#[test]
fn numerals_read_into_thousandths() {
    assert_eq!(parse_milli(&chars("12.5")), Some(12500));
    assert_eq!(parse_milli(&chars("-0.1")), Some(-100));
    assert_eq!(parse_milli(&chars("1.2345")), Some(1234));
    assert_eq!(parse_milli(&chars("7")), Some(7000));
    assert_eq!(parse_milli(&chars(".5")), Some(500));
    assert_eq!(parse_milli(&chars("+2.25")), Some(2250));
    assert_eq!(parse_milli(&chars("+")), None);
    assert_eq!(parse_milli(&chars("+-1")), None);
    assert_eq!(parse_milli(&chars("abc")), None);
    assert_eq!(parse_milli(&chars("")), None);
    assert_eq!(parse_milli(&chars(".")), None);
    assert_eq!(parse_milli(&chars("1.2.3")), None);
    assert_eq!(parse_milli(&chars("1234567890123")), None);
    assert_eq!(parse_natural(&chars("42"), 9), Some(42));
    assert_eq!(parse_natural(&chars("4x"), 9), None);
}

#[test]
fn split_keeps_empty_fields() {
    let parts = split(&chars("a##b"), '#');
    assert_eq!(parts.len(), 3);
    assert_eq!(text(&parts[2]), "b");
    assert_eq!(chars_of("héllo"), chars("héllo"));
}

#[test]
fn cursor_follows_speed_times_elapsed() {
    let limit = 5 * 1_000_000u128;
    let mut c = 0u128;
    for dt in [16u32, 16, 16] {
        c = advance_cursor(c, 100_000, limit, dt);
    }
    assert_eq!(c, 4_800_000);
    c = advance_cursor(c, 100_000, limit, 16);
    assert_eq!(c, limit);
    assert_eq!(advance_cursor(0, -5_000, limit, 16), 0);
}

#[test]
fn typewriter_reveals_then_settles() {
    let mut b = started("## ENTRIES\nt#Hello\n");
    cycle(&mut b, None, 16);
    assert!(b.dbox.presence.created);
    cycle(&mut b, None, 20);
    assert_eq!(b.dbox.cursor, 2_000_000);
    assert!(b.dbox.printing);
    cycle(&mut b, None, 10);
    assert_eq!(b.dbox.cursor, 3_000_000);
    cycle(&mut b, None, 1000);
    assert_eq!(b.dbox.cursor, 5_000_000);
    assert!(!b.dbox.printing);
}

#[test]
fn settings_entry_applies_pairs_and_reports_failures() {
    let mut b = started("## FONTS\nbig#fonts/big.ttf\n## ENTRIES\ns#font_size:30|font:missing|box_size:1x2|font_color:1x0.5x0x1|wobble:3|font:big\nt#x\n");
    let errs = cycle(&mut b, None, 16);
    assert_eq!(errs, vec![EntryError::UnknownName]);
    assert_eq!(b.settings.font_size, 30000);
    assert_eq!(b.settings.box_size, (1000, 2000));
    assert_eq!(b.settings.font_color, (1000, 500, 0, 1000));
    assert_eq!(text(&b.settings.font), "fonts/big.ttf");
    assert_eq!(b.index, 1);
}

#[test]
fn settings_bad_value_is_reported() {
    let mut s = Settings::defaults();
    let t = parse_script("").unwrap();
    let errs = s.apply_entry(&t, &chars("box_position:1x2|cursor_offset:q|voice_frequency:0.25"));
    assert_eq!(errs, vec![EntryError::BadValue, EntryError::BadValue]);
    assert_eq!(s.voice_frequency, 250);
    assert_eq!(s.box_position, (-600000, 100000, 1000));
    assert_eq!(s.font_size, 45000);
}

#[test]
fn enabling_twice_creates_once() {
    let mut p = Presence::hidden();
    p.enable();
    assert_eq!(p.sync(), Lifecycle::Create);
    p.enable();
    assert_eq!(p.sync(), Lifecycle::Refresh);
    p.disable();
    assert_eq!(p.sync(), Lifecycle::Destroy);
    assert_eq!(p.sync(), Lifecycle::Idle);
}

#[test]
fn last_entry_advance_concludes_the_run() {
    let mut b = started("## ENTRIES\nt#Hello\n");
    cycle(&mut b, None, 16);
    cycle(&mut b, None, 16);
    assert!(b.dbox.printing);
    cycle(&mut b, Some(InputAction::Advance), 16);
    assert_eq!(b.dbox.cursor, 5_000_000);
    assert!(!b.dbox.printing);
    cycle(&mut b, Some(InputAction::Advance), 16);
    assert!(!b.ready);
    assert_eq!(b.index, 0);
    assert_eq!(b.get_curr_line(), 0);
    cycle(&mut b, Some(InputAction::Advance), 16);
    assert!(!b.ready);
    assert_eq!(b.index, 0);
    b.start("## ENTRIES\nt#Again\n".to_string());
    cycle(&mut b, None, 16);
    assert!(b.ready);
    assert_eq!(text(&b.dbox.text), "Again");
}

fn at_choice() -> Birdsong {
    let mut b = started("## ENTRIES\nt#Hi\nc#Yes@2|No@3\nt#You picked A\nt#You picked B\n");
    cycle(&mut b, None, 16);
    cycle(&mut b, None, 16);
    cycle(&mut b, None, 16);
    assert!(!b.dbox.printing);
    cycle(&mut b, Some(InputAction::Advance), 16);
    assert_eq!(b.index, 1);
    b
}

#[test]
fn choice_branch_follows_selected_option() {
    let mut b = at_choice();
    assert!(b.choices.presence.enabled);
    assert_eq!(b.choices.options.len(), 2);
    assert_eq!(b.choices.selection, 0);
    assert_eq!(text(&b.choices.options[1].label), "No");
    cycle(&mut b, Some(InputAction::NavigateDown), 16);
    assert_eq!(b.choices.selection, 1);
    assert_eq!(b.choices.options[1].target, Some(3));
    cycle(&mut b, Some(InputAction::Confirm), 16);
    assert_eq!(b.index, 3);
    assert_eq!(b.get_curr_line(), 3);
    assert!(!b.choices.presence.enabled);
    assert_eq!(text(&b.dbox.text), "You picked B");
}

#[test]
fn navigation_is_clamped() {
    let mut b = at_choice();
    cycle(&mut b, Some(InputAction::NavigateUp), 16);
    assert_eq!(b.choices.selection, 0);
    cycle(&mut b, Some(InputAction::NavigateDown), 16);
    cycle(&mut b, Some(InputAction::NavigateDown), 16);
    assert_eq!(b.choices.selection, 1);
    cycle(&mut b, Some(InputAction::NavigateUp), 16);
    cycle(&mut b, Some(InputAction::Confirm), 16);
    assert_eq!(b.index, 2);
    assert_eq!(text(&b.dbox.text), "You picked A");
}

#[test]
fn out_of_range_target_is_refused() {
    let mut b = started("## ENTRIES\nc#Go@9|Bad@x\nt#a\n");
    cycle(&mut b, None, 16);
    cycle(&mut b, None, 16);
    assert_eq!(b.handle_input(InputAction::Confirm), Err(RangeError { target: Some(9) }));
    assert!(b.choices.presence.enabled);
    assert_eq!(b.handle_input(InputAction::NavigateDown), Ok(()));
    assert_eq!(b.handle_input(InputAction::Confirm), Err(RangeError { target: None }));
    assert_eq!(b.index, 0);
}

#[test]
fn choice_rows_step_down_by_spacing() {
    let b = at_choice();
    let row = b.choice_row(1).unwrap();
    assert_eq!(row.cursor.num, 1);
    assert_eq!(row.cursor.next, Some(3));
    assert_eq!(row.cursor.anchor, (-600000, 60000, 1000));
    assert_eq!(row.label_at, (-575000, 60000, 1000));
    assert_eq!(row.cursor_at, (-600000, 44000, 1000));
    let row = b.choice_row(0).unwrap();
    assert_eq!(row.cursor.anchor, (-600000, 100000, 1000));
}

#[test]
fn moving_on_from_the_last_entry_concludes() {
    let mut b = started("## BACKGROUNDS\nsky#sky.png@0x0\n## ENTRIES\ns#font_size:12\ni#sky\n");
    cycle(&mut b, None, 16);
    assert_eq!(b.index, 1);
    assert!(b.ready);
    cycle(&mut b, None, 16);
    assert_eq!(b.index, 2);
    assert!(!b.ready);
    assert!(b.background.presence.enabled);
    cycle(&mut b, Some(InputAction::Advance), 16);
    assert_eq!(b.index, 2);
    assert_eq!(b.get_curr_line(), 2);
}

#[test]
fn moving_on_resets_the_cursor() {
    let mut b = started("## ENTRIES\nt#Hello\ns#font_size:12\nt#World\n");
    cycle(&mut b, None, 16);
    cycle(&mut b, None, 1000);
    assert!(!b.dbox.printing);
    cycle(&mut b, Some(InputAction::Advance), 16);
    assert_eq!(b.index, 2);
    cycle(&mut b, None, 10);
    assert_eq!(text(&b.dbox.text), "World");
    assert_eq!(b.dbox.entry, 2);
    assert_eq!(b.dbox.cursor, 1_000_000);
}

#[test]
fn confirming_reopens_a_concluded_run() {
    let mut b = at_choice();
    b.ready = false;
    assert_eq!(b.handle_input(InputAction::Confirm), Ok(()));
    assert!(b.ready);
    assert_eq!(b.index, 2);
}

#[test]
fn new_run_starts_hidden_and_empty() {
    let b = Birdsong::new();
    assert_eq!(b.dbox.cursor, 0);
    assert!(!b.dbox.printing);
    assert!(b.choices.options.is_empty());
    assert_eq!(b.actor.timer_period, b.settings.voice_frequency);
    assert_eq!(text(&b.actor.name), "none");
    assert_eq!(text(&b.background.name), "none");
    assert!(b.updated);
}

#[test]
fn background_and_actor_are_looked_up() {
    let mut b = started(FULL);
    cycle(&mut b, None, 16);
    cycle(&mut b, None, 16);
    assert_eq!(text(&b.background.name), "room");
    let f = b.update_background();
    assert_eq!(f.action, Lifecycle::Refresh);
    assert_eq!(f.background, Some(0));
    cycle(&mut b, None, 16);
    assert_eq!(text(&b.actor.name), "ann");
    cycle(&mut b, None, 16);
    assert!(b.dbox.printing);
    let f = b.update_actor(true);
    assert_eq!(f.actor, Some(0));
    assert!(f.play_voice);
    assert!(!b.update_actor(false).play_voice);
}

#[test]
fn unknown_background_is_reported_as_missing() {
    let mut b = started("## ENTRIES\ni#nowhere\nt#x\n");
    cycle(&mut b, None, 16);
    let f = b.update_background();
    assert_eq!(f.action, Lifecycle::Refresh);
    assert_eq!(f.background, None);
}

#[test]
fn voice_timer_follows_frequency_setting() {
    let mut b = started("## ACTORS\nann#a.png|a.ogg\n## ENTRIES\nt#ann@Hi\ns#voice_frequency:0.5\nt#ann@More\n");
    cycle(&mut b, None, 16);
    assert_eq!(b.retime_voice(), None);
    assert_eq!(b.actor.timer_period, 100);
    b.settings.voice_frequency = 500;
    assert_eq!(b.retime_voice(), Some(500));
    assert_eq!(b.retime_voice(), None);
}

#[test]
fn unknown_entry_kind_stalls() {
    let mut b = started("## ENTRIES\nq#what\nt#x\n");
    cycle(&mut b, None, 16);
    cycle(&mut b, None, 16);
    assert_eq!(b.index, 0);
    assert!(!b.dbox.presence.enabled);
}
