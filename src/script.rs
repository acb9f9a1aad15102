//! The script format: sections of named resources, then the entry list.
use vstd::prelude::*;
use crate::number::{milli_spec, parse_milli};
use crate::text::{chars_of, is_word, lemma_split_nonempty, split, split_spec, views};

verus! {

/// The section that a script line belongs to.
#[derive(Clone, Copy, Debug, PartialEq, Eq, Structural)]
pub enum Section {
    Fonts,
    CursorSprites,
    Backgrounds,
    Actors,
    Entries,
}

/// A named resource path (a font or a cursor sprite).
#[derive(Debug)]
pub struct NamedPath {
    pub name: Vec<char>,
    pub path: Vec<char>,
}

/// A background image and the point where it is drawn, in thousandths.
#[derive(Debug)]
pub struct BackgroundImage {
    pub name: Vec<char>,
    pub path: Vec<char>,
    pub x: i64,
    pub y: i64,
}

/// An actor's portrait image and voice cue.
#[derive(Debug)]
pub struct ActorSource {
    pub name: Vec<char>,
    pub portrait: Vec<char>,
    pub voice: Vec<char>,
}

/// One step of the dialogue: a type tag and its payload.
#[derive(Debug)]
pub struct Entry {
    pub kind: Vec<char>,
    pub payload: Vec<char>,
}

/// Everything that a script defines. Later lines with a name already
/// present take precedence over earlier ones on lookup.
#[derive(Debug)]
pub struct ScriptTables {
    pub fonts: Vec<NamedPath>,
    pub cursors: Vec<NamedPath>,
    pub backgrounds: Vec<BackgroundImage>,
    pub actors: Vec<ActorSource>,
    pub entries: Vec<Entry>,
}

/// A line of a script that does not have the shape its section asks for.
/// `line` counts from 1.
#[derive(Debug)]
pub struct FormatError {
    pub section: Section,
    pub line: usize,
    pub raw: Vec<char>,
}

pub struct TablesModel {
    pub fonts: Seq<(Seq<char>, Seq<char>)>,
    pub cursors: Seq<(Seq<char>, Seq<char>)>,
    pub backgrounds: Seq<(Seq<char>, Seq<char>, int, int)>,
    pub actors: Seq<(Seq<char>, Seq<char>, Seq<char>)>,
    pub entries: Seq<(Seq<char>, Seq<char>)>,
}

impl NamedPath {
    pub open spec fn view(&self) -> (Seq<char>, Seq<char>) {
        (self.name@, self.path@)
    }
}

impl BackgroundImage {
    pub open spec fn view(&self) -> (Seq<char>, Seq<char>, int, int) {
        (self.name@, self.path@, self.x as int, self.y as int)
    }
}

impl ActorSource {
    pub open spec fn view(&self) -> (Seq<char>, Seq<char>, Seq<char>) {
        (self.name@, self.portrait@, self.voice@)
    }
}

impl Entry {
    pub open spec fn view(&self) -> (Seq<char>, Seq<char>) {
        (self.kind@, self.payload@)
    }
}

impl ScriptTables {
    pub open spec fn view(&self) -> TablesModel {
        TablesModel {
            fonts: Seq::new(self.fonts.len() as nat, |i: int| self.fonts[i].view()),
            cursors: Seq::new(self.cursors.len() as nat, |i: int| self.cursors[i].view()),
            backgrounds: Seq::new(
                self.backgrounds.len() as nat,
                |i: int| self.backgrounds[i].view(),
            ),
            actors: Seq::new(self.actors.len() as nat, |i: int| self.actors[i].view()),
            entries: Seq::new(self.entries.len() as nat, |i: int| self.entries[i].view()),
        }
    }

    /// Tables with nothing in them.
    pub fn new() -> (r: ScriptTables)
        ensures
            r@ == empty_tables(),
    {
        let r = ScriptTables {
            fonts: Vec::new(),
            cursors: Vec::new(),
            backgrounds: Vec::new(),
            actors: Vec::new(),
            entries: Vec::new(),
        };
        assert(r@.fonts =~= Seq::<(Seq<char>, Seq<char>)>::empty());
        assert(r@.cursors =~= Seq::<(Seq<char>, Seq<char>)>::empty());
        assert(r@.backgrounds =~= Seq::<(Seq<char>, Seq<char>, int, int)>::empty());
        assert(r@.actors =~= Seq::<(Seq<char>, Seq<char>, Seq<char>)>::empty());
        assert(r@.entries =~= Seq::<(Seq<char>, Seq<char>)>::empty());
        r
    }
}

pub open spec fn empty_tables() -> TablesModel {
    TablesModel {
        fonts: Seq::empty(),
        cursors: Seq::empty(),
        backgrounds: Seq::empty(),
        actors: Seq::empty(),
        entries: Seq::empty(),
    }
}

/// The section that a header line opens, if it is one.
pub open spec fn header_of(line: Seq<char>) -> Option<Section> {
    if line == "## FONTS"@ {
        Some(Section::Fonts)
    } else if line == "## CURSOR SPRITES"@ {
        Some(Section::CursorSprites)
    } else if line == "## BACKGROUNDS"@ {
        Some(Section::Backgrounds)
    } else if line == "## ACTORS"@ {
        Some(Section::Actors)
    } else if line == "## ENTRIES"@ {
        Some(Section::Entries)
    } else {
        None
    }
}

/// A line that is neither a header nor blank.
pub open spec fn is_record(line: Seq<char>) -> bool {
    header_of(line) is None && line.len() > 0
}

/// The tables after one record line of section `sec`, or `None` where the
/// line lacks a delimiter or holds a numeral that does not read.
pub open spec fn record_spec(sec: Section, t: TablesModel, line: Seq<char>) -> Option<TablesModel> {
    let f = split_spec(line, '#');
    if f.len() < 2 {
        None
    } else {
        let name = f[0];
        let desc = f[1];
        match sec {
            Section::Fonts => Some(TablesModel { fonts: t.fonts.push((name, desc)), ..t }),
            Section::CursorSprites => Some(
                TablesModel { cursors: t.cursors.push((name, desc)), ..t },
            ),
            Section::Backgrounds => {
                let b = split_spec(desc, '@');
                if b.len() < 2 {
                    None
                } else {
                    let p = split_spec(b[1], 'x');
                    if p.len() < 2 {
                        None
                    } else {
                        match (milli_spec(p[0]), milli_spec(p[1])) {
                            (Some(x), Some(y)) => Some(
                                TablesModel {
                                    backgrounds: t.backgrounds.push((name, b[0], x, y)),
                                    ..t
                                },
                            ),
                            _ => None,
                        }
                    }
                }
            },
            Section::Actors => {
                let a = split_spec(desc, '|');
                if a.len() < 2 {
                    None
                } else {
                    Some(TablesModel { actors: t.actors.push((name, a[0], a[1])), ..t })
                }
            },
            Section::Entries => Some(TablesModel { entries: t.entries.push((name, desc)), ..t }),
        }
    }
}

/// The parser's state after one more line.
pub open spec fn step_spec(sec: Section, t: TablesModel, line: Seq<char>) -> Option<(Section, TablesModel)> {
    match header_of(line) {
        Some(s) => Some((s, t)),
        None => if line.len() == 0 {
            Some((sec, t))
        } else {
            match record_spec(sec, t, line) {
                Some(t2) => Some((sec, t2)),
                None => None,
            }
        },
    }
}

/// The parser's state after the first `n` lines, or the section and the
/// index of the first line that does not read. Lines before any header
/// belong to the fonts section.
pub open spec fn parse_prefix(lines: Seq<Seq<char>>, n: nat) -> Result<(Section, TablesModel), (Section, nat)>
    decreases n,
{
    if n == 0 {
        Ok((Section::Fonts, empty_tables()))
    } else {
        match parse_prefix(lines, (n - 1) as nat) {
            Err(e) => Err(e),
            Ok(st) => match step_spec(st.0, st.1, lines[n - 1]) {
                Some(st2) => Ok(st2),
                None => Err((st.0, (n - 1) as nat)),
            },
        }
    }
}

/// Once a line fails, the parse of every longer prefix fails at that line.
pub proof fn lemma_error_sticks(lines: Seq<Seq<char>>, k: nat, n: nat)
    requires
        k <= n,
        parse_prefix(lines, k) is Err,
    ensures
        parse_prefix(lines, n) == parse_prefix(lines, k),
    decreases n,
{
    if n > k {
        lemma_error_sticks(lines, k, (n - 1) as nat);
    }
}

/// The section in force after the first `n` lines.
pub open spec fn section_after(lines: Seq<Seq<char>>, n: nat) -> Section
    decreases n,
{
    if n == 0 {
        Section::Fonts
    } else {
        match header_of(lines[n - 1]) {
            Some(s) => s,
            None => section_after(lines, (n - 1) as nat),
        }
    }
}

/// How many of the first `n` lines are records of section `sec`.
pub open spec fn count_records(lines: Seq<Seq<char>>, n: nat, sec: Section) -> nat
    decreases n,
{
    if n == 0 {
        0
    } else {
        count_records(lines, (n - 1) as nat, sec) + if is_record(lines[n - 1]) && section_after(
            lines,
            (n - 1) as nat,
        ) == sec {
            1nat
        } else {
            0nat
        }
    }
}

proof fn lemma_prefix_sizes(lines: Seq<Seq<char>>, n: nat)
    requires
        parse_prefix(lines, n) is Ok,
    ensures
        ({
            let st = parse_prefix(lines, n)->Ok_0;
            &&& st.0 == section_after(lines, n)
            &&& st.1.fonts.len() == count_records(lines, n, Section::Fonts)
            &&& st.1.cursors.len() == count_records(lines, n, Section::CursorSprites)
            &&& st.1.backgrounds.len() == count_records(lines, n, Section::Backgrounds)
            &&& st.1.actors.len() == count_records(lines, n, Section::Actors)
            &&& st.1.entries.len() == count_records(lines, n, Section::Entries)
        }),
    decreases n,
{
    if n > 0 {
        lemma_prefix_sizes(lines, (n - 1) as nat);
    }
}

/// A script that parses has, in each table, one item for each record line
/// of the matching section, and one entry for each record line under the
/// entries header.
pub proof fn lemma_table_sizes(text: Seq<char>)
    requires
        parse_spec(text) is Ok,
    ensures
        ({
            let lines = script_lines(text);
            let t = parse_spec(text)->Ok_0;
            &&& t.fonts.len() == count_records(lines, lines.len(), Section::Fonts)
            &&& t.cursors.len() == count_records(lines, lines.len(), Section::CursorSprites)
            &&& t.backgrounds.len() == count_records(lines, lines.len(), Section::Backgrounds)
            &&& t.actors.len() == count_records(lines, lines.len(), Section::Actors)
            &&& t.entries.len() == count_records(lines, lines.len(), Section::Entries)
        }),
{
    lemma_prefix_sizes(script_lines(text), script_lines(text).len());
}

/// A line without the carriage return that may end it.
pub open spec fn strip_cr(l: Seq<char>) -> Seq<char> {
    if l.len() > 0 && l.last() == '\r' {
        l.drop_last()
    } else {
        l
    }
}

/// The lines of a script text.
pub open spec fn script_lines(text: Seq<char>) -> Seq<Seq<char>> {
    split_spec(text, '\n').map_values(|l: Seq<char>| strip_cr(l))
}

/// What a script text parses to: its tables, or the section and the index
/// (from 0) of its first malformed line.
pub open spec fn parse_spec(text: Seq<char>) -> Result<TablesModel, (Section, nat)> {
    let lines = script_lines(text);
    match parse_prefix(lines, lines.len()) {
        Ok(st) => Ok(st.1),
        Err(e) => Err(e),
    }
}

/// Which section a header line opens, if it is one.
pub fn header(line: &Vec<char>) -> (r: Option<Section>)
    ensures
        r == header_of(line@),
{
    if is_word(line, "## FONTS") {
        Some(Section::Fonts)
    } else if is_word(line, "## CURSOR SPRITES") {
        Some(Section::CursorSprites)
    } else if is_word(line, "## BACKGROUNDS") {
        Some(Section::Backgrounds)
    } else if is_word(line, "## ACTORS") {
        Some(Section::Actors)
    } else if is_word(line, "## ENTRIES") {
        Some(Section::Entries)
    } else {
        None
    }
}

fn strip_line(l: &Vec<char>) -> (r: Vec<char>)
    ensures
        r@ == strip_cr(l@),
{
    let mut r = l.clone();
    assert(r@ == l@);
    if r.len() > 0 && r[r.len() - 1] == '\r' {
        r.pop();
    }
    r
}

/// Adds one record line of section `sec` to the tables; `false`, with the
/// tables unchanged, where the line does not read.
pub fn read_record(sec: Section, t: &mut ScriptTables, line: &Vec<char>) -> (ok: bool)
    ensures
        ok ==> record_spec(sec, old(t)@, line@) == Some(final(t)@),
        !ok ==> record_spec(sec, old(t)@, line@) is None && final(t)@ == old(t)@,
{
    let f = split(line, '#');
    if f.len() < 2 {
        return false;
    }
    let name = f[0].clone();
    let desc = f[1].clone();
    assert(name@ == split_spec(line@, '#')[0]);
    assert(desc@ == split_spec(line@, '#')[1]);
    let ghost t0 = t@;
    match sec {
        Section::Fonts => {
            t.fonts.push(NamedPath { name, path: desc });
            assert(t@.fonts =~= t0.fonts.push((name@, desc@)));
        },
        Section::CursorSprites => {
            t.cursors.push(NamedPath { name, path: desc });
            assert(t@.cursors =~= t0.cursors.push((name@, desc@)));
        },
        Section::Backgrounds => {
            let b = split(&desc, '@');
            if b.len() < 2 {
                return false;
            }
            assert(b[1]@ == split_spec(desc@, '@')[1]);
            let p = split(&b[1], 'x');
            if p.len() < 2 {
                return false;
            }
            assert(p[0]@ == split_spec(b[1]@, 'x')[0]);
            assert(p[1]@ == split_spec(b[1]@, 'x')[1]);
            let x = match parse_milli(&p[0]) {
                Some(x) => x,
                None => return false,
            };
            let y = match parse_milli(&p[1]) {
                Some(y) => y,
                None => return false,
            };
            let path = b[0].clone();
            assert(path@ == split_spec(desc@, '@')[0]);
            t.backgrounds.push(BackgroundImage { name, path, x, y });
            assert(t@.backgrounds =~= t0.backgrounds.push((name@, path@, x as int, y as int)));
        },
        Section::Actors => {
            let a = split(&desc, '|');
            if a.len() < 2 {
                return false;
            }
            let portrait = a[0].clone();
            let voice = a[1].clone();
            assert(portrait@ == split_spec(desc@, '|')[0]);
            assert(voice@ == split_spec(desc@, '|')[1]);
            t.actors.push(ActorSource { name, portrait, voice });
            assert(t@.actors =~= t0.actors.push((name@, portrait@, voice@)));
        },
        Section::Entries => {
            t.entries.push(Entry { kind: name, payload: desc });
            assert(t@.entries =~= t0.entries.push((name@, desc@)));
        },
    }
    proof {
        assert(t@.fonts =~= record_spec(sec, t0, line@)->Some_0.fonts);
        assert(t@.cursors =~= record_spec(sec, t0, line@)->Some_0.cursors);
        assert(t@.backgrounds =~= record_spec(sec, t0, line@)->Some_0.backgrounds);
        assert(t@.actors =~= record_spec(sec, t0, line@)->Some_0.actors);
        assert(t@.entries =~= record_spec(sec, t0, line@)->Some_0.entries);
    }
    true
}

/// Parses a whole script. On success the result holds every table; on
/// failure it names the first malformed line, and nothing else is built.
pub fn parse_script(text: &str) -> (r: Result<ScriptTables, FormatError>)
    ensures
        match r {
            Ok(t) => parse_spec(text@) == Ok::<TablesModel, (Section, nat)>(t@),
            Err(e) => e.line >= 1 && parse_spec(text@) == Err::<TablesModel, (Section, nat)>(
                (e.section, (e.line - 1) as nat),
            ) && e.raw@ == script_lines(text@)[e.line - 1],
        },
{
    let chars = chars_of(text);
    let raw_lines = split(&chars, '\n');
    let ghost lines = script_lines(text@);
    assert(lines.len() == raw_lines.len());
    let mut t = ScriptTables::new();
    let mut sec = Section::Fonts;
    let mut i: usize = 0;
    while i < raw_lines.len()
        invariant
            i <= raw_lines.len(),
            lines == script_lines(text@),
            lines.len() == raw_lines.len(),
            views(raw_lines@) == split_spec(text@, '\n'),
            parse_prefix(lines, i as nat) == Ok::<(Section, TablesModel), (Section, nat)>((sec, t@)),
        decreases raw_lines.len() - i,
    {
        let line = strip_line(&raw_lines[i]);
        assert(line@ == lines[i as int]);
        let ghost t0 = t@;
        match header(&line) {
            Some(s) => {
                sec = s;
            },
            None => {
                if line.len() > 0 {
                    if !read_record(sec, &mut t, &line) {
                        proof {
                            lemma_error_sticks(lines, i as nat + 1, lines.len());
                        }
                        return Err(FormatError { section: sec, line: i + 1, raw: line });
                    }
                }
            },
        }
        i = i + 1;
    }
    Ok(t)
}

} // verus!
