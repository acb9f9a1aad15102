//! Presentation settings, and the `key:value` pairs of settings entries.
use vstd::prelude::*;
use crate::number::{milli_spec, parse_milli};
use crate::script::{NamedPath, ScriptTables, TablesModel};
use crate::text::{is_word, split, split_spec, views};

verus! {

/// How the dialogue is shown. Numbers are in thousandths; the text speed is
/// in characters per second and the voice frequency in seconds.
#[derive(Debug)]
pub struct Settings {
    pub font: Vec<char>,
    pub cursor_sprite: Vec<char>,
    pub font_size: i64,
    pub font_color: (i64, i64, i64, i64),
    pub box_size: (i64, i64),
    pub box_position: (i64, i64, i64),
    pub box_text_speed: i64,
    pub voice_frequency: i64,
    pub choice_spacing: i64,
    pub choice_indent: i64,
    pub cursor_offset: i64,
    pub portrait_position: (i64, i64, i64),
}

pub struct SettingsModel {
    pub font: Seq<char>,
    pub cursor_sprite: Seq<char>,
    pub font_size: int,
    pub font_color: (int, int, int, int),
    pub box_size: (int, int),
    pub box_position: (int, int, int),
    pub box_text_speed: int,
    pub voice_frequency: int,
    pub choice_spacing: int,
    pub choice_indent: int,
    pub cursor_offset: int,
    pub portrait_position: (int, int, int),
}

/// Why one part of an entry could not be applied.
#[derive(Clone, Copy, Debug, PartialEq, Eq, Structural)]
pub enum EntryError {
    /// The entry names a font, cursor sprite, background or actor that the
    /// script does not define.
    UnknownName,
    /// A value does not read as the numbers that its key asks for.
    BadValue,
}

/// The `n` numbers of a value such as `1x0.5x0.25`, where the first `n`
/// fields all read.
pub open spec fn milli_list(val: Seq<char>, n: nat) -> Option<Seq<int>> {
    let p = split_spec(val, 'x');
    if p.len() >= n && forall|k: int| 0 <= k < n ==> (#[trigger] milli_spec(p[k])) is Some {
        Some(Seq::new(n, |k: int| milli_spec(p[k])->Some_0))
    } else {
        None
    }
}

/// The index of the last item whose name is `name`.
pub open spec fn last_match(names: Seq<Seq<char>>, name: Seq<char>) -> Option<int>
    decreases names.len(),
{
    if names.len() == 0 {
        None
    } else if names.last() == name {
        Some(names.len() - 1)
    } else {
        last_match(names.drop_last(), name)
    }
}

pub open spec fn names2(t: Seq<(Seq<char>, Seq<char>)>) -> Seq<Seq<char>> {
    t.map_values(|e: (Seq<char>, Seq<char>)| e.0)
}

pub open spec fn fits(v: int) -> bool {
    i64::MIN <= v <= i64::MAX
}

/// The settings after one `key:value` pair. Unknown keys change nothing.
pub open spec fn setting_spec(m: SettingsModel, t: TablesModel, key: Seq<char>, val: Seq<char>) -> Result<SettingsModel, EntryError> {
    let one = milli_list(val, 1);
    let two = milli_list(val, 2);
    let three = milli_list(val, 3);
    let four = milli_list(val, 4);
    if key == "font"@ {
        match last_match(names2(t.fonts), val) {
            Some(i) => Ok(SettingsModel { font: t.fonts[i].1, ..m }),
            None => Err(EntryError::UnknownName),
        }
    } else if key == "cursor"@ {
        match last_match(names2(t.cursors), val) {
            Some(i) => Ok(SettingsModel { cursor_sprite: t.cursors[i].1, ..m }),
            None => Err(EntryError::UnknownName),
        }
    } else if key == "font_color"@ {
        match four {
            Some(v) => Ok(SettingsModel { font_color: (v[0], v[1], v[2], v[3]), ..m }),
            None => Err(EntryError::BadValue),
        }
    } else if key == "box_size"@ {
        match two {
            Some(v) => Ok(SettingsModel { box_size: (v[0], v[1]), ..m }),
            None => Err(EntryError::BadValue),
        }
    } else if key == "box_position"@ || key == "portrait_position"@ {
        match three {
            Some(v) => if key == "box_position"@ {
                Ok(SettingsModel { box_position: (v[0], v[1], v[2]), ..m })
            } else {
                Ok(SettingsModel { portrait_position: (v[0], v[1], v[2]), ..m })
            },
            None => Err(EntryError::BadValue),
        }
    } else if key == "font_size"@ || key == "box_text_speed"@ || key == "voice_frequency"@
        || key == "choice_spacing"@ || key == "choice_indent"@ || key == "cursor_offset"@ {
        match one {
            Some(v) => Ok(
                if key == "font_size"@ {
                    SettingsModel { font_size: v[0], ..m }
                } else if key == "box_text_speed"@ {
                    SettingsModel { box_text_speed: v[0], ..m }
                } else if key == "voice_frequency"@ {
                    SettingsModel { voice_frequency: v[0], ..m }
                } else if key == "choice_spacing"@ {
                    SettingsModel { choice_spacing: v[0], ..m }
                } else if key == "choice_indent"@ {
                    SettingsModel { choice_indent: v[0], ..m }
                } else {
                    SettingsModel { cursor_offset: v[0], ..m }
                },
            ),
            None => Err(EntryError::BadValue),
        }
    } else {
        Ok(m)
    }
}

/// Finds the last font or cursor sprite named `name`.
pub fn find_named(t: &Vec<NamedPath>, name: &Vec<char>) -> (r: Option<usize>)
    ensures
        r matches Some(i) ==> last_match(names2(Seq::new(t.len() as nat, |k: int| t[k].view())), name@) == Some(i as int),
        r is None ==> last_match(names2(Seq::new(t.len() as nat, |k: int| t[k].view())), name@) is None,
        r matches Some(i) ==> i < t.len(),
{
    let ghost all = names2(Seq::new(t.len() as nat, |k: int| t[k].view()));
    let mut i: usize = t.len();
    assert(all.subrange(0, i as int) =~= all);
    while i > 0
        invariant
            i <= t.len(),
            all == names2(Seq::new(t.len() as nat, |k: int| t[k].view())),
            last_match(all, name@) == last_match(all.subrange(0, i as int), name@),
        decreases i,
    {
        let ghost pre = all.subrange(0, i as int);
        assert(pre.drop_last() =~= all.subrange(0, i as int - 1));
        assert(pre.last() == t@[i - 1].name@);
        if crate::text::same_chars(&t[i - 1].name, name) {
            return Some(i - 1);
        }
        i = i - 1;
    }
    None
}

fn parse_list(val: &Vec<char>, n: usize) -> (r: Option<Vec<i64>>)
    requires
        1 <= n <= 4,
    ensures
        r matches Some(v) ==> milli_list(val@, n as nat) is Some && v.len() == n
            && forall|k: int| 0 <= k < n ==> v@[k] as int == (#[trigger] milli_list(val@, n as nat)->Some_0[k]),
        r is None ==> milli_list(val@, n as nat) is None,
{
    let p = split(val, 'x');
    if p.len() < n {
        return None;
    }
    let mut out: Vec<i64> = Vec::new();
    let mut k: usize = 0;
    while k < n
        invariant
            k <= n <= p.len(),
            views(p@) == split_spec(val@, 'x'),
            out.len() == k,
            forall|j: int| 0 <= j < k ==> milli_spec(split_spec(val@, 'x')[j]) == Some(#[trigger] out@[j] as int),
        decreases n - k,
    {
        assert(p[k as int]@ == split_spec(val@, 'x')[k as int]);
        match parse_milli(&p[k]) {
            Some(v) => out.push(v),
            None => {
                return None;
            },
        }
        k = k + 1;
    }
    proof {
        let sp = split_spec(val@, 'x');
        assert forall|j: int| 0 <= j < n implies (#[trigger] milli_spec(sp[j])) is Some by {
            assert(milli_spec(sp[j]) == Some(out@[j] as int));
        }
    }
    Some(out)
}

/// The settings in force before any settings entry.
pub open spec fn default_model() -> SettingsModel {
    SettingsModel {
        font: "fonts/Silver.ttf"@,
        cursor_sprite: "images/cursor.png"@,
        font_size: 45000,
        font_color: (1000, 1000, 1000, 1000),
        box_size: (350000, 600000),
        box_position: (-600000, 100000, 1000),
        box_text_speed: 100000,
        voice_frequency: 100,
        choice_spacing: 40000,
        choice_indent: 25000,
        cursor_offset: 16000,
        portrait_position: (-425000, 225000, 1000),
    }
}

/// The value of a `key:value` pair; empty where the pair has no `:`.
pub open spec fn pair_value(kv: Seq<Seq<char>>) -> Seq<char> {
    if kv.len() >= 2 {
        kv[1]
    } else {
        Seq::<char>::empty()
    }
}

/// The settings after the pairs of a settings entry, in order, and the
/// errors of the pairs that were skipped.
pub open spec fn apply_pairs(m: SettingsModel, t: TablesModel, pairs: Seq<Seq<char>>) -> (SettingsModel, Seq<EntryError>)
    decreases pairs.len(),
{
    if pairs.len() == 0 {
        (m, Seq::empty())
    } else {
        let prev = apply_pairs(m, t, pairs.drop_last());
        let kv = split_spec(pairs.last(), ':');
        match setting_spec(prev.0, t, kv[0], pair_value(kv)) {
            Ok(m2) => (m2, prev.1),
            Err(e) => (prev.0, prev.1.push(e)),
        }
    }
}

impl Settings {
    pub open spec fn view(&self) -> SettingsModel {
        SettingsModel {
            font: self.font@,
            cursor_sprite: self.cursor_sprite@,
            font_size: self.font_size as int,
            font_color: (
                self.font_color.0 as int,
                self.font_color.1 as int,
                self.font_color.2 as int,
                self.font_color.3 as int,
            ),
            box_size: (self.box_size.0 as int, self.box_size.1 as int),
            box_position: (
                self.box_position.0 as int,
                self.box_position.1 as int,
                self.box_position.2 as int,
            ),
            box_text_speed: self.box_text_speed as int,
            voice_frequency: self.voice_frequency as int,
            choice_spacing: self.choice_spacing as int,
            choice_indent: self.choice_indent as int,
            cursor_offset: self.cursor_offset as int,
            portrait_position: (
                self.portrait_position.0 as int,
                self.portrait_position.1 as int,
                self.portrait_position.2 as int,
            ),
        }
    }

    /// The settings in force before any settings entry.
    pub fn defaults() -> (r: Settings)
        ensures
            r@ == default_model(),
    {
        Settings {
            font: crate::text::chars_of("fonts/Silver.ttf"),
            cursor_sprite: crate::text::chars_of("images/cursor.png"),
            font_size: 45000,
            font_color: (1000, 1000, 1000, 1000),
            box_size: (350000, 600000),
            box_position: (-600000, 100000, 1000),
            box_text_speed: 100000,
            voice_frequency: 100,
            choice_spacing: 40000,
            choice_indent: 25000,
            cursor_offset: 16000,
            portrait_position: (-425000, 225000, 1000),
        }
    }

    /// Applies one `key:value` pair; on an error nothing changes.
    pub fn apply_setting(&mut self, t: &ScriptTables, key: &Vec<char>, val: &Vec<char>) -> (r: Result<(), EntryError>)
        ensures
            match setting_spec(old(self)@, t@, key@, val@) {
                Ok(m) => r is Ok && final(self)@ == m,
                Err(e) => r == Err::<(), EntryError>(e) && final(self)@ == old(self)@,
            },
    {
        if is_word(key, "font") {
            match find_named(&t.fonts, val) {
                Some(i) => {
                    self.font = t.fonts[i].path.clone();
                    Ok(())
                },
                None => Err(EntryError::UnknownName),
            }
        } else if is_word(key, "cursor") {
            match find_named(&t.cursors, val) {
                Some(i) => {
                    self.cursor_sprite = t.cursors[i].path.clone();
                    Ok(())
                },
                None => Err(EntryError::UnknownName),
            }
        } else if is_word(key, "font_color") {
            match parse_list(val, 4) {
                Some(v) => {
                    self.font_color = (v[0], v[1], v[2], v[3]);
                    Ok(())
                },
                None => Err(EntryError::BadValue),
            }
        } else if is_word(key, "box_size") {
            match parse_list(val, 2) {
                Some(v) => {
                    self.box_size = (v[0], v[1]);
                    Ok(())
                },
                None => Err(EntryError::BadValue),
            }
        } else if is_word(key, "box_position") || is_word(key, "portrait_position") {
            match parse_list(val, 3) {
                Some(v) => {
                    if is_word(key, "box_position") {
                        self.box_position = (v[0], v[1], v[2]);
                    } else {
                        self.portrait_position = (v[0], v[1], v[2]);
                    }
                    Ok(())
                },
                None => Err(EntryError::BadValue),
            }
        } else if is_word(key, "font_size") || is_word(key, "box_text_speed") || is_word(
            key,
            "voice_frequency",
        ) || is_word(key, "choice_spacing") || is_word(key, "choice_indent") || is_word(
            key,
            "cursor_offset",
        ) {
            match parse_list(val, 1) {
                Some(v) => {
                    let x = v[0];
                    if is_word(key, "font_size") {
                        self.font_size = x;
                    } else if is_word(key, "box_text_speed") {
                        self.box_text_speed = x;
                    } else if is_word(key, "voice_frequency") {
                        self.voice_frequency = x;
                    } else if is_word(key, "choice_spacing") {
                        self.choice_spacing = x;
                    } else if is_word(key, "choice_indent") {
                        self.choice_indent = x;
                    } else {
                        self.cursor_offset = x;
                    }
                    Ok(())
                },
                None => Err(EntryError::BadValue),
            }
        } else {
            Ok(())
        }
    }

    /// Applies the `|`-separated pairs of a settings entry in order. A pair
    /// that fails is skipped and its error returned; the rest still apply.
    pub fn apply_entry(&mut self, t: &ScriptTables, payload: &Vec<char>) -> (errs: Vec<EntryError>)
        ensures
            apply_pairs(old(self)@, t@, split_spec(payload@, '|')) == (final(self)@, errs@),
    {
        let pairs = split(payload, '|');
        let ghost ps = split_spec(payload@, '|');
        let ghost m0 = self@;
        let mut errs: Vec<EntryError> = Vec::new();
        let mut i: usize = 0;
        while i < pairs.len()
            invariant
                i <= pairs.len(),
                views(pairs@) == ps,
                ps == split_spec(payload@, '|'),
                apply_pairs(m0, t@, ps.subrange(0, i as int)) == (self@, errs@),
            decreases pairs.len() - i,
        {
            proof {
                let pre = ps.subrange(0, i as int + 1);
                assert(pre.drop_last() =~= ps.subrange(0, i as int));
                assert(pre.last() == pairs@[i as int]@);
            }
            let kv = split(&pairs[i], ':');
            let empty: Vec<char> = Vec::new();
            let val = if kv.len() >= 2 { &kv[1] } else { &empty };
            assert(val@ == pair_value(views(kv@)));
            assert(kv[0]@ == views(kv@)[0]);
            match self.apply_setting(t, &kv[0], val) {
                Ok(()) => {},
                Err(e) => {
                    errs.push(e);
                },
            }
            i = i + 1;
        }
        assert(ps.subrange(0, pairs.len() as int) =~= ps);
        errs
    }
}

} // verus!
