//! Reader of vehicle data files: a header of `Key:value` lines, then one
//! block of such lines for each projectile, the parts separated by blank
//! lines. The values are handed out as the text that the file holds.

use vstd::prelude::*;
use vstd::string::StringExecFns;
use crate::names::{clean_shell_name, cleaned, normalize_shell_type, normalized};
use crate::text::{
    chars_of, index_of_char, matches_at, occurs_at, position_of, replace_all, replaced,
    same_chars, same_text, slice, split, split_on, string_of, text_of, texts, trim, trimmed,
};

verus! {

/// What the header of a file says.
pub ghost struct HeaderModel {
    pub weapon_path: Option<Seq<char>>,
    pub rocket_paths: Seq<Seq<char>>,
    pub zoom_in: Option<Seq<char>>,
    pub zoom_out: Option<Seq<char>>,
    pub has_laser: bool,
}

/// What the lines of a projectile block say: the pairs of key and value in
/// order, those of the armour-power curve apart from the others, their keys
/// without the leading `APDS`.
pub ghost struct BlockModel {
    pub fields: Seq<(Seq<char>, Seq<char>)>,
    pub armor_power: Seq<(Seq<char>, Seq<char>)>,
}

/// One projectile block of a file.
#[derive(Clone, Debug)]
pub struct DataBlock {
    /// Value of the last `Name` line.
    pub name: String,
    /// Value of the last `Type` line; empty without one.
    pub bullet_type: String,
    /// The type reduced to the tag that selects the shell family.
    pub normalized_type: String,
    /// The name as a file name.
    pub output_name: String,
    /// All pairs of key and value but those of the armour-power curve.
    pub fields: Vec<(String, String)>,
    /// The armour-power curve: distance and value as the file writes them.
    pub armor_power: Vec<(String, String)>,
}

/// A vehicle data file.
#[derive(Clone, Debug)]
pub struct DataFile {
    pub vehicle_id: String,
    /// Value of the last `WeaponPath` line.
    pub weapon_path: Option<String>,
    /// Values of the `RocketPath` lines, in order.
    pub rocket_paths: Vec<String>,
    /// Value of the last `ZoomIn` line, as written.
    pub zoom_in: Option<String>,
    /// Value of the last `ZoomOut` line, as written.
    pub zoom_out: Option<String>,
    /// Whether a line `HasLaser` stands in the header.
    pub has_laser: bool,
    pub projectiles: Vec<DataBlock>,
}

/// A line split at its first colon, if it holds one.
pub open spec fn pair_of(line: Seq<char>) -> Option<(Seq<char>, Seq<char>)> {
    let i = index_of_char(line, ':', 0);
    if i < line.len() {
        Some((line.take(i), line.skip(i + 1)))
    } else {
        None
    }
}

pub open spec fn empty_header() -> HeaderModel {
    HeaderModel {
        weapon_path: None,
        rocket_paths: Seq::empty(),
        zoom_in: None,
        zoom_out: None,
        has_laser: false,
    }
}

/// The header after one more line.
pub open spec fn header_step(h: HeaderModel, line: Seq<char>) -> HeaderModel {
    let t = trimmed(line);
    match pair_of(t) {
        Some((key, value)) => if key == "WeaponPath"@ {
            HeaderModel { weapon_path: Some(value), ..h }
        } else if key == "RocketPath"@ {
            HeaderModel { rocket_paths: h.rocket_paths.push(value), ..h }
        } else if key == "ZoomIn"@ {
            HeaderModel { zoom_in: Some(value), ..h }
        } else if key == "ZoomOut"@ {
            HeaderModel { zoom_out: Some(value), ..h }
        } else {
            h
        },
        None => if t == "HasLaser"@ {
            HeaderModel { has_laser: true, ..h }
        } else {
            h
        },
    }
}

/// The header that the first `n` lines make.
pub open spec fn header_of(lines: Seq<Seq<char>>, n: int) -> HeaderModel
    decreases n,
{
    if n <= 0 {
        empty_header()
    } else {
        header_step(header_of(lines, n - 1), lines[n - 1])
    }
}

/// The block after one more line.
pub open spec fn block_step(b: BlockModel, line: Seq<char>) -> BlockModel {
    let t = trimmed(line);
    match pair_of(t) {
        Some((key, value)) => if occurs_at(key, "APDS"@, 0) {
            BlockModel { armor_power: b.armor_power.push((key.skip(4), value)), ..b }
        } else {
            BlockModel { fields: b.fields.push((key, value)), ..b }
        },
        None => b,
    }
}

/// The block that the first `n` lines make.
pub open spec fn block_of(lines: Seq<Seq<char>>, n: int) -> BlockModel
    decreases n,
{
    if n <= 0 {
        BlockModel { fields: Seq::empty(), armor_power: Seq::empty() }
    } else {
        block_step(block_of(lines, n - 1), lines[n - 1])
    }
}

/// The value of the last of the first `n` pairs with the given key.
pub open spec fn last_value(fields: Seq<(Seq<char>, Seq<char>)>, key: Seq<char>, n: int) -> Option<
    Seq<char>,
>
    decreases n,
{
    if n <= 0 {
        None
    } else if fields[n - 1].0 == key {
        Some(fields[n - 1].1)
    } else {
        last_value(fields, key, n - 1)
    }
}

/// The value of the last pair with the given key.
pub open spec fn field_of(fields: Seq<(Seq<char>, Seq<char>)>, key: Seq<char>) -> Option<
    Seq<char>,
> {
    last_value(fields, key, fields.len() as int)
}

/// The lines of a section.
pub open spec fn lines_of(section: Seq<char>) -> Seq<Seq<char>> {
    split_on(section, seq!['\n'])
}

/// The block that a section makes.
pub open spec fn section_block(section: Seq<char>) -> BlockModel {
    block_of(lines_of(section), lines_of(section).len() as int)
}

/// The sections of a file: line ends of two characters become a newline,
/// then blank lines separate the sections.
pub open spec fn sections_of(content: Seq<char>) -> Seq<Seq<char>> {
    split_on(replaced(content, "\r\n"@, "\n"@), "\n\n"@)
}

/// A section describes a projectile if it names it.
pub open spec fn has_name(section: Seq<char>) -> bool {
    field_of(section_block(section).fields, "Name"@) is Some
}

/// The sections after the header, among the first `n`, that describe a
/// projectile.
pub open spec fn named_sections(sections: Seq<Seq<char>>, n: int) -> Seq<int>
    decreases n,
{
    if n <= 1 {
        Seq::<int>::empty()
    } else if has_name(sections[n - 1]) {
        named_sections(sections, n - 1).push(n - 1)
    } else {
        named_sections(sections, n - 1)
    }
}

pub open spec fn pair_texts(pairs: Seq<(String, String)>) -> Seq<(Seq<char>, Seq<char>)> {
    pairs.map_values(|p: (String, String)| (p.0@, p.1@))
}

pub open spec fn char_pair_texts(pairs: Seq<(Vec<char>, Vec<char>)>) -> Seq<
    (Seq<char>, Seq<char>),
> {
    pairs.map_values(|p: (Vec<char>, Vec<char>)| (p.0@, p.1@))
}

pub open spec fn string_texts(values: Seq<String>) -> Seq<Seq<char>> {
    values.map_values(|s: String| s@)
}

/// `block` is the projectile that `section` describes.
pub open spec fn is_block_of(block: DataBlock, section: Seq<char>) -> bool {
    let model = section_block(section);
    &&& field_of(model.fields, "Name"@) == Some(block.name@)
    &&& block.bullet_type@ == match field_of(model.fields, "Type"@) {
        Some(t) => t,
        None => Seq::<char>::empty(),
    }
    &&& block.normalized_type@ == normalized(block.bullet_type@)
    &&& block.output_name@ == cleaned(block.name@)
    &&& pair_texts(block.fields@) == model.fields
    &&& pair_texts(block.armor_power@) == model.armor_power
}

/// `file` is what `content` says.
pub open spec fn is_file_of(file: DataFile, content: Seq<char>) -> bool {
    let sections = sections_of(content);
    let header = header_of(lines_of(sections[0]), lines_of(sections[0]).len() as int);
    let named = named_sections(sections, sections.len() as int);
    &&& text_of(file.weapon_path) == header.weapon_path
    &&& string_texts(file.rocket_paths@) == header.rocket_paths
    &&& text_of(file.zoom_in) == header.zoom_in
    &&& text_of(file.zoom_out) == header.zoom_out
    &&& file.has_laser == header.has_laser
    &&& file.projectiles@.len() == named.len()
    &&& forall|k: int|
        0 <= k < named.len() ==> is_block_of(#[trigger] file.projectiles@[k], sections[named[k]])
}

fn is_text(chars: &Vec<char>, text: &str) -> (r: bool)
    ensures
        r == (chars@ == text@),
{
    let t = chars_of(text);
    same_chars(chars, &t)
}

/// Splits a line at its first colon.
fn split_pair(line: &Vec<char>) -> (r: Option<(Vec<char>, Vec<char>)>)
    ensures
        match r {
            Some(p) => pair_of(line@) == Some((p.0@, p.1@)),
            None => pair_of(line@) is None,
        },
{
    let i = position_of(line, ':');
    if i < line.len() {
        let key = slice(line, 0, i);
        let value = slice(line, i + 1, line.len());
        assert(key@ =~= line@.take(i as int));
        assert(value@ =~= line@.skip(i + 1));
        Some((key, value))
    } else {
        None
    }
}

fn strings_of(pairs: &Vec<(Vec<char>, Vec<char>)>) -> (r: Vec<(String, String)>)
    ensures
        pair_texts(r@) == char_pair_texts(pairs@),
{
    let mut r: Vec<(String, String)> = Vec::new();
    let mut i: usize = 0;
    while i < pairs.len()
        invariant
            i <= pairs@.len(),
            pair_texts(r@) == char_pair_texts(pairs@.take(i as int)),
        decreases pairs@.len() - i,
    {
        let ghost before = r@;
        let key = string_of(&pairs[i].0);
        let value = string_of(&pairs[i].1);
        r.push((key, value));
        assert(pair_texts(r@) =~= pair_texts(before).push((pairs@[i as int].0@, pairs@[i as int].1@)));
        assert(char_pair_texts(pairs@.take(i + 1)) =~= char_pair_texts(pairs@.take(i as int)).push(
            (pairs@[i as int].0@, pairs@[i as int].1@),
        ));
        i += 1;
    }
    assert(pairs@.take(pairs@.len() as int) =~= pairs@);
    r
}

/// Index of the last pair with the given key.
fn find_last(fields: &Vec<(Vec<char>, Vec<char>)>, key: &str) -> (r: Option<usize>)
    ensures
        match r {
            Some(i) => i < fields@.len() && field_of(char_pair_texts(fields@), key@) == Some(
                fields@[i as int].1@,
            ),
            None => field_of(char_pair_texts(fields@), key@) is None,
        },
{
    let wanted = chars_of(key);
    let mut n: usize = fields.len();
    while n > 0
        invariant
            n <= fields@.len(),
            wanted@ == key@,
            last_value(char_pair_texts(fields@), key@, n as int) == field_of(
                char_pair_texts(fields@),
                key@,
            ),
        decreases n,
    {
        if same_chars(&fields[n - 1].0, &wanted) {
            return Some(n - 1);
        }
        n -= 1;
    }
    None
}

impl DataBlock {
    /// The value of the last line of the block with the given key, but for
    /// the lines of the armour-power curve.
    pub fn field(&self, key: &str) -> (r: Option<String>)
        ensures
            text_of(r) == field_of(pair_texts(self.fields@), key@),
    {
        let mut n: usize = self.fields.len();
        while n > 0
            invariant
                n <= self.fields@.len(),
                last_value(pair_texts(self.fields@), key@, n as int) == field_of(
                    pair_texts(self.fields@),
                    key@,
                ),
            decreases n,
        {
            if same_text(self.fields[n - 1].0.as_str(), key) {
                return Some(self.fields[n - 1].1.clone());
            }
            n -= 1;
        }
        None
    }
}

/// Reads the lines of a projectile block.
fn read_block(section: &Vec<char>) -> (r: (Vec<(Vec<char>, Vec<char>)>, Vec<(Vec<char>, Vec<char>)>))
    ensures
        char_pair_texts(r.0@) == section_block(section@).fields,
        char_pair_texts(r.1@) == section_block(section@).armor_power,
{
    let newline: Vec<char> = vec!['\n'];
    assert(newline@ =~= seq!['\n']);
    let lines = split(section, &newline);
    let marker = chars_of("APDS");
    proof {
        reveal_strlit("APDS");
    }
    let mut fields: Vec<(Vec<char>, Vec<char>)> = Vec::new();
    let mut armor: Vec<(Vec<char>, Vec<char>)> = Vec::new();
    let mut i: usize = 0;
    while i < lines.len()
        invariant
            i <= lines@.len(),
            texts(lines@) == lines_of(section@),
            marker@ == "APDS"@,
            marker@.len() == 4,
            char_pair_texts(fields@) == block_of(lines_of(section@), i as int).fields,
            char_pair_texts(armor@) == block_of(lines_of(section@), i as int).armor_power,
        decreases lines@.len() - i,
    {
        let line = trim(&lines[i]);
        assert(texts(lines@)[i as int] == lines@[i as int]@);
        match split_pair(&line) {
            Some((key, value)) => {
                if matches_at(&key, &marker, 0) {
                    let ghost before = armor@;
                    let distance = slice(&key, 4, key.len());
                    assert(distance@ =~= key@.skip(4));
                    armor.push((distance, value));
                    assert(char_pair_texts(armor@) =~= char_pair_texts(before).push(
                        (key@.skip(4), value@),
                    ));
                } else {
                    let ghost before = fields@;
                    fields.push((key, value));
                    assert(char_pair_texts(fields@) =~= char_pair_texts(before).push(
                        (key@, value@),
                    ));
                }
            },
            None => {},
        }
        i += 1;
    }
    (fields, armor)
}

/// Reads one projectile block; `None` where the block names no projectile.
pub fn parse_projectile_block(block: &str) -> (r: Option<DataBlock>)
    ensures
        r is Some == has_name(block@),
        r is Some ==> is_block_of(r.unwrap(), block@),
{
    let chars = chars_of(block);
    block_of_chars(&chars)
}

fn block_of_chars(section: &Vec<char>) -> (r: Option<DataBlock>)
    ensures
        r is Some == has_name(section@),
        r is Some ==> is_block_of(r.unwrap(), section@),
{
    let (fields, armor) = read_block(section);
    let name = match find_last(&fields, "Name") {
        Some(i) => string_of(&fields[i].1),
        None => {
            return None;
        },
    };
    let bullet_type = match find_last(&fields, "Type") {
        Some(i) => string_of(&fields[i].1),
        None => String::new(),
    };
    let normalized_type = normalize_shell_type(bullet_type.as_str());
    let output_name = clean_shell_name(name.as_str());
    Some(
        DataBlock {
            name,
            bullet_type,
            normalized_type,
            output_name,
            fields: strings_of(&fields),
            armor_power: strings_of(&armor),
        },
    )
}

/// Reads the header of a file into `file`.
fn read_header(section: &Vec<char>, file: &mut DataFile)
    requires
        old(file).weapon_path is None,
        old(file).rocket_paths@.len() == 0,
        old(file).zoom_in is None,
        old(file).zoom_out is None,
        !old(file).has_laser,
    ensures
        ({
            let header = header_of(lines_of(section@), lines_of(section@).len() as int);
            &&& text_of(final(file).weapon_path) == header.weapon_path
            &&& string_texts(final(file).rocket_paths@) == header.rocket_paths
            &&& text_of(final(file).zoom_in) == header.zoom_in
            &&& text_of(final(file).zoom_out) == header.zoom_out
            &&& final(file).has_laser == header.has_laser
        }),
        final(file).vehicle_id == old(file).vehicle_id,
        final(file).projectiles == old(file).projectiles,
{
    let newline: Vec<char> = vec!['\n'];
    assert(newline@ =~= seq!['\n']);
    let lines = split(section, &newline);
    assert(string_texts(file.rocket_paths@) =~= empty_header().rocket_paths);
    let mut i: usize = 0;
    while i < lines.len()
        invariant
            i <= lines@.len(),
            texts(lines@) == lines_of(section@),
            ({
                let header = header_of(lines_of(section@), i as int);
                &&& text_of(file.weapon_path) == header.weapon_path
                &&& string_texts(file.rocket_paths@) == header.rocket_paths
                &&& text_of(file.zoom_in) == header.zoom_in
                &&& text_of(file.zoom_out) == header.zoom_out
                &&& file.has_laser == header.has_laser
            }),
            file.vehicle_id == old(file).vehicle_id,
            file.projectiles == old(file).projectiles,
        decreases lines@.len() - i,
    {
        let line = trim(&lines[i]);
        assert(texts(lines@)[i as int] == lines@[i as int]@);
        match split_pair(&line) {
            Some((key, value)) => {
                if is_text(&key, "WeaponPath") {
                    file.weapon_path = Some(string_of(&value));
                } else if is_text(&key, "RocketPath") {
                    let ghost before = file.rocket_paths@;
                    file.rocket_paths.push(string_of(&value));
                    assert(string_texts(file.rocket_paths@) =~= string_texts(before).push(value@));
                } else if is_text(&key, "ZoomIn") {
                    file.zoom_in = Some(string_of(&value));
                } else if is_text(&key, "ZoomOut") {
                    file.zoom_out = Some(string_of(&value));
                }
            },
            None => {
                if is_text(&line, "HasLaser") {
                    file.has_laser = true;
                }
            },
        }
        i += 1;
    }
}

/// Reads a vehicle data file from its text.
pub fn parse_data_text(content: &str, vehicle_id: &str) -> (file: DataFile)
    ensures
        file.vehicle_id@ == vehicle_id@,
        is_file_of(file, content@),
{
    let chars = chars_of(content);
    let two = chars_of("\r\n");
    let one = chars_of("\n");
    let blank = chars_of("\n\n");
    proof {
        reveal_strlit("\r\n");
        reveal_strlit("\n\n");
    }
    let unified = replace_all(&chars, &two, &one);
    let sections = split(&unified, &blank);
    assert(texts(sections@) == sections_of(content@));
    let mut file = DataFile {
        vehicle_id: String::from_str(vehicle_id),
        weapon_path: None,
        rocket_paths: Vec::new(),
        zoom_in: None,
        zoom_out: None,
        has_laser: false,
        projectiles: Vec::new(),
    };
    assert(texts(sections@)[0] == sections@[0]@);
    read_header(&sections[0], &mut file);
    let ghost header = file;
    let mut i: usize = 1;
    while i < sections.len()
        invariant
            1 <= i <= sections@.len(),
            texts(sections@) == sections_of(content@),
            file.vehicle_id == header.vehicle_id,
            file.weapon_path == header.weapon_path,
            file.rocket_paths == header.rocket_paths,
            file.zoom_in == header.zoom_in,
            file.zoom_out == header.zoom_out,
            file.has_laser == header.has_laser,
            file.projectiles@.len() == named_sections(sections_of(content@), i as int).len(),
            forall|k: int|
                0 <= k < file.projectiles@.len() ==> is_block_of(
                    #[trigger] file.projectiles@[k],
                    sections_of(content@)[named_sections(sections_of(content@), i as int)[k]],
                ),
        decreases sections@.len() - i,
    {
        assert(texts(sections@)[i as int] == sections@[i as int]@);
        match block_of_chars(&sections[i]) {
            Some(block) => {
                file.projectiles.push(block);
            },
            None => {},
        }
        i += 1;
    }
    file
}

} // verus!
