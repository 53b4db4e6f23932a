//! Rules on the names that the data source uses: shell-type tags, shell
//! names, weapon-module paths and belt names.

use vstd::prelude::*;
use vstd::string::{StrSliceExecFns, StringExecFns};
use crate::text::{
    before, chars_of, contains, ends_with, find, first_occurrence, first_occurrence_is_unique,
    matches_at, position_of, replace_all, replaced, same_chars, slice, string_of, trim, trimmed,
};

verus! {

/// The tag of a raw shell type: `apds_fs` wherever that stands in it, else
/// what stands before its first underscore.
pub open spec fn normalized(raw: Seq<char>) -> Seq<char> {
    if contains(raw, "apds_fs"@) {
        "apds_fs"@
    } else {
        before(raw, '_')
    }
}

/// A shell name as a file name: what follows the first slash is dropped,
/// then everything up to and including the first `mm_`.
pub open spec fn cleaned(name: Seq<char>) -> Seq<char> {
    let head = before(name, '/');
    if contains(head, "mm_"@) {
        head.skip(first_occurrence(head, "mm_"@) + 3)
    } else {
        head
    }
}

/// A module path with `.blk` at its end gains an `x`.
pub open spec fn blk_path_normalized(path: Seq<char>) -> Seq<char> {
    if ends_with(path, ".blk"@) {
        path + "x"@
    } else {
        path
    }
}

/// The nation infixes, in the order in which they are taken out.
pub open spec fn nation_prefixes() -> Seq<Seq<char>> {
    seq![
        "_cn_"@,
        "_fr_"@,
        "_germ_"@,
        "_il_"@,
        "_it_"@,
        "_jp_"@,
        "_sw_"@,
        "_uk_"@,
        "_us_"@,
        "_ussr_"@,
    ]
}

/// `name` after the first `n` nation infixes have each been replaced by a
/// single underscore, one infix after the other.
pub open spec fn stripped_of(name: Seq<char>, n: int) -> Seq<char>
    decreases n,
{
    if n <= 0 {
        name
    } else {
        replaced(stripped_of(name, n - 1), nation_prefixes()[n - 1], "_"@)
    }
}

/// `name` with every nation infix replaced by a single underscore.
pub open spec fn nation_stripped(name: Seq<char>) -> Seq<char> {
    stripped_of(name, 10)
}

/// Whether a belt is kept: always without a vehicle description, else where
/// the description names the belt, as it is or without its nation infix.
pub open spec fn belt_included(belt: Seq<char>, vehicle: Option<Seq<char>>) -> bool {
    match vehicle {
        None => true,
        Some(v) => contains(v, belt) || (nation_stripped(belt) != belt && contains(
            v,
            nation_stripped(belt),
        )),
    }
}

/// Reduces a raw shell type to the tag that selects its family.
pub fn normalize_shell_type(raw_type: &str) -> (r: String)
    ensures
        r@ == normalized(raw_type@),
{
    let chars = chars_of(raw_type);
    let sabot = chars_of("apds_fs");
    match find(&chars, &sabot) {
        Some(i) => {
            assert(contains(chars@, sabot@));
            String::from_str("apds_fs")
        },
        None => {
            let cut = position_of(&chars, '_');
            String::from_str(raw_type.substring_char(0, cut))
        },
    }
}

/// Cleans a shell name for use as a file name.
pub fn clean_shell_name(name: &str) -> (r: String)
    ensures
        r@ == cleaned(name@),
{
    let chars = chars_of(name);
    let cut = position_of(&chars, '/');
    let head = name.substring_char(0, cut);
    let head_chars = chars_of(head);
    let marker = chars_of("mm_");
    proof {
        reveal_strlit("mm_");
    }
    match find(&head_chars, &marker) {
        Some(pos) => {
            proof {
                first_occurrence_is_unique(head@, marker@, pos as int);
            }
            String::from_str(head.substring_char(pos + 3, head_chars.len()))
        },
        None => String::from_str(head),
    }
}

/// Turns the path of a `.blk` module into that of its `.blkx` form.
pub fn normalize_blk_path(path: &str) -> (r: String)
    ensures
        r@ == blk_path_normalized(path@),
{
    let chars = chars_of(path);
    let suffix = chars_of(".blk");
    if chars.len() >= suffix.len() && matches_at(&chars, &suffix, chars.len() - suffix.len()) {
        String::from_str(path).concat("x")
    } else {
        String::from_str(path)
    }
}

fn strip_one(
    name: Vec<char>,
    infix: &str,
    Ghost(n): Ghost<int>,
    Ghost(start): Ghost<Seq<char>>,
) -> (r: Vec<char>)
    requires
        1 <= n <= 10,
        infix@ == nation_prefixes()[n - 1],
        name@ == stripped_of(start, n - 1),
        infix@.len() > 0,
    ensures
        r@ == stripped_of(start, n),
{
    let pat = chars_of(infix);
    let with = chars_of("_");
    replace_all(&name, &pat, &with)
}

/// Takes the nation infixes out of a belt name.
pub fn strip_nation_prefix(name: &str) -> (r: String)
    ensures
        r@ == nation_stripped(name@),
{
    proof {
        reveal_strlit("_cn_");
        reveal_strlit("_fr_");
        reveal_strlit("_germ_");
        reveal_strlit("_il_");
        reveal_strlit("_it_");
        reveal_strlit("_jp_");
        reveal_strlit("_sw_");
        reveal_strlit("_uk_");
        reveal_strlit("_us_");
        reveal_strlit("_ussr_");
    }
    let ghost start = name@;
    let c = chars_of(name);
    let c = strip_one(c, "_cn_", Ghost(1), Ghost(start));
    let c = strip_one(c, "_fr_", Ghost(2), Ghost(start));
    let c = strip_one(c, "_germ_", Ghost(3), Ghost(start));
    let c = strip_one(c, "_il_", Ghost(4), Ghost(start));
    let c = strip_one(c, "_it_", Ghost(5), Ghost(start));
    let c = strip_one(c, "_jp_", Ghost(6), Ghost(start));
    let c = strip_one(c, "_sw_", Ghost(7), Ghost(start));
    let c = strip_one(c, "_uk_", Ghost(8), Ghost(start));
    let c = strip_one(c, "_us_", Ghost(9), Ghost(start));
    let c = strip_one(c, "_ussr_", Ghost(10), Ghost(start));
    string_of(&c)
}

/// Whether the belt of this name belongs to the vehicle whose description is
/// given; without a description every belt does.
pub fn should_include_belt(belt_name: &str, vehicle_str: Option<&str>) -> (r: bool)
    ensures
        r == belt_included(
            belt_name@,
            match vehicle_str {
                Some(v) => Some(v@),
                None => None,
            },
        ),
{
    let vehicle = match vehicle_str {
        Some(v) => chars_of(v),
        None => {
            return true;
        },
    };
    let belt = chars_of(belt_name);
    if find(&vehicle, &belt).is_some() {
        return true;
    }
    let stripped = strip_nation_prefix(belt_name);
    let plain = chars_of(stripped.as_str());
    !same_chars(&plain, &belt) && find(&vehicle, &plain).is_some()
}

/// The lower-case form of a text, as Unicode defines it.
pub uninterp spec fn lowercased(s: Seq<char>) -> Seq<char>;

/// `str::to_lowercase`: the lower-case form of the text.
#[verifier::external_body]
fn to_lowercase(s: &str) -> (r: String)
    ensures
        r@ == lowercased(s@),
{
    s.to_lowercase()
}

/// `s` without the double quotes around it, where it has both.
pub open spec fn unquoted(s: Seq<char>) -> Seq<char> {
    if s.len() >= 2 && s[0] == '"' && s.last() == '"' {
        s.subrange(1, s.len() - 1)
    } else {
        s
    }
}

/// `s` without `.blkx` at its end.
pub open spec fn without_blkx(s: Seq<char>) -> Seq<char> {
    if ends_with(s, ".blkx"@) {
        s.take(s.len() - 5)
    } else {
        s
    }
}

/// The vehicle that a line of an ignore list names: none for a blank line
/// or a comment; else the line without the white space and the quotes around
/// it and without `.blkx` at its end, in lower case.
pub open spec fn ignored_name(line: Seq<char>) -> Option<Seq<char>> {
    let t = trimmed(line);
    if t.len() == 0 || t[0] == '#' {
        None
    } else {
        Some(lowercased(without_blkx(unquoted(t))))
    }
}

/// Reads one line of an ignore list.
pub fn ignore_entry(line: &str) -> (r: Option<String>)
    ensures
        match r {
            Some(name) => ignored_name(line@) == Some(name@),
            None => ignored_name(line@) is None,
        },
{
    let chars = chars_of(line);
    let t = trim(&chars);
    if t.len() == 0 || t[0] == '#' {
        return None;
    }
    let bare = if t.len() >= 2 && t[0] == '"' && t[t.len() - 1] == '"' {
        slice(&t, 1, t.len() - 1)
    } else {
        t
    };
    let suffix = chars_of(".blkx");
    proof {
        reveal_strlit(".blkx");
    }
    let stem = if bare.len() >= suffix.len() && matches_at(&bare, &suffix, bare.len() - suffix.len()) {
        let cut = slice(&bare, 0, bare.len() - 5);
        assert(cut@ =~= bare@.take(bare@.len() - 5));
        cut
    } else {
        bare
    };
    let plain = string_of(&stem);
    Some(to_lowercase(plain.as_str()))
}

} // verus!
