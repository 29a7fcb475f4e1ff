//! Checking a kernel configuration against wanted settings, and fixing it.
//!
//! A configuration is a list of lines. A line `KEY=value` sets a key, and a
//! comment `# KEY is not set` says that a key is off, which counts as the
//! value `n`.

use crate::command::texts;
use crate::compile::{
    exit_code_text, format_exit_code, nix_arguments, NixCommand, ProcessRequest,
    OLDDEFCONFIG_COMMAND,
};
use crate::error::prefixed;
use crate::text::{ends_with, find_char, first_index_of, same_text, starts_with, trim, trimmed};
use vstd::prelude::*;

verus! {

/// A key of the configuration and its value.
#[derive(Debug, PartialEq, Eq)]
pub struct Setting {
    pub key: String,
    pub value: String,
}

/// A configuration after the check.
#[derive(Debug, PartialEq, Eq)]
pub struct ConfigFix {
    /// The lines, with every wanted setting in place.
    pub lines: Vec<String>,
    /// Whether any line was changed or added.
    pub updated: bool,
}

impl Clone for Setting {
    fn clone(&self) -> (c: Self)
        ensures
            c.key@ == self.key@,
            c.value@ == self.value@,
    {
        Setting { key: self.key.clone(), value: self.value.clone() }
    }
}

/// The keys and values of a list of settings.
pub open spec fn pairs(list: Seq<Setting>) -> Seq<(Seq<char>, Seq<char>)> {
    Seq::new(list.len(), |i: int| (list[i].key@, list[i].value@))
}

/// The name in a comment that says that a key is off: what stands between
/// `# CONFIG_` and ` is not set`.
pub open spec fn unset_name(line: Seq<char>) -> Option<Seq<char>> {
    let head = "# CONFIG_"@;
    let tail = " is not set"@;
    if head.is_prefix_of(line) && tail.is_suffix_of(line.subrange(head.len() as int, line.len() as int)) {
        Some(line.subrange(head.len() as int, line.len() - tail.len()))
    } else {
        None
    }
}

/// What a line without surrounding white space sets, if anything. A comment
/// that says that a key is off sets it to `n`. Other comments and lines
/// without `=` set nothing. Any other line sets what stands before its
/// first `=` to what stands after it, both without surrounding white space.
pub open spec fn parsed_setting(line: Seq<char>) -> Option<(Seq<char>, Seq<char>)> {
    match unset_name(line) {
        Some(name) => Some(("CONFIG_"@ + trimmed(name), "n"@)),
        None => {
            let at = first_index_of(line, '=');
            if (line.len() > 0 && line[0] == '#') || at == line.len() {
                None
            } else {
                Some(
                    (
                        trimmed(line.subrange(0, at)),
                        trimmed(line.subrange(at + 1, line.len() as int)),
                    ),
                )
            }
        },
    }
}

/// What the first `count` lines set, in their order.
pub open spec fn parsed_settings(lines: Seq<Seq<char>>, count: int) -> Seq<(Seq<char>, Seq<char>)>
    decreases count,
{
    if count <= 0 {
        Seq::empty()
    } else {
        let before = parsed_settings(lines, count - 1);
        match parsed_setting(lines[count - 1]) {
            Some(setting) => before.push(setting),
            None => before,
        }
    }
}

/// The value of a key: that of the last setting of it among the first
/// `count`, or `n` where there is none.
pub open spec fn value_of(settings: Seq<(Seq<char>, Seq<char>)>, key: Seq<char>, count: int) -> Seq<
    char,
>
    decreases count,
{
    if count <= 0 {
        "n"@
    } else if settings[count - 1].0 == key {
        settings[count - 1].1
    } else {
        value_of(settings, key, count - 1)
    }
}

/// Whether a line is about a key: it sets the key, or says that it is off.
pub open spec fn mentions(line: Seq<char>, key: Seq<char>) -> bool {
    (key + "="@).is_prefix_of(line) || line == "# "@ + key + " is not set"@
}

/// The line that puts a wanted setting in place.
pub open spec fn wanted_line(key: Seq<char>, value: Seq<char>) -> Seq<char> {
    if value == "n"@ {
        "# "@ + key + " is not set"@
    } else {
        key + "="@ + value
    }
}

/// Whether a wanted setting makes a line change: the line is about its key,
/// and the configuration gives the key another value.
pub open spec fn corrects(
    line: Seq<char>,
    settings: Seq<(Seq<char>, Seq<char>)>,
    wanted: (Seq<char>, Seq<char>),
) -> bool {
    mentions(line, wanted.0) && value_of(settings, wanted.0, settings.len() as int) != wanted.1
}

/// A line after the first `count` wanted settings were applied to it: the
/// line of the last of them that corrects it, or the line itself.
pub open spec fn fixed_line(
    line: Seq<char>,
    settings: Seq<(Seq<char>, Seq<char>)>,
    wanted: Seq<(Seq<char>, Seq<char>)>,
    count: int,
) -> Seq<char>
    decreases count,
{
    if count <= 0 {
        line
    } else if corrects(line, settings, wanted[count - 1]) {
        wanted_line(wanted[count - 1].0, wanted[count - 1].1)
    } else {
        fixed_line(line, settings, wanted, count - 1)
    }
}

/// Whether one of the first `count` wanted settings corrects the line.
pub open spec fn line_changes(
    line: Seq<char>,
    settings: Seq<(Seq<char>, Seq<char>)>,
    wanted: Seq<(Seq<char>, Seq<char>)>,
    count: int,
) -> bool
    decreases count,
{
    count > 0 && (corrects(line, settings, wanted[count - 1]) || line_changes(
        line,
        settings,
        wanted,
        count - 1,
    ))
}

/// Whether one of the first `count` lines is about the key.
pub open spec fn found_in(lines: Seq<Seq<char>>, key: Seq<char>, count: int) -> bool
    decreases count,
{
    count > 0 && (mentions(lines[count - 1], key) || found_in(lines, key, count - 1))
}

/// The first `count` lines, each with all wanted settings applied.
pub open spec fn fixed_body(
    lines: Seq<Seq<char>>,
    settings: Seq<(Seq<char>, Seq<char>)>,
    wanted: Seq<(Seq<char>, Seq<char>)>,
    count: int,
) -> Seq<Seq<char>> {
    Seq::new(count as nat, |i: int| fixed_line(lines[i], settings, wanted, wanted.len() as int))
}

/// Whether one of the first `count` lines is changed by a wanted setting.
pub open spec fn body_changes(
    lines: Seq<Seq<char>>,
    settings: Seq<(Seq<char>, Seq<char>)>,
    wanted: Seq<(Seq<char>, Seq<char>)>,
    count: int,
) -> bool
    decreases count,
{
    count > 0 && (line_changes(lines[count - 1], settings, wanted, wanted.len() as int)
        || body_changes(lines, settings, wanted, count - 1))
}

/// The lines that are added for those of the first `count` wanted settings
/// whose key no line is about.
pub open spec fn added_lines(
    lines: Seq<Seq<char>>,
    wanted: Seq<(Seq<char>, Seq<char>)>,
    count: int,
) -> Seq<Seq<char>>
    decreases count,
{
    if count <= 0 {
        Seq::empty()
    } else if found_in(lines, wanted[count - 1].0, lines.len() as int) {
        added_lines(lines, wanted, count - 1)
    } else {
        added_lines(lines, wanted, count - 1).push(
            wanted_line(wanted[count - 1].0, wanted[count - 1].1),
        )
    }
}

/// The configuration with every wanted setting in place: each line
/// corrected, then a line added for each key that no line was about.
pub open spec fn fixed_lines(
    lines: Seq<Seq<char>>,
    settings: Seq<(Seq<char>, Seq<char>)>,
    wanted: Seq<(Seq<char>, Seq<char>)>,
) -> Seq<Seq<char>> {
    fixed_body(lines, settings, wanted, lines.len() as int) + added_lines(
        lines,
        wanted,
        wanted.len() as int,
    )
}

/// Whether putting the wanted settings in place changes the configuration.
pub open spec fn needs_update(
    lines: Seq<Seq<char>>,
    settings: Seq<(Seq<char>, Seq<char>)>,
    wanted: Seq<(Seq<char>, Seq<char>)>,
) -> bool {
    body_changes(lines, settings, wanted, lines.len() as int) || added_lines(
        lines,
        wanted,
        wanted.len() as int,
    ).len() > 0
}

/// The text of a configuration file: the lines joined by line feeds, and a
/// line feed at the end.
pub open spec fn file_text(lines: Seq<Seq<char>>, count: int) -> Seq<char>
    decreases count,
{
    if count <= 0 {
        seq!['\n']
    } else if count == 1 {
        lines[0] + seq!['\n']
    } else {
        file_text(lines, count - 1) + lines[count - 1] + seq!['\n']
    }
}

/// Reads what a line without surrounding white space sets.
pub fn parse_config_line(line: &str) -> (r: Option<Setting>)
    ensures
        match r {
            Some(setting) => parsed_setting(line@) == Some((setting.key@, setting.value@)),
            None => parsed_setting(line@) is None,
        },
{
    let len = line.unicode_len();
    let head_len = "# CONFIG_".unicode_len();
    let tail_len = " is not set".unicode_len();
    if starts_with(line, "# CONFIG_") {
        let rest = line.substring_char(head_len, len);
        if ends_with(rest, " is not set") {
            let name = rest.substring_char(0, len - head_len - tail_len);
            assert(name@ =~= line@.subrange(head_len as int, len - tail_len));
            let key = prefixed("CONFIG_", trim(name).as_str());
            return Some(Setting { key, value: String::from_str("n") });
        }
    }
    assert(unset_name(line@) is None);
    if len > 0 && line.get_char(0) == '#' {
        return None;
    }
    match find_char(line, '=') {
        Some(at) => {
            let key = trim(line.substring_char(0, at));
            let value = trim(line.substring_char(at + 1, len));
            Some(Setting { key, value })
        },
        None => None,
    }
}

/// The value that the settings give a key: that of its last setting, or
/// `n` where it has none.
pub fn lookup(settings: &Vec<Setting>, key: &str) -> (value: String)
    ensures
        value@ == value_of(pairs(settings@), key@, settings@.len() as int),
{
    let mut i = settings.len();
    while i > 0
        invariant
            i <= settings@.len(),
            value_of(pairs(settings@), key@, settings@.len() as int) == value_of(
                pairs(settings@),
                key@,
                i as int,
            ),
        decreases i,
    {
        i = i - 1;
        if same_text(settings[i].key.as_str(), key) {
            return settings[i].value.clone();
        }
    }
    String::from_str("n")
}

/// Whether a line is about a key.
pub fn line_mentions(line: &str, key: &str) -> (r: bool)
    ensures
        r == mentions(line@, key@),
{
    let mut assignment = String::from_str(key);
    assignment.append("=");
    if starts_with(line, assignment.as_str()) {
        return true;
    }
    let mut comment = prefixed("# ", key);
    comment.append(" is not set");
    same_text(line, comment.as_str())
}

/// The line that puts a wanted setting in place.
pub fn make_wanted_line(key: &str, value: &str) -> (line: String)
    ensures
        line@ == wanted_line(key@, value@),
{
    if same_text(value, "n") {
        let mut line = prefixed("# ", key);
        line.append(" is not set");
        line
    } else {
        let mut line = String::from_str(key);
        line.append("=");
        line.append(value);
        line
    }
}

/// Applies the wanted settings to one line.
fn fix_line(line: &str, settings: &Vec<Setting>, wanted: &Vec<Setting>) -> (r: (String, bool))
    ensures
        r.0@ == fixed_line(line@, pairs(settings@), pairs(wanted@), wanted@.len() as int),
        r.1 == line_changes(line@, pairs(settings@), pairs(wanted@), wanted@.len() as int),
{
    let mut current = String::from_str(line);
    let mut changed = false;
    let mut j: usize = 0;
    while j < wanted.len()
        invariant
            j <= wanted@.len(),
            current@ == fixed_line(line@, pairs(settings@), pairs(wanted@), j as int),
            changed == line_changes(line@, pairs(settings@), pairs(wanted@), j as int),
        decreases wanted@.len() - j,
    {
        let want = &wanted[j];
        assert(pairs(wanted@)[j as int] == (want.key@, want.value@));
        if line_mentions(line, want.key.as_str()) {
            let actual = lookup(settings, want.key.as_str());
            if !same_text(actual.as_str(), want.value.as_str()) {
                current = make_wanted_line(want.key.as_str(), want.value.as_str());
                changed = true;
            }
        }
        j = j + 1;
    }
    (current, changed)
}

/// Whether one of the lines is about the key.
fn key_is_found(lines: &Vec<String>, key: &str) -> (r: bool)
    ensures
        r == found_in(texts(lines@), key@, lines@.len() as int),
{
    let mut i = lines.len();
    while i > 0
        invariant
            i <= lines@.len(),
            found_in(texts(lines@), key@, lines@.len() as int) == found_in(
                texts(lines@),
                key@,
                i as int,
            ),
        decreases i,
    {
        i = i - 1;
        assert(texts(lines@)[i as int] == lines@[i as int]@);
        if line_mentions(lines[i].as_str(), key) {
            return true;
        }
    }
    false
}

/// Puts the wanted settings in place. `lines` is the configuration,
/// `settings` what it sets, and `wanted` the settings to enforce, in the
/// order in which they are applied and added.
pub fn fix_config(lines: &Vec<String>, settings: &Vec<Setting>, wanted: &Vec<Setting>) -> (fix:
    ConfigFix)
    ensures
        texts(fix.lines@) == fixed_lines(texts(lines@), pairs(settings@), pairs(wanted@)),
        fix.updated == needs_update(texts(lines@), pairs(settings@), pairs(wanted@)),
{
    let ghost l = texts(lines@);
    let ghost s = pairs(settings@);
    let ghost w = pairs(wanted@);
    let mut out: Vec<String> = Vec::new();
    let mut updated = false;
    let mut i: usize = 0;
    while i < lines.len()
        invariant
            i <= lines@.len(),
            l == texts(lines@),
            s == pairs(settings@),
            w == pairs(wanted@),
            out@.len() == i,
            texts(out@) == fixed_body(l, s, w, i as int),
            updated == body_changes(l, s, w, i as int),
        decreases lines@.len() - i,
    {
        let ghost before = out@;
        let fixed = fix_line(lines[i].as_str(), settings, wanted);
        assert(l[i as int] == lines@[i as int]@);
        if fixed.1 {
            updated = true;
        }
        out.push(fixed.0);
        proof {
            assert forall|k: int| 0 <= k < i + 1 implies texts(out@)[k] == fixed_body(
                l,
                s,
                w,
                i + 1,
            )[k] by {
                if k < i {
                    assert(texts(before)[k] == fixed_body(l, s, w, i as int)[k]);
                }
            }
            assert(texts(out@) =~= fixed_body(l, s, w, i + 1));
        }
        i = i + 1;
    }
    let ghost body = out@;
    let changed = updated;
    let mut j: usize = 0;
    while j < wanted.len()
        invariant
            j <= wanted@.len(),
            l == texts(lines@),
            w == pairs(wanted@),
            body.len() == lines@.len(),
            texts(out@) == texts(body) + added_lines(l, w, j as int),
            updated == (changed || added_lines(l, w, j as int).len() > 0),
        decreases wanted@.len() - j,
    {
        let want = &wanted[j];
        assert(w[j as int] == (want.key@, want.value@));
        if !key_is_found(lines, want.key.as_str()) {
            let ghost before = out@;
            out.push(make_wanted_line(want.key.as_str(), want.value.as_str()));
            updated = true;
            proof {
                assert(texts(out@) =~= texts(before).push(wanted_line(want.key@, want.value@)));
                assert(texts(out@) =~= texts(body) + added_lines(l, w, j + 1));
            }
        }
        j = j + 1;
    }
    ConfigFix { lines: out, updated }
}

/// What the lines of a configuration set, in their order. The lines are
/// taken without surrounding white space.
pub fn parse_config(lines: &Vec<String>) -> (settings: Vec<Setting>)
    ensures
        pairs(settings@) == parsed_settings(texts(lines@), lines@.len() as int),
{
    let mut settings: Vec<Setting> = Vec::new();
    let mut i: usize = 0;
    while i < lines.len()
        invariant
            i <= lines@.len(),
            pairs(settings@) == parsed_settings(texts(lines@), i as int),
        decreases lines@.len() - i,
    {
        assert(texts(lines@)[i as int] == lines@[i as int]@);
        let ghost before = settings@;
        match parse_config_line(lines[i].as_str()) {
            Some(setting) => {
                settings.push(setting);
                assert(pairs(settings@) =~= pairs(before).push((setting.key@, setting.value@)));
            },
            None => {},
        }
        i = i + 1;
    }
    settings
}

/// The lines without their surrounding white space.
pub open spec fn trimmed_lines(raw: Seq<Seq<char>>) -> Seq<Seq<char>> {
    Seq::new(raw.len(), |i: int| trimmed(raw[i]))
}

/// Checks a configuration file against the wanted settings and fixes it.
///
/// Every line is taken without its surrounding white space. The result
/// holds the lines with every wanted setting in place, and says whether
/// that changed anything, in which case the file is to be written anew and
/// completed with defaults.
pub fn check_fix_config(raw: &Vec<String>, wanted: &Vec<Setting>) -> (fix: ConfigFix)
    ensures
        texts(fix.lines@) == fixed_lines(
            trimmed_lines(texts(raw@)),
            parsed_settings(trimmed_lines(texts(raw@)), raw@.len() as int),
            pairs(wanted@),
        ),
        fix.updated == needs_update(
            trimmed_lines(texts(raw@)),
            parsed_settings(trimmed_lines(texts(raw@)), raw@.len() as int),
            pairs(wanted@),
        ),
{
    let mut lines: Vec<String> = Vec::new();
    let mut i: usize = 0;
    while i < raw.len()
        invariant
            i <= raw@.len(),
            lines@.len() == i,
            forall|k: int| 0 <= k < i ==> (#[trigger] lines@[k])@ == trimmed(raw@[k]@),
        decreases raw@.len() - i,
    {
        lines.push(trim(raw[i].as_str()));
        i = i + 1;
    }
    assert(texts(lines@) =~= trimmed_lines(texts(raw@)));
    let settings = parse_config(&lines);
    fix_config(&lines, &settings, wanted)
}

/// The text of a configuration file.
pub fn config_text(lines: &Vec<String>) -> (text: String)
    ensures
        text@ == file_text(texts(lines@), lines@.len() as int),
{
    let mut text = String::new();
    let mut i: usize = 0;
    while i < lines.len()
        invariant
            i <= lines@.len(),
            i == 0 ==> text@ == Seq::<char>::empty(),
            i > 0 ==> text@ == file_text(texts(lines@), i as int),
        decreases lines@.len() - i,
    {
        assert(texts(lines@)[i as int] == lines@[i as int]@);
        let ghost before = text@;
        text.append(lines[i].as_str());
        text.append("\n");
        proof {
            reveal_strlit("\n");
            assert("\n"@ =~= seq!['\n']);
            if i == 0 {
                assert(text@ =~= texts(lines@)[0] + seq!['\n']);
            } else {
                assert(text@ =~= before + texts(lines@)[i as int] + seq!['\n']);
            }
        }
        i = i + 1;
    }
    if lines.len() == 0 {
        text.append("\n");
        proof {
            reveal_strlit("\n");
            assert(text@ =~= seq!['\n']);
        }
    }
    text
}

/// The process that completes a fixed configuration with defaults, in the
/// shell `nix`.
pub fn olddefconfig(nix: &NixCommand) -> (req: ProcessRequest)
    ensures
        req.program@ == "nix-shell"@,
        texts(req.args@) == nix_arguments(*nix, OLDDEFCONFIG_COMMAND@),
        req.working_dir@ == nix.working_dir@,
{
    nix.execute(OLDDEFCONFIG_COMMAND)
}

/// The result of completing the configuration, from the exit code of the
/// process.
pub fn olddefconfig_status(exit_code: Option<i32>) -> (r: Result<(), String>)
    ensures
        r.is_ok() == (exit_code == Some(0i32)),
        r matches Err(message) ==> message@
            == "error running make old defconfig, exit code: "@ + exit_code_text(exit_code),
{
    if let Some(code) = exit_code {
        if code == 0 {
            return Ok(());
        }
    }
    Err(
        prefixed(
            "error running make old defconfig, exit code: ",
            format_exit_code(exit_code).as_str(),
        ),
    )
}

} // verus!
