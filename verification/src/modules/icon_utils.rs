//! Freedesktop application-icon discovery: reading `.desktop` entries and
//! matching them against a window class. Walking the data directories and
//! decoding images is done by the application runtime.

use vstd::prelude::*;
use crate::find::{
    any_match, first_match, lemma_any_match_has_first, lemma_filter_take_step, lemma_first_match_is,
    lemma_first_match_none,
};
use crate::text::{
    ascii_lower, ascii_lower_seq, chars_of, ends_with, find_char, is_char, matches_literal,
    opt_text, split_all, split_at_first, split_first, split_pieces, str_ends_with, substring, trim,
    trim_bounds, trim_end, trim_start, words, words_of,
};

verus! {

/// What a `.desktop` file tells about an application and its icon.
#[derive(Debug)]
pub struct DesktopIcon {
    /// File stem of the desktop file, e.g. `org.example.Browser`.
    pub desktop_id: String,
    pub name: String,
    pub startup_wm_class: String,
    /// File name of the program the entry launches.
    pub executable: String,
    pub icon: String,
}

/// The fields collected while reading a desktop file line by line.
pub struct DesktopFields {
    /// Inside the `[Desktop Entry]` group.
    pub in_entry: bool,
    pub name: Seq<char>,
    pub wm_class: Seq<char>,
    pub executable: Seq<char>,
    pub icon: Seq<char>,
}

/// Nothing read yet.
pub open spec fn initial_fields() -> DesktopFields {
    DesktopFields {
        in_entry: false,
        name: Seq::empty(),
        wm_class: Seq::empty(),
        executable: Seq::empty(),
        icon: Seq::empty(),
    }
}

/// A word of an `Exec=` line that names the program: no `VAR=value`
/// assignment, no `%f`-style field code, not the `env` wrapper.
pub open spec fn exec_candidate() -> spec_fn(Seq<char>) -> bool {
    |w: Seq<char>| !w.contains('=') && !(w.len() > 0 && w[0] == '%') && w != "env"@
}

/// The components of a Unix path that can name a file: the pieces between
/// `/`s, without the empty ones (repeated, leading or trailing `/`) and
/// without `.`.
pub open spec fn path_components(path: Seq<char>) -> Seq<Seq<char>> {
    split_pieces(path, '/').filter(|p: Seq<char>| p.len() > 0 && p != "."@)
}

/// The final component of a path, as `std::path::Path::file_name` gives it:
/// none for a path without components or one that ends in `..`.
pub open spec fn path_file_name(path: Seq<char>) -> Option<Seq<char>> {
    let cs = path_components(path);
    if cs.len() == 0 || cs.last() == ".."@ {
        None
    } else {
        Some(cs.last())
    }
}

/// The program an `Exec=` value launches: the file name of its first
/// program word; empty when there is none.
pub open spec fn executable_spec(value: Seq<char>) -> Seq<char> {
    match first_match(words(value), exec_candidate()) {
        Some(i) => match path_file_name(words(value)[i]) {
            Some(n) => n,
            None => Seq::empty(),
        },
        None => Seq::empty(),
    }
}

/// Effect of one trimmed line: a `[group]` header enters or leaves the
/// `[Desktop Entry]` group; inside it, comments and lines without `=` are
/// skipped and `Name`, `StartupWMClass`, `Icon` and `Exec` keys are taken.
pub open spec fn desktop_step(f: DesktopFields, line: Seq<char>) -> DesktopFields {
    if line.len() > 0 && line[0] == '[' {
        DesktopFields { in_entry: line == "[Desktop Entry]"@, ..f }
    } else if !f.in_entry || (line.len() > 0 && line[0] == '#') {
        f
    } else {
        match split_first(line, '=').1 {
            Some(value) => {
                let key = trim(split_first(line, '=').0);
                if key == "Name"@ {
                    DesktopFields { name: trim(value), ..f }
                } else if key == "StartupWMClass"@ {
                    DesktopFields { wm_class: trim(value), ..f }
                } else if key == "Icon"@ {
                    DesktopFields { icon: trim(value), ..f }
                } else if key == "Exec"@ {
                    DesktopFields { executable: executable_spec(value), ..f }
                } else {
                    f
                }
            },
            None => f,
        }
    }
}

/// Fields after every complete line of `s`, and the line being read.
pub open spec fn desktop_scan(s: Seq<char>) -> (DesktopFields, Seq<char>)
    decreases s.len(),
{
    if s.len() == 0 {
        (initial_fields(), Seq::empty())
    } else {
        let (f, line) = desktop_scan(s.drop_last());
        if s.last() == '\n' {
            (desktop_step(f, trim(line)), Seq::empty())
        } else {
            (f, line.push(s.last()))
        }
    }
}

/// Fields of a whole desktop file: each line is trimmed (which also drops a
/// `\r` before the `\n`), the last line needs no line ending.
pub open spec fn desktop_fields(s: Seq<char>) -> DesktopFields {
    let (f, line) = desktop_scan(s);
    desktop_step(f, trim(line))
}

/// Exec-side collection of [`DesktopFields`].
struct FieldsBuf {
    in_entry: bool,
    name: String,
    wm_class: String,
    executable: String,
    icon: String,
}

impl FieldsBuf {
    spec fn model(&self) -> DesktopFields {
        DesktopFields {
            in_entry: self.in_entry,
            name: self.name@,
            wm_class: self.wm_class@,
            executable: self.executable@,
            icon: self.icon@,
        }
    }
}

/// `std::path::Path::file_name` of a word, as text (`OsStr::to_str` always
/// succeeds on a name taken from a `&str`). Its documentation gives the rule
/// stated in [`path_file_name`]: the last component after `/`s and `.`s are
/// normalised away, none when the path ends in `..` or has no component.
#[verifier::external_body]
fn file_name_of(path: &str) -> (r: Option<String>)
    ensures
        opt_text(r) == path_file_name(path@),
{
    match std::path::Path::new(path).file_name() {
        Some(name) => match name.to_str() {
            Some(text) => Some(text.to_owned()),
            None => None,
        },
        None => None,
    }
}

/// Does `w` name the program of an `Exec=` line (see [`exec_candidate`])?
fn is_exec_candidate(w: &String) -> (r: bool)
    ensures
        r == exec_candidate()(w@),
{
    let v = chars_of(w.as_str());
    let n = v.len();
    match find_char(&v, 0, n, '=') {
        Some(i) => {
            assert(v@.subrange(0, n as int)[i as int] == '=');
            assert(w@[i as int] == '=');
            return false;
        },
        None => {
            proof {
                assert(v@.subrange(0, n as int) =~= w@);
                if w@.contains('=') {
                    let k = choose|k: int| 0 <= k < w@.len() && w@[k] == '=';
                    assert(is_char('=')(w@[k]));
                    assert(any_match(w@, is_char('=')));
                    lemma_any_match_has_first(w@, is_char('='));
                }
            }
        },
    }
    if n > 0 && v[0] == '%' {
        return false;
    }
    !matches_literal(&v, 0, n, "env")
}

/// The program an `Exec=` value launches (see [`executable_spec`]).
pub fn executable_from_exec(value: &str) -> (r: String)
    ensures
        r@ == executable_spec(value@),
{
    let ws = words_of(value);
    let ghost ww = ws@.map_values(|w: String| w@);
    let mut i: usize = 0;
    while i < ws.len()
        invariant
            i <= ws@.len(),
            ww == ws@.map_values(|w: String| w@),
            ww == words(value@),
            forall|j: int| 0 <= j < i ==> !exec_candidate()(#[trigger] ww[j]),
        decreases ws@.len() - i,
    {
        if is_exec_candidate(&ws[i]) {
            proof {
                lemma_first_match_is(ww, exec_candidate(), i as int);
            }
            return match file_name_of(ws[i].as_str()) {
                Some(n) => n,
                None => String::new(),
            };
        }
        i += 1;
    }
    proof {
        lemma_first_match_none(ww, exec_candidate());
    }
    String::new()
}

/// Apply one line `v[lo..hi]` of `source` to the collected fields.
fn read_line(f: &mut FieldsBuf, source: &str, v: &Vec<char>, lo: usize, hi: usize)
    requires
        v@ == source@,
        lo <= hi <= v@.len(),
    ensures
        final(f).model() == desktop_step(old(f).model(), trim(v@.subrange(lo as int, hi as int))),
{
    let (a, b) = trim_bounds(v, lo, hi);
    let ghost line = v@.subrange(a as int, b as int);
    if a < b && v[a] == '[' {
        f.in_entry = matches_literal(v, a, b, "[Desktop Entry]");
        return;
    }
    if !f.in_entry || (a < b && v[a] == '#') {
        return;
    }
    let (key_end, rest) = split_at_first(v, a, b, '=');
    match rest {
        Some(vs) => {
            let (ka, kb) = trim_bounds(v, a, key_end);
            let (va, vb) = trim_bounds(v, vs, b);
            if matches_literal(v, ka, kb, "Name") {
                f.name = substring(source, va, vb);
            } else if matches_literal(v, ka, kb, "StartupWMClass") {
                f.wm_class = substring(source, va, vb);
            } else if matches_literal(v, ka, kb, "Icon") {
                f.icon = substring(source, va, vb);
            } else if matches_literal(v, ka, kb, "Exec") {
                let value = substring(source, vs, b);
                f.executable = executable_from_exec(value.as_str());
            }
        },
        None => {},
    }
}

/// Reading on from state `st` over the text `y`, line by line as
/// [`desktop_scan`] reads.
pub open spec fn scan_on(st: (DesktopFields, Seq<char>), y: Seq<char>) -> (DesktopFields, Seq<char>)
    decreases y.len(),
{
    if y.len() == 0 {
        st
    } else {
        let (f, line) = scan_on(st, y.drop_last());
        if y.last() == '\n' {
            (desktop_step(f, trim(line)), Seq::empty())
        } else {
            (f, line.push(y.last()))
        }
    }
}

/// The four fields a desktop file is read for.
pub open spec fn same_entry_fields(a: DesktopFields, b: DesktopFields) -> bool {
    a.name == b.name && a.wm_class == b.wm_class && a.executable == b.executable && a.icon == b.icon
}

proof fn lemma_scan_append(x: Seq<char>, y: Seq<char>)
    ensures
        desktop_scan(x + y) == scan_on(desktop_scan(x), y),
    decreases y.len(),
{
    if y.len() == 0 {
        assert(x + y =~= x);
    } else {
        assert((x + y).drop_last() =~= x + y.drop_last());
        assert((x + y).last() == y.last());
        lemma_scan_append(x, y.drop_last());
    }
}

proof fn lemma_scan_on_append(st: (DesktopFields, Seq<char>), y: Seq<char>, z: Seq<char>)
    ensures
        scan_on(st, y + z) == scan_on(scan_on(st, y), z),
    decreases z.len(),
{
    if z.len() == 0 {
        assert(y + z =~= y);
    } else {
        assert((y + z).drop_last() =~= y + z.drop_last());
        assert((y + z).last() == z.last());
        lemma_scan_on_append(st, y, z.drop_last());
    }
}

/// Text without a line break only extends the line being read.
proof fn lemma_scan_on_no_newline(st: (DesktopFields, Seq<char>), y: Seq<char>)
    requires
        forall|j: int| 0 <= j < y.len() ==> y[j] != '\n',
    ensures
        scan_on(st, y) == (st.0, st.1 + y),
    decreases y.len(),
{
    if y.len() == 0 {
        assert(st.1 + y =~= st.1);
    } else {
        lemma_scan_on_no_newline(st, y.drop_last());
        assert((st.1 + y.drop_last()).push(y.last()) =~= st.1 + y);
    }
}

proof fn lemma_trim_keeps_absent(s: Seq<char>, c: char)
    requires
        forall|j: int| 0 <= j < s.len() ==> s[j] != c,
    ensures
        forall|j: int| 0 <= j < trim(s).len() ==> trim(s)[j] != c,
{
    lemma_trim_start_keeps_absent(s, c);
    lemma_trim_end_keeps_absent(trim_start(s), c);
}

proof fn lemma_trim_start_keeps_absent(s: Seq<char>, c: char)
    requires
        forall|j: int| 0 <= j < s.len() ==> s[j] != c,
    ensures
        forall|j: int| 0 <= j < trim_start(s).len() ==> trim_start(s)[j] != c,
    decreases s.len(),
{
    if s.len() > 0 && crate::text::is_unicode_ws(s[0]) {
        assert forall|j: int| 0 <= j < s.drop_first().len() implies s.drop_first()[j] != c by {
            assert(s.drop_first()[j] == s[j + 1]);
        }
        lemma_trim_start_keeps_absent(s.drop_first(), c);
        assert(trim_start(s) == trim_start(s.drop_first()));
    } else {
        assert(trim_start(s) == s);
    }
}

proof fn lemma_trim_end_keeps_absent(s: Seq<char>, c: char)
    requires
        forall|j: int| 0 <= j < s.len() ==> s[j] != c,
    ensures
        forall|j: int| 0 <= j < trim_end(s).len() ==> trim_end(s)[j] != c,
    decreases s.len(),
{
    if s.len() > 0 && crate::text::is_unicode_ws(s.last()) {
        assert forall|j: int| 0 <= j < s.drop_last().len() implies s.drop_last()[j] != c by {
            assert(s.drop_last()[j] == s[j]);
        }
        lemma_trim_end_keeps_absent(s.drop_last(), c);
        assert(trim_end(s) == trim_end(s.drop_last()));
    } else {
        assert(trim_end(s) == s);
    }
}

/// Outside the entry group, lines without `[` change nothing.
proof fn lemma_scan_outside_entry(st: (DesktopFields, Seq<char>), y: Seq<char>)
    requires
        !st.0.in_entry,
        forall|j: int| 0 <= j < st.1.len() ==> st.1[j] != '[',
        forall|j: int| 0 <= j < y.len() ==> y[j] != '[',
    ensures
        !scan_on(st, y).0.in_entry,
        same_entry_fields(scan_on(st, y).0, st.0),
        forall|j: int| 0 <= j < scan_on(st, y).1.len() ==> scan_on(st, y).1[j] != '[',
    decreases y.len(),
{
    if y.len() > 0 {
        let yd = y.drop_last();
        assert forall|j: int| 0 <= j < yd.len() implies yd[j] != '[' by {
            assert(yd[j] == y[j]);
        }
        lemma_scan_outside_entry(st, yd);
        let (f, line) = scan_on(st, yd);
        if y.last() == '\n' {
            lemma_trim_keeps_absent(line, '[');
        } else {
            assert forall|j: int| 0 <= j < line.push(y.last()).len() implies line.push(y.last())[j]
                != '[' by {
                if j < line.len() {
                    assert(line.push(y.last())[j] == line[j]);
                }
            }
        }
    }
}

/// A group header other than `[Desktop Entry]` ends the entry group, and
/// outside that group no line changes what was read: a header leaves the
/// fields as they are, and so does any other line. `[Desktop Entry]` opens
/// the group; comments and lines without `=` never change anything.
pub proof fn law_desktop_group_headers(f: DesktopFields, line: Seq<char>)
    ensures
        line.len() > 0 && line[0] == '[' && line != "[Desktop Entry]"@ ==> !desktop_step(f, line).in_entry
            && same_entry_fields(desktop_step(f, line), f),
        !f.in_entry && line != "[Desktop Entry]"@ ==> !desktop_step(f, line).in_entry && same_entry_fields(
            desktop_step(f, line),
            f,
        ),
        line == "[Desktop Entry]"@ ==> desktop_step(f, line) == (DesktopFields { in_entry: true, ..f }),
        line.len() > 0 && line[0] == '#' ==> desktop_step(f, line) == f,
        (forall|j: int| 0 <= j < line.len() ==> line[j] != '=') && !(line.len() > 0 && line[0] == '[')
            ==> desktop_step(f, line) == f,
{
    reveal_strlit("[Desktop Entry]");
    if forall|j: int| 0 <= j < line.len() ==> line[j] != '=' {
        assert forall|j: int| 0 <= j < line.len() implies !is_char('=')(#[trigger] line[j]) by {}
        lemma_first_match_none(line, is_char('='));
    }
}

/// A word an `Exec=` line puts before its program: the `env` wrapper, a
/// `VAR=value` assignment, or a `%f`-style field code.
pub open spec fn skipped_exec_word(w: Seq<char>) -> bool {
    w == "env"@ || w.contains('=') || (w.len() > 0 && w[0] == '%')
}

/// The program of an `Exec=` value is the first word that is not `env`, an
/// assignment or a field code, taken by its file name (empty when that name
/// is none); with no such word there is no program.
pub proof fn law_exec_program(value: Seq<char>, k: int)
    ensures
        ({
            let ws = words(value);
            &&& 0 <= k < ws.len() && !skipped_exec_word(ws[k]) && (forall|j: int|
                0 <= j < k ==> skipped_exec_word(#[trigger] ws[j])) ==> executable_spec(value)
                == match path_file_name(ws[k]) {
                Some(n) => n,
                None => Seq::empty(),
            }
            &&& (forall|j: int| 0 <= j < ws.len() ==> skipped_exec_word(#[trigger] ws[j]))
                ==> executable_spec(value).len() == 0
        }),
{
    let ws = words(value);
    if 0 <= k < ws.len() && !skipped_exec_word(ws[k]) && (forall|j: int|
        0 <= j < k ==> skipped_exec_word(#[trigger] ws[j])) {
        assert forall|j: int| 0 <= j < k implies !exec_candidate()(#[trigger] ws[j]) by {
            assert(skipped_exec_word(ws[j]));
        }
        assert(exec_candidate()(ws[k]));
        assert(crate::find::is_first_match(ws, exec_candidate(), k));
        lemma_first_match_is(ws, exec_candidate(), k);
    }
    if forall|j: int| 0 <= j < ws.len() ==> skipped_exec_word(#[trigger] ws[j]) {
        assert forall|j: int| 0 <= j < ws.len() implies !exec_candidate()(#[trigger] ws[j]) by {
            assert(skipped_exec_word(ws[j]));
        }
        lemma_first_match_none(ws, exec_candidate());
    }
}

/// Inside the entry, a `key=value` line sets the field its key names to the
/// trimmed value (`Exec` sets the program it launches) and leaves the other
/// fields alone; any other key changes nothing.
pub proof fn law_entry_keys(f: DesktopFields, key: Seq<char>, value: Seq<char>)
    requires
        f.in_entry,
        forall|j: int| 0 <= j < key.len() ==> key[j] != '=',
        key.len() > 0 ==> key[0] != '[' && key[0] != '#',
    ensures
        ({
            let g = desktop_step(f, key + seq!['='] + value);
            &&& trim(key) == "Name"@ ==> g == DesktopFields { name: trim(value), ..f }
            &&& trim(key) == "StartupWMClass"@ ==> g == DesktopFields { wm_class: trim(value), ..f }
            &&& trim(key) == "Icon"@ ==> g == DesktopFields { icon: trim(value), ..f }
            &&& trim(key) == "Exec"@ ==> g == DesktopFields { executable: executable_spec(value), ..f }
            &&& trim(key) != "Name"@ && trim(key) != "StartupWMClass"@ && trim(key) != "Icon"@ && trim(
                key,
            ) != "Exec"@ ==> g == f
        }),
{
    let line = key + seq!['='] + value;
    let k = key.len() as int;
    assert(line[k] == '=');
    assert forall|j: int| 0 <= j < k implies !is_char('=')(#[trigger] line[j]) by {
        assert(line[j] == key[j]);
    }
    assert(crate::find::is_first_match(line, is_char('='), k));
    lemma_first_match_is(line, is_char('='), k);
    assert(line.subrange(0, k) =~= key);
    assert(line.subrange(k + 1, line.len() as int) =~= value);
    if key.len() > 0 {
        assert(line[0] == key[0]);
    } else {
        assert(line[0] == '=');
    }
    reveal_strlit("Name");
    reveal_strlit("StartupWMClass");
    reveal_strlit("Icon");
    reveal_strlit("Exec");
    assert("Name"@.len() == 4 && "Name"@[0] == 'N');
    assert("StartupWMClass"@.len() == 14);
    assert("Icon"@.len() == 4 && "Icon"@[0] == 'I');
    assert("Exec"@.len() == 4 && "Exec"@[0] == 'E');
    assert("StartupWMClass"@ != "Name"@);
    assert("Icon"@ != "Name"@ && "Icon"@ != "StartupWMClass"@);
    assert("Exec"@ != "Name"@ && "Exec"@ != "StartupWMClass"@ && "Exec"@ != "Icon"@);
}

/// Keys of another group never reach the entry: in a desktop file whose
/// complete lines `before` are followed by a group header other than
/// `[Desktop Entry]` and then by lines holding no further header (no `[`),
/// the name, window class, program and icon are those read from `before`
/// alone.
pub proof fn law_other_group_keys_ignored(before: Seq<char>, header: Seq<char>, after: Seq<char>)
    requires
        before.len() == 0 || before.last() == '\n',
        forall|j: int| 0 <= j < header.len() ==> header[j] != '\n',
        trim(header).len() > 0 && trim(header)[0] == '[',
        trim(header) != "[Desktop Entry]"@,
        forall|j: int| 0 <= j < after.len() ==> after[j] != '[',
    ensures
        same_entry_fields(
            desktop_fields(before + header + seq!['\n'] + after),
            desktop_fields(before),
        ),
        !desktop_fields(before + header + seq!['\n'] + after).in_entry,
{
    let sb = desktop_scan(before);
    assert(sb.1.len() == 0) by {
        if before.len() > 0 {
            assert(before.last() == '\n');
        }
    }
    // The file read up to the end of `before`.
    let e = Seq::<char>::empty();
    assert(trim(e) =~= e) by {
        assert(trim_start(e) == e);
        assert(trim_end(e) == e);
    }
    lemma_first_match_none(e, is_char('='));
    assert(sb.1 =~= e);
    assert(desktop_fields(before) == sb.0);
    // The header line.
    let hl = header + seq!['\n'];
    lemma_scan_append(before, hl + after);
    assert(before + header + seq!['\n'] + after =~= before + (hl + after));
    lemma_scan_on_append(sb, hl, after);
    lemma_scan_on_append(sb, header, seq!['\n']);
    lemma_scan_on_no_newline(sb, header);
    assert(sb.1 + header =~= header);
    let s1 = scan_on(sb, hl);
    assert(scan_on((sb.0, header), seq!['\n']) == (desktop_step(sb.0, trim(header)), e)) by {
        let nl = seq!['\n'];
        assert(nl.drop_last() =~= e);
        assert(nl.last() == '\n');
        assert(scan_on((sb.0, header), e) == (sb.0, header));
    }
    assert(!s1.0.in_entry && same_entry_fields(s1.0, sb.0));
    // The lines after it.
    lemma_scan_outside_entry(s1, after);
    let s2 = scan_on(s1, after);
    lemma_trim_keeps_absent(s2.1, '[');
    assert(desktop_scan(before + header + seq!['\n'] + after) == s2);
}

/// Read a desktop file: the entry's name, window class, program and icon.
/// Entries without an icon give nothing.
pub fn parse_desktop_icon(source: &str, desktop_id: &str) -> (r: Option<DesktopIcon>)
    ensures
        ({
            let f = desktop_fields(source@);
            &&& f.icon.len() == 0 ==> r is None
            &&& f.icon.len() > 0 ==> (r matches Some(d) && d.desktop_id@ == desktop_id@ && d.name@
                == f.name && d.startup_wm_class@ == f.wm_class && d.executable@ == f.executable
                && d.icon@ == f.icon)
        }),
{
    let v = chars_of(source);
    let mut f = FieldsBuf {
        in_entry: false,
        name: String::new(),
        wm_class: String::new(),
        executable: String::new(),
        icon: String::new(),
    };
    let mut start: usize = 0;
    let mut i: usize = 0;
    while i < v.len()
        invariant
            v@ == source@,
            start <= i <= v@.len(),
            f.model() == desktop_scan(v@.take(i as int)).0,
            desktop_scan(v@.take(i as int)).1 == v@.subrange(start as int, i as int),
        decreases v@.len() - i,
    {
        assert(v@.take(i as int + 1).drop_last() =~= v@.take(i as int));
        if v[i] == '\n' {
            read_line(&mut f, source, &v, start, i);
            start = i + 1;
            assert(v@.subrange(start as int, i as int + 1) =~= Seq::<char>::empty());
        } else {
            assert(v@.subrange(start as int, i as int + 1) =~= v@.subrange(start as int, i as int).push(
                v@[i as int],
            ));
        }
        i += 1;
    }
    assert(v@.take(v@.len() as int) =~= v@);
    read_line(&mut f, source, &v, start, v.len());
    if f.icon.as_str().is_empty() {
        return None;
    }
    Some(
        DesktopIcon {
            desktop_id: desktop_id.to_owned(),
            name: f.name,
            startup_wm_class: f.wm_class,
            executable: f.executable,
            icon: f.icon,
        },
    )
}

/// ASCII letter or digit.
pub open spec fn is_ascii_alnum(c: char) -> bool {
    ('a' <= c && c <= 'z') || ('A' <= c && c <= 'Z') || ('0' <= c && c <= '9')
}

/// Predicate form of [`is_ascii_alnum`].
pub open spec fn ascii_alnum() -> spec_fn(char) -> bool {
    |c: char| is_ascii_alnum(c)
}

/// Only the ASCII letters and digits of `s`, lower-cased: how desktop
/// entries and window classes are compared.
pub open spec fn normalize_spec(s: Seq<char>) -> Seq<char> {
    ascii_lower_seq(s.filter(ascii_alnum()))
}

/// The lower-case letters and digits, in the order `normalize` looks them up.
fn lower_alnum_str(c: char) -> (r: &'static str)
    requires
        is_ascii_alnum(c),
    ensures
        r@ == seq![ascii_lower(c)],
{
    let table = "abcdefghijklmnopqrstuvwxyz0123456789";
    proof {
        reveal_strlit("abcdefghijklmnopqrstuvwxyz0123456789");
    }
    let k: usize = if 'a' <= c && c <= 'z' {
        (c as u32 - 'a' as u32) as usize
    } else if 'A' <= c && c <= 'Z' {
        (c as u32 - 'A' as u32) as usize
    } else {
        (c as u32 - '0' as u32) as usize + 26
    };
    let piece = table.substring_char(k, k + 1);
    assert(piece@ =~= seq![ascii_lower(c)]) by {
        assert(piece@[0] == table@[k as int]);
    }
    piece
}

/// Keep the ASCII letters and digits of `value`, lower-cased.
pub fn normalize(value: &str) -> (r: String)
    ensures
        r@ == normalize_spec(value@),
{
    let v = chars_of(value);
    let mut out = String::new();
    let mut i: usize = 0;
    while i < v.len()
        invariant
            v@ == value@,
            i <= v@.len(),
            out@ == ascii_lower_seq(v@.take(i as int).filter(ascii_alnum())),
        decreases v@.len() - i,
    {
        proof {
            lemma_filter_take_step(v@, ascii_alnum(), i as int);
        }
        let c = v[i];
        if ('a' <= c && c <= 'z') || ('A' <= c && c <= 'Z') || ('0' <= c && c <= '9') {
            let ghost before = v@.take(i as int).filter(ascii_alnum());
            out.append(lower_alnum_str(c));
            assert(ascii_lower_seq(before.push(c)) =~= ascii_lower_seq(before).push(ascii_lower(c)));
        } else {
            assert(!ascii_alnum()(c));
        }
        i += 1;
    }
    assert(v@.take(v@.len() as int) =~= v@);
    out
}

/// A normalized candidate matches the wanted class when equal, or when it
/// is longer and ends with it (`orgexamplebrowser` ends with `browser`).
pub open spec fn candidate_matches(candidate: Seq<char>, wanted: Seq<char>) -> bool {
    candidate == wanted || (wanted.len() > 0 && candidate.len() > wanted.len() && ends_with(
        candidate,
        wanted,
    ))
}

/// The entry matches when its desktop id, name, window class, program or
/// icon, normalized, matches.
pub open spec fn entry_matches(d: DesktopIcon, wanted: Seq<char>) -> bool {
    ||| candidate_matches(normalize_spec(d.desktop_id@), wanted)
    ||| candidate_matches(normalize_spec(d.name@), wanted)
    ||| candidate_matches(normalize_spec(d.startup_wm_class@), wanted)
    ||| candidate_matches(normalize_spec(d.executable@), wanted)
    ||| candidate_matches(normalize_spec(d.icon@), wanted)
}

fn candidate_matches_exec(value: &String, wanted: &str) -> (r: bool)
    ensures
        r == candidate_matches(normalize_spec(value@), wanted@),
{
    let c = normalize(value.as_str());
    let w = wanted.to_owned();
    if c == w {
        return true;
    }
    let cl = c.as_str().unicode_len();
    let wl = wanted.unicode_len();
    wl > 0 && cl > wl && str_ends_with(c.as_str(), wanted)
}

impl DesktopIcon {
    /// Does this entry belong to the (normalized) window class `wanted`?
    pub fn matches(&self, wanted: &str) -> (r: bool)
        ensures
            r == entry_matches(*self, wanted@),
    {
        candidate_matches_exec(&self.desktop_id, wanted) || candidate_matches_exec(&self.name, wanted)
            || candidate_matches_exec(&self.startup_wm_class, wanted) || candidate_matches_exec(
            &self.executable,
            wanted,
        ) || candidate_matches_exec(&self.icon, wanted)
    }
}

} // verus!

verus! {

/// `str::to_lowercase`: Unicode lower-casing, independent of locale.
pub uninterp spec fn unicode_lowercase(s: Seq<char>) -> Seq<char>;

/// `str::to_lowercase`.
#[verifier::external_body]
fn to_lowercase_text(s: &str) -> (r: String)
    ensures
        r@ == unicode_lowercase(s@),
{
    s.to_lowercase()
}

/// `s` with every `from` replaced by `-`.
pub open spec fn dashed(s: Seq<char>, from: char) -> Seq<char> {
    s.map_values(|c: char| if c == from { '-' } else { c })
}

/// The candidates in order, skipping empty ones and repeats.
pub open spec fn distinct_nonempty(xs: Seq<Seq<char>>) -> Seq<Seq<char>>
    decreases xs.len(),
{
    if xs.len() == 0 {
        Seq::empty()
    } else {
        let kept = distinct_nonempty(xs.drop_last());
        let x = xs.last();
        if x.len() > 0 && !kept.contains(x) {
            kept.push(x)
        } else {
            kept
        }
    }
}

/// Icon names to try for a window class, in order: the class as given,
/// lower-cased, with dots or underscores turned into dashes, and the part
/// after the last dot (for reverse-DNS classes); empty and repeated names
/// are dropped.
pub open spec fn class_candidates_spec(class: Seq<char>) -> Seq<Seq<char>> {
    candidates_of(trim(class), unicode_lowercase(trim(class)))
}

/// The candidates for a trimmed class `t` whose lower-cased form is `lower`.
pub open spec fn candidates_of(t: Seq<char>, lower: Seq<char>) -> Seq<Seq<char>> {
    distinct_nonempty(
        seq![t, lower, dashed(lower, '.'), dashed(lower, '_'), split_pieces(lower, '.').last()],
    )
}

fn add_candidate(out: &mut Vec<String>, candidate: String)
    ensures
        final(out)@.map_values(|s: String| s@) == ({
            let kept = old(out)@.map_values(|s: String| s@);
            if candidate@.len() > 0 && !kept.contains(candidate@) {
                kept.push(candidate@)
            } else {
                kept
            }
        }),
{
    let ghost kept = out@.map_values(|s: String| s@);
    if candidate.as_str().is_empty() {
        return;
    }
    let mut i: usize = 0;
    while i < out.len()
        invariant
            i <= out@.len(),
            kept == out@.map_values(|s: String| s@),
            forall|j: int| 0 <= j < i ==> kept[j] != candidate@,
        decreases out@.len() - i,
    {
        if out[i] == candidate {
            assert(kept[i as int] == candidate@);
            return;
        }
        i += 1;
    }
    let ghost c = candidate@;
    out.push(candidate);
    assert(out@.map_values(|s: String| s@) =~= kept.push(c));
}

fn dash_text(s: &String, from: char) -> (r: String)
    ensures
        r@ == dashed(s@, from),
{
    let v = chars_of(s.as_str());
    let mut out = String::new();
    let mut i: usize = 0;
    while i < v.len()
        invariant
            v@ == s@,
            i <= v@.len(),
            out@ == dashed(v@.take(i as int), from),
        decreases v@.len() - i,
    {
        if v[i] == from {
            out.append("-");
            proof {
                reveal_strlit("-");
            }
        } else {
            out.append(s.as_str().substring_char(i, i + 1));
        }
        assert(out@ =~= dashed(v@.take(i as int + 1), from));
        i += 1;
    }
    assert(v@.take(v@.len() as int) =~= v@);
    out
}

/// Icon names to try for a window class (see [`class_candidates_spec`]).
pub fn class_icon_candidates(class: &str) -> (r: Vec<String>)
    ensures
        r@.map_values(|s: String| s@) == class_candidates_spec(class@),
{
    let v = chars_of(class);
    let (a, b) = trim_bounds(&v, 0, v.len());
    assert(v@.subrange(0, v@.len() as int) =~= class@);
    let trimmed = substring(class, a, b);
    let lower = to_lowercase_text(trimmed.as_str());
    candidates_from(&trimmed, &lower)
}

/// The icon names to try for the trimmed class `trimmed`, given its
/// lower-cased form `lower` (see [`candidates_of`]).
pub fn candidates_from(trimmed: &String, lower: &String) -> (r: Vec<String>)
    ensures
        r@.map_values(|s: String| s@) == candidates_of(trimmed@, lower@),
{
    let pieces = split_all(lower.as_str(), '.');
    let ghost xs = seq![
        trimmed@,
        lower@,
        dashed(lower@, '.'),
        dashed(lower@, '_'),
        split_pieces(lower@, '.').last(),
    ];
    let mut out: Vec<String> = Vec::new();
    assert(xs.take(0) =~= Seq::<Seq<char>>::empty());
    assert(out@.map_values(|s: String| s@) =~= distinct_nonempty(xs.take(0)));
    add_candidate(&mut out, trimmed.clone());
    assert(xs.take(1).drop_last() =~= xs.take(0));
    assert(out@.map_values(|s: String| s@) == distinct_nonempty(xs.take(1)));
    add_candidate(&mut out, lower.clone());
    assert(xs.take(2).drop_last() =~= xs.take(1));
    assert(out@.map_values(|s: String| s@) == distinct_nonempty(xs.take(2)));
    add_candidate(&mut out, dash_text(lower, '.'));
    assert(xs.take(3).drop_last() =~= xs.take(2));
    assert(out@.map_values(|s: String| s@) == distinct_nonempty(xs.take(3)));
    add_candidate(&mut out, dash_text(lower, '_'));
    assert(xs.take(4).drop_last() =~= xs.take(3));
    assert(out@.map_values(|s: String| s@) == distinct_nonempty(xs.take(4)));
    let ghost pv = pieces@.map_values(|p: String| p@);
    assert(pv.len() >= 1);
    let last = pieces[pieces.len() - 1].clone();
    assert(last@ == pv[pv.len() - 1]);
    add_candidate(&mut out, last);
    assert(xs.take(5).drop_last() =~= xs.take(4));
    assert(out@.map_values(|s: String| s@) == distinct_nonempty(xs.take(5)));
    assert(xs.take(5) =~= xs);
    out
}

} // verus!
