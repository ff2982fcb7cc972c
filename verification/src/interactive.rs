//! The interactive format menu: what it shows and how an answer is read.

use vstd::prelude::*;
use crate::detect::MediaType;
use crate::error::NrError;
use crate::registry::{
    lemma_lookup, lemma_lookup_listed, lookup, spec_targets, targets_view, FormatTarget, TargetSpec,
};
use crate::text::{
    ascii_lowercase, decimal, is_ascii, lemma_decimal_reads_back, lemma_digits_are_lowercase, lowercase, pad_right, parse_usize, push_padded, spec_parse_usize, str_eq,
    string_views, to_decimal, to_lowercase, trim, trimmed,
};

verus! {

// ---------------------------------------------------------------------------
// The screen
// ---------------------------------------------------------------------------

/// The line of the menu for the target at position `i` (numbered from 1).
pub open spec fn menu_entry(i: int, t: TargetSpec) -> Seq<char> {
    "  "@ + pad_right(decimal((i + 1) as nat), 2) + ") ."@ + pad_right(t.ext, 4) + "  "@ + t.label
}

/// The numbered lines of the menu.
pub open spec fn menu_entries(ts: Seq<TargetSpec>) -> Seq<Seq<char>> {
    Seq::new(ts.len(), |i: int| menu_entry(i, ts[i]))
}

/// The lines above the list of formats.
pub open spec fn menu_header(file_name: Seq<char>, file_size: Seq<char>, media_type: MediaType) -> Seq<Seq<char>> {
    seq![
        "\u{2500}\u{2500} nr \u{2500}\u{2500} Universal Converter \u{2500}\u{2500}\u{2500}\u{2500}\u{2500}\u{2500}\u{2500}\u{2500}\u{2500}\u{2500}\u{2500}\u{2500}\u{2500}\u{2500}\u{2500}\u{2500}\u{2500}\u{2500}\u{2500}\u{2500}\u{2500}\u{2500}\u{2500}\u{2500}\u{2500}\u{2500}"@,
        "  "@ + file_name + "  ("@ + file_size + ")  \u{2014}  "@ + media_type.spec_label(),
        ""@,
    ]
}

/// What the menu screen shows, and the refusal that ends the menu when there is
/// nothing to offer.
#[derive(Debug)]
pub struct MenuScreen {
    pub lines: Vec<String>,
    pub refusal: Option<NrError>,
}

/// The lines of the menu screen for a file, and whether the menu must give up.
pub open spec fn spec_menu_lines(
    file_name: Seq<char>,
    file_size: Seq<char>,
    media_type: MediaType,
    ts: Seq<TargetSpec>,
) -> Seq<Seq<char>> {
    if ts.len() == 0 {
        menu_header(file_name, file_size, media_type) + seq![
            "  No conversion targets available for this file type."@,
        ]
    } else {
        menu_header(file_name, file_size, media_type) + seq!["  Available formats:"@]
            + menu_entries(ts) + seq![""@]
    }
}

fn push_line(lines: &mut Vec<String>, s: String)
    ensures
        string_views(final(lines)@) == string_views(old(lines)@).push(s@),
{
    let ghost prev = string_views(lines@);
    lines.push(s);
    assert(string_views(lines@) =~= prev.push(s@));
}

fn menu_entry_exec(i: usize, t: &FormatTarget) -> (r: String)
    requires
        i < usize::MAX,
    ensures
        r@ == menu_entry(i as int, t@),
{
    let mut s = String::from_str("  ");
    let num = to_decimal(i + 1);
    push_padded(&mut s, num.as_str(), 2);
    s.append(") .");
    push_padded(&mut s, t.ext, 4);
    s.append("  ");
    s.append(t.label);
    s
}

/// The menu screen for a file called `file_name` of size `file_size` (as
/// shown) and type `media_type`, offering `targets`.
pub fn menu_screen(
    file_name: &str,
    file_size: &str,
    media_type: &MediaType,
    targets: &[FormatTarget],
) -> (r: MenuScreen)
    ensures
        string_views(r.lines@) == spec_menu_lines(file_name@, file_size@, *media_type, targets_view(targets@)),
        targets@.len() == 0 ==> r.refusal == Some(NrError::UnsupportedFileType),
        targets@.len() > 0 ==> r.refusal is None,
{
    let ghost ts = targets_view(targets@);
    let mut lines: Vec<String> = Vec::new();
    let ghost start = string_views(lines@);
    push_line(&mut lines, String::from_str("\u{2500}\u{2500} nr \u{2500}\u{2500} Universal Converter \u{2500}\u{2500}\u{2500}\u{2500}\u{2500}\u{2500}\u{2500}\u{2500}\u{2500}\u{2500}\u{2500}\u{2500}\u{2500}\u{2500}\u{2500}\u{2500}\u{2500}\u{2500}\u{2500}\u{2500}\u{2500}\u{2500}\u{2500}\u{2500}\u{2500}\u{2500}"));
    let mut second = String::from_str("  ");
    second.append(file_name);
    second.append("  (");
    second.append(file_size);
    second.append(")  \u{2014}  ");
    second.append(media_type.label());
    push_line(&mut lines, second);
    push_line(&mut lines, String::from_str(""));
    let ghost header = string_views(lines@);
    assert(header =~= menu_header(file_name@, file_size@, *media_type));
    if targets.len() == 0 {
        push_line(&mut lines, String::from_str("  No conversion targets available for this file type."));
        assert(string_views(lines@) =~= spec_menu_lines(file_name@, file_size@, *media_type, ts));
        return MenuScreen { lines, refusal: Some(NrError::UnsupportedFileType) };
    }
    push_line(&mut lines, String::from_str("  Available formats:"));
    let n = targets.len();
    let mut i: usize = 0;
    while i < n
        invariant
            n == targets@.len(),
            ts == targets_view(targets@),
            i <= n,
            string_views(lines@) == header + seq!["  Available formats:"@] + menu_entries(ts).take(i as int),
        decreases n - i,
    {
        let ghost prev = string_views(lines@);
        let line = menu_entry_exec(i, &targets[i]);
        push_line(&mut lines, line);
        assert(menu_entries(ts).take(i + 1) =~= menu_entries(ts).take(i as int).push(menu_entry(i as int, ts[i as int])));
        i = i + 1;
    }
    assert(menu_entries(ts).take(n as int) =~= menu_entries(ts));
    push_line(&mut lines, String::from_str(""));
    assert(string_views(lines@) =~= spec_menu_lines(file_name@, file_size@, *media_type, ts));
    MenuScreen { lines, refusal: None }
}

// ---------------------------------------------------------------------------
// The answer
// ---------------------------------------------------------------------------

/// What an answer to the menu asks for.
#[derive(Debug)]
pub enum Choice {
    /// Leave the program.
    Quit,
    /// Convert to the format with this name.
    Pick(String),
    /// Not understood; ask again.
    Invalid,
}

/// Some target of `ts` is named `ext`.
pub open spec fn has_target(ts: Seq<TargetSpec>, ext: Seq<char>) -> bool {
    exists|i: int| 0 <= i < ts.len() && #[trigger] ts[i].ext == ext
}

/// How an answer is read: trimmed and lowercased, `q`, `quit` and `exit` quit;
/// a number from 1 to the number of targets picks that entry; the name of a
/// target picks it; anything else is invalid.
pub open spec fn spec_choice(input: Seq<char>, ts: Seq<TargetSpec>) -> Option<Option<Seq<char>>> {
    let s = lowercase(trimmed(input));
    if s == "q"@ || s == "quit"@ || s == "exit"@ {
        None
    } else if spec_parse_usize(s) is Some && 1 <= spec_parse_usize(s)->0 <= ts.len() {
        Some(Some(ts[spec_parse_usize(s)->0 - 1].ext))
    } else if has_target(ts, s) {
        Some(Some(s))
    } else {
        Some(None)
    }
}

/// Reads one answer to the menu offering `targets`.
pub fn interpret_choice(input: &str, targets: &[FormatTarget]) -> (r: Choice)
    ensures
        spec_choice(input@, targets_view(targets@)) is None ==> r is Quit,
        spec_choice(input@, targets_view(targets@)) matches Some(Some(ext)) ==> (r matches Choice::Pick(
            e,
        ) && e@ == ext),
        spec_choice(input@, targets_view(targets@)) == Some(None::<Seq<char>>) ==> r is Invalid,
        is_ascii(trimmed(input@)) ==> lowercase(trimmed(input@)) == ascii_lowercase(trimmed(input@)),
{
    let ghost ts = targets_view(targets@);
    let s = to_lowercase(trim(input));
    if str_eq(s.as_str(), "q") || str_eq(s.as_str(), "quit") || str_eq(s.as_str(), "exit") {
        return Choice::Quit;
    }
    if let Some(num) = parse_usize(s.as_str()) {
        if num >= 1 && num <= targets.len() {
            return Choice::Pick(String::from_str(targets[num - 1].ext));
        }
    }
    let n = targets.len();
    let mut i: usize = 0;
    while i < n
        invariant
            n == targets@.len(),
            ts == targets_view(targets@),
            i <= n,
            s@ == lowercase(trimmed(input@)),
            is_ascii(trimmed(input@)) ==> s@ == ascii_lowercase(trimmed(input@)),
            !(s@ == "q"@ || s@ == "quit"@ || s@ == "exit"@),
            !(spec_parse_usize(s@) is Some && 1 <= spec_parse_usize(s@)->0 <= ts.len()),
            forall|j: int| 0 <= j < i ==> ts[j].ext != s@,
        decreases n - i,
    {
        if str_eq(targets[i].ext, s.as_str()) {
            assert(ts[i as int].ext == s@);
            return Choice::Pick(s);
        }
        i = i + 1;
    }
    Choice::Invalid
}

/// An answer that picks a format picks one of the offered targets: looking the
/// picked name up among them always succeeds, and finds a target of that name.
pub proof fn lemma_choice_is_offered(input: Seq<char>, ts: Seq<TargetSpec>)
    ensures
        spec_choice(input, ts) matches Some(Some(e)) ==> (lookup(ts, e) matches Some(t) && t.ext == e),
{
    if let Some(Some(e)) = spec_choice(input, ts) {
        lemma_lookup(ts, e);
        let s = lowercase(trimmed(input));
        if spec_parse_usize(s) is Some && 1 <= spec_parse_usize(s)->0 <= ts.len() {
            let k = spec_parse_usize(s)->0 - 1;
            assert(ts[k].ext == e);
        }
    }
}

/// Typing the number that the menu shows beside an entry picks that entry,
/// given that the number is lowercased as ASCII (which `interpret_choice`'s
/// contract shows of every ASCII answer).
pub proof fn lemma_menu_number_picks_entry(ts: Seq<TargetSpec>, i: int)
    requires
        0 <= i < ts.len(),
        ts.len() <= usize::MAX,
        lowercase(decimal((i + 1) as nat)) == ascii_lowercase(decimal((i + 1) as nat)),
    ensures
        spec_choice(decimal((i + 1) as nat), ts) == Some(Some(ts[i].ext)),
{
    let d = decimal((i + 1) as nat);
    lemma_decimal_reads_back((i + 1) as nat);
    lemma_digits_are_lowercase(d);
    reveal_strlit("q");
    reveal_strlit("quit");
    reveal_strlit("exit");
    assert(d != "q"@ && d != "quit"@ && d != "exit"@) by {
        assert('0' <= d[0] && d[0] <= '9');
        assert("q"@[0] == 'q');
        assert("quit"@[0] == 'q');
        assert("exit"@[0] == 'e');
    }
}

/// In the menu of a file's same-kind targets, typing the number shown beside an
/// entry converts to exactly that entry: the name it picks is looked up to
/// that same target (given, as above, that the number is lowercased as ASCII).
pub proof fn lemma_menu_number_converts_entry(media_type: MediaType, i: int)
    requires
        0 <= i < spec_targets(media_type).len(),
        lowercase(decimal((i + 1) as nat)) == ascii_lowercase(decimal((i + 1) as nat)),
    ensures
        spec_choice(decimal((i + 1) as nat), spec_targets(media_type)) matches Some(Some(e))
            && lookup(spec_targets(media_type), e) == Some(spec_targets(media_type)[i]),
{
    crate::registry::lemma_target_count();
    lemma_menu_number_picks_entry(spec_targets(media_type), i);
    lemma_lookup_listed(media_type, i);
}

/// Each menu entry shows the name that picks it. In the line of the entry at
/// position `i`, after the entry's number (in a column of at least two
/// characters) and `) .`, stands the target's own name `ts[i].ext` followed by
/// a space, and the line ends with the target's label. Among a file's
/// same-kind targets that name is looked up to that very target.
pub proof fn lemma_menu_shows_names(
    file_name: Seq<char>,
    file_size: Seq<char>,
    media_type: MediaType,
    ts: Seq<TargetSpec>,
    i: int,
)
    requires
        0 <= i < ts.len(),
    ensures
        spec_menu_lines(file_name, file_size, media_type, ts).len() == 5 + ts.len(),
        ({
            let line = spec_menu_lines(file_name, file_size, media_type, ts)[4 + i];
            let d = decimal((i + 1) as nat);
            let p = 5 + (if d.len() < 2 { 2 } else { d.len() as int });
            &&& p + ts[i].ext.len() < line.len()
            &&& line.subrange(0, 2) == "  "@
            &&& line.subrange(2, 2 + d.len() as int) == d
            &&& line.subrange(p - 3, p) == ") ."@
            &&& line.subrange(p, p + ts[i].ext.len()) == ts[i].ext
            &&& line[p + ts[i].ext.len()] == ' '
            &&& line.subrange(line.len() - ts[i].label.len(), line.len() as int) == ts[i].label
        }),
        ts == spec_targets(media_type) ==> lookup(ts, ts[i].ext) == Some(ts[i]),
{
    reveal_strlit("  ");
    reveal_strlit(") .");
    let d = decimal((i + 1) as nat);
    lemma_decimal_reads_back((i + 1) as nat);
    let t = ts[i];
    let lines = spec_menu_lines(file_name, file_size, media_type, ts);
    assert(lines[4 + i] == menu_entry(i, t));
    let a = "  "@;
    let b = pad_right(d, 2);
    let c = ") ."@;
    let e = pad_right(t.ext, 4);
    let f = "  "@;
    let line = a + b + c + e + f + t.label;
    assert(menu_entry(i, t) == line);
    let p = 5 + (if d.len() < 2 { 2 } else { d.len() as int });
    assert(b.len() == (if d.len() < 2 { 2 } else { d.len() as int }));
    assert(line.subrange(0, 2) =~= a);
    assert(line.subrange(2, 2 + d.len() as int) =~= d);
    assert(line.subrange(p - 3, p) =~= c);
    assert(line.subrange(p, p + t.ext.len()) =~= t.ext);
    assert(line[p + t.ext.len()] == ' ');
    assert(line.subrange(line.len() - t.label.len(), line.len() as int) =~= t.label);
    if ts == spec_targets(media_type) {
        lemma_lookup_listed(media_type, i);
    }
}

} // verus!
