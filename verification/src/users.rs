//! The list of administrators, a text file with one administrator on each
//! line that begins with a quote, optionally preceded by a line that names
//! them.

use std::path::PathBuf;
use vstd::prelude::*;
use vstd::string::*;
use crate::event::{EventView, WebhookEvent};
use crate::text::{
    chars_of, contains, contains_spec, ends_with, ends_with_spec, join, join_spec, lines,
    lines_spec, starts_with, starts_with_spec, text_of, trim_bounds, trim_char, trim_of,
    trim_spec, words_of, words_spec, CharClass,
};

verus! {

/// `std::path::PathBuf`, a path of the file system. The library carries it
/// and never looks inside.
#[verifier::external_type_specification]
#[verifier::external_body]
pub struct ExPathBuf(PathBuf);

/// Where the server is installed.
pub struct HldsPaths {
    pub hlds_path: PathBuf,
}

/// One administrator.
#[derive(Clone, Debug, PartialEq, Eq)]
pub struct AdminEntry {
    pub name: Option<String>,
    pub auth: String,
    pub password: String,
    pub access: String,
    pub flags: String,
}

/// An [`AdminEntry`] with each text taken by its characters.
pub struct AdminView {
    pub name: Option<Seq<char>>,
    pub auth: Seq<char>,
    pub password: Seq<char>,
    pub access: Seq<char>,
    pub flags: Seq<char>,
}

impl View for AdminEntry {
    type V = AdminView;

    open spec fn view(&self) -> AdminView {
        AdminView {
            name: self.name.deep_view(),
            auth: self.auth@,
            password: self.password@,
            access: self.access@,
            flags: self.flags@,
        }
    }
}

impl DeepView for AdminEntry {
    type V = AdminView;

    open spec fn deep_view(&self) -> AdminView {
        self@
    }
}

/// The text with which a line that names an administrator begins.
pub open spec fn name_marker() -> Seq<char> {
    "#[NOME:"@
}

/// Whether `line` names the administrator of the line that follows.
pub open spec fn is_name_line(line: Seq<char>) -> bool {
    starts_with_spec(trim_spec(line), name_marker())
}

/// Whether `line` holds an administrator.
pub open spec fn is_entry_line(line: Seq<char>) -> bool {
    starts_with_spec(trim_spec(line), seq!['"'])
}

/// The name that a trimmed name line gives: what stands between the
/// marker and a closing bracket at the end, trimmed. A line that does not
/// end with the bracket gives none.
pub open spec fn name_in(trimmed: Seq<char>) -> Option<Seq<char>> {
    let rest = trimmed.skip(name_marker().len() as int);
    if starts_with_spec(trimmed, name_marker()) && ends_with_spec(rest, seq![']']) {
        Some(trim_spec(rest.drop_last()))
    } else {
        None
    }
}

/// `word` without the quotes around it.
pub open spec fn unquoted(word: Seq<char>) -> Seq<char> {
    trim_of(word, CharClass::Exactly('"'))
}

/// What has been read of a list: the name that waits for its
/// administrator, and the administrators so far.
pub struct ListState {
    pub pending: Option<Seq<char>>,
    pub entries: Seq<AdminView>,
}

/// Reads one more line of a list. A name line sets the waiting name. A
/// line that begins with a quote and has four words or more is an
/// administrator, who takes the waiting name. Any other line is passed
/// over.
pub open spec fn list_step(state: ListState, line: Seq<char>) -> ListState {
    let trimmed = trim_spec(line);
    if starts_with_spec(trimmed, name_marker()) {
        match name_in(trimmed) {
            Some(name) => ListState { pending: Some(name), entries: state.entries },
            None => state,
        }
    } else if starts_with_spec(trimmed, seq!['"']) {
        let words = words_spec(trimmed);
        if words.len() >= 4 {
            ListState {
                pending: None,
                entries: state.entries.push(
                    AdminView {
                        name: state.pending,
                        auth: unquoted(words[0]),
                        password: unquoted(words[1]),
                        access: unquoted(words[2]),
                        flags: unquoted(words[3]),
                    },
                ),
            }
        } else {
            state
        }
    } else {
        state
    }
}

/// The administrators that the lines of a list hold, in order.
pub open spec fn admins_in(lines: Seq<Seq<char>>) -> Seq<AdminView> {
    lines.fold_left(
        ListState { pending: None, entries: Seq::empty() },
        |state: ListState, line: Seq<char>| list_step(state, line),
    ).entries
}

/// Reads the list of administrators from the lines of its file.
pub fn list_admins(lines: &Vec<String>) -> (entries: Vec<AdminEntry>)
    ensures
        entries.deep_view() == admins_in(lines.deep_view()),
{
    let ghost all = lines.deep_view();
    let ghost step = |state: ListState, line: Seq<char>| list_step(state, line);
    let ghost start = ListState { pending: None, entries: Seq::empty() };
    let marker = chars_of("#[NOME:");
    let closing = chars_of("]");
    let quote = chars_of("\"");
    proof {
        reveal_strlit("#[NOME:");
        reveal_strlit("]");
        reveal_strlit("\"");
    }
    let mut entries: Vec<AdminEntry> = Vec::new();
    let mut pending: Option<String> = None;
    let mut i: usize = 0;
    assert(entries.deep_view() =~= Seq::<AdminView>::empty());
    while i < lines.len()
        invariant
            i <= lines.len(),
            all == lines.deep_view(),
            step == |state: ListState, line: Seq<char>| list_step(state, line),
            start == (ListState { pending: None, entries: Seq::empty() }),
            marker@ == name_marker(),
            marker@.len() == 7,
            closing@ == seq![']'],
            quote@ == seq!['"'],
            all.take(i as int).fold_left(start, step) == (ListState {
                pending: pending.deep_view(),
                entries: entries.deep_view(),
            }),
        decreases lines.len() - i,
    {
        proof {
            assert(all.take(i + 1).drop_last() =~= all.take(i as int));
        }
        let raw = chars_of(lines[i].as_str());
        let (lo, hi) = trim_bounds(&raw, 0, raw.len());
        assert(raw@.subrange(0, raw.len() as int) =~= raw@);
        let trimmed = chars_of(text_of(&raw, lo, hi).as_str());
        if starts_with(&trimmed, &marker) {
            let rest = chars_of(text_of(&trimmed, marker.len(), trimmed.len()).as_str());
            if ends_with(&rest, &closing) {
                let (a, b) = trim_bounds(&rest, 0, rest.len() - 1);
                pending = Some(text_of(&rest, a, b));
            }
        } else if starts_with(&trimmed, &quote) {
            let words = words_of(&trimmed, 0, trimmed.len());
            assert(trimmed@.subrange(0, trimmed.len() as int) =~= trimmed@);
            if words.len() >= 4 {
                let entry = AdminEntry {
                    name: pending,
                    auth: trim_char(words[0].as_str(), '"'),
                    password: trim_char(words[1].as_str(), '"'),
                    access: trim_char(words[2].as_str(), '"'),
                    flags: trim_char(words[3].as_str(), '"'),
                };
                let ghost so_far = entries.deep_view();
                entries.push(entry);
                assert(entries.deep_view() =~= so_far.push(entry@));
                pending = None;
            }
        }
        i += 1;
    }
    entries
}

/// Whether `line` holds an administrator and speaks of `auth`.
pub open spec fn is_entry_of(line: Seq<char>, auth: Seq<char>) -> bool {
    is_entry_line(line) && contains_spec(line, auth)
}

/// `kept` without its last line, if that line names an administrator.
pub open spec fn without_name_line(kept: Seq<Seq<char>>) -> Seq<Seq<char>> {
    if kept.len() > 0 && is_name_line(kept.last()) {
        kept.drop_last()
    } else {
        kept
    }
}

/// The line that names an administrator.
pub open spec fn name_line(name: Seq<char>) -> Seq<char> {
    "#[NOME: "@ + name + "]"@
}

/// The line that holds an administrator: the four values, each in quotes,
/// with a space between each two.
pub open spec fn entry_line(entry: AdminView) -> Seq<char> {
    "\""@ + entry.auth + "\" \""@ + entry.password + "\" \""@ + entry.access + "\" \""@
        + entry.flags + "\""@
}

/// The lines that stand for an administrator in the file: the name line,
/// if they have a name, and the line that holds them.
pub open spec fn admin_lines(entry: AdminView) -> Seq<Seq<char>> {
    match entry.name {
        Some(name) => seq![name_line(name), entry_line(entry)],
        None => seq![entry_line(entry)],
    }
}

/// The text of a file with the given lines: each is followed by a line
/// feed, and a file without lines is a single line feed.
pub open spec fn file_text(lines: Seq<Seq<char>>) -> Seq<char> {
    join_spec(lines, seq!['\n']).push('\n')
}

/// Passes one more line of the file when `auth` is removed. A line that
/// holds an administrator and speaks of `auth` is left out, together with
/// a name line just before it. Any other line is kept.
pub open spec fn remove_step(kept: Seq<Seq<char>>, line: Seq<char>, auth: Seq<char>) -> Seq<
    Seq<char>,
> {
    if is_entry_of(line, auth) {
        without_name_line(kept)
    } else {
        kept.push(line)
    }
}

/// The lines of the file once `auth` is removed.
pub open spec fn lines_without(lines: Seq<Seq<char>>, auth: Seq<char>) -> Seq<Seq<char>> {
    lines.fold_left(
        Seq::<Seq<char>>::empty(),
        |kept: Seq<Seq<char>>, line: Seq<char>| remove_step(kept, line, auth),
    )
}

/// What has been written of a file that is being updated, and whether the
/// next line is to be left out.
pub struct RewriteState {
    pub kept: Seq<Seq<char>>,
    pub skip: bool,
}

/// Passes one more line of the file when `updated` replaces the
/// administrator of the same `auth`. A line that holds an administrator
/// and speaks of that `auth` is replaced, together with a name line just
/// before it, by the lines of `updated`, and the line that follows it is
/// left out. Any other line is kept.
pub open spec fn update_step(state: RewriteState, line: Seq<char>, updated: AdminView)
    -> RewriteState {
    if state.skip {
        RewriteState { kept: state.kept, skip: false }
    } else if is_entry_of(line, updated.auth) {
        RewriteState { kept: without_name_line(state.kept) + admin_lines(updated), skip: true }
    } else {
        RewriteState { kept: state.kept.push(line), skip: false }
    }
}

/// The lines of the file once `updated` has replaced the administrator of
/// the same `auth`.
pub open spec fn lines_updated(lines: Seq<Seq<char>>, updated: AdminView) -> Seq<Seq<char>> {
    lines.fold_left(
        RewriteState { kept: Seq::empty(), skip: false },
        |state: RewriteState, line: Seq<char>| update_step(state, line, updated),
    ).kept
}

/// What a change to the list comes to: the text to write, and the event
/// that announces the change once the text is written.
#[derive(Clone, Debug, PartialEq, Eq)]
pub struct AdminChange {
    pub text: String,
    pub event: WebhookEvent,
}

/// Whether `line` names the administrator of the line that follows.
fn names_admin(line: &str) -> (b: bool)
    ensures
        b == is_name_line(line@),
{
    let raw = chars_of(line);
    let (lo, hi) = trim_bounds(&raw, 0, raw.len());
    assert(raw@.subrange(0, raw.len() as int) =~= raw@);
    let trimmed = chars_of(text_of(&raw, lo, hi).as_str());
    let marker = chars_of("#[NOME:");
    starts_with(&trimmed, &marker)
}

/// Whether `line` holds an administrator and speaks of `auth`.
fn holds_admin(line: &str, auth: &Vec<char>) -> (b: bool)
    ensures
        b == is_entry_of(line@, auth@),
{
    let raw = chars_of(line);
    let (lo, hi) = trim_bounds(&raw, 0, raw.len());
    assert(raw@.subrange(0, raw.len() as int) =~= raw@);
    let trimmed = chars_of(text_of(&raw, lo, hi).as_str());
    let quote = chars_of("\"");
    proof {
        reveal_strlit("\"");
        assert(quote@ =~= seq!['"']);
    }
    starts_with(&trimmed, &quote) && contains(&raw, auth)
}

/// Takes the last line off `kept` if it names an administrator.
fn drop_name_line(kept: &mut Vec<String>)
    ensures
        final(kept).deep_view() == without_name_line(old(kept).deep_view()),
{
    let n = kept.len();
    if n > 0 {
        if names_admin(kept[n - 1].as_str()) {
            kept.pop();
        }
    }
}

/// The text of a file with the given lines.
fn write_lines(kept: &Vec<String>) -> (r: String)
    ensures
        r@ == file_text(kept.deep_view()),
{
    let mut r = join(kept, "\n");
    r.append("\n");
    proof {
        reveal_strlit("\n");
        assert("\n"@ =~= seq!['\n']);
    }
    r
}

/// `before` followed by `inner` followed by `after`.
fn enclosed(before: &str, inner: &str, after: &str) -> (r: String)
    ensures
        r@ == before@ + inner@ + after@,
{
    let mut r = String::from_str(before);
    r.append(inner);
    r.append(after);
    r
}

/// The line that holds `entry`.
fn format_entry(entry: &AdminEntry) -> (r: String)
    ensures
        r@ == entry_line(entry@),
{
    let mut r = enclosed("\"", entry.auth.as_str(), "\" \"");
    r.append(entry.password.as_str());
    r.append("\" \"");
    r.append(entry.access.as_str());
    r.append("\" \"");
    r.append(entry.flags.as_str());
    r.append("\"");
    r
}

/// Appends the lines that stand for `entry` to `kept`.
fn push_admin(kept: &mut Vec<String>, entry: &AdminEntry)
    ensures
        final(kept).deep_view() == old(kept).deep_view() + admin_lines(entry@),
{
    match &entry.name {
        Some(name) => {
            let line = enclosed("#[NOME: ", name.as_str(), "]");
            kept.push(line);
        },
        None => {},
    }
    let line = format_entry(entry);
    kept.push(line);
}

/// Rewrites the file `content` without the administrators that `auth`
/// speaks of, and says how the removal is announced.
pub fn remove_admin(content: &str, auth: &str) -> (change: AdminChange)
    ensures
        change.text@ == file_text(lines_without(lines_spec(content@), auth@)),
        change.event@ == (EventView::Custom {
            title: "Administrador Removido"@,
            message: "ID `"@ + auth@ + "` foi removido da lista de admins"@,
        }),
{
    let rows = lines(content);
    let needle = chars_of(auth);
    let ghost all = rows.deep_view();
    let ghost step = |kept: Seq<Seq<char>>, line: Seq<char>| remove_step(kept, line, auth@);
    let mut kept: Vec<String> = Vec::new();
    let mut i: usize = 0;
    while i < rows.len()
        invariant
            i <= rows.len(),
            all == rows.deep_view(),
            needle@ == auth@,
            step == |kept: Seq<Seq<char>>, line: Seq<char>| remove_step(kept, line, auth@),
            kept.deep_view() == all.take(i as int).fold_left(Seq::<Seq<char>>::empty(), step),
        decreases rows.len() - i,
    {
        proof {
            assert(all.take(i + 1).drop_last() =~= all.take(i as int));
        }
        if holds_admin(rows[i].as_str(), &needle) {
            drop_name_line(&mut kept);
        } else {
            kept.push(rows[i].clone());
        }
        i += 1;
    }
    AdminChange {
        text: write_lines(&kept),
        event: WebhookEvent::Custom {
            title: String::from_str("Administrador Removido"),
            message: enclosed("ID `", auth, "` foi removido da lista de admins"),
        },
    }
}

/// Rewrites the file `content` with `updated` in place of the
/// administrators that its `auth` speaks of, and says how the update is
/// announced.
pub fn update_admin(content: &str, updated: &AdminEntry) -> (change: AdminChange)
    ensures
        change.text@ == file_text(lines_updated(lines_spec(content@), updated@)),
        change.event@ == (EventView::Custom {
            title: "Administrador Atualizado"@,
            message: "ID `"@ + updated.auth@ + "` teve seus dados atualizados"@,
        }),
{
    let rows = lines(content);
    let needle = chars_of(updated.auth.as_str());
    let ghost all = rows.deep_view();
    let ghost step = |state: RewriteState, line: Seq<char>| update_step(state, line, updated@);
    let ghost start = RewriteState { kept: Seq::empty(), skip: false };
    let mut kept: Vec<String> = Vec::new();
    let mut skip = false;
    let mut i: usize = 0;
    assert(kept.deep_view() =~= Seq::<Seq<char>>::empty());
    while i < rows.len()
        invariant
            i <= rows.len(),
            all == rows.deep_view(),
            needle@ == updated.auth@,
            step == |state: RewriteState, line: Seq<char>| update_step(state, line, updated@),
            start == (RewriteState { kept: Seq::empty(), skip: false }),
            all.take(i as int).fold_left(start, step) == (RewriteState {
                kept: kept.deep_view(),
                skip,
            }),
        decreases rows.len() - i,
    {
        proof {
            assert(all.take(i + 1).drop_last() =~= all.take(i as int));
        }
        if skip {
            skip = false;
        } else if holds_admin(rows[i].as_str(), &needle) {
            drop_name_line(&mut kept);
            push_admin(&mut kept, updated);
            skip = true;
        } else {
            let ghost before = kept.deep_view();
            kept.push(rows[i].clone());
            assert(kept.deep_view() =~= before.push(rows[i as int]@));
        }
        i += 1;
    }
    AdminChange {
        text: write_lines(&kept),
        event: WebhookEvent::Custom {
            title: String::from_str("Administrador Atualizado"),
            message: enclosed("ID `", updated.auth.as_str(), "` teve seus dados atualizados"),
        },
    }
}

/// The text to append to the file for a new administrator, each of their
/// lines followed by a line feed, and how the addition is announced.
pub fn add_admin(entry: &AdminEntry) -> (change: AdminChange)
    ensures
        change.text@ == file_text(admin_lines(entry@)),
        change.event@ == (EventView::Custom {
            title: "Novo Administrador Adicionado"@,
            message: "ID `"@ + entry.auth@ + "` foi adicionado como admin"@,
        }),
{
    let mut rows: Vec<String> = Vec::new();
    push_admin(&mut rows, entry);
    AdminChange {
        text: write_lines(&rows),
        event: WebhookEvent::Custom {
            title: String::from_str("Novo Administrador Adicionado"),
            message: enclosed("ID `", entry.auth.as_str(), "` foi adicionado como admin"),
        },
    }
}

} // verus!
