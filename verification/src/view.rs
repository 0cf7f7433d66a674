//! What the screen shows: titles, labels, cursors, lines and the placement
//! of dialogs, computed from the state for the drawing layer.

use vstd::prelude::*;
use crate::app::App;
use crate::model::{Collection, DeleteTarget, EditorTab, InputMode, KvField, Overlay, Panel};
use crate::state::AppView;
use crate::methods::{METHOD_COUNT, method_at, method_name};
use crate::text::{char_from, find_char, lemma_find_char_props, pop_char, push_char};

verus! {

/// A rectangle of terminal cells.
#[derive(Clone, Copy, PartialEq, Eq, Structural, Debug)]
pub struct Rect {
    pub x: u16,
    pub y: u16,
    pub width: u16,
    pub height: u16,
}

/// A dialog `percent_x` percent as wide as `area` and `height` rows high,
/// centred in `area` and clipped to it.
pub fn centered_rect(percent_x: u16, height: u16, area: Rect) -> (r: Rect)
    requires
        area.width * percent_x <= u16::MAX,
        area.x + area.width <= u16::MAX,
        area.y + area.height <= u16::MAX,
    ensures
        ({
            let w = area.width * percent_x / 100;
            let ws = if area.width >= w { area.width - w } else { 0 };
            let hs = if area.height >= height { area.height - height } else { 0 };
            &&& r.x == area.x + ws / 2
            &&& r.y == area.y + hs / 2
            &&& r.width == if w < area.width { w } else { area.width as int }
            &&& r.height == if height < area.height { height } else { area.height }
        }),
        area.x <= r.x,
        r.x + r.width <= area.x + area.width,
        area.y <= r.y,
        r.y + r.height <= area.y + area.height,
{
    let w = area.width * percent_x / 100;
    let x = area.x + (area.width.saturating_sub(w)) / 2;
    let y = area.y + (area.height.saturating_sub(height)) / 2;
    Rect {
        x,
        y,
        width: if w < area.width { w } else { area.width },
        height: if height < area.height { height } else { area.height },
    }
}

/// The one-row strip of `width` cells at the bottom right of `area`, where a
/// panel shows its key hints.
pub fn hint_area(area: Rect, width: u16) -> (r: Rect)
    requires
        area.x + area.width <= u16::MAX,
        area.y + area.height <= u16::MAX,
    ensures
        r.x == area.x + if area.width >= width { area.width - width } else { 0 },
        r.y == area.y + if area.height >= 1 { area.height - 1 } else { 0 },
        r.width == width,
        r.height == 1,
{
    Rect {
        x: area.x + area.width.saturating_sub(width),
        y: area.y + area.height.saturating_sub(1),
        width,
        height: 1,
    }
}

/// The decimal digit `d`.
pub open spec fn digit(d: nat) -> char {
    if d == 0 {
        '0'
    } else if d == 1 {
        '1'
    } else if d == 2 {
        '2'
    } else if d == 3 {
        '3'
    } else if d == 4 {
        '4'
    } else if d == 5 {
        '5'
    } else if d == 6 {
        '6'
    } else if d == 7 {
        '7'
    } else if d == 8 {
        '8'
    } else {
        '9'
    }
}

/// `n` written in decimal, without leading zeros.
pub open spec fn decimal(n: nat) -> Seq<char>
    decreases n,
{
    if n < 10 {
        seq![digit(n)]
    } else {
        decimal(n / 10).push(digit(n % 10))
    }
}

fn digit_char(d: usize) -> (c: char)
    requires
        d < 10,
    ensures
        c == digit(d as nat),
{
    if d == 0 {
        '0'
    } else if d == 1 {
        '1'
    } else if d == 2 {
        '2'
    } else if d == 3 {
        '3'
    } else if d == 4 {
        '4'
    } else if d == 5 {
        '5'
    } else if d == 6 {
        '6'
    } else if d == 7 {
        '7'
    } else if d == 8 {
        '8'
    } else {
        '9'
    }
}

/// `n` in decimal.
pub fn decimal_text(n: usize) -> (r: String)
    ensures
        r@ == decimal(n as nat),
    decreases n,
{
    if n < 10 {
        let mut s = String::new();
        push_char(&mut s, digit_char(n));
        s
    } else {
        let mut s = decimal_text(n / 10);
        push_char(&mut s, digit_char(n % 10));
        s
    }
}

/// `k` spaces.
pub open spec fn spaces(k: nat) -> Seq<char> {
    Seq::new(k, |i: int| ' ')
}

/// `s` followed by spaces up to `width` characters.
pub open spec fn pad_right(s: Seq<char>, width: nat) -> Seq<char> {
    if s.len() < width {
        s + spaces((width - s.len()) as nat)
    } else {
        s
    }
}

/// `s` preceded by spaces up to `width` characters.
pub open spec fn pad_left(s: Seq<char>, width: nat) -> Seq<char> {
    if s.len() < width {
        spaces((width - s.len()) as nat) + s
    } else {
        s
    }
}

fn push_spaces(s: &mut String, k: usize)
    ensures
        final(s)@ == old(s)@ + spaces(k as nat),
{
    let mut i: usize = 0;
    while i < k
        invariant
            i <= k,
            s@ == old(s)@ + spaces(i as nat),
        decreases k - i,
    {
        push_char(s, ' ');
        i = i + 1;
        assert(s@ =~= old(s)@ + spaces(i as nat));
    }
}

/// The key column of a help line: `key` padded to 24 characters.
pub fn kv_line(key: &str) -> (r: String)
    ensures
        r@ == pad_right(key@, 24),
{
    let n = key.unicode_len();
    let mut r = String::from_str(key);
    if n < 24 {
        push_spaces(&mut r, 24 - n);
    }
    r
}

/// The number label of the `i`-th row (counted from 0) of the query or
/// header table: two spaces, the row number right-aligned in two columns, `. `.
pub fn row_label(i: usize) -> (r: String)
    requires
        i < usize::MAX,
    ensures
        r@ == seq![' ', ' '] + pad_left(decimal((i + 1) as nat), 2) + seq!['.', ' '],
{
    let num = decimal_text(i + 1);
    let n = num.as_str().unicode_len();
    let mut r = String::new();
    push_char(&mut r, ' ');
    push_char(&mut r, ' ');
    if n < 2 {
        push_spaces(&mut r, 2 - n);
    }
    r.append(num.as_str());
    push_char(&mut r, '.');
    push_char(&mut r, ' ');
    proof {
        assert(seq![' ', ' '] + spaces(0) =~= seq![' ', ' ']);
    }
    assert(r@ =~= seq![' ', ' '] + pad_left(decimal((i + 1) as nat), 2) + seq!['.', ' ']);
    r
}

/// `text`, followed by the cursor `_` when the field is active.
pub open spec fn with_cursor(text: Seq<char>, active: bool) -> Seq<char> {
    if active {
        text.push('_')
    } else {
        text
    }
}

/// `text` with the cursor `_` appended when `active`.
pub fn cursor_text(text: &str, active: bool) -> (r: String)
    ensures
        r@ == with_cursor(text@, active),
{
    let mut r = String::from_str(text);
    if active {
        push_char(&mut r, '_');
    }
    r
}

/// How the response panel title is coloured.
#[derive(Clone, Copy, PartialEq, Eq, Structural, Debug)]
pub enum Tone {
    Error,
    Success,
    Plain,
}

/// `needle` occurs in `s` at position `i`.
pub open spec fn occurs_at(s: Seq<char>, needle: Seq<char>, i: int) -> bool {
    0 <= i && i + needle.len() <= s.len() && s.subrange(i, i + needle.len()) == needle
}

/// The tone of a status line: an error when it mentions `ERROR`, a success
/// when it starts with `Sent`, plain otherwise.
pub open spec fn status_tone_of(s: Seq<char>) -> Tone {
    if exists|i: int| occurs_at(s, "ERROR"@, i) {
        Tone::Error
    } else if occurs_at(s, "Sent"@, 0) {
        Tone::Success
    } else {
        Tone::Plain
    }
}

fn occurs_at_exec(s: &str, n: usize, needle: &str, m: usize, i: usize) -> (r: bool)
    requires
        n == s@.len(),
        m == needle@.len(),
    ensures
        r == occurs_at(s@, needle@, i as int),
{
    if i > n || m > n - i {
        return false;
    }
    let mut j: usize = 0;
    while j < m
        invariant
            n == s@.len(),
            m == needle@.len(),
            i + m <= n,
            j <= m,
            forall|t: int| 0 <= t < j ==> s@[i + t] == needle@[t],
        decreases m - j,
    {
        if s.get_char(i + j) != needle.get_char(j) {
            assert(s@.subrange(i as int, i + m)[j as int] != needle@[j as int]);
            return false;
        }
        j = j + 1;
    }
    assert(s@.subrange(i as int, i + m) =~= needle@);
    true
}

/// The tone in which the response panel title shows the status line.
pub fn status_tone(status: &str) -> (r: Tone)
    ensures
        r == status_tone_of(status@),
{
    let n = status.unicode_len();
    let needle = "ERROR";
    let m = needle.unicode_len();
    proof {
        reveal_strlit("ERROR");
    }
    let mut i: usize = 0;
    while i < n
        invariant
            n == status@.len(),
            m == needle@.len(),
            needle@ == "ERROR"@,
            m == 5,
            i <= n,
            forall|t: int| 0 <= t < i ==> !occurs_at(status@, "ERROR"@, t),
        decreases n - i,
    {
        if occurs_at_exec(status, n, needle, m, i) {
            return Tone::Error;
        }
        i = i + 1;
    }
    let sent = "Sent";
    if occurs_at_exec(status, n, sent, sent.unicode_len(), 0) {
        Tone::Success
    } else {
        Tone::Plain
    }
}

/// `s` without one trailing carriage return.
pub open spec fn strip_cr(s: Seq<char>) -> Seq<char> {
    if s.len() > 0 && s.last() == '\r' {
        s.drop_last()
    } else {
        s
    }
}

/// The lines of `s`: split at `\n`, each line without the `\r` of a `\r\n`
/// ending; a final line ending adds no empty line.
pub open spec fn lines_of(s: Seq<char>) -> Seq<Seq<char>>
    decreases s.len(),
{
    match find_char(s, '\n') {
        None => if s.len() == 0 {
            Seq::empty()
        } else {
            seq![s]
        },
        Some(i) => {
            proof {
                lemma_find_char_props(s, '\n');
            }
            seq![strip_cr(s.take(i as int))] + lines_of(s.skip(i as int + 1))
        },
    }
}

/// The views of a list of strings.
pub open spec fn texts_view(v: Seq<String>) -> Seq<Seq<char>> {
    v.map_values(|t: String| t@)
}

/// The lines of `s`, as `str::lines` splits them.
pub fn split_lines(s: &str) -> (r: Vec<String>)
    ensures
        texts_view(r@) == lines_of(s@),
{
    let n = s.unicode_len();
    let mut out: Vec<String> = Vec::new();
    let mut start: usize = 0;
    assert(s@.skip(0) =~= s@);
    while start < n
        invariant
            n == s@.len(),
            start <= n,
            texts_view(out@) + lines_of(s@.skip(start as int)) == lines_of(s@),
        decreases n - start,
    {
        let ghost rest = s@.skip(start as int);
        let ghost before = texts_view(out@);
        match char_from(s, '\n', start) {
            Some(k) => {
                let mut line = String::from_str(s.substring_char(start, k));
                let len = line.as_str().unicode_len();
                if len > 0 && line.as_str().get_char(len - 1) == '\r' {
                    pop_char(&mut line);
                }
                assert(s@.subrange(start as int, k as int) =~= rest.take(k - start));
                out.push(line);
                assert(texts_view(out@) =~= before.push(strip_cr(rest.take(k - start))));
                assert(rest.skip(k - start + 1) =~= s@.skip(k + 1));
                assert(lines_of(rest) == seq![strip_cr(rest.take(k - start))] + lines_of(
                    rest.skip(k - start + 1),
                ));
                assert(texts_view(out@) + lines_of(s@.skip(k + 1)) =~= before + lines_of(rest));
                start = k + 1;
            },
            None => {
                let line = String::from_str(s.substring_char(start, n));
                assert(s@.subrange(start as int, n as int) =~= rest);
                out.push(line);
                assert(texts_view(out@) =~= before.push(rest));
                assert(s@.skip(n as int) =~= Seq::<char>::empty());
                assert(find_char(Seq::<char>::empty(), '\n') is None);
                assert(texts_view(out@) + lines_of(s@.skip(n as int)) =~= before + lines_of(rest));
                start = n;
            },
        }
    }
    assert(s@.skip(n as int) =~= Seq::<char>::empty());
    assert(texts_view(out@) =~= texts_view(out@) + lines_of(s@.skip(n as int)));
    out
}

/// The mode, panel and key hints the footer shows.
pub open spec fn footer_spec(v: AppView) -> (Seq<char>, Seq<char>, Seq<char>) {
    (
        match v.input_mode {
            InputMode::Normal => " NORMAL "@,
            InputMode::Insert => " INSERT "@,
        },
        match v.active_panel {
            Panel::Collections => "COLLECTIONS"@,
            Panel::Requests => "REQUESTS"@,
            Panel::Response => "RESPONSE"@,
        },
        match v.overlay {
            crate::model::OverlayView::Closed => match v.active_panel {
                Panel::Collections => "Tab=next panel  n=new  d=delete  j/k=nav  ?=help  q=quit"@,
                Panel::Requests => "Tab=next panel  n=new  d=delete  e=edit  Enter=open editor  s=send  j/k=nav"@,
                Panel::Response => "Tab=next panel  j/k=scroll  q=quit"@,
            },
            _ => "Enter=confirm  Esc=cancel"@,
        },
    )
}

/// Position of an editor tab in the tab bar: URL, Query, Headers, Body.
pub open spec fn tab_position(t: EditorTab) -> usize {
    match t {
        EditorTab::Url => 0,
        EditorTab::Query => 1,
        EditorTab::Headers => 2,
        EditorTab::Body => 3,
    }
}

/// What the delete confirmation calls its target.
pub fn delete_label(target: DeleteTarget) -> (r: &'static str)
    ensures
        r@ == match target {
            DeleteTarget::Collection(_) => "collection (and all its requests)"@,
            DeleteTarget::Request(_) => "this request"@,
        },
{
    match target {
        DeleteTarget::Collection(_) => "collection (and all its requests)",
        DeleteTarget::Request(_) => "this request",
    }
}

/// The marker in front of a list entry.
pub fn list_icon(selected: bool) -> (r: &'static str)
    ensures
        r@ == if selected { "▶ "@ } else { "  "@ },
{
    if selected {
        "▶ "
    } else {
        "  "
    }
}

/// The description line of a collection, `—` when it has none.
pub fn description_text(c: &Collection) -> (r: &str)
    ensures
        r@ == match c@.description {
            Some(d) => d,
            None => "—"@,
        },
{
    match &c.description {
        Some(d) => d.as_str(),
        None => "—",
    }
}

/// The method as its badge shows it: ` GET `.
pub fn method_badge(idx: usize) -> (r: String)
    requires
        idx < METHOD_COUNT,
    ensures
        r@ == " "@ + method_at(idx as int) + " "@,
{
    let mut r = String::from_str(" ");
    r.append(method_name(idx));
    r.append(" ");
    r
}

/// The hint beside the method of the new-request dialog, shown while the
/// method field is active.
pub fn cycle_hint(field: u8) -> (r: &'static str)
    ensures
        r@ == if field == 1 { "  ←/→ to cycle"@ } else { ""@ },
{
    if field == 1 {
        "  ←/→ to cycle"
    } else {
        ""
    }
}

/// Rows given to the request editor while it is open.
pub const EDITOR_HEIGHT: u16 = 14;

impl App {
    /// Rows of the screen that the request editor takes: its full height
    /// while it is open, none while it is closed.
    pub fn editor_rows(&self) -> (r: u16)
        ensures
            r == (if self.editor_open { EDITOR_HEIGHT } else { 0 }),
    {
        if self.editor_open {
            EDITOR_HEIGHT
        } else {
            0
        }
    }

    /// Mode, panel and hint texts of the footer.
    pub fn footer_labels(&self) -> (r: (&'static str, &'static str, &'static str))
        ensures
            (r.0@, r.1@, r.2@) == footer_spec(self@),
    {
        let mode = match self.input_mode {
            InputMode::Normal => " NORMAL ",
            InputMode::Insert => " INSERT ",
        };
        let panel = match self.active_panel {
            Panel::Collections => "COLLECTIONS",
            Panel::Requests => "REQUESTS",
            Panel::Response => "RESPONSE",
        };
        let hint = match self.overlay {
            Overlay::Closed => match self.active_panel {
                Panel::Collections => "Tab=next panel  n=new  d=delete  j/k=nav  ?=help  q=quit",
                Panel::Requests => "Tab=next panel  n=new  d=delete  e=edit  Enter=open editor  s=send  j/k=nav",
                Panel::Response => "Tab=next panel  j/k=scroll  q=quit",
            },
            _ => "Enter=confirm  Esc=cancel",
        };
        (mode, panel, hint)
    }

    /// Whether `panel` has the focus: it is the active panel and no dialog is open.
    pub fn panel_active(&self, panel: Panel) -> (r: bool)
        ensures
            r == (self.active_panel == panel && self@.overlay is Closed),
    {
        self.active_panel == panel && matches!(self.overlay, Overlay::Closed)
    }

    /// Position of the open editor tab in the tab bar.
    pub fn selected_tab_index(&self) -> (r: usize)
        ensures
            r == tab_position(self.editor_tab),
    {
        match self.editor_tab {
            EditorTab::Url => 0,
            EditorTab::Query => 1,
            EditorTab::Headers => 2,
            EditorTab::Body => 3,
        }
    }

    /// Title of the collections panel: ` Collections (n) `.
    pub fn collections_title(&self) -> (r: String)
        ensures
            r@ == " Collections ("@ + decimal(self@.collections.len()) + ") "@,
    {
        let mut r = String::from_str(" Collections (");
        let n = decimal_text(self.collections.len());
        r.append(n.as_str());
        r.append(") ");
        r
    }

    /// Title of the requests panel: the selected collection's name (`—` when
    /// none) and the number of its requests.
    pub fn requests_title(&self) -> (r: String)
        ensures
            r@ == " "@ + match self@.sel_collection_id() {
                Some(_) => self@.collections[self.coll_sel.unwrap() as int].collection_name,
                None => "—"@,
            } + " ("@ + decimal(self@.visible().len()) + ") "@,
    {
        let mut r = String::from_str(" ");
        match self.selected_collection() {
            Some(c) => r.append(c.collection_name.as_str()),
            None => r.append("—"),
        }
        r.append(" (");
        let visible = self.requests_for_selected();
        let n = decimal_text(visible.len());
        r.append(n.as_str());
        r.append(") ");
        r
    }

    /// Title of the response panel: the status line.
    pub fn response_title(&self) -> (r: String)
        ensures
            r@ == " Response — "@ + self@.status_line + " "@,
    {
        let mut r = String::from_str(" Response — ");
        r.append(self.status_line.as_str());
        r.append(" ");
        r
    }

    /// The URL as the method bar shows it: with the cursor while typing on the URL tab.
    pub fn url_bar_text(&self) -> (r: String)
        ensures
            r@ == with_cursor(
                self@.url,
                self.editor_tab == EditorTab::Url && self.input_mode == InputMode::Insert,
            ),
    {
        cursor_text(
            self.url.as_str(),
            self.editor_tab == EditorTab::Url && self.input_mode == InputMode::Insert,
        )
    }

    /// The URL as the URL tab shows it: with the cursor while typing.
    pub fn url_tab_text(&self) -> (r: String)
        ensures
            r@ == with_cursor(self@.url, self.input_mode == InputMode::Insert),
    {
        cursor_text(self.url.as_str(), self.input_mode == InputMode::Insert)
    }

    /// The lines of the body tab: the body, with the cursor while typing.
    pub fn body_lines(&self) -> (r: Vec<String>)
        ensures
            texts_view(r@) == lines_of(with_cursor(self@.body, self.input_mode == InputMode::Insert)),
    {
        let shown = cursor_text(self.body.as_str(), self.input_mode == InputMode::Insert);
        split_lines(shown.as_str())
    }

    /// Row `i` of the query table (`headers` false) or header table (`headers`
    /// true) as shown: its key and value, each with the cursor when typing there.
    pub fn table_row_texts(&self, headers: bool, i: usize) -> (r: (String, String))
        requires
            i < (if headers { self.headers@.len() } else { self.query_params@.len() }),
        ensures
            ({
                let rows = if headers { self@.headers } else { self@.query_params };
                let cur = if headers { self.header_row } else { self.query_row };
                let field = if headers { self.header_field } else { self.query_field };
                let sel = i == cur && self.input_mode == InputMode::Insert;
                &&& r.0@ == with_cursor(rows[i as int].0, sel && field == KvField::Key)
                &&& r.1@ == with_cursor(rows[i as int].1, sel && field == KvField::Value)
            }),
    {
        let (row, cur, field) = if headers {
            (&self.headers[i], self.header_row, self.header_field)
        } else {
            (&self.query_params[i], self.query_row, self.query_field)
        };
        let sel = i == cur && self.input_mode == InputMode::Insert;
        (
            cursor_text(row.key.as_str(), sel && field == KvField::Key),
            cursor_text(row.value.as_str(), sel && field == KvField::Value),
        )
    }
}

} // verus!
