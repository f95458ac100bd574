//! What the interface shows: the board's glyphs, the key hints, and the text of
//! the popups. Colours and layout are left to the terminal front end; these
//! functions decide the text and which part stands out.
use crate::app::{App, AppState, MenuState, Notice, ParameterSelections};
use crate::game::Cell;
use crate::text::{byte_len, decimal, push_char, repeat_space, spaces, to_decimal};
use vstd::prelude::*;
use vstd::string::*;

verus! {

/// How a glyph of the board is coloured.
#[derive(Clone, Copy, Debug, PartialEq, Eq, Structural)]
pub enum Tone {
    /// The space between two cells: no style at all.
    Plain,
    /// The terminal's own colour.
    Reset,
    Yellow,
    Red,
    /// The selected cell.
    Highlight,
}

/// One piece of text of the board.
pub struct Glyph {
    pub text: String,
    pub tone: Tone,
}

/// A glyph with its text as a sequence of characters.
pub struct GlyphView {
    pub text: Seq<char>,
    pub tone: Tone,
}

impl View for Glyph {
    type V = GlyphView;

    open spec fn view(&self) -> GlyphView {
        GlyphView { text: self.text@, tone: self.tone }
    }
}

/// The text that stands for a cell.
pub open spec fn cell_text(c: Cell) -> Seq<char> {
    match c {
        Cell::Hidden => seq!['·'],
        Cell::Marked => seq!['M'],
        Cell::Flagged => seq!['F'],
        Cell::Revealed { adjacent } => decimal(adjacent as nat),
        Cell::Bomb => seq!['X'],
    }
}

/// The colour of a cell that is not selected.
pub open spec fn cell_tone(c: Cell) -> Tone {
    match c {
        Cell::Hidden => Tone::Reset,
        Cell::Marked => Tone::Yellow,
        Cell::Flagged => Tone::Red,
        Cell::Revealed { .. } => Tone::Reset,
        Cell::Bomb => Tone::Red,
    }
}

/// The glyph of the cell in column `x` of row `y`.
pub open spec fn cell_glyph(c: Cell, x: int, y: int, s: AppState) -> GlyphView {
    GlyphView {
        text: cell_text(c),
        tone: if s.selected.x == x && s.selected.y == y {
            Tone::Highlight
        } else {
            cell_tone(c)
        },
    }
}

/// A row of the board as drawn: the cells' glyphs with a plain space between
/// each two of them.
pub open spec fn row_glyphs_ok(r: Seq<Glyph>, row: Seq<Cell>, y: int, s: AppState) -> bool {
    &&& r.len() == (if row.len() == 0 {
        0
    } else {
        2 * row.len() - 1
    })
    &&& forall|x: int| 0 <= x < row.len() ==> #[trigger] r[2 * x]@ == cell_glyph(row[x], x, y, s)
    &&& forall|x: int|
        1 <= x < row.len() ==> #[trigger] r[2 * x - 1]@ == (GlyphView {
            text: seq![' '],
            tone: Tone::Plain,
        })
}

/// A key and what it does, as the status line lists them.
pub type Hint = (&'static str, &'static str);

/// The key hints for a menu, in the order in which they are shown.
pub open spec fn hints_spec(menu: MenuState) -> Seq<(Seq<char>, Seq<char>)> {
    match menu {
        MenuState::Closed => seq![
            ("←↓↑→"@, "move selection"@),
            ("↵"@, "reveal"@),
            ("space"@, "mark"@),
            ("p"@, "parameters"@),
            ("g"@, "join game"@),
            ("r"@, "restart"@),
            ("q"@, "quit"@),
        ],
        MenuState::Parameters { modify, selection } => match selection {
            ParameterSelections::Apply => seq![("←↓↑→"@, "move selection"@), ("↵"@, "apply"@)],
            ParameterSelections::Cancel => seq![("←↓↑→"@, "move selection"@), ("↵"@, "cancel"@)],
            _ => if modify {
                seq![("esc"@, "cancel"@), ("↵"@, "accept value"@)]
            } else {
                seq![
                    ("↓↑"@, "move selection"@),
                    ("←"@, "decrease value"@),
                    ("↵"@, "modify value"@),
                    ("→"@, "increase value"@),
                ]
            },
        },
        MenuState::Join => seq![("esc"@, "cancel"@), ("↵"@, "join game"@)],
        MenuState::InfoMessage(_) => seq![("r"@, "restart"@), ("↵"@, "ok"@)],
    }
}

/// The hints of a vector, each as two sequences of characters.
pub open spec fn hints_view(h: Seq<Hint>) -> Seq<(Seq<char>, Seq<char>)> {
    h.map_values(|p: Hint| (p.0@, p.1@))
}

/// One line of the parameter menu: a centred name, and the value under it.
pub struct PopupItem {
    pub header: String,
    pub value: String,
    /// The line is the selected one.
    pub highlighted: bool,
}

/// A line of the parameter menu with its text as sequences of characters.
pub struct PopupItemView {
    pub header: Seq<char>,
    pub value: Seq<char>,
    pub highlighted: bool,
}

impl View for PopupItem {
    type V = PopupItemView;

    open spec fn view(&self) -> PopupItemView {
        PopupItemView { header: self.header@, value: self.value@, highlighted: self.highlighted }
    }
}

/// `text` centred in `n` spaces: the odd space goes to the left.
pub open spec fn centred(text: Seq<char>, n: nat) -> Seq<char> {
    spaces((n - n / 2) as nat) + text + spaces(n / 2)
}

/// The value that a line of the parameter menu shows: what is being typed,
/// followed by a cursor, or else the value itself.
pub open spec fn shown_value(s: AppState, value: usize, editing: bool) -> Seq<char> {
    if editing {
        s.input.push('_')
    } else {
        decimal(value as nat)
    }
}

/// A line of the parameter menu fits in `width` columns.
pub open spec fn popup_item_fits(
    s: AppState,
    name: Seq<char>,
    value: usize,
    modify: bool,
    selected: bool,
    width: u16,
) -> bool {
    let editing = selected && modify;
    let shown = shown_value(s, value, editing);
    &&& byte_len(name) <= width
    &&& byte_len(shown) + 2 <= width
    &&& (selected && !editing) ==> (width - byte_len(shown) - 2) / 2 >= 2
}

/// A line of the parameter menu: the name centred in the width, and the value
/// centred with room for the arrows that a selected line shows.
pub open spec fn popup_item_spec(
    s: AppState,
    name: Seq<char>,
    value: usize,
    modify: bool,
    selected: bool,
    width: u16,
) -> PopupItemView {
    let editing = selected && modify;
    let shown = shown_value(s, value, editing);
    let hs = (width - byte_len(name)) as nat;
    let vs = (width - byte_len(shown) - 2) as nat;
    PopupItemView {
        header: centred(name, hs),
        value: if editing {
            seq![' '] + centred(shown, vs) + seq!['↵']
        } else if selected {
            seq!['←'] + spaces((vs - vs / 2) as nat) + shown + spaces((vs / 2 - 2) as nat) + seq![
                '↵',
                ' ',
                '→',
            ]
        } else {
            seq![' '] + centred(shown, vs) + seq![' ']
        },
        highlighted: selected,
    }
}

/// The parameter menu: its three lines and which button is selected.
pub struct ParamsPopup {
    pub items: Vec<PopupItem>,
    pub apply_selected: bool,
    pub cancel_selected: bool,
}

/// The join menu's line: what is typed, a cursor, spaces to fill the width,
/// and the enter sign.
pub open spec fn join_line_spec(s: AppState, width: u16) -> Seq<char> {
    s.input.push('_') + spaces((width - byte_len(s.input) - 6) as nat) + seq!['↵']
}

/// The text of a message box.
pub open spec fn notice_text(n: Notice) -> Seq<char> {
    match n {
        Notice::InvalidId => "Invalide ID"@,
        Notice::Won => "You won"@,
        Notice::Lost => "You lost"@,
    }
}

/// A colour of a message box's text.
#[derive(Clone, Copy, Debug, PartialEq, Eq, Structural)]
pub enum Colour {
    Red,
    Green,
    Black,
}

/// The colours of a message: the text's colour, and the background if it has one.
/// A refused id is red on the box's own background; a win is green on black,
/// a loss red on black.
pub open spec fn notice_colours(n: Notice) -> (Colour, Option<Colour>) {
    match n {
        Notice::InvalidId => (Colour::Red, None),
        Notice::Won => (Colour::Green, Some(Colour::Black)),
        Notice::Lost => (Colour::Red, Some(Colour::Black)),
    }
}

impl Notice {
    /// The colours of the message: its text's colour, and its background if any.
    pub fn colours(&self) -> (c: (Colour, Option<Colour>))
        ensures
            c == notice_colours(*self),
    {
        match self {
            Notice::InvalidId => (Colour::Red, None),
            Notice::Won => (Colour::Green, Some(Colour::Black)),
            Notice::Lost => (Colour::Red, Some(Colour::Black)),
        }
    }

    /// The text of the message.
    pub fn text(&self) -> (t: &'static str)
        ensures
            t@ == notice_text(*self),
    {
        match self {
            Notice::InvalidId => "Invalide ID",
            Notice::Won => "You won",
            Notice::Lost => "You lost",
        }
    }
}

/// Appends `tail` to `s`.
fn append_str(s: &mut String, tail: &str)
    ensures
        final(s)@ == old(s)@ + tail@,
{
    s.append(tail);
}

/// The glyph of one cell.
fn glyph_of(cell: Cell, highlighted: bool) -> (g: Glyph)
    ensures
        g@.text == cell_text(cell),
        g@.tone == (if highlighted {
            Tone::Highlight
        } else {
            cell_tone(cell)
        }),
{
    let (text, tone) = match cell {
        Cell::Hidden => (String::from_str("·"), Tone::Reset),
        Cell::Marked => (String::from_str("M"), Tone::Yellow),
        Cell::Flagged => (String::from_str("F"), Tone::Red),
        Cell::Revealed { adjacent } => (to_decimal(adjacent as usize), Tone::Reset),
        Cell::Bomb => (String::from_str("X"), Tone::Red),
    };
    proof {
        reveal_strlit("·");
        reveal_strlit("M");
        reveal_strlit("F");
        reveal_strlit("X");
    }
    Glyph { text, tone: if highlighted { Tone::Highlight } else { tone } }
}

impl App {
    /// Appends a key hint.
    pub fn add_keybinding_hint(hints: &mut Vec<Hint>, key: &'static str, action: &'static str)
        ensures
            final(hints)@ == old(hints)@.push((key, action)),
    {
        hints.push((key, action));
    }

    /// Appends the key hints of the open menu.
    pub fn add_keybinding_hints(&self, hints: &mut Vec<Hint>)
        ensures
            final(hints)@.len() == old(hints)@.len() + hints_spec(self.menu_state).len(),
            final(hints)@.subrange(0, old(hints)@.len() as int) == old(hints)@,
            hints_view(final(hints)@.subrange(old(hints)@.len() as int, final(hints)@.len() as int))
                == hints_spec(self.menu_state),
    {
        let ghost start = hints@.len();
        match self.menu_state {
            MenuState::Closed => {
                Self::add_keybinding_hint(hints, "←↓↑→", "move selection");
                Self::add_keybinding_hint(hints, "↵", "reveal");
                Self::add_keybinding_hint(hints, "space", "mark");
                Self::add_keybinding_hint(hints, "p", "parameters");
                Self::add_keybinding_hint(hints, "g", "join game");
                Self::add_keybinding_hint(hints, "r", "restart");
                Self::add_keybinding_hint(hints, "q", "quit");
            },
            MenuState::Parameters { modify, selection } => match selection {
                ParameterSelections::Apply => {
                    Self::add_keybinding_hint(hints, "←↓↑→", "move selection");
                    Self::add_keybinding_hint(hints, "↵", "apply");
                },
                ParameterSelections::Cancel => {
                    Self::add_keybinding_hint(hints, "←↓↑→", "move selection");
                    Self::add_keybinding_hint(hints, "↵", "cancel");
                },
                _ => {
                    if modify {
                        Self::add_keybinding_hint(hints, "esc", "cancel");
                        Self::add_keybinding_hint(hints, "↵", "accept value");
                    } else {
                        Self::add_keybinding_hint(hints, "↓↑", "move selection");
                        Self::add_keybinding_hint(hints, "←", "decrease value");
                        Self::add_keybinding_hint(hints, "↵", "modify value");
                        Self::add_keybinding_hint(hints, "→", "increase value");
                    }
                },
            },
            MenuState::Join => {
                Self::add_keybinding_hint(hints, "esc", "cancel");
                Self::add_keybinding_hint(hints, "↵", "join game");
            },
            MenuState::InfoMessage(_) => {
                Self::add_keybinding_hint(hints, "r", "restart");
                Self::add_keybinding_hint(hints, "↵", "ok");
            },
        }
        proof {
            assert(hints_view(hints@.subrange(start as int, hints@.len() as int)) =~= hints_spec(
                self.menu_state,
            ));
        }
    }
}


/// The UTF-8 length of a string, which is what `str::len` counts.
fn text_len(s: &String) -> (n: usize)
    ensures
        n == byte_len(s@) as usize,
{
    s.as_str().len()
}

/// `text` centred in `n` spaces, appended to `out`.
fn push_centred(out: &mut String, text: &String, n: usize)
    ensures
        final(out)@ == old(out)@ + centred(text@, n as nat),
{
    append_str(out, repeat_space(n - n / 2).as_str());
    append_str(out, text.as_str());
    append_str(out, repeat_space(n / 2).as_str());
    proof {
        assert(final(out)@ =~= old(out)@ + centred(text@, n as nat));
    }
}

impl App {
    /// One line of the parameter menu, for the parameter `name` with value
    /// `value`, `width` columns wide. While the line is being edited it shows
    /// what is typed instead of the value.
    pub fn get_params_popup_item(
        &self,
        name: &str,
        value: usize,
        modify: bool,
        selected: bool,
        width: u16,
    ) -> (item: PopupItem)
        requires
            popup_item_fits(self@, name@, value, modify, selected, width),
        ensures
            item@ == popup_item_spec(self@, name@, value, modify, selected, width),
    {
        let editing = selected && modify;
        let header_spacing = width as usize - name.len();
        let mut header = String::new();
        push_centred(&mut header, &String::from_str(name), header_spacing);
        let shown = if editing {
            let mut t = self.input_buffer.clone();
            push_char(&mut t, '_');
            t
        } else {
            to_decimal(value)
        };
        let value_spacing = width as usize - text_len(&shown) - 2;
        let mut line = String::new();
        if editing {
            push_char(&mut line, ' ');
            push_centred(&mut line, &shown, value_spacing);
            push_char(&mut line, '↵');
        } else if selected {
            push_char(&mut line, '←');
            append_str(&mut line, repeat_space(value_spacing - value_spacing / 2).as_str());
            append_str(&mut line, shown.as_str());
            append_str(&mut line, repeat_space(value_spacing / 2 - 2).as_str());
            push_char(&mut line, '↵');
            push_char(&mut line, ' ');
            push_char(&mut line, '→');
        } else {
            push_char(&mut line, ' ');
            push_centred(&mut line, &shown, value_spacing);
            push_char(&mut line, ' ');
        }
        proof {
            let sp = popup_item_spec(self@, name@, value, modify, selected, width);
            assert(header@ =~= sp.header);
            assert(line@ =~= sp.value);
        }
        PopupItem { header, value: line, highlighted: selected }
    }

    /// The join menu's line in `width` columns.
    pub fn render_join_popup(&self, width: u16) -> (line: String)
        requires
            byte_len(self.input_buffer@) + 6 <= width,
        ensures
            line@ == join_line_spec(self@, width),
    {
        let spacing = width as usize - text_len(&self.input_buffer) - 6;
        let mut line = self.input_buffer.clone();
        push_char(&mut line, '_');
        append_str(&mut line, repeat_space(spacing).as_str());
        push_char(&mut line, '↵');
        proof {
            assert(line@ =~= join_line_spec(self@, width));
        }
        line
    }

    /// The board as drawn: one row of glyphs per row of cells, the selected
    /// cell highlighted; nothing when no game is known.
    pub fn render_game(&self, board: Option<&Vec<Vec<Cell>>>) -> (rows: Vec<Vec<Glyph>>)
        ensures
            board is None ==> rows@.len() == 0,
            board matches Some(b) ==> {
                &&& rows@.len() == b@.len()
                &&& forall|y: int|
                    0 <= y < b@.len() ==> row_glyphs_ok(#[trigger] rows@[y]@, b@[y]@, y, self@)
            },
    {
        let mut rows: Vec<Vec<Glyph>> = Vec::new();
        match board {
            None => rows,
            Some(b) => {
                let mut y: usize = 0;
                while y < b.len()
                    invariant
                        y <= b@.len(),
                        rows@.len() == y,
                        forall|j: int|
                            0 <= j < y ==> row_glyphs_ok(#[trigger] rows@[j]@, b@[j]@, j, self@),
                    decreases b@.len() - y,
                {
                    let row = &b[y];
                    let mut glyphs: Vec<Glyph> = Vec::new();
                    let mut x: usize = 0;
                    while x < row.len()
                        invariant
                            y < b@.len(),
                            row@ == b@[y as int]@,
                            x <= row@.len(),
                            glyphs@.len() == (if x == 0 { 0 } else { 2 * x - 1 }),
                            forall|i: int|
                                0 <= i < x ==> #[trigger] glyphs@[2 * i]@ == cell_glyph(
                                    row@[i],
                                    i,
                                    y as int,
                                    self@,
                                ),
                            forall|i: int|
                                1 <= i < x ==> #[trigger] glyphs@[2 * i - 1]@ == (GlyphView {
                                    text: seq![' '],
                                    tone: Tone::Plain,
                                }),
                        decreases row@.len() - x,
                    {
                        if x > 0 {
                            let mut space = String::new();
                            push_char(&mut space, ' ');
                            glyphs.push(Glyph { text: space, tone: Tone::Plain });
                        }
                        let highlighted = self.selected.x == x && self.selected.y == y;
                        let g = glyph_of(row[x], highlighted);
                        glyphs.push(g);
                        proof {
                            assert(glyphs@[2 * x as int]@ == cell_glyph(row@[x as int], x as int, y as int, self@));
                            assert forall|i: int| 0 <= i < x + 1 implies #[trigger] glyphs@[2 * i]@ == cell_glyph(
                                    row@[i],
                                    i,
                                    y as int,
                                    self@,
                                ) by {
                                if i < x {
                                    assert(2 * i < 2 * x - 1);
                                }
                            }
                            assert forall|i: int| 1 <= i < x + 1 implies #[trigger] glyphs@[2 * i - 1]@ == (GlyphView {
                                    text: seq![' '],
                                    tone: Tone::Plain,
                                }) by {
                                if i < x {
                                    assert(2 * i - 1 < 2 * x - 1);
                                }
                            }
                        }
                        x = x + 1;
                    }
                    rows.push(glyphs);
                    proof {
                        assert forall|j: int| 0 <= j < y + 1 implies row_glyphs_ok(#[trigger] rows@[j]@, b@[j]@, j, self@) by {
                            if j == y {
                                assert(rows@[j]@ == glyphs@);
                            }
                        }
                    }
                    y = y + 1;
                }
                rows
            },
        }
    }

    /// The three value lines of the parameter menu, `width` columns wide, and
    /// which button is selected.
    pub fn render_params_popup(&self, modify: bool, selection: ParameterSelections, width: u16) -> (p: ParamsPopup)
        requires
            popup_item_fits(self@, "Width"@, self.params.width, modify, selection == ParameterSelections::Width, width),
            popup_item_fits(self@, "Height"@, self.params.height, modify, selection == ParameterSelections::Height, width),
            popup_item_fits(self@, "Bombs"@, self.params.bombs, modify, selection == ParameterSelections::Bombs, width),
        ensures
            p.items@.len() == 3,
            p.items@[0]@ == popup_item_spec(self@, "Width"@, self.params.width, modify, selection == ParameterSelections::Width, width),
            p.items@[1]@ == popup_item_spec(self@, "Height"@, self.params.height, modify, selection == ParameterSelections::Height, width),
            p.items@[2]@ == popup_item_spec(self@, "Bombs"@, self.params.bombs, modify, selection == ParameterSelections::Bombs, width),
            p.apply_selected == (selection == ParameterSelections::Apply),
            p.cancel_selected == (selection == ParameterSelections::Cancel),
    {
        let mut items: Vec<PopupItem> = Vec::new();
        items.push(self.get_params_popup_item("Width", self.params.width, modify, matches!(selection, ParameterSelections::Width), width));
        items.push(self.get_params_popup_item("Height", self.params.height, modify, matches!(selection, ParameterSelections::Height), width));
        items.push(self.get_params_popup_item("Bombs", self.params.bombs, modify, matches!(selection, ParameterSelections::Bombs), width));
        ParamsPopup {
            items,
            apply_selected: matches!(selection, ParameterSelections::Apply),
            cancel_selected: matches!(selection, ParameterSelections::Cancel),
        }
    }
}

/// The width and height of the popup that a menu shows, or none on the board.
pub open spec fn popup_size_spec(menu: MenuState) -> Option<(u16, u16)> {
    match menu {
        MenuState::Closed => None,
        MenuState::Parameters { .. } => Some((20, 9)),
        MenuState::Join => Some((20, 3)),
        MenuState::InfoMessage(_) => Some((40, 3)),
    }
}

impl App {
    /// The width and height of the popup of the open menu, or none when no
    /// menu is open.
    pub fn popup_size(&self) -> (r: Option<(u16, u16)>)
        ensures
            r == popup_size_spec(self.menu_state),
    {
        match self.menu_state {
            MenuState::Closed => None,
            MenuState::Parameters { .. } => Some((20, 9)),
            MenuState::Join => Some((20, 3)),
            MenuState::InfoMessage(_) => Some((40, 3)),
        }
    }
}

} // verus!
