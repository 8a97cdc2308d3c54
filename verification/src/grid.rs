//! Engine-neutral reads of the engine's screen.
//!
//! The engine stores a wide character as one cell of width two; the contract's canonical
//! row holds the wide body followed by a spacer. [`materialize_cells`] aligns one engine
//! line into exactly `cols` contract cells. The other functions here map the engine's
//! colors, cursor shape, scrollback geometry and theme overrides to the contract's terms.
use vstd::prelude::*;

verus! {

/// A cell color in the contract's terms.
#[derive(Debug, Clone, Copy, PartialEq, Eq, Structural)]
pub enum ColorSnap {
    Default,
    /// Palette entries 0..16 (the SGR base and bright colors).
    Named(u8),
    /// Palette entries 16..256.
    Indexed(u8),
    Rgb(u8, u8, u8),
}

/// A cell color as the engine stores it: default, a palette index, or a true color
/// (already in 8-bit sRGB).
#[derive(Debug, Clone, Copy, PartialEq, Eq, Structural)]
pub enum RawColor {
    Default,
    Palette(u8),
    TrueColor(u8, u8, u8),
}

pub open spec fn snap_color_spec(c: RawColor) -> ColorSnap {
    match c {
        RawColor::Default => ColorSnap::Default,
        RawColor::Palette(i) => if i < 16 { ColorSnap::Named(i) } else { ColorSnap::Indexed(i) },
        RawColor::TrueColor(r, g, b) => ColorSnap::Rgb(r, g, b),
    }
}

/// Palette 0..16 stays named (so SGR 3x/9x round-trip as base colors), 16..256 is an
/// indexed color, and true color is kept as RGB.
pub fn snap_color(c: RawColor) -> (s: ColorSnap)
    ensures
        s == snap_color_spec(c),
        c is Default <==> s is Default,
        c matches RawColor::Palette(i) ==> (if i < 16 { s == ColorSnap::Named(i) } else { s
            == ColorSnap::Indexed(i) }),
        c matches RawColor::TrueColor(r, g, b) ==> s == ColorSnap::Rgb(r, g, b),
{
    match c {
        RawColor::Default => ColorSnap::Default,
        RawColor::Palette(i) => if i < 16 {
            ColorSnap::Named(i)
        } else {
            ColorSnap::Indexed(i)
        },
        RawColor::TrueColor(r, g, b) => ColorSnap::Rgb(r, g, b),
    }
}

/// The engine's intensity attribute.
#[derive(Debug, Clone, Copy, PartialEq, Eq, Structural)]
pub enum Intensity {
    Normal,
    Bold,
    Half,
}

/// The engine's underline attribute.
#[derive(Debug, Clone, Copy, PartialEq, Eq, Structural)]
pub enum UnderlineStyle {
    Off,
    Single,
    Double,
    Curly,
    Dotted,
    Dashed,
}

/// One visible engine cell: its column, its width, its grapheme and its attributes.
pub struct RawCell {
    pub index: usize,
    pub width: usize,
    pub text: Vec<char>,
    pub intensity: Intensity,
    pub underline: UnderlineStyle,
    pub italic: bool,
    pub reverse: bool,
    pub strikethrough: bool,
    pub invisible: bool,
    pub fg: RawColor,
    pub bg: RawColor,
}

/// The abstract value of a [`RawCell`].
pub struct RawCellView {
    pub index: usize,
    pub width: usize,
    pub text: Seq<char>,
    pub intensity: Intensity,
    pub underline: UnderlineStyle,
    pub italic: bool,
    pub reverse: bool,
    pub strikethrough: bool,
    pub invisible: bool,
    pub fg: RawColor,
    pub bg: RawColor,
}

impl View for RawCell {
    type V = RawCellView;

    open spec fn view(&self) -> RawCellView {
        RawCellView {
            index: self.index,
            width: self.width,
            text: self.text@,
            intensity: self.intensity,
            underline: self.underline,
            italic: self.italic,
            reverse: self.reverse,
            strikethrough: self.strikethrough,
            invisible: self.invisible,
            fg: self.fg,
            bg: self.bg,
        }
    }
}

/// A contract grid cell. A wide body is followed by a spacer cell; the last cell of a
/// soft-wrapped row carries `wrapline`. Combining marks after the base character are in
/// `zerowidth`. This engine does not track hyperlinks, so `link` stays empty.
pub struct GridCell {
    pub ch: char,
    pub fg: ColorSnap,
    pub bg: ColorSnap,
    pub bold: bool,
    pub dim: bool,
    pub italic: bool,
    pub underline: bool,
    pub inverse: bool,
    pub strikeout: bool,
    pub hidden: bool,
    pub wide: bool,
    pub spacer: bool,
    pub wrapline: bool,
    pub zerowidth: Vec<char>,
    pub link: Option<String>,
}

/// The abstract value of a [`GridCell`].
pub struct CellView {
    pub ch: char,
    pub fg: ColorSnap,
    pub bg: ColorSnap,
    pub bold: bool,
    pub dim: bool,
    pub italic: bool,
    pub underline: bool,
    pub inverse: bool,
    pub strikeout: bool,
    pub hidden: bool,
    pub wide: bool,
    pub spacer: bool,
    pub wrapline: bool,
    pub zerowidth: Seq<char>,
    pub link: Option<Seq<char>>,
}

impl View for GridCell {
    type V = CellView;

    open spec fn view(&self) -> CellView {
        CellView {
            ch: self.ch,
            fg: self.fg,
            bg: self.bg,
            bold: self.bold,
            dim: self.dim,
            italic: self.italic,
            underline: self.underline,
            inverse: self.inverse,
            strikeout: self.strikeout,
            hidden: self.hidden,
            wide: self.wide,
            spacer: self.spacer,
            wrapline: self.wrapline,
            zerowidth: self.zerowidth@,
            link: match self.link {
                Some(l) => Some(l@),
                None => None,
            },
        }
    }
}

/// The contract's blank cell: a space in default colors with no attributes.
pub open spec fn blank_view() -> CellView {
    CellView {
        ch: ' ',
        fg: ColorSnap::Default,
        bg: ColorSnap::Default,
        bold: false,
        dim: false,
        italic: false,
        underline: false,
        inverse: false,
        strikeout: false,
        hidden: false,
        wide: false,
        spacer: false,
        wrapline: false,
        zerowidth: seq![],
        link: None,
    }
}

/// The spacer that follows a wide body.
pub open spec fn spacer_view() -> CellView {
    CellView { spacer: true, ..blank_view() }
}

/// The contract cell of one engine cell: the grapheme's first character (a space when
/// empty) with the rest as zero-width marks, bold/dim from the intensity, any underline
/// style as underline, and width two as wide.
pub open spec fn cell_view_of(r: RawCellView) -> CellView {
    CellView {
        ch: if r.text.len() > 0 { r.text[0] } else { ' ' },
        fg: snap_color_spec(r.fg),
        bg: snap_color_spec(r.bg),
        bold: r.intensity == Intensity::Bold,
        dim: r.intensity == Intensity::Half,
        italic: r.italic,
        underline: r.underline != UnderlineStyle::Off,
        inverse: r.reverse,
        strikeout: r.strikethrough,
        hidden: r.invisible,
        wide: r.width == 2,
        spacer: false,
        wrapline: false,
        zerowidth: if r.text.len() > 0 { r.text.drop_first() } else { seq![] },
        link: None,
    }
}

/// A blank contract cell.
pub fn blank_cell() -> (c: GridCell)
    ensures
        c@ == blank_view(),
{
    GridCell {
        ch: ' ',
        fg: ColorSnap::Default,
        bg: ColorSnap::Default,
        bold: false,
        dim: false,
        italic: false,
        underline: false,
        inverse: false,
        strikeout: false,
        hidden: false,
        wide: false,
        spacer: false,
        wrapline: false,
        zerowidth: Vec::new(),
        link: None,
    }
}

fn spacer_cell() -> (c: GridCell)
    ensures
        c@ == spacer_view(),
{
    let mut c = blank_cell();
    c.spacer = true;
    c
}

/// The contract cell of one engine cell.
pub fn cell_of(r: &RawCell) -> (c: GridCell)
    ensures
        c@ == cell_view_of(r@),
        c.underline == (r.underline != UnderlineStyle::Off),
        c.bold == (r.intensity == Intensity::Bold),
        c.dim == (r.intensity == Intensity::Half),
        c.italic == r.italic,
        c.inverse == r.reverse,
        c.strikeout == r.strikethrough,
        c.hidden == r.invisible,
        c.wide == (r.width == 2),
        !c.spacer && !c.wrapline && c.link is None,
        r.text@.len() > 0 ==> c.ch == r.text@[0] && c.zerowidth@ == r.text@.subrange(1, r.text@.len() as int),
        r.text@.len() == 0 ==> c.ch == ' ' && c.zerowidth@.len() == 0,
{
    let (ch, zerowidth) = if r.text.len() > 0 {
        let mut rest: Vec<char> = Vec::new();
        let mut i: usize = 1;
        while i < r.text.len()
            invariant
                1 <= i <= r.text@.len(),
                rest@ == r.text@.subrange(1, i as int),
            decreases r.text@.len() - i,
        {
            rest.push(r.text[i]);
            i = i + 1;
            assert(rest@ =~= r.text@.subrange(1, i as int));
        }
        assert(rest@ =~= r.text@.drop_first());
        (r.text[0], rest)
    } else {
        (' ', Vec::new())
    };
    let bold = match r.intensity {
        Intensity::Bold => true,
        _ => false,
    };
    let dim = match r.intensity {
        Intensity::Half => true,
        _ => false,
    };
    let underline = match r.underline {
        UnderlineStyle::Off => false,
        _ => true,
    };
    GridCell {
        ch,
        fg: snap_color(r.fg),
        bg: snap_color(r.bg),
        bold,
        dim,
        italic: r.italic,
        underline,
        inverse: r.reverse,
        strikeout: r.strikethrough,
        hidden: r.invisible,
        wide: r.width == 2,
        spacer: false,
        wrapline: false,
        zerowidth,
        link: None,
    }
}

/// What the contract cell of an engine cell says of its attributes: any underline style
/// other than none (single included) is underline; bold intensity is bold and half
/// intensity is dim; italic, reverse, strikethrough and invisible carry over; width two is
/// wide; the first character of the grapheme is the cell's character (a space when empty)
/// and the rest are its zero-width marks; palette colors below 16 stay named.
pub proof fn lemma_cell_attributes(r: RawCellView)
    ensures
        cell_view_of(r).underline <==> r.underline != UnderlineStyle::Off,
        r.underline == UnderlineStyle::Single ==> cell_view_of(r).underline,
        cell_view_of(r).bold <==> r.intensity == Intensity::Bold,
        cell_view_of(r).dim <==> r.intensity == Intensity::Half,
        !(cell_view_of(r).bold && cell_view_of(r).dim),
        cell_view_of(r).italic == r.italic,
        cell_view_of(r).inverse == r.reverse,
        cell_view_of(r).strikeout == r.strikethrough,
        cell_view_of(r).hidden == r.invisible,
        cell_view_of(r).wide <==> r.width == 2,
        !cell_view_of(r).spacer && !cell_view_of(r).wrapline && cell_view_of(r).link is None,
        r.text.len() > 0 ==> seq![cell_view_of(r).ch] + cell_view_of(r).zerowidth == r.text,
        r.text.len() == 0 ==> cell_view_of(r).ch == ' ' && cell_view_of(r).zerowidth.len() == 0,
        r.fg is Default ==> cell_view_of(r).fg is Default,
        forall|i: u8| r.fg == RawColor::Palette(i) && i < 16 ==> cell_view_of(r).fg == ColorSnap::Named(i),
        forall|i: u8| r.fg == RawColor::Palette(i) && i >= 16 ==> cell_view_of(r).fg == ColorSnap::Indexed(i),
        forall|i: u8| r.bg == RawColor::Palette(i) && i < 16 ==> cell_view_of(r).bg == ColorSnap::Named(i),
        forall|i: u8| r.bg == RawColor::Palette(i) && i >= 16 ==> cell_view_of(r).bg == ColorSnap::Indexed(i),
{
    if r.text.len() > 0 {
        assert(seq![cell_view_of(r).ch] + cell_view_of(r).zerowidth =~= r.text);
    }
}

pub open spec fn cells_view(cells: Seq<GridCell>) -> Seq<CellView> {
    cells.map_values(|c: GridCell| c@)
}

proof fn lemma_cells_view_push(s: Seq<GridCell>, c: GridCell)
    ensures
        cells_view(s.push(c)) == cells_view(s).push(c@),
{
    assert(cells_view(s.push(c)) =~= cells_view(s).push(c@));
}

/// A row of `cols` blank cells.
pub open spec fn blank_row(cols: nat) -> Seq<CellView> {
    Seq::new(cols, |i: int| blank_view())
}

/// Places one engine cell on a row: its contract cell at its column and, for a wide cell
/// that is not in the last column, a spacer in the next.
pub open spec fn place(row: Seq<CellView>, r: RawCellView) -> Seq<CellView> {
    if r.index < row.len() {
        let row1 = row.update(r.index as int, cell_view_of(r));
        if r.width == 2 && r.index + 1 < row.len() {
            row1.update(r.index + 1, spacer_view())
        } else {
            row1
        }
    } else {
        row
    }
}

/// The row after placing the engine cells in order on a blank row.
pub open spec fn fill(raws: Seq<RawCellView>, cols: nat) -> Seq<CellView>
    decreases raws.len(),
{
    if raws.len() == 0 {
        blank_row(cols)
    } else {
        place(fill(raws.drop_last(), cols), raws.last())
    }
}

/// How many leading engine cells start inside the row (placement stops at the first cell
/// whose column is past the row's end).
pub open spec fn leading_in_row(raws: Seq<RawCellView>, cols: nat) -> nat
    decreases raws.len(),
{
    if raws.len() == 0 || raws[0].index >= cols {
        0
    } else {
        1 + leading_in_row(raws.drop_first(), cols)
    }
}

/// The contract row for one engine line of `cols` columns: the visible engine cells placed
/// in order up to the first one past the row's end, and `wrapline` on the last cell when
/// the engine marked the line as soft-wrapped.
pub open spec fn materialize(raws: Seq<RawCellView>, wrapped: bool, cols: nat) -> Seq<CellView> {
    let row = fill(raws.take(leading_in_row(raws, cols) as int), cols);
    if wrapped && cols > 0 {
        row.update(cols - 1, CellView { wrapline: true, ..row[cols - 1] })
    } else {
        row
    }
}

proof fn lemma_fill_len(raws: Seq<RawCellView>, cols: nat)
    ensures
        fill(raws, cols).len() == cols,
    decreases raws.len(),
{
    if raws.len() > 0 {
        lemma_fill_len(raws.drop_last(), cols);
    }
}

proof fn lemma_leading_in_row(raws: Seq<RawCellView>, cols: nat, i: int)
    requires
        0 <= i <= raws.len(),
        forall|j: int| 0 <= j < i ==> raws[j].index < cols,
        i == raws.len() || raws[i].index >= cols,
    ensures
        leading_in_row(raws, cols) == i,
    decreases raws.len(),
{
    if raws.len() > 0 && raws[0].index < cols {
        let rest = raws.drop_first();
        assert forall|j: int| 0 <= j < i - 1 implies rest[j].index < cols by {
            assert(rest[j] == raws[j + 1]);
        }
        if i - 1 < rest.len() {
            assert(rest[i - 1] == raws[i]);
        }
        lemma_leading_in_row(rest, cols, i - 1);
    }
}

/// Aligns one engine line into exactly `cols` contract cells.
pub fn materialize_cells(raws: &Vec<RawCell>, wrapped: bool, cols: usize) -> (row: Vec<GridCell>)
    ensures
        cells_view(row@) == materialize(raws@.map_values(|r: RawCell| r@), wrapped, cols as nat),
        row@.len() == cols,
{
    let ghost rv = raws@.map_values(|r: RawCell| r@);
    let mut row: Vec<GridCell> = Vec::new();
    let mut k: usize = 0;
    while k < cols
        invariant
            k <= cols,
            cells_view(row@) == blank_row(k as nat),
        decreases cols - k,
    {
        let ghost prev = row@;
        let c = blank_cell();
        row.push(c);
        k = k + 1;
        proof {
            lemma_cells_view_push(prev, c);
            assert(blank_row(k as nat) =~= blank_row((k - 1) as nat).push(blank_view()));
        }
    }
    assert(rv.take(0) =~= Seq::<RawCellView>::empty());
    let mut i: usize = 0;
    while i < raws.len() && raws[i].index < cols
        invariant
            i <= raws@.len(),
            rv == raws@.map_values(|r: RawCell| r@),
            row@.len() == cols,
            forall|j: int| 0 <= j < i ==> rv[j].index < cols,
            cells_view(row@) == fill(rv.take(i as int), cols as nat),
        decreases raws@.len() - i,
    {
        let r = &raws[i];
        let col = r.index;
        let ghost before = cells_view(row@);
        row.set(col, cell_of(r));
        if r.width == 2 && col + 1 < cols {
            row.set(col + 1, spacer_cell());
        }
        proof {
            lemma_fill_len(rv.take(i as int), cols as nat);
            assert(rv.take(i + 1).drop_last() =~= rv.take(i as int));
            assert(rv.take(i + 1).last() == rv[i as int]);
            assert(cells_view(row@) =~= place(before, rv[i as int]));
        }
        i = i + 1;
    }
    proof {
        lemma_leading_in_row(rv, cols as nat, i as int);
        lemma_fill_len(rv.take(i as int), cols as nat);
    }
    if wrapped && cols > 0 {
        let mut last = row.pop().unwrap();
        last.wrapline = true;
        row.push(last);
        proof {
            let filled = fill(rv.take(i as int), cols as nat);
            assert(cells_view(row@) =~= filled.update(cols - 1, CellView { wrapline: true, ..filled[cols - 1] }));
        }
    }
    row
}

/// The columns an engine cell occupies (a zero-width cell still holds its own column).
pub open spec fn cell_span(width: usize) -> int {
    if width == 0 { 1 } else { width as int }
}

/// The visible cells of one engine line come in column order, each starting at or after
/// the end of the one before.
pub open spec fn in_column_order(raws: Seq<RawCellView>) -> bool {
    forall|j: int, k: int|
        0 <= j < k < raws.len() ==> #[trigger] raws[j].index + cell_span(raws[j].width)
            <= #[trigger] raws[k].index
}

/// The first column after the last placed cell.
pub open spec fn fill_bound(raws: Seq<RawCellView>) -> int {
    if raws.len() == 0 { 0 } else { raws.last().index + cell_span(raws.last().width) }
}

proof fn lemma_fill_shape(raws: Seq<RawCellView>, cols: nat)
    requires
        in_column_order(raws),
        forall|j: int| 0 <= j < raws.len() ==> #[trigger] raws[j].index < cols,
    ensures
        fill(raws, cols).len() == cols,
        forall|c: int| 0 <= c < cols ==> !(#[trigger] fill(raws, cols)[c]).wrapline,
        forall|c: int| 0 <= c < cols && c >= fill_bound(raws) ==> #[trigger] fill(raws, cols)[c]
            == blank_view(),
        forall|c: int|
            0 <= c < cols && (#[trigger] fill(raws, cols)[c]).wide ==> c + 2 <= fill_bound(raws)
                && (c + 1 < cols ==> fill(raws, cols)[c + 1].spacer),
        forall|j: int| 0 <= j < raws.len() ==> fill(raws, cols)[#[trigger] raws[j].index as int]
            == cell_view_of(raws[j]),
        forall|j: int|
            0 <= j < raws.len() && (#[trigger] raws[j]).width == 2 && raws[j].index + 1 < cols
                ==> fill(raws, cols)[raws[j].index + 1] == spacer_view(),
    decreases raws.len(),
{
    lemma_fill_len(raws, cols);
    if raws.len() > 0 {
        let prev = raws.drop_last();
        let r = raws.last();
        assert forall|j: int, k: int| 0 <= j < k < prev.len() implies #[trigger] prev[j].index
            + cell_span(prev[j].width) <= #[trigger] prev[k].index by {
            assert(prev[j] == raws[j]);
            assert(prev[k] == raws[k]);
        }
        assert forall|j: int| 0 <= j < prev.len() implies #[trigger] prev[j].index < cols by {
            assert(prev[j] == raws[j]);
        }
        lemma_fill_shape(prev, cols);
        lemma_fill_len(prev, cols);
        let before = fill(prev, cols);
        let after = fill(raws, cols);
        let i = r.index as int;
        assert(r == raws[raws.len() - 1]);
        assert(r.index < cols);
        if prev.len() > 0 {
            assert(prev.last() == raws[raws.len() - 2]);
            assert(fill_bound(prev) <= i);
        }
        assert(after == place(before, r));
        assert forall|c: int| 0 <= c < cols implies !(#[trigger] after[c]).wrapline by {
            if c != i && !(c == i + 1 && r.width == 2 && i + 1 < cols) {
                assert(after[c] == before[c]);
            }
        }
        assert forall|c: int| 0 <= c < cols && c >= fill_bound(raws) implies #[trigger] after[c]
            == blank_view() by {
            assert(after[c] == before[c]);
        }
        assert forall|c: int| 0 <= c < cols && (#[trigger] after[c]).wide implies c + 2
            <= fill_bound(raws) && (c + 1 < cols ==> after[c + 1].spacer) by {
            if c == i {
            } else if c == i + 1 && r.width == 2 && i + 1 < cols {
            } else {
                assert(after[c] == before[c]);
                if c + 1 == i {
                    // A wide cell before the new one would reach into its column.
                    assert(c + 2 <= fill_bound(prev));
                    assert(false);
                }
                if c + 1 < cols {
                    assert(after[c + 1] == before[c + 1]);
                }
            }
        }
        assert forall|j: int| 0 <= j < raws.len() implies after[#[trigger] raws[j].index as int]
            == cell_view_of(raws[j]) by {
            if j < raws.len() - 1 {
                assert(prev[j] == raws[j]);
                assert(raws[j].index + cell_span(raws[j].width) <= raws[raws.len() - 1].index);
                assert(after[raws[j].index as int] == before[raws[j].index as int]);
            }
        }
        assert forall|j: int|
            0 <= j < raws.len() && (#[trigger] raws[j]).width == 2 && raws[j].index + 1 < cols
                implies after[raws[j].index + 1] == spacer_view() by {
            if j < raws.len() - 1 {
                assert(prev[j] == raws[j]);
                assert(raws[j].index + cell_span(raws[j].width) <= raws[raws.len() - 1].index);
                assert(after[raws[j].index + 1] == before[raws[j].index + 1]);
            }
        }
    }
}

proof fn lemma_leading_below_cols(raws: Seq<RawCellView>, cols: nat)
    ensures
        leading_in_row(raws, cols) <= raws.len(),
        forall|j: int| 0 <= j < leading_in_row(raws, cols) ==> #[trigger] raws[j].index < cols,
    decreases raws.len(),
{
    if raws.len() > 0 && raws[0].index < cols {
        let rest = raws.drop_first();
        lemma_leading_below_cols(rest, cols);
        assert forall|j: int| 0 <= j < leading_in_row(raws, cols) implies #[trigger] raws[j].index
            < cols by {
            if j > 0 {
                assert(raws[j] == rest[j - 1]);
            }
        }
    }
}

/// The row law of a materialized engine line: it holds exactly `cols` cells; each engine
/// cell that starts inside the row lands at its own column; a wide body inside the row is
/// followed by a spacer; and only the last cell can carry `wrapline`, exactly when the
/// engine marked the line as soft-wrapped.
pub proof fn lemma_row_shape(raws: Seq<RawCellView>, wrapped: bool, cols: nat)
    requires
        in_column_order(raws),
    ensures
        materialize(raws, wrapped, cols).len() == cols,
        forall|c: int| 0 <= c < cols ==> ((#[trigger] materialize(raws, wrapped, cols)[c]).wrapline
            <==> (wrapped && c == cols - 1)),
        forall|c: int|
            0 <= c && c + 1 < cols && (#[trigger] materialize(raws, wrapped, cols)[c]).wide
                ==> materialize(raws, wrapped, cols)[c + 1].spacer,
        forall|j: int|
            0 <= j < raws.len() && (#[trigger] raws[j]).index < cols ==> (CellView {
                wrapline: false,
                ..materialize(raws, wrapped, cols)[raws[j].index as int]
            }) == cell_view_of(raws[j]),
        forall|j: int|
            0 <= j < raws.len() && (#[trigger] raws[j]).width == 2 && raws[j].index + 1 < cols
                ==> materialize(raws, wrapped, cols)[raws[j].index + 1].spacer,
{
    let n = leading_in_row(raws, cols);
    lemma_leading_below_cols(raws, cols);
    let taken = raws.take(n as int);
    assert forall|j: int, k: int| 0 <= j < k < taken.len() implies #[trigger] taken[j].index
        + cell_span(taken[j].width) <= #[trigger] taken[k].index by {
        assert(taken[j] == raws[j]);
        assert(taken[k] == raws[k]);
    }
    assert forall|j: int| 0 <= j < taken.len() implies #[trigger] taken[j].index < cols by {
        assert(taken[j] == raws[j]);
    }
    lemma_fill_shape(taken, cols);
    let row = fill(taken, cols);
    let m = materialize(raws, wrapped, cols);
    lemma_starts_inside_are_leading(raws, cols);
    assert(m.len() == cols);
    assert forall|c: int| 0 <= c < cols implies (CellView { wrapline: false, ..#[trigger] m[c] })
        == (CellView { wrapline: false, ..row[c] }) && (m[c].wrapline <==> (wrapped && c == cols - 1)) by {
        assert(!row[c].wrapline);
    }
    assert forall|j: int|
        0 <= j < raws.len() && (#[trigger] raws[j]).index < cols implies (CellView {
            wrapline: false,
            ..m[raws[j].index as int]
        }) == cell_view_of(raws[j]) by {
        assert(taken[j] == raws[j]);
        assert(row[taken[j].index as int] == cell_view_of(raws[j]));
        assert(m[raws[j].index as int].wide == row[raws[j].index as int].wide);
    }
    assert forall|j: int|
        0 <= j < raws.len() && (#[trigger] raws[j]).width == 2 && raws[j].index + 1 < cols
            implies m[raws[j].index + 1].spacer by {
        assert(taken[j] == raws[j]);
        assert(row[raws[j].index + 1] == spacer_view());
        assert(m[raws[j].index + 1].spacer == row[raws[j].index + 1].spacer);
    }
    assert forall|c: int|
        0 <= c && c + 1 < cols && (#[trigger] m[c]).wide implies m[c + 1].spacer by {
        assert(m[c].wide == row[c].wide);
        assert(m[c + 1].spacer == row[c + 1].spacer);
    }
}

/// Every engine cell that starts inside a materialized row keeps its attributes there:
/// its character, underline for any underline style but none, bold and dim from its
/// intensity, and its width as wide.
pub proof fn lemma_row_cell_attributes(raws: Seq<RawCellView>, wrapped: bool, cols: nat)
    requires
        in_column_order(raws),
    ensures
        forall|j: int|
            0 <= j < raws.len() && (#[trigger] raws[j]).index < cols ==> {
                let c = materialize(raws, wrapped, cols)[raws[j].index as int];
                &&& c.underline == (raws[j].underline != UnderlineStyle::Off)
                &&& c.bold == (raws[j].intensity == Intensity::Bold)
                &&& c.dim == (raws[j].intensity == Intensity::Half)
                &&& c.italic == raws[j].italic
                &&& c.inverse == raws[j].reverse
                &&& c.wide == (raws[j].width == 2)
                &&& (raws[j].text.len() > 0 ==> c.ch == raws[j].text[0])
            },
{
    lemma_row_shape(raws, wrapped, cols);
    assert forall|j: int| 0 <= j < raws.len() && (#[trigger] raws[j]).index < cols implies {
        let c = materialize(raws, wrapped, cols)[raws[j].index as int];
        &&& c.underline == (raws[j].underline != UnderlineStyle::Off)
        &&& c.bold == (raws[j].intensity == Intensity::Bold)
        &&& c.dim == (raws[j].intensity == Intensity::Half)
        &&& c.italic == raws[j].italic
        &&& c.inverse == raws[j].reverse
        &&& c.wide == (raws[j].width == 2)
        &&& (raws[j].text.len() > 0 ==> c.ch == raws[j].text[0])
    } by {
        lemma_cell_attributes(raws[j]);
        let c = materialize(raws, wrapped, cols)[raws[j].index as int];
        assert((CellView { wrapline: false, ..c }) == cell_view_of(raws[j]));
    }
}

/// Past the leading run no engine cell starts inside the row (column order).
proof fn lemma_starts_inside_are_leading(raws: Seq<RawCellView>, cols: nat)
    requires
        in_column_order(raws),
    ensures
        forall|j: int| 0 <= j < raws.len() && (#[trigger] raws[j]).index < cols ==> j
            < leading_in_row(raws, cols),
{
    let n = leading_in_row(raws, cols) as int;
    lemma_leading_below_cols(raws, cols);
    lemma_leading_extends(raws, cols);
    assert forall|j: int| 0 <= j < raws.len() && (#[trigger] raws[j]).index < cols implies j < n by {
        if j >= n {
            assert(raws[n].index >= cols);
            if j > n {
                assert(raws[n].index + cell_span(raws[n].width) <= raws[j].index);
            }
        }
    }
}

proof fn lemma_leading_extends(raws: Seq<RawCellView>, cols: nat)
    ensures
        leading_in_row(raws, cols) == raws.len() || raws[leading_in_row(raws, cols) as int].index
            >= cols,
    decreases raws.len(),
{
    if raws.len() > 0 && raws[0].index < cols {
        let rest = raws.drop_first();
        lemma_leading_extends(rest, cols);
        lemma_leading_below_cols(rest, cols);
        let k = leading_in_row(rest, cols);
        assert(leading_in_row(raws, cols) == 1 + k);
        if k < rest.len() {
            assert(raws[1 + k as int] == rest[k as int]);
        }
    }
}

/// A line index that falls outside the engine's lines reads as blank cells.
pub fn blank_row_cells(cols: usize) -> (row: Vec<GridCell>)
    ensures
        cells_view(row@) == blank_row(cols as nat),
{
    let mut row: Vec<GridCell> = Vec::new();
    let mut k: usize = 0;
    while k < cols
        invariant
            k <= cols,
            cells_view(row@) == blank_row(k as nat),
        decreases cols - k,
    {
        let ghost prev = row@;
        let c = blank_cell();
        row.push(c);
        k = k + 1;
        proof {
            lemma_cells_view_push(prev, c);
            assert(blank_row(k as nat) =~= blank_row((k - 1) as nat).push(blank_view()));
        }
    }
    row
}

pub open spec fn saturating_sub_spec(a: usize, b: usize) -> usize {
    if a >= b { (a - b) as usize } else { 0 }
}

/// The scrollback depth: the engine counts scrollback and visible rows together, so the
/// visible rows are taken off.
pub fn history_size_of(total_rows: usize, physical_rows: usize) -> (n: usize)
    ensures
        n == saturating_sub_spec(total_rows, physical_rows),
{
    if total_rows >= physical_rows {
        total_rows - physical_rows
    } else {
        0
    }
}

/// The engine line index that a contract line reads (`0..rows` is the visible screen,
/// negative lines are scrollback): the scrollback depth, as a 32-bit count, plus `line`.
pub open spec fn line_slot_index(total_rows: usize, physical_rows: usize, line: i32) -> int {
    (saturating_sub_spec(total_rows, physical_rows) as i32) + line
}

/// Which engine line a contract line reads, or none when it falls outside the engine's
/// lines (and reads as blank).
pub fn line_slot(total_rows: usize, physical_rows: usize, line: i32) -> (slot: Option<usize>)
    requires
        i32::MIN <= line_slot_index(total_rows, physical_rows, line) <= i32::MAX,
    ensures
        match slot {
            Some(s) => s == line_slot_index(total_rows, physical_rows, line) && s < total_rows,
            None => line_slot_index(total_rows, physical_rows, line) < 0
                || line_slot_index(total_rows, physical_rows, line) >= total_rows,
        },
{
    let hist = history_size_of(total_rows, physical_rows) as i32;
    let idx = hist + line;
    if idx < 0 || idx as usize >= total_rows {
        None
    } else {
        Some(idx as usize)
    }
}

/// The cursor as (row, column) on the screen; a row above the screen reads as row 0.
pub fn cursor_of(y: i64, x: usize) -> (c: (usize, usize))
    ensures
        c == ((if y < 0 { 0 } else { y }) as usize, x),
{
    let row = if y < 0 { 0 } else { y };
    (row as usize, x)
}

/// The grid size an engine is created or resized with: each side at least one cell.
pub fn grid_extent(cols: u16, rows: u16) -> (e: (u16, u16))
    ensures
        e == ((if cols < 1 { 1 } else { cols }) as u16, (if rows < 1 { 1 } else { rows }) as u16),
{
    (if cols < 1 { 1 } else { cols }, if rows < 1 { 1 } else { rows })
}

/// The engine's cursor shapes.
#[derive(Debug, Clone, Copy, PartialEq, Eq, Structural)]
pub enum EngineCursorShape {
    Default,
    BlinkingBlock,
    SteadyBlock,
    BlinkingUnderline,
    SteadyUnderline,
    BlinkingBar,
    SteadyBar,
}

/// The contract's cursor shapes.
#[derive(Debug, Clone, Copy, PartialEq, Eq, Structural)]
pub enum CursorShape {
    Block,
    Underline,
    Bar,
}

/// The contract's cursor style.
#[derive(Debug, Clone, Copy, PartialEq, Eq, Structural)]
pub struct CursorStyle {
    pub shape: CursorShape,
    pub blinking: bool,
}

pub open spec fn cursor_style_spec(s: EngineCursorShape) -> CursorStyle {
    match s {
        EngineCursorShape::Default => CursorStyle { shape: CursorShape::Block, blinking: false },
        EngineCursorShape::SteadyBlock => CursorStyle { shape: CursorShape::Block, blinking: false },
        EngineCursorShape::BlinkingBlock => CursorStyle { shape: CursorShape::Block, blinking: true },
        EngineCursorShape::SteadyUnderline => CursorStyle { shape: CursorShape::Underline, blinking: false },
        EngineCursorShape::BlinkingUnderline => CursorStyle { shape: CursorShape::Underline, blinking: true },
        EngineCursorShape::SteadyBar => CursorStyle { shape: CursorShape::Bar, blinking: false },
        EngineCursorShape::BlinkingBar => CursorStyle { shape: CursorShape::Bar, blinking: true },
    }
}

/// The contract cursor style of the engine's cursor shape; the configured default is the
/// documented steady block.
pub fn cursor_style_of(s: EngineCursorShape) -> (c: CursorStyle)
    ensures
        c == cursor_style_spec(s),
        c.blinking <==> (s == EngineCursorShape::BlinkingBlock || s == EngineCursorShape::BlinkingUnderline
            || s == EngineCursorShape::BlinkingBar),
        c.shape == CursorShape::Block <==> (s == EngineCursorShape::Default || s == EngineCursorShape::SteadyBlock
            || s == EngineCursorShape::BlinkingBlock),
        c.shape == CursorShape::Underline <==> (s == EngineCursorShape::SteadyUnderline
            || s == EngineCursorShape::BlinkingUnderline),
        c.shape == CursorShape::Bar <==> (s == EngineCursorShape::SteadyBar || s == EngineCursorShape::BlinkingBar),
{
    match s {
        EngineCursorShape::Default | EngineCursorShape::SteadyBlock => CursorStyle {
            shape: CursorShape::Block,
            blinking: false,
        },
        EngineCursorShape::BlinkingBlock => CursorStyle { shape: CursorShape::Block, blinking: true },
        EngineCursorShape::SteadyUnderline => CursorStyle {
            shape: CursorShape::Underline,
            blinking: false,
        },
        EngineCursorShape::BlinkingUnderline => CursorStyle {
            shape: CursorShape::Underline,
            blinking: true,
        },
        EngineCursorShape::SteadyBar => CursorStyle { shape: CursorShape::Bar, blinking: false },
        EngineCursorShape::BlinkingBar => CursorStyle { shape: CursorShape::Bar, blinking: true },
    }
}

/// The cursor style keeps the engine's shape family and its blink state: a blinking
/// variant blinks and a steady one does not, and the configured default is a steady block.
pub proof fn lemma_cursor_style(s: EngineCursorShape)
    ensures
        cursor_style_spec(s).blinking <==> (s == EngineCursorShape::BlinkingBlock
            || s == EngineCursorShape::BlinkingUnderline || s == EngineCursorShape::BlinkingBar),
        cursor_style_spec(s).shape == CursorShape::Block <==> (s == EngineCursorShape::Default
            || s == EngineCursorShape::SteadyBlock || s == EngineCursorShape::BlinkingBlock),
        cursor_style_spec(s).shape == CursorShape::Underline <==> (s
            == EngineCursorShape::SteadyUnderline || s == EngineCursorShape::BlinkingUnderline),
        cursor_style_spec(s).shape == CursorShape::Bar <==> (s == EngineCursorShape::SteadyBar
            || s == EngineCursorShape::BlinkingBar),
        cursor_style_spec(EngineCursorShape::Default) == cursor_style_spec(EngineCursorShape::SteadyBlock),
{
}

/// The renderer's cursor blink animation.
#[derive(Debug, Clone, Copy, PartialEq, Eq, Structural)]
pub struct CursorAnimation {
    pub interval_ms: u32,
}

/// The engine's cursor blink interval: 800 ms.
pub fn cursor_animation() -> (a: CursorAnimation)
    ensures
        a.interval_ms == 800,
{
    CursorAnimation { interval_ms: 800 }
}

/// An 8-bit sRGB color.
#[derive(Debug, Clone, Copy, PartialEq, Eq, Structural)]
pub struct Rgb {
    pub r: u8,
    pub g: u8,
    pub b: u8,
}

/// The number of ANSI palette slots a theme override can set.
pub const ANSI_SLOTS: usize = 16;

/// Explicit color overrides (OSC 4/10/11/12) still in force.
pub struct ThemeOverrides {
    pub foreground: Option<Rgb>,
    pub background: Option<Rgb>,
    pub cursor: Option<Rgb>,
    /// One slot per ANSI color 0..16.
    pub ansi: Vec<Option<Rgb>>,
}

/// The theme overrides from the engine's override state: the three special colors as
/// they are, and each ANSI slot from the engine's palette override at the same index
/// (slots past the engine's palette stay unset).
pub fn theme_overrides_of(
    foreground: Option<Rgb>,
    background: Option<Rgb>,
    cursor: Option<Rgb>,
    palette: &Vec<Option<Rgb>>,
) -> (t: ThemeOverrides)
    ensures
        t.foreground == foreground,
        t.background == background,
        t.cursor == cursor,
        t.ansi@.len() == ANSI_SLOTS,
        forall|i: int|
            0 <= i < ANSI_SLOTS ==> #[trigger] t.ansi@[i] == (if i < palette@.len() {
                palette@[i]
            } else {
                None
            }),
{
    let mut ansi: Vec<Option<Rgb>> = Vec::new();
    let mut i: usize = 0;
    while i < ANSI_SLOTS
        invariant
            i <= ANSI_SLOTS,
            ansi@.len() == i,
            forall|j: int|
                0 <= j < i ==> #[trigger] ansi@[j] == (if j < palette@.len() {
                    palette@[j]
                } else {
                    None
                }),
        decreases ANSI_SLOTS - i,
    {
        if i < palette.len() {
            ansi.push(palette[i]);
        } else {
            ansi.push(None);
        }
        i = i + 1;
    }
    ThemeOverrides { foreground, background, cursor, ansi }
}

} // verus!
