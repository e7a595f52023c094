//! Screen geometry: the rectangles the interface is drawn into, split by ratatui's
//! constraint solver.
use vstd::prelude::*;
use ratatui::layout::{
    Constraint as TuiConstraint, Direction as TuiDirection, Layout as TuiLayout, Rect as TuiRect,
};

verus! {

/// A rectangle of terminal cells.
#[derive(Clone, Copy, PartialEq, Eq, Structural, Debug)]
pub struct Rect {
    pub x: u16,
    pub y: u16,
    pub width: u16,
    pub height: u16,
}

/// A size rule for one part of a split.
#[derive(Clone, Copy, PartialEq, Eq, Structural, Debug)]
pub enum Constraint {
    /// At least this many cells.
    Min(u16),
    /// Exactly this many cells.
    Length(u16),
    /// This percentage of the whole.
    Percentage(u16),
}

/// What ratatui's `Layout::split` returns for an area, constraints and direction
/// (`vertical`: stacked top to bottom, else side by side left to right).
pub uninterp spec fn split_spec(area: Rect, constraints: Seq<Constraint>, vertical: bool) -> Seq<
    Rect,
>;

/// `ratatui::layout::Layout::new(direction, constraints).split(area)`, with no margin and
/// no spacing. The result is the named `split_spec`; the crate's source (`try_split`,
/// `changes_to_rects`) makes one rectangle per constraint and keeps the area's extent
/// across the split direction: for a vertical split each part has the area's `x` and
/// `width`, for a horizontal one its `y` and `height`. Where the parts lie along the split
/// direction is left to the solver and not stated.
#[verifier::external_body]
fn split(area: Rect, constraints: &Vec<Constraint>, vertical: bool) -> (r: Vec<Rect>)
    ensures
        r@ == split_spec(area, constraints@, vertical),
        r@.len() == constraints@.len(),
        forall|i: int|
            0 <= i < r@.len() ==> (if vertical {
                (#[trigger] r@[i]).x == area.x && r@[i].width == area.width
            } else {
                r@[i].y == area.y && r@[i].height == area.height
            }),
{
    let cs = constraints.iter().map(|c| match *c {
        Constraint::Min(n) => TuiConstraint::Min(n),
        Constraint::Length(n) => TuiConstraint::Length(n),
        Constraint::Percentage(n) => TuiConstraint::Percentage(n),
    });
    let dir = if vertical { TuiDirection::Vertical } else { TuiDirection::Horizontal };
    let a = TuiRect { x: area.x, y: area.y, width: area.width, height: area.height };
    let parts = TuiLayout::new(dir, cs).split(a);
    parts.iter().map(|r| Rect { x: r.x, y: r.y, width: r.width, height: r.height }).collect()
}

/// The constraints of the screen's rows: content, now-playing bar (4), tab bar (1),
/// status bar (1).
pub open spec fn screen_rows() -> Seq<Constraint> {
    seq![Constraint::Min(0), Constraint::Length(4), Constraint::Length(1), Constraint::Length(1)]
}

/// The two equal halves of a row.
pub open spec fn halves() -> Seq<Constraint> {
    seq![Constraint::Percentage(50), Constraint::Percentage(50)]
}

/// The columns of the now-playing bar: info 30%, controls 40%, progress 30%.
pub open spec fn bar_columns() -> Seq<Constraint> {
    seq![Constraint::Percentage(30), Constraint::Percentage(40), Constraint::Percentage(30)]
}

/// The browser columns: artists 30%, albums 35%, tracks 35%.
pub open spec fn browser_columns() -> Seq<Constraint> {
    seq![Constraint::Percentage(30), Constraint::Percentage(35), Constraint::Percentage(35)]
}

/// The areas of the screen, top to bottom.
#[derive(Clone, Copy, PartialEq, Eq, Structural, Debug)]
pub struct LayoutAreas {
    pub center: Rect,
    pub now_playing: Rect,
    /// Tab indicator bar: one row, between the now-playing bar and the status bar.
    pub tab_bar: Rect,
    pub status_bar: Rect,
}

/// The areas of the screen, computed by `split_spec`.
pub open spec fn layout_spec(area: Rect) -> LayoutAreas {
    let c = split_spec(area, screen_rows(), true);
    LayoutAreas { center: c[0], now_playing: c[1], tab_bar: c[2], status_bar: c[3] }
}

/// The areas of the screen for every tab:
///   content (fill) | now-playing bar (4) | tab bar (1) | status bar (1)
pub fn build_layout(area: Rect) -> (r: LayoutAreas)
    ensures
        r == layout_spec(area),
        r.center.x == area.x && r.center.width == area.width,
        r.now_playing.x == area.x && r.now_playing.width == area.width,
{
    let mut cs: Vec<Constraint> = Vec::new();
    cs.push(Constraint::Min(0));
    cs.push(Constraint::Length(4));
    cs.push(Constraint::Length(1));
    cs.push(Constraint::Length(1));
    assert(cs@ == screen_rows());
    let c = split(area, &cs, true);
    assert(c@[0].x == area.x && c@[1].x == area.x);
    LayoutAreas { center: c[0], now_playing: c[1], tab_bar: c[2], status_bar: c[3] }
}

/// The NowPlaying tab's content area (without the tab bar row).
pub struct NowPlayingAreas {
    pub center: Rect,
}

/// The constraints of the NowPlaying tab's rows: content, now-playing bar (4), status (1).
pub open spec fn nowplaying_rows() -> Seq<Constraint> {
    seq![Constraint::Min(0), Constraint::Length(4), Constraint::Length(1)]
}

/// NowPlaying tab: art and queue (fill) | now-playing bar (4) | status bar (1).
pub fn build_nowplaying(area: Rect) -> (r: NowPlayingAreas)
    ensures
        r.center == split_spec(area, nowplaying_rows(), true)[0],
{
    let mut cs: Vec<Constraint> = Vec::new();
    cs.push(Constraint::Min(0));
    cs.push(Constraint::Length(4));
    cs.push(Constraint::Length(1));
    assert(cs@ == nowplaying_rows());
    let c = split(area, &cs, true);
    NowPlayingAreas { center: c[0] }
}

/// Splits an area into two halves side by side.
fn split_halves(area: Rect) -> (r: (Rect, Rect))
    ensures
        r.0 == split_spec(area, halves(), false)[0],
        r.1 == split_spec(area, halves(), false)[1],
        r.0.y == area.y && r.0.height == area.height,
        r.1.y == area.y && r.1.height == area.height,
{
    let mut cs: Vec<Constraint> = Vec::new();
    cs.push(Constraint::Percentage(50));
    cs.push(Constraint::Percentage(50));
    assert(cs@ == halves());
    let c = split(area, &cs, false);
    (c[0], c[1])
}

/// Splits the NowPlaying content into `[album art | queue column]` (50/50).
pub fn now_playing_split_center(center: Rect) -> (r: (Rect, Rect))
    ensures
        r.0 == split_spec(center, halves(), false)[0],
        r.1 == split_spec(center, halves(), false)[1],
        r.1.y == center.y && r.1.height == center.height,
{
    split_halves(center)
}

/// The rows of the queue column when lyrics or the visualizer share it: 75% / 25%.
pub open spec fn queue_rows() -> Seq<Constraint> {
    seq![Constraint::Percentage(75), Constraint::Percentage(25)]
}

/// The queue widget: the whole right column, or its top 75% when lyrics or the
/// visualizer take the rest.
pub fn now_playing_queue_widget_rect(center: Rect, lyrics_visible: bool, visualizer_visible: bool) -> (r:
    Rect)
    ensures
        r == (if lyrics_visible || visualizer_visible {
            split_spec(split_spec(center, halves(), false)[1], queue_rows(), true)[0]
        } else {
            split_spec(center, halves(), false)[1]
        }),
{
    let (_, queue_col) = now_playing_split_center(center);
    if lyrics_visible || visualizer_visible {
        let mut cs: Vec<Constraint> = Vec::new();
        cs.push(Constraint::Percentage(75));
        cs.push(Constraint::Percentage(25));
        assert(cs@ == queue_rows());
        let rows = split(queue_col, &cs, true);
        rows[0]
    } else {
        queue_col
    }
}

/// The album-art area for a terminal of the given size: the left half of the NowPlaying
/// content.
pub fn art_rect(terminal_size: Rect) -> (r: Rect)
    ensures
        r == split_spec(split_spec(terminal_size, nowplaying_rows(), true)[0], halves(), false)[0],
{
    let areas = build_nowplaying(terminal_size);
    let (left, _) = split_halves(areas.center);
    left
}

/// Splits the now-playing bar into its info, controls and progress columns.
pub fn bar_split(bar: Rect) -> (r: Vec<Rect>)
    ensures
        r@ == split_spec(bar, bar_columns(), false),
        r@.len() == 3,
        forall|i: int| 0 <= i < 3 ==> (#[trigger] r@[i]).y == bar.y && r@[i].height == bar.height,
{
    let mut cs: Vec<Constraint> = Vec::new();
    cs.push(Constraint::Percentage(30));
    cs.push(Constraint::Percentage(40));
    cs.push(Constraint::Percentage(30));
    assert(cs@ == bar_columns());
    split(bar, &cs, false)
}

/// Splits the browser content into its artist, album and track columns.
pub fn browser_split(center: Rect) -> (r: Vec<Rect>)
    ensures
        r@ == split_spec(center, browser_columns(), false),
        r@.len() == 3,
        forall|i: int|
            0 <= i < 3 ==> (#[trigger] r@[i]).y == center.y && r@[i].height == center.height,
{
    let mut cs: Vec<Constraint> = Vec::new();
    cs.push(Constraint::Percentage(30));
    cs.push(Constraint::Percentage(35));
    cs.push(Constraint::Percentage(35));
    assert(cs@ == browser_columns());
    split(center, &cs, false)
}

} // verus!
