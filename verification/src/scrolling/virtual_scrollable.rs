//! Scrolling that only builds the content that is visible.
use std::ops::Range;

use vstd::prelude::*;

use crate::geometry::{Rectangle, Size};
use crate::scalar::{zero, Arithmetic, Scalar};
use crate::scrolling::scrollable::{plain_scrollbar, Anchor, Direction, Scrollbar, Status};

pub mod draw;
pub mod draw_laws;
pub mod event_laws;
pub mod exact_laws;
pub mod frame;
pub mod internals;
pub mod laws;
pub mod layout;
pub mod motion_laws;
pub mod notify;
pub mod offset;
pub mod react;
pub mod scene;
pub mod scrollbar_laws;
pub mod scrollbars;
pub mod state;
pub mod turned_laws;
pub mod update;

verus! {

/// How much space a widget asks for along one axis.
#[derive(Clone, Copy, Debug)]
pub enum Length<S> {
    Fill,
    FillPortion(u16),
    Shrink,
    Fixed(S),
}

/// A scrollable that only builds the content that is visible.
#[derive(Debug)]
pub struct VirtualScrollable<S, V, F, C, I> {
    pub id: Option<I>,
    pub width: Length<S>,
    pub height: Length<S>,
    pub direction: Direction<S>,
    /// The size of all content; an extent that is not positive stands for that of the widget.
    pub content_size: Size<S>,
    /// Builds the content of a viewport.
    pub view: V,
    /// Makes a message of a viewport that was scrolled to.
    pub on_scroll: Option<F>,
    /// Whether the middle button starts scrolling away from the cursor.
    pub auto_scroll: bool,
    pub class: C,
    pub last_status: Option<Status<S>>,
    /// The height of rows, where the content consists of rows.
    pub row_height: Option<S>,
    /// The number of rows, where the content consists of rows.
    pub total_rows: Option<usize>,
    /// A key that changes with the data behind the content.
    pub cache_key: u64,
    /// The viewport of the content that is kept.
    pub cached_content: Option<Rectangle<S>>,
}

/// The first row of a viewport.
pub open spec fn first_row<S: Arithmetic>(row_height: S, viewport: Rectangle<S>) -> int {
    viewport.y.quotient(row_height).floor_index() as int
}

/// The end of the rows of a viewport, with one more row for smooth scrolling.
pub open spec fn end_row<S: Arithmetic>(row_height: S, viewport: Rectangle<S>) -> int {
    viewport.y.sum(viewport.height).quotient(row_height).ceil_index() + 1
}

/// The rows of a viewport: the first one, and the end of those that exist.
pub open spec fn row_range<S: Arithmetic>(
    row_height: S,
    total_rows: usize,
    viewport: Rectangle<S>,
) -> (int, int) {
    let end = end_row(row_height, viewport);
    (
        first_row(row_height, viewport),
        if end < total_rows {
            end
        } else {
            total_rows as int
        },
    )
}

/// Gives the rows that are visible in a viewport.
pub fn visible_rows<S: Scalar>(row_height: S, total_rows: usize, viewport: Rectangle<S>) -> (r:
    Range<usize>)
    ensures
        (r.start as int, r.end as int) == row_range(row_height, total_rows, viewport),
{
    let first: usize = viewport.y.over(row_height).to_floor_index();
    let last: usize = viewport.y.plus(viewport.height).over(row_height).to_ceil_index();
    if last < total_rows && last + 1 < total_rows {
        first..last + 1
    } else {
        first..total_rows
    }
}

/// Makes a scrollable for rows of one height.
pub fn show_rows<S: Scalar, V, F, C, I>(row_height: S, total_rows: usize, view: V, class: C) -> (r:
    VirtualScrollable<S, V, F, C, I>)
    ensures
        r == VirtualScrollable::<S, V, F, C, I>::plain(
            Size { width: zero(), height: row_height.product(S::count(total_rows as int)) },
            view,
            class,
            Some((row_height, total_rows)),
        ),
{
    VirtualScrollable::with_rows(row_height, total_rows, view, class)
}

/// A direction with the horizontal anchor set, where it has one.
pub open spec fn anchored_x<S>(direction: Direction<S>, alignment: Anchor) -> Direction<S> {
    match direction {
        Direction::Vertical(vertical) => Direction::Vertical(vertical),
        Direction::Horizontal(horizontal) => Direction::Horizontal(
            Scrollbar { alignment, ..horizontal },
        ),
        Direction::Both { vertical, horizontal } => Direction::Both {
            vertical,
            horizontal: Scrollbar { alignment, ..horizontal },
        },
    }
}

/// A direction with the vertical anchor set, where it has one.
pub open spec fn anchored_y<S>(direction: Direction<S>, alignment: Anchor) -> Direction<S> {
    match direction {
        Direction::Vertical(vertical) => Direction::Vertical(Scrollbar { alignment, ..vertical }),
        Direction::Horizontal(horizontal) => Direction::Horizontal(horizontal),
        Direction::Both { vertical, horizontal } => Direction::Both {
            vertical: Scrollbar { alignment, ..vertical },
            horizontal,
        },
    }
}

impl<S: Arithmetic, V, F, C, I> VirtualScrollable<S, V, F, C, I> {
    /// A scrollable of which nothing but its content is set.
    pub open spec fn plain(
        content_size: Size<S>,
        view: V,
        class: C,
        rows: Option<(S, usize)>,
    ) -> Self {
        VirtualScrollable {
            id: None,
            width: Length::Fill,
            height: Length::Fill,
            direction: Direction::Vertical(plain_scrollbar()),
            content_size,
            view,
            on_scroll: None,
            auto_scroll: false,
            class,
            last_status: None,
            row_height: match rows {
                Some((row_height, _)) => Some(row_height),
                None => None,
            },
            total_rows: match rows {
                Some((_, total_rows)) => Some(total_rows),
                None => None,
            },
            cache_key: 0,
            cached_content: None,
        }
    }

    /// The rows that are built for a viewport, where the content consists of rows.
    pub open spec fn rows_of(self, viewport: Rectangle<S>) -> Option<(int, int)> {
        match (self.row_height, self.total_rows) {
            (Some(row_height), Some(total_rows)) => Some(
                row_range(row_height, total_rows, viewport),
            ),
            _ => None,
        }
    }
}

impl<S: Scalar, V, F, C, I> VirtualScrollable<S, V, F, C, I> {
    /// Makes a scrollable for content of a known size.
    pub fn new(content_size: Size<S>, view: V, class: C) -> (r: Self)
        ensures
            r == Self::plain(content_size, view, class, None),
    {
        VirtualScrollable {
            id: None,
            width: Length::Fill,
            height: Length::Fill,
            direction: Direction::Vertical(Scrollbar::plain()),
            content_size,
            view,
            on_scroll: None,
            auto_scroll: false,
            class,
            last_status: None,
            row_height: None,
            total_rows: None,
            cache_key: 0,
            cached_content: None,
        }
    }

    /// Makes a scrollable for rows of one height. They are as wide as the widget.
    pub fn with_rows(row_height: S, total_rows: usize, view: V, class: C) -> (r: Self)
        ensures
            r == Self::plain(
                Size { width: zero(), height: row_height.product(S::count(total_rows as int)) },
                view,
                class,
                Some((row_height, total_rows)),
            ),
    {
        let total_height: S = row_height.times(S::from_count(total_rows));
        let mut this: Self = Self::new(
            Size { width: S::ratio(0, 1), height: total_height },
            view,
            class,
        );
        this.row_height = Some(row_height);
        this.total_rows = Some(total_rows);
        this
    }

    /// Gives the rows that are built for a viewport, where the content consists of rows.
    pub fn rows_in(&self, viewport: Rectangle<S>) -> (r: Option<Range<usize>>)
        ensures
            (match r {
                Some(rows) => Some((rows.start as int, rows.end as int)),
                None => None,
            }) == self.rows_of(viewport),
    {
        match (self.row_height, self.total_rows) {
            (Some(row_height), Some(total_rows)) => Some(
                visible_rows(row_height, total_rows, viewport),
            ),
            _ => None,
        }
    }

    /// Sets whether the middle button starts scrolling away from the cursor.
    pub fn auto_scroll(self, auto_scroll: bool) -> (r: Self)
        ensures
            r == (VirtualScrollable { auto_scroll, ..self }),
    {
        let mut this: Self = self;
        this.auto_scroll = auto_scroll;
        this
    }

    /// Makes the content scroll horizontally.
    pub fn horizontal(self) -> (r: Self)
        ensures
            r == (VirtualScrollable {
                direction: Direction::Horizontal(plain_scrollbar()),
                ..self
            }),
    {
        let mut this: Self = self;
        this.direction = Direction::Horizontal(Scrollbar::plain());
        this
    }

    /// Sets the directions in which the content scrolls.
    pub fn direction(self, direction: Direction<S>) -> (r: Self)
        ensures
            r == (VirtualScrollable { direction, ..self }),
    {
        let mut this: Self = self;
        this.direction = direction;
        this
    }

    /// Sets the identifier.
    pub fn id(self, id: I) -> (r: Self)
        ensures
            r == (VirtualScrollable { id: Some(id), ..self }),
    {
        let mut this: Self = self;
        this.id = Some(id);
        this
    }

    /// Sets the width.
    pub fn width(self, width: Length<S>) -> (r: Self)
        ensures
            r == (VirtualScrollable { width, ..self }),
    {
        let mut this: Self = self;
        this.width = width;
        this
    }

    /// Sets the height.
    pub fn height(self, height: Length<S>) -> (r: Self)
        ensures
            r == (VirtualScrollable { height, ..self }),
    {
        let mut this: Self = self;
        this.height = height;
        this
    }

    /// Sets what makes a message of a viewport that was scrolled to.
    pub fn on_scroll(self, f: F) -> (r: Self)
        ensures
            r == (VirtualScrollable { on_scroll: Some(f), ..self }),
    {
        let mut this: Self = self;
        this.on_scroll = Some(f);
        this
    }

    /// Anchors vertical scrolling to the top.
    pub fn anchor_top(self) -> (r: Self)
        ensures
            r == (VirtualScrollable {
                direction: anchored_y(self.direction, Anchor::Start),
                ..self
            }),
    {
        self.anchor_y(Anchor::Start)
    }

    /// Anchors vertical scrolling to the bottom.
    pub fn anchor_bottom(self) -> (r: Self)
        ensures
            r == (VirtualScrollable {
                direction: anchored_y(self.direction, Anchor::End),
                ..self
            }),
    {
        self.anchor_y(Anchor::End)
    }

    /// Anchors horizontal scrolling to the left.
    pub fn anchor_left(self) -> (r: Self)
        ensures
            r == (VirtualScrollable {
                direction: anchored_x(self.direction, Anchor::Start),
                ..self
            }),
    {
        self.anchor_x(Anchor::Start)
    }

    /// Anchors horizontal scrolling to the right.
    pub fn anchor_right(self) -> (r: Self)
        ensures
            r == (VirtualScrollable {
                direction: anchored_x(self.direction, Anchor::End),
                ..self
            }),
    {
        self.anchor_x(Anchor::End)
    }

    /// Sets the anchor of horizontal scrolling.
    pub fn anchor_x(self, alignment: Anchor) -> (r: Self)
        ensures
            r == (VirtualScrollable {
                direction: anchored_x(self.direction, alignment),
                ..self
            }),
    {
        let mut this: Self = self;
        this.direction = match this.direction {
            Direction::Vertical(vertical) => Direction::Vertical(vertical),
            Direction::Horizontal(horizontal) => Direction::Horizontal(
                Scrollbar { alignment, ..horizontal },
            ),
            Direction::Both { vertical, horizontal } => Direction::Both {
                vertical,
                horizontal: Scrollbar { alignment, ..horizontal },
            },
        };
        this
    }

    /// Sets the anchor of vertical scrolling.
    pub fn anchor_y(self, alignment: Anchor) -> (r: Self)
        ensures
            r == (VirtualScrollable {
                direction: anchored_y(self.direction, alignment),
                ..self
            }),
    {
        let mut this: Self = self;
        this.direction = match this.direction {
            Direction::Vertical(vertical) => Direction::Vertical(
                Scrollbar { alignment, ..vertical },
            ),
            Direction::Horizontal(horizontal) => Direction::Horizontal(horizontal),
            Direction::Both { vertical, horizontal } => Direction::Both {
                vertical: Scrollbar { alignment, ..vertical },
                horizontal,
            },
        };
        this
    }

    /// Sets the style of the scrollable.
    #[must_use]
    pub fn style(self, class: C) -> (r: Self)
        ensures
            r == (VirtualScrollable { class, ..self }),
    {
        self.class(class)
    }

    /// Sets the style class of the scrollable.
    #[must_use]
    pub fn class(self, class: C) -> (r: Self)
        ensures
            r == (VirtualScrollable { class, ..self }),
    {
        let mut this: Self = self;
        this.class = class;
        this
    }

    /// Sets the key that changes with the data behind the content. Content is built again when
    /// the key has changed, even where the viewport has not.
    #[must_use]
    pub fn cache_key(self, key: u64) -> (r: Self)
        ensures
            r == (VirtualScrollable { cache_key: key, ..self }),
    {
        let mut this: Self = self;
        this.cache_key = key;
        this
    }
}

} // verus!
