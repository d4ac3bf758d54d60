use std::sync::atomic::{AtomicU8, Ordering};
use vstd::prelude::*;
use vstd::view::View as ModelView;

use crate::text::str_eq;

verus! {

/// The four ways the ping results can be displayed.
#[derive(Debug, Clone, Copy, PartialEq, Eq, Structural)]
pub enum View {
    Graph,
    Table,
    Point,
    Sparkline,
}

impl View {
    /// The byte that stands for a view in a shared slot.
    pub open spec fn code(self) -> u8 {
        match self {
            View::Graph => 0,
            View::Table => 1,
            View::Point => 2,
            View::Sparkline => 3,
        }
    }

    /// The view a byte stands for; bytes above 3 fall back to the graph view.
    pub open spec fn of_code(v: u8) -> View {
        if v == 1 {
            View::Table
        } else if v == 2 {
            View::Point
        } else if v == 3 {
            View::Sparkline
        } else {
            View::Graph
        }
    }

    /// The lower-case name of a view.
    pub open spec fn label(self) -> Seq<char> {
        match self {
            View::Graph => "graph"@,
            View::Table => "table"@,
            View::Point => "point"@,
            View::Sparkline => "sparkline"@,
        }
    }

    /// The view whose name is `s`, if any.
    pub open spec fn parse(s: Seq<char>) -> Option<View> {
        if s == "graph"@ {
            Some(View::Graph)
        } else if s == "table"@ {
            Some(View::Table)
        } else if s == "point"@ {
            Some(View::Point)
        } else if s == "sparkline"@ {
            Some(View::Sparkline)
        } else {
            None
        }
    }

    /// The view that follows this one in the cycle graph, table, point, sparkline.
    pub open spec fn successor(self) -> View {
        match self {
            View::Graph => View::Table,
            View::Table => View::Point,
            View::Point => View::Sparkline,
            View::Sparkline => View::Graph,
        }
    }

    /// Parses a view name (`graph`, `table`, `point` or `sparkline`).
    pub fn from_str(s: &str) -> (r: Option<View>)
        ensures
            r == View::parse(s@),
    {
        if str_eq(s, "graph") {
            Some(View::Graph)
        } else if str_eq(s, "table") {
            Some(View::Table)
        } else if str_eq(s, "point") {
            Some(View::Point)
        } else if str_eq(s, "sparkline") {
            Some(View::Sparkline)
        } else {
            None
        }
    }

    /// Decodes a view from its byte; unknown bytes give the graph view.
    pub fn from_u8(v: u8) -> (r: View)
        ensures
            r == View::of_code(v),
    {
        match v {
            0 => View::Graph,
            1 => View::Table,
            2 => View::Point,
            3 => View::Sparkline,
            _ => View::Graph,
        }
    }

    /// Encodes a view as its byte.
    pub fn to_u8(self) -> (r: u8)
        ensures
            r == self.code(),
    {
        match self {
            View::Graph => 0,
            View::Table => 1,
            View::Point => 2,
            View::Sparkline => 3,
        }
    }

    /// The lower-case name of the view.
    pub fn name(self) -> (r: &'static str)
        ensures
            r@ == self.label(),
    {
        match self {
            View::Graph => "graph",
            View::Table => "table",
            View::Point => "point",
            View::Sparkline => "sparkline",
        }
    }

    /// The next view in the cycle, found by decoding the following byte modulo four.
    pub fn next(self) -> (r: View)
        ensures
            r == self.successor(),
            r == View::of_code(((self.code() + 1) % 4) as u8),
    {
        let c = self.to_u8();
        View::from_u8((c + 1) % 4)
    }
}

/// Reads the view held in a shared slot: the view its byte decodes to.
///
/// The slot's byte is set by other threads and is not modelled, so no clause
/// states which view comes back; `View::from_u8` states the decoding.
pub fn load_view(slot: &AtomicU8) -> View {
    let b = slot.load(Ordering::Relaxed);
    View::from_u8(b)
}

/// Writes the byte of `view` into a shared slot.
///
/// The slot's content is not modelled, so no clause states what it holds
/// afterwards; `View::to_u8` states the byte written.
pub fn store_view(slot: &AtomicU8, view: View) {
    let b = view.to_u8();
    slot.store(b, Ordering::Relaxed);
}

/// Decoding the byte of a view gives the view back: what `store_view` writes,
/// `load_view` reads as the same view.
pub proof fn lemma_view_code_roundtrip(v: View)
    ensures
        View::of_code(v.code()) == v,
{
}

/// The name of every view parses back to that view.
pub proof fn lemma_view_name_roundtrip(v: View)
    ensures
        View::parse(v.label()) == Some(v),
{
    reveal_strlit("graph");
    reveal_strlit("table");
    reveal_strlit("point");
    reveal_strlit("sparkline");
    assert("graph"@[0] != "table"@[0]);
    assert("graph"@[0] != "point"@[0]);
    assert("graph"@[0] != "sparkline"@[0]);
    assert("table"@[0] != "point"@[0]);
    assert("table"@[0] != "sparkline"@[0]);
    assert("point"@[0] != "sparkline"@[0]);
}

/// Four steps of `next` come back to the starting view, and the four views
/// reached on the way are all different.
pub proof fn lemma_view_cycle(v: View)
    ensures
        v.successor().successor().successor().successor() == v,
        v.successor() != v,
        v.successor().successor() != v,
        v.successor().successor().successor() != v,
{
}

} // verus!
