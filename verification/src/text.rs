//! Greedy line breaking of text inside a rectangle. The caller measures, this
//! module decides: which text stays on the line, which line is complete, and
//! where each line's baseline lies.

use vstd::prelude::*;
use vstd::string::StringExecFns;
use crate::geometry::{clamp_coord, saturate, Rect};

verus! {

/// The distance between two baselines: six fifths of the font size.
pub open spec fn line_advance(font_size: u16) -> int {
    font_size * 6 / 5
}

/// A line under construction inside `rect`.
pub struct TextFlow {
    line: String,
    y: i32,
    rect: Rect,
    font_size: u16,
}

/// A flow as contracts see it.
pub struct TextFlowView {
    /// The text gathered on the current line.
    pub line: Seq<char>,
    /// The baseline of the current line.
    pub y: i32,
    pub rect: Rect,
    pub font_size: u16,
}

/// A finished line and the point to draw it at.
pub struct TextLine {
    pub text: String,
    pub x: i32,
    pub y: i32,
}

/// A finished line as contracts see it.
pub struct TextLineView {
    pub text: Seq<char>,
    pub x: i32,
    pub y: i32,
}

impl View for TextLine {
    type V = TextLineView;

    open spec fn view(&self) -> TextLineView {
        TextLineView { text: self.text@, x: self.x, y: self.y }
    }
}

/// The views of an optional line.
pub open spec fn line_view(line: Option<TextLine>) -> Option<TextLineView> {
    match line {
        Some(l) => Some(l@),
        None => None,
    }
}

/// The line with one more unit: the unit alone on an empty line, else the
/// line, the separator and the unit.
pub open spec fn joined(line: Seq<char>, separator: Seq<char>, unit: Seq<char>) -> Seq<char> {
    if line.len() == 0 {
        unit
    } else {
        line + separator + unit
    }
}

impl TextFlowView {
    /// The current line drawn where it stands.
    pub open spec fn current(self) -> TextLineView {
        TextLineView { text: self.line, x: self.rect.x, y: self.y }
    }

    /// The baseline has gone below the rectangle.
    pub open spec fn overflowed(self) -> bool {
        self.y > self.rect.bottom()
    }

    /// The flow after a unit whose candidate line measured `width`. A
    /// candidate narrower than the rectangle becomes the line. Otherwise the
    /// line so far is complete, and the unit starts the next line, one line
    /// advance further down.
    pub open spec fn placed(self, unit: Seq<char>, candidate: Seq<char>, width: int)
        -> TextFlowView {
        if width < self.rect.w {
            TextFlowView { line: candidate, ..self }
        } else {
            TextFlowView {
                line: unit,
                y: clamp_coord(self.y + line_advance(self.font_size)) as i32,
                ..self
            }
        }
    }

    /// The line that placing a unit completes, if it completes one.
    pub open spec fn completed(self, width: int) -> Option<TextLineView> {
        if width < self.rect.w {
            None
        } else {
            Some(self.current())
        }
    }

    /// What is left to draw once the text has run out: the current line,
    /// unless it is empty or lies below the rectangle.
    pub open spec fn remainder(self) -> Option<TextLineView> {
        if self.line.len() > 0 && !self.overflowed() {
            Some(self.current())
        } else {
            None
        }
    }
}

impl View for TextFlow {
    type V = TextFlowView;

    closed spec fn view(&self) -> TextFlowView {
        TextFlowView { line: self.line@, y: self.y, rect: self.rect, font_size: self.font_size }
    }
}

impl TextFlow {
    /// An empty first line, its baseline one font size below the top border.
    pub fn new(rect: Rect, font_size: u16) -> (flow: TextFlow)
        ensures
            flow@ == (TextFlowView {
                line: Seq::empty(),
                y: clamp_coord(rect.y + font_size) as i32,
                rect,
                font_size,
            }),
    {
        TextFlow { line: String::new(), y: saturate(rect.y as i64 + font_size as i64), rect, font_size }
    }

    /// The line to measure before `unit` is placed.
    pub fn candidate(&self, unit: &str, separator: &str) -> (text: String)
        ensures
            text@ == joined(self@.line, separator@, unit@),
    {
        if self.line.as_str().is_empty() {
            unit.to_owned()
        } else {
            self.line.clone().concat(separator).concat(unit)
        }
    }

    /// Places `unit`, given its candidate line and the width that line
    /// measured. Hands back the line that this completes, if any.
    pub fn place(&mut self, unit: &str, candidate: String, width: i32) -> (done: Option<TextLine>)
        ensures
            final(self)@ == old(self)@.placed(unit@, candidate@, width as int),
            line_view(done) == old(self)@.completed(width as int),
    {
        if width < self.rect.w {
            self.line = candidate;
            None
        } else {
            let done = TextLine { text: self.line.clone(), x: self.rect.x, y: self.y };
            self.line = unit.to_owned();
            self.y = saturate(self.y as i64 + self.font_size as i64 * 6 / 5);
            Some(done)
        }
    }

    /// Whether the baseline has gone below the rectangle, so that nothing
    /// further will fit.
    pub fn overflowed(&self) -> (over: bool)
        ensures
            over == self@.overflowed(),
    {
        self.y as i64 > self.rect.y as i64 + self.rect.h as i64
    }

    /// The last line, once the text has run out.
    pub fn finish(&self) -> (last: Option<TextLine>)
        ensures
            line_view(last) == self@.remainder(),
    {
        if !self.line.as_str().is_empty() && !self.overflowed() {
            Some(TextLine { text: self.line.clone(), x: self.rect.x, y: self.y })
        } else {
            None
        }
    }
}

} // verus!
