//! Diagnostics reported to the user: a message and labelled source spans.
use vstd::prelude::*;
use crate::loc::{FileId, Span};

verus! {

/// How serious a diagnostic is.
#[derive(Clone, Copy, Debug, PartialEq, Eq, Structural)]
pub enum Severity {
    Bug,
    Error,
    Warning,
    Note,
    Help,
}

/// Whether a label marks the cause of a diagnostic or only context.
#[derive(Clone, Copy, Debug, PartialEq, Eq, Structural)]
pub enum LabelStyle {
    Primary,
    Secondary,
}

/// A span of a source file with a note about it.
#[derive(Clone, Debug)]
pub struct Label {
    pub style: LabelStyle,
    pub file_id: FileId,
    pub span: Span,
    pub message: String,
}

/// A message with its severity and the labelled spans it refers to.
#[derive(Clone, Debug)]
pub struct Diagnostic {
    pub severity: Severity,
    pub message: String,
    pub labels: Vec<Label>,
}

/// Number of labels of the given style.
pub open spec fn count_style(labels: Seq<Label>, style: LabelStyle) -> nat
    decreases labels.len(),
{
    if labels.len() == 0 {
        0
    } else {
        count_style(labels.drop_last(), style) + if labels.last().style == style {
            1nat
        } else {
            0nat
        }
    }
}

/// `sub` occurs in `s` at some position.
pub open spec fn contains(s: Seq<char>, sub: Seq<char>) -> bool {
    exists|i: int| 0 <= i && i + sub.len() <= s.len() && #[trigger] s.subrange(i, i + sub.len()) == sub
}

} // verus!
