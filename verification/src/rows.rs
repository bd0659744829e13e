//! Row descriptors for the popover's list region, and the severity model.
//!
//! A row is an immutable value: a leading glyph symbol, a label, and a
//! severity. The severity-to-indicator-colour mapping is total: every
//! severity has exactly one colour, even though the current data source only
//! ever produces [`Severity::Okay`].

use vstd::prelude::*;

verus! {

/// The severity reported by one status row.
#[derive(Clone, Copy, PartialEq, Eq, Structural, Debug)]
pub enum Severity {
    /// Everything in order.
    Okay,
    /// Something worth attention.
    Warn,
    /// Something wrong.
    Error,
    /// State could not be determined.
    Unknown,
}

/// The colour of the circular indicator trailing a row.
#[derive(Clone, Copy, PartialEq, Eq, Structural, Debug)]
pub enum IndicatorColor {
    Green,
    Yellow,
    Red,
    Gray,
}

/// The indicator colour of each severity. Total: every severity maps to
/// exactly one colour.
pub open spec fn spec_severity_color(s: Severity) -> IndicatorColor {
    match s {
        Severity::Okay => IndicatorColor::Green,
        Severity::Warn => IndicatorColor::Yellow,
        Severity::Error => IndicatorColor::Red,
        Severity::Unknown => IndicatorColor::Gray,
    }
}

/// Picks the indicator colour for a severity.
pub fn severity_color(s: Severity) -> (c: IndicatorColor)
    ensures
        c == spec_severity_color(s),
{
    match s {
        Severity::Okay => IndicatorColor::Green,
        Severity::Warn => IndicatorColor::Yellow,
        Severity::Error => IndicatorColor::Red,
        Severity::Unknown => IndicatorColor::Gray,
    }
}

/// One status line rendered in the popover's list region.
#[derive(Debug)]
pub struct RowDescriptor {
    /// Name of the system glyph drawn at the row's leading edge.
    pub icon_symbol: String,
    /// The row's label text.
    pub label_text: String,
    /// The row's severity, which colours its trailing indicator.
    pub severity: Severity,
}

/// The ghost counterpart of [`RowDescriptor`].
pub ghost struct RowModel {
    pub icon_symbol: Seq<char>,
    pub label_text: Seq<char>,
    pub severity: Severity,
}

impl View for RowDescriptor {
    type V = RowModel;

    open spec fn view(&self) -> RowModel {
        RowModel {
            icon_symbol: self.icon_symbol@,
            label_text: self.label_text@,
            severity: self.severity,
        }
    }
}

/// The views of a row list, element by element.
pub open spec fn rows_view(rows: Seq<RowDescriptor>) -> Seq<RowModel> {
    rows.map(|i: int, r: RowDescriptor| r@)
}

/// The placeholder dataset the current data source supplies: four rows with
/// varied glyphs, numbered labels, and severity `Okay`.
pub open spec fn spec_default_rows() -> Seq<RowModel> {
    seq![
        RowModel { icon_symbol: "doc.text"@, label_text: "Menu Item 1"@, severity: Severity::Okay },
        RowModel {
            icon_symbol: "exclamationmark.circle"@,
            label_text: "Menu Item 2"@,
            severity: Severity::Okay,
        },
        RowModel {
            icon_symbol: "checkmark.circle"@,
            label_text: "Menu Item 3"@,
            severity: Severity::Okay,
        },
        RowModel { icon_symbol: "questionmark"@, label_text: "Menu Item 4"@, severity: Severity::Okay },
    ]
}

/// Supplies the ordered, immutable placeholder row list.
pub fn default_rows() -> (rows: Vec<RowDescriptor>)
    ensures
        rows@.len() == 4,
        rows_view(rows@) == spec_default_rows(),
{
    let mut rows: Vec<RowDescriptor> = Vec::new();
    rows.push(
        RowDescriptor {
            icon_symbol: String::from_str("doc.text"),
            label_text: String::from_str("Menu Item 1"),
            severity: Severity::Okay,
        },
    );
    rows.push(
        RowDescriptor {
            icon_symbol: String::from_str("exclamationmark.circle"),
            label_text: String::from_str("Menu Item 2"),
            severity: Severity::Okay,
        },
    );
    rows.push(
        RowDescriptor {
            icon_symbol: String::from_str("checkmark.circle"),
            label_text: String::from_str("Menu Item 3"),
            severity: Severity::Okay,
        },
    );
    rows.push(
        RowDescriptor {
            icon_symbol: String::from_str("questionmark"),
            label_text: String::from_str("Menu Item 4"),
            severity: Severity::Okay,
        },
    );
    proof {
        assert(rows_view(rows@) =~= spec_default_rows());
    }
    rows
}

} // verus!
