//! Listing indices: the row shape of the listing, the health colouring of a
//! row's name, and how a fetched version is attached to a row. Fetching and
//! table rendering sit with the caller.

use colored::Colorize;
use vstd::prelude::*;
use vstd::string::StringExecFns;
use crate::utils::output::Output;

verus! {

/// One row of the index listing, as the cluster reports it. The version is
/// fetched separately and attached afterwards.
pub struct Index {
    pub name: String,
    pub health: String,
    pub status: String,
    pub pri: String,
    pub rep: String,
    pub size: Option<String>,
    pub docs_count: Option<String>,
    pub version: Option<String>,
}

/// Arguments of the index listing.
pub struct Arguments {
    /// Output format.
    pub output: Output,
    /// Pretty print JSON output.
    pub pretty: bool,
}

/// The text an optional cell shows: the value, or nothing.
pub fn display_option(o: &Option<String>) -> (r: String)
    ensures
        match o {
            Option::Some(s) => r@ == s@,
            Option::None => r@.len() == 0,
        },
{
    match o {
        Option::Some(s) => s.clone(),
        Option::None => String::new(),
    }
}

/// The highlight an index name gets for a health value.
#[derive(Debug, Clone, Copy, PartialEq, Eq, Structural)]
pub enum HealthColor {
    Yellow,
    Green,
    Red,
    Plain,
}

/// Which highlight each health value gets: its own colour for the three
/// known values, plain bold for anything else.
pub open spec fn health_color(health: Seq<char>) -> HealthColor {
    if health == "yellow"@ {
        HealthColor::Yellow
    } else if health == "green"@ {
        HealthColor::Green
    } else if health == "red"@ {
        HealthColor::Red
    } else {
        HealthColor::Plain
    }
}

/// Picks the highlight for a health value.
pub fn color_for_health(health: &str) -> (c: HealthColor)
    ensures
        c == health_color(health@),
{
    let owned = health.to_owned();
    if owned == String::from_str("yellow") {
        HealthColor::Yellow
    } else if owned == String::from_str("green") {
        HealthColor::Green
    } else if owned == String::from_str("red") {
        HealthColor::Red
    } else {
        HealthColor::Plain
    }
}

/// Relies on colored's `yellow` and `bold`: paints for a terminal. What the
/// painting emits depends on whether colouring is enabled in the
/// environment, so nothing is stated of the text.
#[verifier::external_body]
fn paint_yellow_bold(s: &str) -> String {
    s.yellow().bold().to_string()
}

/// Relies on colored's `green` and `bold`: paints for a terminal; see
/// `paint_yellow_bold`.
#[verifier::external_body]
fn paint_green_bold(s: &str) -> String {
    s.green().bold().to_string()
}

/// Relies on colored's `red` and `bold`: paints for a terminal; see
/// `paint_yellow_bold`.
#[verifier::external_body]
fn paint_red_bold(s: &str) -> String {
    s.red().bold().to_string()
}

/// Relies on colored's `bold`: paints for a terminal; see
/// `paint_yellow_bold`.
#[verifier::external_body]
fn paint_bold(s: &str) -> String {
    s.bold().to_string()
}

impl Index {
    /// Paints the row's name after its health: yellow, green or red for the
    /// known health values, plain bold otherwise. The painted bytes depend
    /// on the terminal environment; the choice of colour is
    /// [`health_color`] of the row's health.
    pub fn display_name_colorized(&self) -> String {
        match color_for_health(self.health.as_str()) {
            HealthColor::Yellow => paint_yellow_bold(self.name.as_str()),
            HealthColor::Green => paint_green_bold(self.name.as_str()),
            HealthColor::Red => paint_red_bold(self.name.as_str()),
            HealthColor::Plain => paint_bold(self.name.as_str()),
        }
    }

    /// Attaches a separately fetched version to the row, leaving every other
    /// cell as it was.
    pub fn with_version(self, version: Option<String>) -> (r: Index)
        ensures
            r.name == self.name,
            r.health == self.health,
            r.status == self.status,
            r.pri == self.pri,
            r.rep == self.rep,
            r.size == self.size,
            r.docs_count == self.docs_count,
            r.version == version,
    {
        Index { version, ..self }
    }
}

} // verus!
