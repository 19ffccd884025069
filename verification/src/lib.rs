//! Sequence-based input-method engine: matches growing key sequences against
//! a dictionary of (character, sequence) entries and drives the surrounding
//! protocol state machines (key repeat, focus, modifier gating).

use vstd::prelude::*;

pub mod context;
pub mod table;

verus! {

/// The outcome of feeding one key press to the engine.
///
/// `Commit` finalizes the shown candidate and clears the composition;
/// `Suggest` is a non-final preview; `Empty` means the key was recognized but
/// no candidate remains; `Undefined` means the engine did not consume the key
/// and the caller must forward it raw.
#[derive(Debug)]
pub enum AnkraResponse {
    Commit(String),
    Suggest(String),
    Undefined,
    Empty,
}

/// Spec-level shape of an [`AnkraResponse`], with text as a character sequence.
pub enum RespView {
    Commit(Seq<char>),
    Suggest(Seq<char>),
    Undefined,
    Empty,
}

impl View for AnkraResponse {
    type V = RespView;

    open spec fn view(&self) -> RespView {
        match self {
            AnkraResponse::Commit(s) => RespView::Commit(s@),
            AnkraResponse::Suggest(s) => RespView::Suggest(s@),
            AnkraResponse::Undefined => RespView::Undefined,
            AnkraResponse::Empty => RespView::Empty,
        }
    }
}

impl PartialEq for AnkraResponse {
    fn eq(&self, other: &Self) -> (r: bool) {
        match (self, other) {
            (AnkraResponse::Commit(a), AnkraResponse::Commit(b)) => <String as PartialEq>::eq(a, b),
            (AnkraResponse::Suggest(a), AnkraResponse::Suggest(b)) => <String as PartialEq>::eq(a, b),
            (AnkraResponse::Undefined, AnkraResponse::Undefined) => true,
            (AnkraResponse::Empty, AnkraResponse::Empty) => true,
            _ => false,
        }
    }
}

impl vstd::std_specs::cmp::PartialEqSpecImpl for AnkraResponse {
    open spec fn obeys_eq_spec() -> bool {
        true
    }

    open spec fn eq_spec(&self, other: &Self) -> bool {
        match (self, other) {
            (AnkraResponse::Commit(a), AnkraResponse::Commit(b)) => a@ == b@,
            (AnkraResponse::Suggest(a), AnkraResponse::Suggest(b)) => a@ == b@,
            (AnkraResponse::Undefined, AnkraResponse::Undefined) => true,
            (AnkraResponse::Empty, AnkraResponse::Empty) => true,
            _ => false,
        }
    }
}

/// The engine: a thin facade over the table state.
pub struct AnkraEngine {
    pub table: crate::table::TableState,
}

impl AnkraEngine {
    /// A fresh engine over a loaded dictionary and key mapping.
    pub fn new(table: crate::table::Table, config: crate::table::TableConfig) -> (e: Self)
        ensures
            e.table@ == crate::table::reset_view(),
            e.table.table == table,
            e.table.config == config,
            e.table.wf(),
    {
        AnkraEngine { table: crate::table::TableState::new(table, config) }
    }

    /// Feed one key press through the matching engine.
    pub fn on_key_press(&mut self, key_code: u16) -> (resp: AnkraResponse)
        requires
            old(self).table.wf(),
        ensures
            final(self).table.wf(),
            final(self).table.table == old(self).table.table,
            final(self).table.config == old(self).table.config,
            final(self).table@ == crate::table::spec_step(
                old(self).table.table.entries@,
                old(self).table.config,
                old(self).table@,
                key_code,
            ).0,
            resp@ == crate::table::spec_step(
                old(self).table.table.entries@,
                old(self).table.config,
                old(self).table@,
                key_code,
            ).1,
    {
        self.table.on_key_press(key_code)
    }

    /// A key release never means anything to the engine.
    pub fn on_key_release(&mut self, key_code: u16) -> (resp: AnkraResponse)
        ensures
            *final(self) == *old(self),
            resp is Undefined,
    {
        self.table.on_key_release(key_code)
    }

    /// Abandon the current composition.
    pub fn reset(&mut self)
        ensures
            final(self).table@ == crate::table::reset_view(),
            final(self).table.table == old(self).table.table,
            final(self).table.config == old(self).table.config,
            final(self).table.wf(),
    {
        self.table.reset();
    }
}

/// Session configuration: a layout identifier and the base directory under
/// which the layout's dictionary and key-mapping files live. Resolving and
/// reading those files happens outside the library; the engine itself is
/// built from the loaded values.
pub struct AnkraConfig {
    pub id: String,
    pub dir: String,
}

} // verus!

