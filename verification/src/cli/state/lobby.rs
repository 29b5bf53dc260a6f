use vstd::prelude::*;

verus! {

/// Whether the client is connected.
#[derive(Debug, Clone, Copy, PartialEq, Eq, Structural)]
pub enum LobbyStatus {
    Disconnected,
    Connecting,
    Connected,
}

/// A table as the lobby lists it.
#[derive(Debug, Clone, PartialEq, Eq)]
pub struct TableInfo {
    pub name: String,
    pub players: usize,
    pub max_players: usize,
}

/// A listed table as plain values.
pub struct TableInfoView {
    pub name: Seq<char>,
    pub players: usize,
    pub max_players: usize,
}

impl View for TableInfo {
    type V = TableInfoView;

    open spec fn view(&self) -> TableInfoView {
        TableInfoView { name: self.name@, players: self.players, max_players: self.max_players }
    }
}

/// The lobby: the tables to choose from, and the one that is marked.
#[derive(Debug, Clone, PartialEq, Eq)]
pub struct LobbyState {
    pub status: LobbyStatus,
    pub tables: Vec<TableInfo>,
    /// The place of the marked table in the list.
    pub selected: usize,
}

/// The lobby as plain values.
pub struct LobbyStateView {
    pub status: LobbyStatus,
    pub tables: Seq<TableInfoView>,
    pub selected: usize,
}

/// A list of tables as plain values.
pub open spec fn spec_table_views(tables: Seq<TableInfo>) -> Seq<TableInfoView> {
    Seq::new(tables.len(), |i: int| tables[i]@)
}

impl View for LobbyState {
    type V = LobbyStateView;

    open spec fn view(&self) -> LobbyStateView {
        LobbyStateView {
            status: self.status,
            tables: spec_table_views(self.tables@),
            selected: self.selected,
        }
    }
}

} // verus!
