//! What the screens of the client show.

pub mod betting;
pub mod cards;
pub mod lobby;
pub mod login;
pub mod table;
pub mod ui_state;

pub use betting::BettingState;
pub use cards::{UiCard, UiCardView, UiHand, UiHandView};
pub use lobby::{LobbyState, LobbyStateView, LobbyStatus, TableInfo, TableInfoView};
pub use login::{LoginState, LoginStateView, LoginStatus, LoginStatusView};
pub use table::{PlayerUiState, PlayerUiStateView, TableState, TableStateView};
pub use ui_state::{
    FooterState, FooterStateView, HeaderState, HeaderStateView, UiState, UiStateView, UiView,
};
