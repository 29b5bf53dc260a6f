use vstd::prelude::*;

verus! {

/// How the login stands.
#[derive(Debug, Clone, PartialEq, Eq)]
pub enum LoginStatus {
    Idle,
    Connecting,
    Error(String),
}

/// The state of the login as plain values.
pub enum LoginStatusView {
    Idle,
    Connecting,
    Error(Seq<char>),
}

impl View for LoginStatus {
    type V = LoginStatusView;

    open spec fn view(&self) -> LoginStatusView {
        match self {
            LoginStatus::Idle => LoginStatusView::Idle,
            LoginStatus::Connecting => LoginStatusView::Connecting,
            LoginStatus::Error(message) => LoginStatusView::Error(message@),
        }
    }
}

/// The login screen: the name typed so far, and how the login stands.
#[derive(Debug, Clone, PartialEq, Eq)]
pub struct LoginState {
    pub username: String,
    pub status: LoginStatus,
}

/// The login screen as plain values.
pub struct LoginStateView {
    pub username: Seq<char>,
    pub status: LoginStatusView,
}

impl View for LoginState {
    type V = LoginStateView;

    open spec fn view(&self) -> LoginStateView {
        LoginStateView { username: self.username@, status: self.status@ }
    }
}

impl Default for LoginState {
    /// The login screen before anything is typed.
    fn default() -> (login: LoginState)
        ensures
            login@ == (LoginStateView { username: Seq::empty(), status: LoginStatusView::Idle }),
    {
        LoginState { username: String::new(), status: LoginStatus::Idle }
    }
}

} // verus!
