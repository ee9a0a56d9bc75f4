//! Application shell: the application value around [`AppState`]. The
//! window itself (sidebar, pages) is drawn by the application binary.
use vstd::prelude::*;
use crate::ui::i18n::{message_text, tr, MessageKey};
use crate::ui::state::{next_state, AppState, Message};

verus! {

/// The application wrapper around [`AppState`].
pub struct OrbokApp {
    pub state: AppState,
}

impl Default for OrbokApp {
    fn default() -> (app: OrbokApp)
        ensures
            app.state@ == crate::ui::state::initial_state(),
    {
        OrbokApp { state: AppState::default() }
    }
}

impl OrbokApp {
    /// An application showing `state`.
    pub fn with_state(state: AppState) -> (app: Self)
        ensures
            app.state == state,
    {
        OrbokApp { state }
    }

    /// Update entry: pure transitions only; backend effects are layered
    /// on top by the application binary.
    pub fn update(&mut self, message: Message)
        ensures
            final(self).state@ == next_state(old(self).state@, message@),
    {
        self.state.update(&message);
    }

    /// Window title, in the current locale.
    pub fn title(&self) -> (t: String)
        ensures
            t@ == message_text(self.state.locale, MessageKey::AppTitle),
    {
        tr(self.state.locale, MessageKey::AppTitle).to_owned()
    }
}

} // verus!
