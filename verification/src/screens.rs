//! The screens of the player and the steps of its login.
use vstd::prelude::*;

verus! {

/// The screen shown.
#[derive(PartialEq, Eq, Structural, Clone, Copy, Debug)]
pub enum AppScreen {
    Login,
    Loading,
    Main,
}

/// Where the login stands.
#[derive(PartialEq, Eq, Structural, Clone, Copy, Debug)]
pub enum LoginStep {
    Prompt,
    WaitingForBrowser,
    Extracting,
}

/// The single-pane views of the first layout of the player.
#[derive(PartialEq, Eq, Structural, Clone, Copy, Debug)]
pub enum View {
    Collection,
    Album,
    Queue,
}

} // verus!
