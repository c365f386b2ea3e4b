use vstd::prelude::*;

verus! {

/// Per-game section of the run configuration: whether the game is enabled,
/// the account uid, and the redemption codes to submit, in order.
pub struct GameConfig {
    pub enable: bool,
    pub uid: String,
    pub cdkeys: Option<Vec<String>>,
}

/// The whole run configuration: one optional section per supported game,
/// loaded once at process start and immutable for the run.
pub struct Config {
    pub zzz: Option<GameConfig>,
    pub hsr: Option<GameConfig>,
    pub genshin: Option<GameConfig>,
}

} // verus!
