//! The scoreboard's per-game state, its defaults, and what is saved to disk
//! between runs.
use vstd::prelude::*;

verus! {

/// The state that every request handler shares: scores, team names, the
/// quarter, downs, the countdown caption and what the overlay shows.
pub struct AppState {
    pub home_points: u32,
    pub home_name: String,
    pub away_points: u32,
    pub away_name: String,
    pub quarter: u8,
    pub preset_id: String,
    pub down: u8,
    pub downs_togo: u8,
    pub countdown_text: String,
    pub show_countdown: bool,
    pub show_downs: bool,
    pub show_scoreboard: bool,
}

/// The mathematical value of an [`AppState`]: its strings as character
/// sequences.
pub struct AppStateView {
    pub home_points: u32,
    pub home_name: Seq<char>,
    pub away_points: u32,
    pub away_name: Seq<char>,
    pub quarter: u8,
    pub preset_id: Seq<char>,
    pub down: u8,
    pub downs_togo: u8,
    pub countdown_text: Seq<char>,
    pub show_countdown: bool,
    pub show_downs: bool,
    pub show_scoreboard: bool,
}

impl View for AppState {
    type V = AppStateView;

    open spec fn view(&self) -> AppStateView {
        AppStateView {
            home_points: self.home_points,
            home_name: self.home_name@,
            away_points: self.away_points,
            away_name: self.away_name@,
            quarter: self.quarter,
            preset_id: self.preset_id@,
            down: self.down,
            downs_togo: self.downs_togo,
            countdown_text: self.countdown_text@,
            show_countdown: self.show_countdown,
            show_downs: self.show_downs,
            show_scoreboard: self.show_scoreboard,
        }
    }
}

/// A fresh game: no points, teams called Home and Away, first quarter,
/// first down with one yard to go, the countdown hidden and the downs and
/// scoreboard shown.
pub open spec fn fresh_state() -> AppStateView {
    AppStateView {
        home_points: 0,
        home_name: "Home"@,
        away_points: 0,
        away_name: "Away"@,
        quarter: 1,
        preset_id: Seq::empty(),
        down: 1,
        downs_togo: 1,
        countdown_text: "Countdown"@,
        show_countdown: false,
        show_downs: true,
        show_scoreboard: true,
    }
}

/// The scoreboard state that is written to disk on shutdown and read back
/// on start: the per-game state plus the sponsor and OCR switches and the
/// two clocks' readings in milliseconds.
pub struct AppStateSerde {
    pub home_points: u32,
    pub home_name: String,
    pub away_points: u32,
    pub away_name: String,
    pub quarter: u8,
    pub preset_id: String,
    pub down: u8,
    pub downs_togo: u8,
    pub countdown_text: String,
    pub show_countdown: bool,
    pub show_downs: bool,
    pub show_scoreboard: bool,
    pub show_sponsors: bool,
    pub ocr_api: bool,
    pub game_clock: u64,
    pub countdown_clock: u64,
}

impl AppStateSerde {
    /// The per-game part of a saved state.
    pub open spec fn game_view(&self) -> AppStateView {
        AppStateView {
            home_points: self.home_points,
            home_name: self.home_name@,
            away_points: self.away_points,
            away_name: self.away_name@,
            quarter: self.quarter,
            preset_id: self.preset_id@,
            down: self.down,
            downs_togo: self.downs_togo,
            countdown_text: self.countdown_text@,
            show_countdown: self.show_countdown,
            show_downs: self.show_downs,
            show_scoreboard: self.show_scoreboard,
        }
    }

    /// Gathers everything that is saved between runs.
    pub fn consume_app_state(
        state: AppState,
        show_sponsors: bool,
        ocr_api: bool,
        game_clock: u64,
        countdown_clock: u64,
    ) -> (saved: AppStateSerde)
        ensures
            saved.game_view() == state@,
            saved.show_sponsors == show_sponsors,
            saved.ocr_api == ocr_api,
            saved.game_clock == game_clock,
            saved.countdown_clock == countdown_clock,
    {
        AppStateSerde {
            home_points: state.home_points,
            home_name: state.home_name,
            away_points: state.away_points,
            away_name: state.away_name,
            quarter: state.quarter,
            preset_id: state.preset_id,
            down: state.down,
            downs_togo: state.downs_togo,
            countdown_text: state.countdown_text,
            show_countdown: state.show_countdown,
            show_downs: state.show_downs,
            show_scoreboard: state.show_scoreboard,
            show_sponsors,
            ocr_api,
            game_clock,
            countdown_clock,
        }
    }
}

impl AppState {
    /// The state of a fresh game.
    pub fn default() -> (state: AppState)
        ensures
            state@ == fresh_state(),
    {
        AppState {
            home_points: 0,
            home_name: String::from_str("Home"),
            away_points: 0,
            away_name: String::from_str("Away"),
            quarter: 1,
            preset_id: String::new(),
            down: 1,
            downs_togo: 1,
            countdown_text: String::from_str("Countdown"),
            show_countdown: false,
            show_downs: true,
            show_scoreboard: true,
        }
    }

    /// Restores a saved state: the per-game state is returned, and the
    /// sponsor and OCR switches and the two clock readings are written back.
    pub fn load_saved_state(
        saved: AppStateSerde,
        show_sponsors: &mut bool,
        ocr_api: &mut bool,
        game_clock: &mut u64,
        countdown_clock: &mut u64,
    ) -> (state: AppState)
        ensures
            state@ == saved.game_view(),
            *final(show_sponsors) == saved.show_sponsors,
            *final(ocr_api) == saved.ocr_api,
            *final(game_clock) == saved.game_clock,
            *final(countdown_clock) == saved.countdown_clock,
    {
        *show_sponsors = saved.show_sponsors;
        *ocr_api = saved.ocr_api;
        *game_clock = saved.game_clock;
        *countdown_clock = saved.countdown_clock;
        AppState {
            home_points: saved.home_points,
            home_name: saved.home_name,
            away_points: saved.away_points,
            away_name: saved.away_name,
            quarter: saved.quarter,
            preset_id: saved.preset_id,
            down: saved.down,
            downs_togo: saved.downs_togo,
            countdown_text: saved.countdown_text,
            show_countdown: saved.show_countdown,
            show_downs: saved.show_downs,
            show_scoreboard: saved.show_scoreboard,
        }
    }
}

/// Saving and then loading gives back the same game state and the same
/// sponsor switch, OCR switch and clock readings.
pub proof fn lemma_save_then_load(
    state: AppStateView,
    show_sponsors: bool,
    ocr_api: bool,
    game_clock: u64,
    countdown_clock: u64,
    saved: AppStateSerde,
    loaded: AppStateView,
    loaded_show_sponsors: bool,
    loaded_ocr_api: bool,
    loaded_game_clock: u64,
    loaded_countdown_clock: u64,
)
    requires
        saved.game_view() == state,
        saved.show_sponsors == show_sponsors,
        saved.ocr_api == ocr_api,
        saved.game_clock == game_clock,
        saved.countdown_clock == countdown_clock,
        loaded == saved.game_view(),
        loaded_show_sponsors == saved.show_sponsors,
        loaded_ocr_api == saved.ocr_api,
        loaded_game_clock == saved.game_clock,
        loaded_countdown_clock == saved.countdown_clock,
    ensures
        loaded == state,
        loaded_show_sponsors == show_sponsors,
        loaded_ocr_api == ocr_api,
        loaded_game_clock == game_clock,
        loaded_countdown_clock == countdown_clock,
{
}

} // verus!
