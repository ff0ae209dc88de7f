use vstd::prelude::*;
use crate::config::{RefreshInterval, interval_minutes};

verus! {

/// What the tray application keeps track of between frames.
#[derive(Debug, Clone, Copy, PartialEq, Eq, Structural)]
pub struct AppState {
    /// A weather request is under way.
    pub fetching: bool,
    /// The forecast window is open.
    pub show_forecast: bool,
    /// The settings window is open.
    pub show_settings: bool,
    /// How often the weather is fetched again.
    pub refresh_interval: RefreshInterval,
}

/// Something that happened to the application.
#[derive(Debug, Clone, Copy, PartialEq, Eq, Structural)]
pub enum AppInput {
    /// A weather request delivered its data.
    WeatherReady,
    /// A weather request failed.
    WeatherFailed,
    /// The settings window saved a configuration with this refresh interval.
    ConfigSaved(RefreshInterval),
    /// "Settings" was chosen in the tray menu.
    SettingsChosen,
    /// "Refresh" was chosen in the tray menu.
    RefreshChosen,
    /// "Quit" was chosen in the tray menu.
    QuitChosen,
    /// The tray icon was clicked with the left button.
    TrayClicked,
    /// A frame passed; the payload is the number of whole seconds since the
    /// last weather request was started, `None` before the first one.
    Tick(Option<u64>),
    /// The forecast window was closed.
    ForecastClosed,
    /// The settings window was closed.
    SettingsClosed,
}

/// What the application has to do in answer to an input.
#[derive(Debug, Clone, Copy, PartialEq, Eq, Structural)]
pub enum AppEffect {
    /// Nothing beyond the change of state.
    Nothing,
    /// Start a weather request and restart the refresh timer.
    StartFetch,
    /// Keep the delivered data, show it in the forecast and in the tray.
    ShowWeather,
    /// Report the failure of the weather request.
    ReportError,
    /// Adopt the saved configuration, then start a weather request and restart the refresh timer.
    ApplyConfigAndFetch,
    /// Close the application.
    Close,
}

/// Asking for weather: refused while a request is under way.
pub open spec fn request_fetch(s: AppState) -> (AppState, AppEffect) {
    if s.fetching {
        (s, AppEffect::Nothing)
    } else {
        (AppState { fetching: true, ..s }, AppEffect::StartFetch)
    }
}

/// The number of seconds between two automatic refreshes.
pub open spec fn refresh_period(iv: RefreshInterval) -> nat {
    interval_minutes(iv) * 60
}

/// The refresh period has passed (always so before the first request).
pub open spec fn period_passed(elapsed: Option<u64>, iv: RefreshInterval) -> bool {
    match elapsed {
        None => true,
        Some(e) => e >= refresh_period(iv),
    }
}

/// The state after an input and the effect it asks for.
pub open spec fn next(s: AppState, input: AppInput) -> (AppState, AppEffect) {
    match input {
        AppInput::WeatherReady => (AppState { fetching: false, ..s }, AppEffect::ShowWeather),
        AppInput::WeatherFailed => (AppState { fetching: false, ..s }, AppEffect::ReportError),
        AppInput::ConfigSaved(iv) => (
            AppState { fetching: true, show_settings: false, refresh_interval: iv, ..s },
            AppEffect::ApplyConfigAndFetch,
        ),
        AppInput::SettingsChosen => (AppState { show_settings: true, ..s }, AppEffect::Nothing),
        AppInput::RefreshChosen => request_fetch(s),
        AppInput::QuitChosen => (s, AppEffect::Close),
        AppInput::TrayClicked => (AppState { show_forecast: true, ..s }, AppEffect::Nothing),
        AppInput::Tick(elapsed) => if period_passed(elapsed, s.refresh_interval) {
            request_fetch(s)
        } else {
            (s, AppEffect::Nothing)
        },
        AppInput::ForecastClosed => (AppState { show_forecast: false, ..s }, AppEffect::Nothing),
        AppInput::SettingsClosed => (AppState { show_settings: false, ..s }, AppEffect::Nothing),
    }
}

impl AppState {
    /// The state at start: no request under way, no window open.
    pub fn new(refresh_interval: RefreshInterval) -> (r: Self)
        ensures
            r == (AppState {
                fetching: false,
                show_forecast: false,
                show_settings: false,
                refresh_interval,
            }),
    {
        AppState { fetching: false, show_forecast: false, show_settings: false, refresh_interval }
    }

    fn request_fetch(&mut self) -> (e: AppEffect)
        ensures
            (*final(self), e) == request_fetch(*old(self)),
    {
        if self.fetching {
            AppEffect::Nothing
        } else {
            self.fetching = true;
            AppEffect::StartFetch
        }
    }

    /// Takes an input into account and says what to do about it.
    pub fn step(&mut self, input: AppInput) -> (e: AppEffect)
        ensures
            (*final(self), e) == next(*old(self), input),
    {
        match input {
            AppInput::WeatherReady => {
                self.fetching = false;
                AppEffect::ShowWeather
            },
            AppInput::WeatherFailed => {
                self.fetching = false;
                AppEffect::ReportError
            },
            AppInput::ConfigSaved(iv) => {
                self.refresh_interval = iv;
                self.show_settings = false;
                self.fetching = true;
                AppEffect::ApplyConfigAndFetch
            },
            AppInput::SettingsChosen => {
                self.show_settings = true;
                AppEffect::Nothing
            },
            AppInput::RefreshChosen => self.request_fetch(),
            AppInput::QuitChosen => AppEffect::Close,
            AppInput::TrayClicked => {
                self.show_forecast = true;
                AppEffect::Nothing
            },
            AppInput::Tick(elapsed) => {
                let passed = match elapsed {
                    None => true,
                    Some(e) => e >= self.refresh_interval.minutes() * 60,
                };
                if passed {
                    self.request_fetch()
                } else {
                    AppEffect::Nothing
                }
            },
            AppInput::ForecastClosed => {
                self.show_forecast = false;
                AppEffect::Nothing
            },
            AppInput::SettingsClosed => {
                self.show_settings = false;
                AppEffect::Nothing
            },
        }
    }
}


/// The state after the first `m` inputs, taken in order from `s`.
pub open spec fn state_after(s: AppState, inputs: Seq<AppInput>, m: nat) -> AppState
    decreases m,
{
    if m == 0 {
        s
    } else {
        next(state_after(s, inputs, (m - 1) as nat), inputs[m - 1]).0
    }
}

/// The effect of input `m` when the inputs are taken in order from `s`.
pub open spec fn effect_at(s: AppState, inputs: Seq<AppInput>, m: nat) -> AppEffect {
    next(state_after(s, inputs, m), inputs[m as int]).1
}

/// An answer to a weather request.
pub open spec fn is_answer(input: AppInput) -> bool {
    input is WeatherReady || input is WeatherFailed
}

/// No input but a saved configuration starts a weather request while one is under way.
pub proof fn law_no_request_while_fetching(s: AppState, input: AppInput)
    requires
        !(input is ConfigSaved),
        next(s, input).1 == AppEffect::StartFetch,
    ensures
        !s.fetching,
{
}

/// Starting a request marks one as under way, and an answer clears the mark.
pub proof fn law_fetching_tracks_requests(s: AppState, input: AppInput)
    ensures
        next(s, input).1 == AppEffect::StartFetch ==> next(s, input).0.fetching,
        next(s, input).1 == AppEffect::ApplyConfigAndFetch ==> next(s, input).0.fetching,
        is_answer(input) ==> !next(s, input).0.fetching,
{
}

/// A frame starts a request exactly when none is under way and the refresh
/// period of the chosen interval has passed since the last one started.
pub proof fn law_refresh_schedule(s: AppState, elapsed: u64)
    ensures
        next(s, AppInput::Tick(Some(elapsed))).1 == AppEffect::StartFetch <==> (!s.fetching && elapsed
            >= refresh_period(s.refresh_interval)),
        next(s, AppInput::Tick(Some(elapsed))).0.refresh_interval == s.refresh_interval,
{
}

/// The first frame of a freshly started application asks for the weather.
pub proof fn law_first_frame_fetches(iv: RefreshInterval)
    ensures
        next(
            AppState { fetching: false, show_forecast: false, show_settings: false, refresh_interval: iv },
            AppInput::Tick(None),
        ).1 == AppEffect::StartFetch,
{
}

/// A saved configuration always starts a request with its interval and closes the settings.
pub proof fn law_saved_config_refreshes(s: AppState, iv: RefreshInterval)
    ensures
        next(s, AppInput::ConfigSaved(iv)).1 == AppEffect::ApplyConfigAndFetch,
        next(s, AppInput::ConfigSaved(iv)).0.refresh_interval == iv,
        !next(s, AppInput::ConfigSaved(iv)).0.show_settings,
{
}

/// An answer is always passed on, whatever the state: delivered weather is shown,
/// a failure is reported, and either way no request is under way afterwards.
pub proof fn law_answers_are_passed_on(s: AppState)
    ensures
        next(s, AppInput::WeatherReady).1 == AppEffect::ShowWeather,
        next(s, AppInput::WeatherFailed).1 == AppEffect::ReportError,
        !next(s, AppInput::WeatherReady).0.fetching,
        !next(s, AppInput::WeatherFailed).0.fetching,
        next(s, AppInput::WeatherReady).0.show_forecast == s.show_forecast,
        next(s, AppInput::WeatherReady).0.show_settings == s.show_settings,
{
}

/// The tray menu and icon: "Refresh" starts a request exactly when none is under
/// way, "Quit" closes and changes nothing, a click opens the forecast and
/// "Settings" the settings; closing a window closes just that window.
pub proof fn law_menu_choices(s: AppState)
    ensures
        next(s, AppInput::RefreshChosen).1 == AppEffect::StartFetch <==> !s.fetching,
        next(s, AppInput::RefreshChosen).0.fetching,
        next(s, AppInput::QuitChosen) == (s, AppEffect::Close),
        next(s, AppInput::TrayClicked) == (AppState { show_forecast: true, ..s }, AppEffect::Nothing),
        next(s, AppInput::SettingsChosen) == (AppState { show_settings: true, ..s }, AppEffect::Nothing),
        next(s, AppInput::ForecastClosed) == (AppState { show_forecast: false, ..s }, AppEffect::Nothing),
        next(s, AppInput::SettingsClosed) == (AppState { show_settings: false, ..s }, AppEffect::Nothing),
{
}

/// Which windows are open never changes what an input asks for, nor how the
/// request flag and the interval change.
pub proof fn law_windows_do_not_matter(s: AppState, t: AppState, input: AppInput)
    requires
        s.fetching == t.fetching,
        s.refresh_interval == t.refresh_interval,
    ensures
        next(s, input).1 == next(t, input).1,
        next(s, input).0.fetching == next(t, input).0.fetching,
        next(s, input).0.refresh_interval == next(t, input).0.refresh_interval,
{
}

proof fn lemma_fetching_persists(s: AppState, inputs: Seq<AppInput>, from: nat, to: nat)
    requires
        from <= to <= inputs.len(),
        state_after(s, inputs, from).fetching,
        forall|k: int| from <= k < to ==> !is_answer(#[trigger] inputs[k]) && !(inputs[k] is ConfigSaved),
    ensures
        state_after(s, inputs, to).fetching,
    decreases to - from,
{
    if from < to {
        let t = state_after(s, inputs, from);
        assert(!is_answer(inputs[from as int]));
        assert(next(t, inputs[from as int]).0.fetching);
        assert(state_after(s, inputs, (from + 1) as nat) == next(t, inputs[from as int]).0);
        lemma_fetching_persists(s, inputs, (from + 1) as nat, to);
    }
}

/// While no configuration is saved, weather requests do not overlap: between two
/// requests started by the application, an answer to a request arrived.
pub proof fn law_requests_do_not_overlap(s: AppState, inputs: Seq<AppInput>, i: nat, j: nat)
    requires
        i < j < inputs.len(),
        forall|k: int| 0 <= k < inputs.len() ==> !(#[trigger] inputs[k] is ConfigSaved),
        effect_at(s, inputs, i) == AppEffect::StartFetch,
        effect_at(s, inputs, j) == AppEffect::StartFetch,
    ensures
        exists|k: int| i < k < j && is_answer(#[trigger] inputs[k]),
{
    if !(exists|k: int| i < k < j && is_answer(#[trigger] inputs[k])) {
        let t = state_after(s, inputs, i);
        assert(state_after(s, inputs, (i + 1) as nat) == next(t, inputs[i as int]).0);
        law_fetching_tracks_requests(t, inputs[i as int]);
        assert forall|k: int| (i + 1) <= k < j implies !is_answer(#[trigger] inputs[k]) && !(
        inputs[k] is ConfigSaved) by {
            assert(inputs[k] !is ConfigSaved);
        }
        lemma_fetching_persists(s, inputs, (i + 1) as nat, j);
        assert(inputs[j as int] !is ConfigSaved);
        law_no_request_while_fetching(state_after(s, inputs, j), inputs[j as int]);
    }
}

} // verus!
