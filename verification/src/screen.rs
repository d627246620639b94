//! Screen navigation.
//!
//! The dashboard shows one screen at a time. A key either moves between
//! screens, changes the zoom of the map, asks for fresh telemetry, or leaves
//! the program through a confirmation screen.

use vstd::prelude::*;

use crate::units::Micros;
use crate::units::MICROS_PER_UNIT;

verus! {

/// Zoom level of a fresh dashboard, in degrees on either side of the station.
pub const INITIAL_ZOOM: u32 = 50;

/// Degrees by which one zoom key changes the zoom level.
pub const ZOOM_STEP: u32 = 10;

/// Smallest zoom level; it keeps the map window from collapsing or inverting.
pub const ZOOM_MIN: u32 = 10;

/// Largest zoom level that the counter can hold.
pub const ZOOM_MAX: u32 = 0xffff_ffff;

/// The screen that is being shown.
#[derive(Clone, Copy, Debug, PartialEq, Eq, Structural)]
pub enum CurrentScreen {
    /// Coordinates beside a map.
    Tracker,
    /// The map alone.
    FullMap,
    /// The predicted trajectory.
    UpcomingEvents,
    /// Crew and weather.
    Crew,
    /// The question whether to leave.
    Exiting,
}

/// What a key press means to the dashboard.
#[derive(Clone, Copy, Debug, PartialEq, Eq, Structural)]
pub enum KeyInput {
    /// Show the next screen.
    Advance,
    /// Ask to leave.
    Quit,
    /// Leave for good.
    Confirm,
    /// Stay after all.
    Cancel,
    /// Narrow the map window.
    ZoomIn,
    /// Widen the map window.
    ZoomOut,
    /// Fetch telemetry now.
    Refresh,
    /// Any key without a meaning.
    Other,
}

/// What the caller has to do after an event was handled.
#[derive(Clone, Copy, Debug, PartialEq, Eq, Structural)]
pub enum Action {
    /// Draw the next frame.
    Continue,
    /// Fetch telemetry and update the model, then draw the next frame.
    Refresh,
    /// End the program.
    Exit,
}

/// The navigation state as a mathematical value.
pub struct ViewState {
    /// The screen being shown.
    pub screen: CurrentScreen,
    /// The screen to go back to when leaving is cancelled.
    pub resume: CurrentScreen,
    /// Degrees shown on either side of the station.
    pub zoom: int,
}

/// The screen after `screen` in the cycle of the four content screens. The
/// confirmation screen is not part of the cycle and stays where it is.
pub open spec fn next_screen(screen: CurrentScreen) -> CurrentScreen {
    match screen {
        CurrentScreen::Tracker => CurrentScreen::FullMap,
        CurrentScreen::FullMap => CurrentScreen::UpcomingEvents,
        CurrentScreen::UpcomingEvents => CurrentScreen::Crew,
        CurrentScreen::Crew => CurrentScreen::Tracker,
        CurrentScreen::Exiting => CurrentScreen::Exiting,
    }
}

/// Whether `screen` draws the map, so that the zoom keys apply.
pub open spec fn shows_map(screen: CurrentScreen) -> bool {
    screen == CurrentScreen::Tracker || screen == CurrentScreen::FullMap
}

/// The zoom level after narrowing the window by one step.
pub open spec fn zoomed_in(zoom: int) -> int {
    if zoom >= ZOOM_MIN + ZOOM_STEP {
        zoom - ZOOM_STEP
    } else {
        ZOOM_MIN as int
    }
}

/// The zoom level after widening the window by one step.
pub open spec fn zoomed_out(zoom: int) -> int {
    if zoom + ZOOM_STEP <= ZOOM_MAX {
        zoom + ZOOM_STEP
    } else {
        ZOOM_MAX as int
    }
}

impl ViewState {
    /// The states a dashboard can be in: the screen to resume is a content
    /// screen and the zoom level is within its limits.
    pub open spec fn wf(self) -> bool {
        &&& self.resume != CurrentScreen::Exiting
        &&& ZOOM_MIN <= self.zoom <= ZOOM_MAX
    }

    /// The state of a fresh dashboard.
    pub open spec fn initial() -> ViewState {
        ViewState {
            screen: CurrentScreen::Tracker,
            resume: CurrentScreen::Tracker,
            zoom: INITIAL_ZOOM as int,
        }
    }

    /// The state after `key` was pressed.
    pub open spec fn after(self, key: KeyInput) -> ViewState {
        if self.screen == CurrentScreen::Exiting {
            match key {
                KeyInput::Cancel | KeyInput::Quit => ViewState { screen: self.resume, ..self },
                _ => self,
            }
        } else {
            match key {
                KeyInput::Advance => ViewState { screen: next_screen(self.screen), ..self },
                KeyInput::Quit => ViewState {
                    screen: CurrentScreen::Exiting,
                    resume: self.screen,
                    ..self
                },
                KeyInput::ZoomIn if shows_map(self.screen) => ViewState {
                    zoom: zoomed_in(self.zoom),
                    ..self
                },
                KeyInput::ZoomOut if shows_map(self.screen) => ViewState {
                    zoom: zoomed_out(self.zoom),
                    ..self
                },
                _ => self,
            }
        }
    }

    /// What pressing `key` in this state asks of the caller.
    pub open spec fn action(self, key: KeyInput) -> Action {
        if self.screen == CurrentScreen::Exiting {
            if key == KeyInput::Confirm {
                Action::Exit
            } else {
                Action::Continue
            }
        } else {
            if key == KeyInput::Refresh {
                Action::Refresh
            } else {
                Action::Continue
            }
        }
    }
}

/// The meaning of the character `c` typed on the keyboard.
pub open spec fn key_of_char(c: char) -> KeyInput {
    if c == 'l' {
        KeyInput::Advance
    } else if c == 'q' {
        KeyInput::Quit
    } else if c == 'y' {
        KeyInput::Confirm
    } else if c == 'n' {
        KeyInput::Cancel
    } else if c == ']' {
        KeyInput::ZoomIn
    } else if c == '[' {
        KeyInput::ZoomOut
    } else if c == 'u' {
        KeyInput::Refresh
    } else {
        KeyInput::Other
    }
}

/// Reads a typed character as a key of the dashboard.
pub fn key_from_char(c: char) -> (key: KeyInput)
    ensures
        key == key_of_char(c),
{
    if c == 'l' {
        KeyInput::Advance
    } else if c == 'q' {
        KeyInput::Quit
    } else if c == 'y' {
        KeyInput::Confirm
    } else if c == 'n' {
        KeyInput::Cancel
    } else if c == ']' {
        KeyInput::ZoomIn
    } else if c == '[' {
        KeyInput::ZoomOut
    } else if c == 'u' {
        KeyInput::Refresh
    } else {
        KeyInput::Other
    }
}

/// The navigation state of the dashboard.
pub struct App {
    current_screen: CurrentScreen,
    resume_screen: CurrentScreen,
    zoom: u32,
}

impl View for App {
    type V = ViewState;

    closed spec fn view(&self) -> ViewState {
        ViewState {
            screen: self.current_screen,
            resume: self.resume_screen,
            zoom: self.zoom as int,
        }
    }
}

impl App {
    /// What holds of every dashboard: its state is one of the well-formed ones.
    #[verifier::type_invariant]
    pub open spec fn inv(self) -> bool {
        self@.wf()
    }

    /// A dashboard on the tracker screen at the initial zoom level.
    pub fn new() -> (app: App)
        ensures
            app@ == ViewState::initial(),
    {
        App {
            current_screen: CurrentScreen::Tracker,
            resume_screen: CurrentScreen::Tracker,
            zoom: INITIAL_ZOOM,
        }
    }

    /// The screen being shown.
    pub fn current_screen(&self) -> (screen: CurrentScreen)
        ensures
            screen == self@.screen,
            self@.wf(),
    {
        proof {
            use_type_invariant(self);
        }
        self.current_screen
    }

    /// The zoom level, in degrees on either side of the station.
    pub fn zoom(&self) -> (zoom: u32)
        ensures
            zoom == self@.zoom,
            zoom >= ZOOM_MIN,
            self@.wf(),
    {
        proof {
            use_type_invariant(self);
        }
        self.zoom
    }

    /// Handles one key press: moves to the state that follows and says what
    /// the caller has to do.
    pub fn dispatch(&mut self, key: KeyInput) -> (action: Action)
        ensures
            final(self)@.wf(),
            final(self)@ == old(self)@.after(key),
            action == old(self)@.action(key),
    {
        proof {
            use_type_invariant(&*self);
        }
        match self.current_screen {
            CurrentScreen::Exiting => match key {
                KeyInput::Confirm => Action::Exit,
                KeyInput::Cancel | KeyInput::Quit => {
                    self.current_screen = self.resume_screen;
                    Action::Continue
                },
                _ => Action::Continue,
            },
            screen => match key {
                KeyInput::Advance => {
                    self.current_screen = following(screen);
                    Action::Continue
                },
                KeyInput::Quit => {
                    self.resume_screen = screen;
                    self.current_screen = CurrentScreen::Exiting;
                    Action::Continue
                },
                KeyInput::Refresh => Action::Refresh,
                KeyInput::ZoomIn => {
                    if has_map(screen) {
                        self.zoom = narrower(self.zoom);
                    }
                    Action::Continue
                },
                KeyInput::ZoomOut => {
                    if has_map(screen) {
                        self.zoom = wider(self.zoom);
                    }
                    Action::Continue
                },
                _ => Action::Continue,
            },
        }
    }
}

/// The screen that the advance key leads to from `screen`.
pub fn following(screen: CurrentScreen) -> (next: CurrentScreen)
    ensures
        next == next_screen(screen),
{
    match screen {
        CurrentScreen::Tracker => CurrentScreen::FullMap,
        CurrentScreen::FullMap => CurrentScreen::UpcomingEvents,
        CurrentScreen::UpcomingEvents => CurrentScreen::Crew,
        CurrentScreen::Crew => CurrentScreen::Tracker,
        CurrentScreen::Exiting => CurrentScreen::Exiting,
    }
}

/// Whether `screen` draws the map.
pub fn has_map(screen: CurrentScreen) -> (yes: bool)
    ensures
        yes == shows_map(screen),
{
    match screen {
        CurrentScreen::Tracker | CurrentScreen::FullMap => true,
        _ => false,
    }
}

/// One step in: the zoom level drops by a step but never below the minimum.
pub fn narrower(zoom: u32) -> (r: u32)
    ensures
        r == zoomed_in(zoom as int),
{
    if zoom >= ZOOM_MIN + ZOOM_STEP {
        zoom - ZOOM_STEP
    } else {
        ZOOM_MIN
    }
}

/// One step out: the zoom level grows by a step but never past the maximum.
pub fn wider(zoom: u32) -> (r: u32)
    ensures
        r == zoomed_out(zoom as int),
{
    if zoom <= ZOOM_MAX - ZOOM_STEP {
        zoom + ZOOM_STEP
    } else {
        ZOOM_MAX
    }
}

/// A panel of the dashboard.
#[derive(Clone, Copy, Debug, PartialEq, Eq, Structural)]
pub enum Panel {
    /// Coordinates, times, country and orbital phase.
    Tracking,
    /// The map with the station on it.
    WorldMap,
    /// The summary of the predicted trajectory.
    Trajectory,
    /// The predicted coordinates.
    Coordinates,
    /// The crew on board.
    Crew,
    /// The weather below the station.
    Weather,
}

/// What a screen is made of: one panel, or two side by side.
#[derive(Clone, Copy, Debug, PartialEq, Eq, Structural)]
pub struct ScreenLayout {
    /// The panel on the left, or the only one.
    pub left: Panel,
    /// Percent of the width that the left panel takes.
    pub left_percent: u16,
    /// The panel on the right, if there are two.
    pub right: Option<Panel>,
    /// Whether the question whether to leave is laid over the panels.
    pub popup: bool,
}

/// Percent of the width that the question whether to leave takes.
pub const POPUP_WIDTH_PERCENT: u16 = 60;

/// Percent of the height that the question whether to leave takes.
pub const POPUP_HEIGHT_PERCENT: u16 = 25;

/// The panels of the screen `screen`.
pub open spec fn layout_of(screen: CurrentScreen) -> ScreenLayout {
    match screen {
        CurrentScreen::Tracker => ScreenLayout {
            left: Panel::Tracking,
            left_percent: 30,
            right: Some(Panel::WorldMap),
            popup: false,
        },
        CurrentScreen::FullMap => ScreenLayout {
            left: Panel::WorldMap,
            left_percent: 100,
            right: None,
            popup: false,
        },
        CurrentScreen::UpcomingEvents => ScreenLayout {
            left: Panel::Trajectory,
            left_percent: 60,
            right: Some(Panel::Coordinates),
            popup: false,
        },
        CurrentScreen::Crew => ScreenLayout {
            left: Panel::Crew,
            left_percent: 60,
            right: Some(Panel::Weather),
            popup: false,
        },
        CurrentScreen::Exiting => ScreenLayout {
            left: Panel::Tracking,
            left_percent: 100,
            right: None,
            popup: true,
        },
    }
}

/// The panels to draw for the screen `screen`.
pub fn layout(screen: CurrentScreen) -> (panels: ScreenLayout)
    ensures
        panels == layout_of(screen),
{
    match screen {
        CurrentScreen::Tracker => ScreenLayout {
            left: Panel::Tracking,
            left_percent: 30,
            right: Some(Panel::WorldMap),
            popup: false,
        },
        CurrentScreen::FullMap => ScreenLayout {
            left: Panel::WorldMap,
            left_percent: 100,
            right: None,
            popup: false,
        },
        CurrentScreen::UpcomingEvents => ScreenLayout {
            left: Panel::Trajectory,
            left_percent: 60,
            right: Some(Panel::Coordinates),
            popup: false,
        },
        CurrentScreen::Crew => ScreenLayout {
            left: Panel::Crew,
            left_percent: 60,
            right: Some(Panel::Weather),
            popup: false,
        },
        CurrentScreen::Exiting => ScreenLayout {
            left: Panel::Tracking,
            left_percent: 100,
            right: None,
            popup: true,
        },
    }
}

/// The three bands that centre a band of `percent` percent: the percent
/// before it, its own, and the percent after it. The two margins are equal;
/// where the rest is odd, the odd percent is left over.
pub fn centered_bands(percent: u16) -> (bands: (u16, u16, u16))
    requires
        percent <= 100,
    ensures
        bands.0 == (100 - percent) / 2,
        bands.1 == percent,
        bands.2 == bands.0,
        100 - 1 <= bands.0 + bands.1 + bands.2 <= 100,
{
    let margin: u16 = (100 - percent) / 2;
    (margin, percent, margin)
}

/// The screens that draw the map are those whose layout holds the map panel,
/// and only the confirmation screen lays the question over its panels.
pub proof fn layout_matches_navigation(screen: CurrentScreen)
    ensures
        shows_map(screen) <==> layout_of(screen).left == Panel::WorldMap || layout_of(screen).right
            == Some(Panel::WorldMap),
        layout_of(screen).popup <==> screen == CurrentScreen::Exiting,
        layout_of(screen).right is None <==> layout_of(screen).left_percent == 100,
        0 < layout_of(screen).left_percent <= 100,
{
}

/// The part of the map to draw: the degrees, in millionths, from the left to
/// the right edge and from the bottom to the top edge.
#[derive(Clone, Copy, Debug, PartialEq, Eq, Structural)]
pub struct MapWindow {
    /// Longitude of the left edge.
    pub x_min: Micros,
    /// Longitude of the right edge.
    pub x_max: Micros,
    /// Latitude of the bottom edge.
    pub y_min: Micros,
    /// Latitude of the top edge.
    pub y_max: Micros,
}

/// The number `n`, or the nearest number that 64 bits can hold.
pub open spec fn clamped(n: int) -> int {
    if n < i64::MIN {
        i64::MIN as int
    } else if n > i64::MAX {
        i64::MAX as int
    } else {
        n
    }
}

/// The edge that lies `zoom` degrees before `centre`.
pub open spec fn edge_below(centre: Micros, zoom: int) -> int {
    clamped(centre.value() - zoom * MICROS_PER_UNIT)
}

/// The edge that lies `zoom` degrees after `centre`.
pub open spec fn edge_above(centre: Micros, zoom: int) -> int {
    clamped(centre.value() + zoom * MICROS_PER_UNIT)
}

/// The window of `zoom` degrees on every side of the position `lat`, `lon`.
pub fn map_window(lat: Micros, lon: Micros, zoom: u32) -> (window: MapWindow)
    ensures
        window.x_min.value() == edge_below(lon, zoom as int),
        window.x_max.value() == edge_above(lon, zoom as int),
        window.y_min.value() == edge_below(lat, zoom as int),
        window.y_max.value() == edge_above(lat, zoom as int),
{
    MapWindow {
        x_min: lower_edge(lon, zoom),
        x_max: upper_edge(lon, zoom),
        y_min: lower_edge(lat, zoom),
        y_max: upper_edge(lat, zoom),
    }
}

/// The edge `zoom` degrees before `centre`, or the least number there is.
fn lower_edge(centre: Micros, zoom: u32) -> (edge: Micros)
    ensures
        edge.value() == edge_below(centre, zoom as int),
{
    let reach: i64 = zoom as i64 * MICROS_PER_UNIT;
    match centre.raw.checked_sub(reach) {
        Some(raw) => Micros { raw },
        None => Micros { raw: i64::MIN },
    }
}

/// The edge `zoom` degrees after `centre`, or the greatest number there is.
fn upper_edge(centre: Micros, zoom: u32) -> (edge: Micros)
    ensures
        edge.value() == edge_above(centre, zoom as int),
{
    let reach: i64 = zoom as i64 * MICROS_PER_UNIT;
    match centre.raw.checked_add(reach) {
        Some(raw) => Micros { raw },
        None => Micros { raw: i64::MAX },
    }
}

/// A window at a positive zoom level has its edges the right way round: the
/// lower edge lies strictly before the upper one.
pub proof fn window_is_not_degenerate(centre: Micros, zoom: int)
    requires
        0 < zoom <= ZOOM_MAX,
    ensures
        edge_below(centre, zoom) < edge_above(centre, zoom),
{
}

/// Every key leads from a well-formed state to a well-formed state; the zoom
/// level in particular stays at or above its positive minimum.
pub proof fn keys_keep_state_well_formed(state: ViewState, key: KeyInput)
    requires
        state.wf(),
    ensures
        state.after(key).wf(),
        state.after(key).zoom >= ZOOM_MIN > 0,
{
}

/// The advance key walks through the four content screens in a cycle: from
/// the tracker to the full map, the upcoming events, the crew, and back to
/// the tracker. From any content screen, four presses lead back to it, and
/// nothing but the screen changes on the way.
pub proof fn advance_cycles_through_four_screens(state: ViewState)
    requires
        state.screen != CurrentScreen::Exiting,
    ensures
        next_screen(CurrentScreen::Tracker) == CurrentScreen::FullMap,
        next_screen(CurrentScreen::FullMap) == CurrentScreen::UpcomingEvents,
        next_screen(CurrentScreen::UpcomingEvents) == CurrentScreen::Crew,
        next_screen(CurrentScreen::Crew) == CurrentScreen::Tracker,
        state.after(KeyInput::Advance) == (ViewState { screen: next_screen(state.screen), ..state }),
        state.after(KeyInput::Advance).screen != state.screen,
        state.after(KeyInput::Advance).screen != CurrentScreen::Exiting,
        state.after(KeyInput::Advance).after(KeyInput::Advance).after(KeyInput::Advance).after(
            KeyInput::Advance,
        ) == state,
{
}

/// The quit key leads from every content screen to the confirmation screen
/// and ends nothing yet.
pub proof fn quit_leads_to_exiting(state: ViewState)
    requires
        state.screen != CurrentScreen::Exiting,
    ensures
        state.after(KeyInput::Quit).screen == CurrentScreen::Exiting,
        state.after(KeyInput::Quit).resume == state.screen,
        state.after(KeyInput::Quit).zoom == state.zoom,
        state.action(KeyInput::Quit) == Action::Continue,
{
}

/// Cancelling on the confirmation screen, by the cancel key or by the quit
/// key once more, leads back to the very screen that quit was pressed on,
/// at the zoom level it had.
pub proof fn cancel_returns_to_prior_screen(state: ViewState, cancel: KeyInput)
    requires
        state.screen != CurrentScreen::Exiting,
        cancel == KeyInput::Cancel || cancel == KeyInput::Quit,
    ensures
        state.after(KeyInput::Quit).after(cancel).screen == state.screen,
        state.after(KeyInput::Quit).after(cancel).zoom == state.zoom,
        state.after(KeyInput::Quit).action(cancel) == Action::Continue,
{
}

/// The confirmation screen is left only by confirming or cancelling: every
/// other key changes nothing. The program ends on the confirm key there and
/// on no other key anywhere.
pub proof fn exiting_is_left_only_by_choice(state: ViewState, key: KeyInput)
    ensures
        state.screen == CurrentScreen::Exiting && key != KeyInput::Cancel && key != KeyInput::Quit
            ==> state.after(key) == state,
        state.action(key) == Action::Exit <==> state.screen == CurrentScreen::Exiting && key
            == KeyInput::Confirm,
{
}

} // verus!
