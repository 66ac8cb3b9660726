//! The state of the dashboard and its transitions.
//!
//! `App` owns everything that changes while the dashboard runs. `AppModel` is
//! the same state as mathematical values, and each transition is a function
//! on `AppModel`: the executable methods of `App` are proved to compute it.
//! The loop that draws, polls the keyboard, saves and fetches is the
//! caller's; it hands each key and each finished fetch to these methods and
//! carries out the `Action` or the `FetchRequest`s that come back.

use vstd::prelude::*;
use vstd::view::View as _;
use crate::aggregator::{cycle_requests, request_views, start_fetch_cycle, FetchRequest, FetchRequestView};
use crate::analysis::StockAnalysis;
use crate::config::{StockConfig, StockConfigView};
use crate::data::TimeRange;
use crate::error::AppError;
use crate::event::AppEvent;
use crate::stock_data::StockData;
use crate::text::{contains_text, copy_strings, texts, to_uppercase, trim, trimmed, upper_cased};

verus! {

/// What the dashboard shows.
#[derive(Clone, Copy, Debug, PartialEq, Eq, Structural)]
pub enum View {
    /// The grid of tracked symbols.
    Main,
    /// One symbol in full.
    Detail,
    /// The editor of the tracked symbols.
    Edit,
}

/// One tracked symbol: its summary, its series, and the window it shows.
pub struct AnalysisWithChartData<P> {
    pub analysis: StockAnalysis<P>,
    pub stock_data: StockData<P>,
    pub time_range: TimeRange,
}

/// The key of a key press.
#[derive(Clone, Copy, Debug, PartialEq, Eq, Structural)]
pub enum KeyCode {
    Char(char),
    Left,
    Right,
    Up,
    Down,
    Enter,
    Esc,
    Backspace,
    Delete,
    /// Any key that the dashboard has no use for.
    Other,
}

/// One key press: the key, whether the control modifier was held, and whether
/// any other modifier was.
#[derive(Clone, Copy, Debug, PartialEq, Eq, Structural)]
pub struct KeyPress {
    pub code: KeyCode,
    pub control: bool,
    pub other_modifiers: bool,
}

/// What the caller has to do after a key press.
#[derive(Debug)]
pub enum Action {
    /// Nothing: go on with the loop.
    Continue,
    /// End the loop.
    Quit,
    /// Store this configuration, and report how that went with `save_finished`.
    Save(StockConfig),
}

/// An `Action` by its contents.
pub enum ActionView {
    Continue,
    Quit,
    Save(StockConfigView),
}

impl vstd::view::View for Action {
    type V = ActionView;

    open spec fn view(&self) -> ActionView {
        match self {
            Action::Continue => ActionView::Continue,
            Action::Quit => ActionView::Quit,
            Action::Save(config) => ActionView::Save(config@),
        }
    }
}

/// The symbols of `entries`, in order.
pub open spec fn entry_symbols<P>(entries: Seq<AnalysisWithChartData<P>>) -> Seq<Seq<char>> {
    Seq::new(entries.len(), |i: int| entries[i].analysis.symbol@)
}

/// `symbols` after the editor's input is submitted: the input, trimmed and in
/// upper case, is added at the end unless it is empty once trimmed or the list
/// has it already.
pub open spec fn with_symbol(symbols: Seq<Seq<char>>, input: Seq<char>) -> Seq<Seq<char>> {
    let symbol = upper_cased(trimmed(input));
    if trimmed(input).len() > 0 && !symbols.contains(symbol) {
        symbols.push(symbol)
    } else {
        symbols
    }
}

/// The state of the dashboard as mathematical values.
pub struct AppModel<P> {
    /// The tracked symbols, in the order in which their fetches completed.
    pub entries: Seq<AnalysisWithChartData<P>>,
    pub selected_index: usize,
    pub selected_time_range_index: usize,
    pub current_view: View,
    pub config_file_path: Seq<char>,
    pub analysis_period_days: i64,
    /// The symbol list as edited so far.
    pub editing_symbols: Seq<Seq<char>>,
    /// The cursor in the edited list.
    pub editing_selected_index: usize,
    /// The symbol being typed.
    pub new_symbol_input: Seq<char>,
}

impl<P> AppModel<P> {
    /// The selected window is one of the windows.
    pub open spec fn wf(self) -> bool {
        self.selected_time_range_index < TimeRange::ranges().len()
    }

    /// A finished fetch arrives: an update becomes a new last entry, an error
    /// is dropped.
    pub open spec fn receive(self, event: AppEvent<P>) -> Self {
        match event {
            AppEvent::Update(analysis, stock_data, time_range) => AppModel {
                entries: self.entries.push(
                    AnalysisWithChartData { analysis, stock_data, time_range },
                ),
                ..self
            },
            AppEvent::Error(_, _) => self,
        }
    }

    /// Left: the selection moves one entry back, and stays on the first.
    pub open spec fn select_previous(self) -> Self {
        if self.selected_index > 0 {
            AppModel { selected_index: (self.selected_index - 1) as usize, ..self }
        } else {
            self
        }
    }

    /// Right: the selection moves one entry on, and stays on the last.
    pub open spec fn select_next(self) -> Self {
        if self.entries.len() > 0 && self.selected_index < self.entries.len() - 1 {
            AppModel { selected_index: (self.selected_index + 1) as usize, ..self }
        } else {
            self
        }
    }

    /// Whether the selection is on an entry.
    pub open spec fn has_selection(self) -> bool {
        self.selected_index < self.entries.len()
    }

    /// The window at `index` becomes the selected one and is written into the
    /// selected entry; no other entry changes.
    pub open spec fn show_time_range(self, index: usize) -> Self {
        AppModel {
            selected_time_range_index: index,
            entries: self.entries.update(
                self.selected_index as int,
                AnalysisWithChartData {
                    time_range: TimeRange::ranges()[index as int],
                    ..self.entries[self.selected_index as int]
                },
            ),
            ..self
        }
    }

    /// Up: the selected entry shows the window before, the last one before the
    /// first. Nothing changes while the selection is on no entry.
    pub open spec fn time_range_up(self) -> Self {
        if self.has_selection() {
            self.show_time_range(TimeRange::spec_previous_index(self.selected_time_range_index))
        } else {
            self
        }
    }

    /// Down: the selected entry shows the window after, the first one after
    /// the last. Nothing changes while the selection is on no entry.
    pub open spec fn time_range_down(self) -> Self {
        if self.has_selection() {
            self.show_time_range(TimeRange::spec_next_index(self.selected_time_range_index))
        } else {
            self
        }
    }

    /// The dashboard shows `view`.
    pub open spec fn show(self, view: View) -> Self {
        AppModel { current_view: view, ..self }
    }

    /// The editor opens on the symbols of the entries, with the cursor on the
    /// first and nothing typed.
    pub open spec fn begin_edit(self) -> Self {
        AppModel {
            current_view: View::Edit,
            editing_symbols: entry_symbols(self.entries),
            editing_selected_index: 0,
            new_symbol_input: Seq::<char>::empty(),
            ..self
        }
    }

    /// A character is typed.
    pub open spec fn type_char(self, ch: char) -> Self {
        AppModel { new_symbol_input: self.new_symbol_input.push(ch), ..self }
    }

    /// Backspace: the last typed character goes, if there is one.
    pub open spec fn erase_char(self) -> Self {
        if self.new_symbol_input.len() > 0 {
            AppModel { new_symbol_input: self.new_symbol_input.drop_last(), ..self }
        } else {
            self
        }
    }

    /// Enter: what was typed is submitted to the edited list, and the input is
    /// emptied.
    pub open spec fn submit_symbol(self) -> Self {
        AppModel {
            editing_symbols: with_symbol(self.editing_symbols, self.new_symbol_input),
            new_symbol_input: Seq::<char>::empty(),
            ..self
        }
    }

    /// Delete: the symbol under the cursor goes, and the cursor moves one up
    /// unless it is on the first. Nothing changes while the cursor is on no
    /// symbol.
    pub open spec fn delete_symbol(self) -> Self {
        if self.editing_selected_index < self.editing_symbols.len() {
            AppModel {
                editing_symbols: self.editing_symbols.remove(self.editing_selected_index as int),
                editing_selected_index: if self.editing_selected_index > 0 {
                    (self.editing_selected_index - 1) as usize
                } else {
                    0
                },
                ..self
            }
        } else {
            self
        }
    }

    /// Up in the editor: the cursor moves one up, and stays on the first.
    pub open spec fn cursor_up(self) -> Self {
        if self.editing_selected_index > 0 {
            AppModel {
                editing_selected_index: (self.editing_selected_index - 1) as usize,
                ..self
            }
        } else {
            self
        }
    }

    /// Down in the editor: the cursor moves one down, and stays on the last.
    pub open spec fn cursor_down(self) -> Self {
        if self.editing_symbols.len() > 0 && self.editing_selected_index
            < self.editing_symbols.len() - 1 {
            AppModel {
                editing_selected_index: (self.editing_selected_index + 1) as usize,
                ..self
            }
        } else {
            self
        }
    }

    /// The configuration that a save stores: the edited list, over the period
    /// in use.
    pub open spec fn pending_config(self) -> StockConfigView {
        StockConfigView {
            symbols: self.editing_symbols,
            analysis_period_days: self.analysis_period_days,
        }
    }

    /// A key press while the grid or one symbol is shown.
    pub open spec fn on_browse_key(self, press: KeyPress) -> (Self, ActionView) {
        match press.code {
            KeyCode::Char(ch) => if ch == 'q' {
                (self, ActionView::Quit)
            } else if ch == 'c' && press.control && !press.other_modifiers {
                (self, ActionView::Quit)
            } else if ch == 'e' && self.current_view == View::Main {
                (self.begin_edit(), ActionView::Continue)
            } else {
                (self, ActionView::Continue)
            },
            KeyCode::Left => (self.select_previous(), ActionView::Continue),
            KeyCode::Right => (self.select_next(), ActionView::Continue),
            KeyCode::Up => (self.time_range_up(), ActionView::Continue),
            KeyCode::Down => (self.time_range_down(), ActionView::Continue),
            KeyCode::Enter => (self.show(View::Detail), ActionView::Continue),
            KeyCode::Esc => if self.current_view == View::Detail {
                (self.show(View::Main), ActionView::Continue)
            } else {
                (self, ActionView::Quit)
            },
            _ => (self, ActionView::Continue),
        }
    }

    /// A key press while the editor is shown.
    pub open spec fn on_edit_key(self, press: KeyPress) -> (Self, ActionView) {
        match press.code {
            KeyCode::Esc => (self.show(View::Main), ActionView::Continue),
            KeyCode::Enter => (self.submit_symbol(), ActionView::Continue),
            KeyCode::Char(ch) => if ch == 's' && press.control {
                (self, ActionView::Save(self.pending_config()))
            } else {
                (self.type_char(ch), ActionView::Continue)
            },
            KeyCode::Backspace => (self.erase_char(), ActionView::Continue),
            KeyCode::Delete => (self.delete_symbol(), ActionView::Continue),
            KeyCode::Up => (self.cursor_up(), ActionView::Continue),
            KeyCode::Down => (self.cursor_down(), ActionView::Continue),
            _ => (self, ActionView::Continue),
        }
    }

    /// A key press: the state after it, and what the caller has to do.
    pub open spec fn on_key(self, press: KeyPress) -> (Self, ActionView) {
        match self.current_view {
            View::Edit => self.on_edit_key(press),
            _ => self.on_browse_key(press),
        }
    }

    /// A refresh cycle starts for `config`: every entry goes, and the period
    /// of `config` is the one in use.
    pub open spec fn begin_refresh(self, config: StockConfigView) -> Self {
        AppModel {
            entries: Seq::<AnalysisWithChartData<P>>::empty(),
            analysis_period_days: config.analysis_period_days,
            ..self
        }
    }

    /// `config` was stored: the grid is shown and a refresh cycle starts.
    pub open spec fn saved(self, config: StockConfigView) -> Self {
        self.show(View::Main).begin_refresh(config)
    }
}

/// The fetches that the end of a save starts: a full cycle for `config` if it
/// was stored, none if it was not.
pub open spec fn requests_after_save(config: StockConfigView, stored: bool) -> Seq<FetchRequestView> {
    if stored {
        cycle_requests(config.symbols, config.analysis_period_days)
    } else {
        Seq::<FetchRequestView>::empty()
    }
}

/// A key press never takes the selected window out of the windows.
pub proof fn lemma_key_keeps_wf<P>(state: AppModel<P>, press: KeyPress)
    requires
        state.wf(),
    ensures
        state.on_key(press).0.wf(),
{
}

/// Cycling through the windows wraps. With the selection on an entry: from
/// the first window, Up selects the last one and writes it into the entry;
/// from the last window, Down selects the first one and writes it into the
/// entry.
pub proof fn lemma_time_range_cycling_wraps<P>(state: AppModel<P>)
    requires
        state.has_selection(),
    ensures
        state.selected_time_range_index == 0 ==> {
            let after = state.time_range_up();
            &&& after.selected_time_range_index == TimeRange::ranges().len() - 1
            &&& after.entries[state.selected_index as int].time_range == TimeRange::ranges().last()
        },
        state.selected_time_range_index == TimeRange::ranges().len() - 1 ==> {
            let after = state.time_range_down();
            &&& after.selected_time_range_index == 0
            &&& after.entries[state.selected_index as int].time_range == TimeRange::ranges().first()
        },
{
}

/// Cycling the window of the selected entry leaves every other entry, and
/// the number of entries, as they were.
pub proof fn lemma_time_range_touches_one_entry<P>(state: AppModel<P>, other: int)
    requires
        0 <= other < state.entries.len(),
        other != state.selected_index,
    ensures
        state.time_range_up().entries.len() == state.entries.len(),
        state.time_range_down().entries.len() == state.entries.len(),
        state.time_range_up().entries[other] == state.entries[other],
        state.time_range_down().entries[other] == state.entries[other],
{
}

/// Submitting a symbol that the edited list has already, once trimmed and in
/// upper case, leaves the list as it is; and a list without duplicates has
/// none after any submission.
pub proof fn lemma_submit_adds_no_duplicate<P>(state: AppModel<P>)
    ensures
        state.editing_symbols.contains(upper_cased(trimmed(state.new_symbol_input)))
            ==> state.submit_symbol().editing_symbols == state.editing_symbols,
        state.editing_symbols.no_duplicates()
            ==> state.submit_symbol().editing_symbols.no_duplicates(),
{
    let symbol = upper_cased(trimmed(state.new_symbol_input));
    let after = state.submit_symbol().editing_symbols;
    if state.editing_symbols.no_duplicates() && after != state.editing_symbols {
        assert(after == state.editing_symbols.push(symbol));
        assert forall|i: int, j: int| 0 <= i < after.len() && 0 <= j < after.len() && i != j implies after[i]
            != after[j] by {
            if i < state.editing_symbols.len() {
                assert(state.editing_symbols.contains(after[i]));
            }
            if j < state.editing_symbols.len() {
                assert(state.editing_symbols.contains(after[j]));
            }
        }
    }
}

/// No key press in the editor brings a duplicate into an edited list that has
/// none.
pub proof fn lemma_edit_keeps_symbols_distinct<P>(state: AppModel<P>, press: KeyPress)
    requires
        state.current_view == View::Edit,
        state.editing_symbols.no_duplicates(),
    ensures
        state.on_key(press).0.editing_symbols.no_duplicates(),
{
    lemma_submit_adds_no_duplicate(state);
    let before = state.editing_symbols;
    let after = state.delete_symbol().editing_symbols;
    if state.editing_selected_index < before.len() {
        let at = state.editing_selected_index as int;
        assert forall|i: int, j: int| 0 <= i < after.len() && 0 <= j < after.len() && i != j implies after[i]
            != after[j] by {
            let from_i = if i < at {
                i
            } else {
                i + 1
            };
            let from_j = if j < at {
                j
            } else {
                j + 1
            };
            assert(after[i] == before[from_i]);
            assert(after[j] == before[from_j]);
        }
    }
}

/// No key press adds, drops or renames an entry: entries arrive with updates
/// and leave with a refresh cycle, and a key press changes at most the window
/// that one of them shows.
pub proof fn lemma_keys_keep_entries<P>(state: AppModel<P>, press: KeyPress)
    ensures
        state.on_key(press).0.entries.len() == state.entries.len(),
        entry_symbols(state.on_key(press).0.entries) == entry_symbols(state.entries),
        state.on_key(press).0.analysis_period_days == state.analysis_period_days,
{
    let after = state.on_key(press).0;
    assert(after.entries.len() == state.entries.len());
    assert forall|i: int| 0 <= i < state.entries.len() implies after.entries[i].analysis
        == state.entries[i].analysis by {}
    assert(entry_symbols(after.entries) =~= entry_symbols(state.entries));
}

/// Saving an empty edited list: the save command asks for a configuration
/// without symbols to be stored; once it is stored the grid is shown with no
/// entries, and the refresh cycle starts no fetch.
pub proof fn lemma_saving_empty_list<P>(state: AppModel<P>, press: KeyPress)
    requires
        state.current_view == View::Edit,
        state.editing_symbols.len() == 0,
        press.code == KeyCode::Char('s'),
        press.control,
    ensures
        state.on_key(press).0 == state,
        state.on_key(press).1 == ActionView::Save(state.pending_config()),
        state.pending_config().symbols.len() == 0,
        state.saved(state.pending_config()).current_view == View::Main,
        state.saved(state.pending_config()).entries.len() == 0,
        requests_after_save(state.pending_config(), true).len() == 0,
{
}

/// A refresh cycle replaces the entries in full: whatever was tracked, no
/// entry is left when the cycle starts, and one fetch starts for each symbol
/// of the configuration, in its order.
pub proof fn lemma_refresh_replaces_entries<P>(state: AppModel<P>, config: StockConfigView)
    ensures
        state.begin_refresh(config).entries.len() == 0,
        cycle_requests(config.symbols, config.analysis_period_days).len() == config.symbols.len(),
        forall|i: int|
            0 <= i < config.symbols.len() ==> (#[trigger] cycle_requests(
                config.symbols,
                config.analysis_period_days,
            )[i]).symbol == config.symbols[i],
{
}

/// Leaving the editor with Esc discards the edits: the grid is shown, no
/// configuration is handed out for storing, and the entries are untouched.
pub proof fn lemma_cancel_discards_edits<P>(state: AppModel<P>, press: KeyPress)
    requires
        state.current_view == View::Edit,
        press.code == KeyCode::Esc,
    ensures
        state.on_key(press).1 == ActionView::Continue,
        state.on_key(press).0.current_view == View::Main,
        state.on_key(press).0.entries == state.entries,
        state.on_key(press).0.analysis_period_days == state.analysis_period_days,
{
}

/// The state of the dashboard.
pub struct App<P> {
    pub analyses: Vec<AnalysisWithChartData<P>>,
    pub selected_index: usize,
    pub selected_time_range_index: usize,
    pub current_view: View,
    pub config_file_path: String,
    pub analysis_period_days: i64,
    pub editing_symbols: Vec<String>,
    pub editing_selected_index: usize,
    pub new_symbol_input: String,
}

impl<P> vstd::view::View for App<P> {
    type V = AppModel<P>;

    open spec fn view(&self) -> AppModel<P> {
        AppModel {
            entries: self.analyses@,
            selected_index: self.selected_index,
            selected_time_range_index: self.selected_time_range_index,
            current_view: self.current_view,
            config_file_path: self.config_file_path@,
            analysis_period_days: self.analysis_period_days,
            editing_symbols: texts(self.editing_symbols@),
            editing_selected_index: self.editing_selected_index,
            new_symbol_input: self.new_symbol_input@,
        }
    }
}

/// Adds `symbol` at the end of `symbols` unless a string with its characters
/// is there already. Returns whether it was added.
pub fn insert_symbol(symbols: &mut Vec<String>, symbol: String) -> (added: bool)
    ensures
        added == !texts(old(symbols)@).contains(symbol@),
        added ==> final(symbols)@ == old(symbols)@.push(symbol),
        !added ==> final(symbols)@ == old(symbols)@,
{
    if contains_text(symbols, &symbol) {
        false
    } else {
        symbols.push(symbol);
        true
    }
}

impl<P> App<P> {
    /// The state at start: no entries, the grid shown, the first window
    /// selected, nothing edited, and a period of 90 days.
    pub fn new() -> (app: Self)
        ensures
            app@.wf(),
            app@ == (AppModel::<P> {
                entries: Seq::empty(),
                selected_index: 0,
                selected_time_range_index: 0,
                current_view: View::Main,
                config_file_path: "stocks_config.json"@,
                analysis_period_days: 90,
                editing_symbols: Seq::empty(),
                editing_selected_index: 0,
                new_symbol_input: Seq::empty(),
            }),
    {
        let app = App {
            analyses: Vec::new(),
            selected_index: 0,
            selected_time_range_index: 0,
            current_view: View::Main,
            config_file_path: "stocks_config.json".to_owned(),
            analysis_period_days: 90,
            editing_symbols: Vec::new(),
            editing_selected_index: 0,
            new_symbol_input: String::new(),
        };
        assert(app@.editing_symbols =~= Seq::<Seq<char>>::empty());
        app
    }

    /// Takes in the outcome of one fetch.
    pub fn handle_event(&mut self, event: AppEvent<P>)
        ensures
            final(self)@ == old(self)@.receive(event),
    {
        match event {
            AppEvent::Update(analysis, stock_data, time_range) => {
                self.analyses.push(AnalysisWithChartData { analysis, stock_data, time_range });
            },
            AppEvent::Error(_, _) => {},
        }
    }

    /// Starts a refresh cycle for `config`: drops every entry, takes over the
    /// period, and returns the fetches to start, one for each symbol.
    pub fn initialize_data_fetching(&mut self, config: &StockConfig) -> (requests: Vec<
        FetchRequest,
    >)
        ensures
            final(self)@ == old(self)@.begin_refresh(config@),
            request_views(requests@) == cycle_requests(
                config@.symbols,
                config@.analysis_period_days,
            ),
    {
        self.analyses.clear();
        self.analysis_period_days = config.analysis_period_days;
        start_fetch_cycle(&config.symbols, config.analysis_period_days)
    }

    /// `config` was stored: shows the grid and starts a refresh cycle for it.
    /// Every symbol is fetched anew, changed or not.
    pub fn refresh_analyses(&mut self, config: &StockConfig) -> (requests: Vec<FetchRequest>)
        ensures
            final(self)@ == old(self)@.saved(config@),
            request_views(requests@) == cycle_requests(
                config@.symbols,
                config@.analysis_period_days,
            ),
    {
        self.current_view = View::Main;
        self.initialize_data_fetching(config)
    }

    /// The end of the save that `Action::Save(config)` asked for. Stored: as
    /// `refresh_analyses`. Not stored: nothing changes, the editor stays open
    /// with its list, and no fetch starts.
    pub fn save_finished(&mut self, config: &StockConfig, outcome: &Result<(), AppError>) -> (requests:
        Vec<FetchRequest>)
        ensures
            final(self)@ == if outcome is Ok {
                old(self)@.saved(config@)
            } else {
                old(self)@
            },
            request_views(requests@) == requests_after_save(config@, outcome is Ok),
    {
        match outcome {
            Ok(_) => self.refresh_analyses(config),
            Err(_) => {
                let requests: Vec<FetchRequest> = Vec::new();
                assert(request_views(requests@) =~= Seq::<FetchRequestView>::empty());
                requests
            },
        }
    }

    fn select_previous(&mut self)
        ensures
            final(self)@ == old(self)@.select_previous(),
    {
        if self.selected_index > 0 {
            self.selected_index -= 1;
        }
    }

    fn select_next(&mut self)
        ensures
            final(self)@ == old(self)@.select_next(),
    {
        if !self.analyses.is_empty() && self.selected_index < self.analyses.len() - 1 {
            self.selected_index += 1;
        }
    }

    fn show_time_range(&mut self, index: usize)
        requires
            old(self)@.has_selection(),
            index < TimeRange::ranges().len(),
        ensures
            final(self)@ == old(self)@.show_time_range(index),
    {
        self.selected_time_range_index = index;
        self.analyses[self.selected_index].time_range = TimeRange::at(index);
        assert(self@.entries =~= old(self)@.show_time_range(index).entries);
    }

    fn time_range_up(&mut self)
        requires
            old(self)@.wf(),
        ensures
            final(self)@ == old(self)@.time_range_up(),
    {
        if !self.analyses.is_empty() && self.selected_index < self.analyses.len() {
            let index = TimeRange::previous_index(self.selected_time_range_index);
            self.show_time_range(index);
        }
    }

    fn time_range_down(&mut self)
        ensures
            final(self)@ == old(self)@.time_range_down(),
    {
        if !self.analyses.is_empty() && self.selected_index < self.analyses.len() {
            let index = TimeRange::next_index(self.selected_time_range_index);
            self.show_time_range(index);
        }
    }

    fn begin_edit(&mut self)
        ensures
            final(self)@ == old(self)@.begin_edit(),
    {
        let mut symbols: Vec<String> = Vec::new();
        let mut i: usize = 0;
        while i < self.analyses.len()
            invariant
                i <= self.analyses@.len(),
                symbols@.len() == i,
                forall|k: int|
                    0 <= k < i ==> (#[trigger] symbols@[k])@ == self.analyses@[k].analysis.symbol@,
            decreases self.analyses@.len() - i,
        {
            symbols.push(self.analyses[i].analysis.symbol.clone());
            i += 1;
        }
        assert(texts(symbols@) =~= entry_symbols(self.analyses@));
        self.current_view = View::Edit;
        self.editing_symbols = symbols;
        self.editing_selected_index = 0;
        self.new_symbol_input = String::new();
    }

    fn submit_symbol(&mut self)
        ensures
            final(self)@ == old(self)@.submit_symbol(),
    {
        let typed = trim(self.new_symbol_input.as_str());
        if !typed.is_empty() {
            let symbol = to_uppercase(typed);
            let ghost before = self.editing_symbols@;
            let added = insert_symbol(&mut self.editing_symbols, symbol);
            assert(added ==> texts(self.editing_symbols@) =~= texts(before).push(symbol@));
        }
        self.new_symbol_input.clear();
    }

    fn erase_char(&mut self)
        ensures
            final(self)@ == old(self)@.erase_char(),
    {
        let _ = self.new_symbol_input.pop();
    }

    fn delete_symbol(&mut self)
        ensures
            final(self)@ == old(self)@.delete_symbol(),
    {
        if !self.editing_symbols.is_empty() && self.editing_selected_index
            < self.editing_symbols.len() {
            let ghost before = self.editing_symbols@;
            let _ = self.editing_symbols.remove(self.editing_selected_index);
            assert(texts(self.editing_symbols@) =~= texts(before).remove(
                self.editing_selected_index as int,
            ));
            if self.editing_selected_index > 0 {
                self.editing_selected_index -= 1;
            }
        }
    }

    fn cursor_up(&mut self)
        ensures
            final(self)@ == old(self)@.cursor_up(),
    {
        if self.editing_selected_index > 0 {
            self.editing_selected_index -= 1;
        }
    }

    fn cursor_down(&mut self)
        ensures
            final(self)@ == old(self)@.cursor_down(),
    {
        if !self.editing_symbols.is_empty() && self.editing_selected_index
            < self.editing_symbols.len() - 1 {
            self.editing_selected_index += 1;
        }
    }

    /// The configuration that a save stores.
    pub fn pending_config(&self) -> (config: StockConfig)
        ensures
            config@ == self@.pending_config(),
    {
        StockConfig {
            symbols: copy_strings(&self.editing_symbols),
            analysis_period_days: self.analysis_period_days,
        }
    }

    fn handle_browse_key(&mut self, press: KeyPress) -> (action: Action)
        requires
            old(self)@.wf(),
        ensures
            final(self)@ == old(self)@.on_browse_key(press).0,
            action@ == old(self)@.on_browse_key(press).1,
    {
        match press.code {
            KeyCode::Char(ch) => {
                if ch == 'q' {
                    Action::Quit
                } else if ch == 'c' && press.control && !press.other_modifiers {
                    Action::Quit
                } else if ch == 'e' && self.current_view == View::Main {
                    self.begin_edit();
                    Action::Continue
                } else {
                    Action::Continue
                }
            },
            KeyCode::Left => {
                self.select_previous();
                Action::Continue
            },
            KeyCode::Right => {
                self.select_next();
                Action::Continue
            },
            KeyCode::Up => {
                self.time_range_up();
                Action::Continue
            },
            KeyCode::Down => {
                self.time_range_down();
                Action::Continue
            },
            KeyCode::Enter => {
                self.current_view = View::Detail;
                Action::Continue
            },
            KeyCode::Esc => {
                if self.current_view == View::Detail {
                    self.current_view = View::Main;
                    Action::Continue
                } else {
                    Action::Quit
                }
            },
            _ => Action::Continue,
        }
    }

    fn handle_edit_key(&mut self, press: KeyPress) -> (action: Action)
        ensures
            final(self)@ == old(self)@.on_edit_key(press).0,
            action@ == old(self)@.on_edit_key(press).1,
    {
        match press.code {
            KeyCode::Esc => {
                self.current_view = View::Main;
                Action::Continue
            },
            KeyCode::Enter => {
                self.submit_symbol();
                Action::Continue
            },
            KeyCode::Char(ch) => {
                if ch == 's' && press.control {
                    Action::Save(self.pending_config())
                } else {
                    self.new_symbol_input.push(ch);
                    Action::Continue
                }
            },
            KeyCode::Backspace => {
                self.erase_char();
                Action::Continue
            },
            KeyCode::Delete => {
                self.delete_symbol();
                Action::Continue
            },
            KeyCode::Up => {
                self.cursor_up();
                Action::Continue
            },
            KeyCode::Down => {
                self.cursor_down();
                Action::Continue
            },
            _ => Action::Continue,
        }
    }

    /// Takes in one key press and says what the caller has to do.
    pub fn handle_key(&mut self, press: KeyPress) -> (action: Action)
        requires
            old(self)@.wf(),
        ensures
            final(self)@ == old(self)@.on_key(press).0,
            action@ == old(self)@.on_key(press).1,
            final(self)@.wf(),
    {
        proof {
            lemma_key_keeps_wf(old(self)@, press);
        }
        match self.current_view {
            View::Edit => self.handle_edit_key(press),
            _ => self.handle_browse_key(press),
        }
    }
}

} // verus!
