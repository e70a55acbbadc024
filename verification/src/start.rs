//! How the interface starts, and what it does as time goes by.

use crate::app::{App, AppView, Clock};
use crate::effect::EffectView;
use crate::event::{KeyCode, KeyModifiers};
use crate::geometry::ScreenState;
use crate::model::{
    DownloadTask, EntryKind, InputMode, LoginField, ModeView, PreviewState, PreviewView,
    SettingOptions, TuiConfig,
};
use crate::navigate::empty_text;
use crate::text::{text_pairs, texts, Chars};
use vstd::prelude::*;

verus! {

/// How long the text cursor stays on or off.
pub const BLINK_MILLIS: u64 = 500;

/// How long each picture of the spinner is shown.
pub const SPINNER_MILLIS: u64 = 80;

pub const SPINNER_LEN: usize = 10;

/// How long the cursor has to rest before a preview is fetched by itself.
pub const PREVIEW_DELAY_MILLIS: u64 = 300;

/// What the interface is started with.
pub struct Setup {
    pub config: TuiConfig,
    pub options: SettingOptions,
    pub version: String,
    /// The downloads that an earlier session left.
    pub downloads: Vec<DownloadTask>,
    pub now: u64,
}

/// Where the time stands at the start.
pub open spec fn clock_at(now: u64) -> Clock {
    Clock {
        now,
        last_blink: now,
        last_spinner: now,
        last_cursor_move: now,
        last_click_time: now,
    }
}

/// The sign-in form at the start, filled in where credentials are known.
pub open spec fn login_mode(credentials: Option<(Chars, Chars)>) -> ModeView {
    match credentials {
        Some((email, password)) => ModeView::Login {
            field: LoginField::Email,
            email,
            password,
            error: None,
            logging_in: true,
        },
        None => ModeView::Login {
            field: LoginField::Email,
            email: Seq::empty(),
            password: Seq::empty(),
            error: None,
            logging_in: false,
        },
    }
}

pub open spec fn credentials_view(c: Option<(String, String)>) -> Option<(Chars, Chars)> {
    match c {
        Some((email, password)) => Some((email@, password@)),
        None => None,
    }
}

/// Milliseconds from one moment to another, and none where the second comes first.
pub open spec fn passed(now: u64, since: u64) -> int {
    if now >= since {
        now - since
    } else {
        0
    }
}

/// The picture of the spinner after another.
pub open spec fn picture_after(i: usize) -> usize {
    ((i + 1) % (SPINNER_LEN as int)) as usize
}

fn next_picture(i: usize) -> (r: usize)
    ensures
        r == picture_after(i),
{
    (i % SPINNER_LEN + 1) % SPINNER_LEN
}

impl AppView {
    /// The interface before anything has happened.
    pub open spec fn fresh(setup: Setup, input: ModeView, downloads: Seq<DownloadTask>) -> AppView {
        AppView {
            config: setup.config@,
            options: setup.options,
            version: setup.version@,
            current_folder_id: Seq::empty(),
            main_listing_request_id: 0,
            async_request_generation: 0,
            modal_request: None,
            preview_request: None,
            parent_listing_request: None,
            path_completion_in_flight: None,
            breadcrumb: Seq::empty(),
            entries: Seq::empty(),
            selected: 0,
            logs: Seq::empty(),
            status_message: None,
            input,
            cursor_visible: true,
            text_cursor: usize::MAX,
            loading: false,
            spinner_idx: 0,
            show_help_sheet: false,
            help_scroll: 0,
            parent_entries: Seq::empty(),
            parent_selected: 0,
            preview_state: PreviewView::Empty,
            preview_target_id: None,
            preview_target_name: None,
            show_logs_overlay: false,
            pending_preview_fetch: false,
            cart: Seq::empty(),
            cart_selected: 0,
            downloads,
            downloads_selected: 0,
            downloads_active: false,
            downloads_expanded: false,
            last_click_pos: (0, 0),
            preview_scroll: 0,
            logs_scroll: None,
            trash_entries: Seq::empty(),
            trash_selected: 0,
            trash_expanded: false,
            loading_label: None,
            quota_used: None,
            quota_limit: None,
            shares_pending: false,
            update_available: None,
            clock: clock_at(setup.now),
            screen: ScreenState::blank_spec(),
            effects: Seq::empty(),
        }
    }

    /// With a newer version asked for, unless that is switched off.
    pub open spec fn update_checked(self) -> AppView {
        if self.config.update_check == self.options.updates_off {
            self
        } else {
            self.asking(EffectView::CheckUpdate)
        }
    }

    /// The interface of a session that is signed in.
    pub open spec fn authed(setup: Setup) -> AppView {
        AppView::fresh(setup, ModeView::Normal, setup.downloads@).refreshed().asking(
            EffectView::FetchQuota,
        ).update_checked()
    }

    /// With the sign-in under way where the form asks for it.
    pub open spec fn begun(self) -> AppView {
        match self.input {
            ModeView::Login { email, password, logging_in, .. } => if logging_in {
                self.asking(EffectView::Login { email, password })
            } else {
                self
            },
            _ => self,
        }
    }

    pub open spec fn at_time(self, now: u64) -> AppView {
        AppView { clock: Clock { now, ..self.clock }, ..self }
    }

    /// The text cursor goes on and off.
    pub open spec fn blinked(self) -> AppView {
        if passed(self.clock.now, self.clock.last_blink) >= BLINK_MILLIS {
            AppView {
                cursor_visible: !self.cursor_visible,
                clock: Clock { last_blink: self.clock.now, ..self.clock },
                ..self
            }
        } else {
            self
        }
    }

    /// The spinner turns.
    pub open spec fn spun(self) -> AppView {
        if passed(self.clock.now, self.clock.last_spinner) >= SPINNER_MILLIS {
            AppView {
                spinner_idx: picture_after(self.spinner_idx),
                clock: Clock { last_spinner: self.clock.now, ..self.clock },
                ..self
            }
        } else {
            self
        }
    }

    pub open spec fn ticked(self, now: u64) -> AppView {
        self.at_time(now).blinked().spun()
    }

    /// Whether the preview of the selected entry is to be fetched by itself now.
    pub open spec fn preview_is_due(self) -> bool {
        self.config.lazy_preview && self.pending_preview_fetch && passed(
            self.clock.now,
            self.clock.last_cursor_move,
        ) >= PREVIEW_DELAY_MILLIS
    }

    /// Whether the selected entry is a text that is too long to be fetched unasked.
    pub open spec fn preview_is_too_long(self) -> bool {
        match self.current() {
            Some(e) => e.kind == EntryKind::File && e.text_previewable && e.size
                > self.config.preview_max_size,
            None => false,
        }
    }

    pub open spec fn preview_unasked(self) -> AppView {
        AppView { pending_preview_fetch: false, ..self }
    }

    pub open spec fn preview_settled(self) -> AppView {
        if !self.preview_is_due() {
            self
        } else if self.preview_is_too_long() {
            self.preview_unasked()
        } else {
            self.preview_unasked().preview_fetched()
        }
    }

    /// With the text cursor shown at once.
    pub open spec fn cursor_shown(self) -> AppView {
        AppView {
            cursor_visible: true,
            clock: Clock { last_blink: self.clock.now, ..self.clock },
            ..self
        }
    }
}

fn is_past(now: u64, since: u64, millis: u64) -> (r: bool)
    ensures
        r == (passed(now, since) >= millis),
{
    now.saturating_sub(since) >= millis
}

impl App {
    fn fresh(setup: Setup, input: InputMode, downloads: Vec<DownloadTask>) -> (r: App)
        ensures
            r@ == AppView::fresh(setup, input@, downloads@),
    {
        let clock: Clock = Clock {
            now: setup.now,
            last_blink: setup.now,
            last_spinner: setup.now,
            last_cursor_move: setup.now,
            last_click_time: setup.now,
        };
        let r: App = App {
            config: setup.config,
            options: setup.options,
            version: setup.version,
            current_folder_id: empty_text(),
            main_listing_request_id: 0,
            async_request_generation: 0,
            modal_request: None,
            preview_request: None,
            parent_listing_request: None,
            path_completion_in_flight: None,
            breadcrumb: Vec::new(),
            entries: Vec::new(),
            selected: 0,
            logs: Vec::new(),
            status_message: None,
            input,
            cursor_visible: true,
            text_cursor: usize::MAX,
            loading: false,
            spinner_idx: 0,
            show_help_sheet: false,
            help_scroll: 0,
            parent_entries: Vec::new(),
            parent_selected: 0,
            preview_state: PreviewState::Empty,
            preview_target_id: None,
            preview_target_name: None,
            show_logs_overlay: false,
            pending_preview_fetch: false,
            cart: Vec::new(),
            cart_selected: 0,
            downloads,
            downloads_selected: 0,
            downloads_active: false,
            downloads_expanded: false,
            last_click_pos: (0, 0),
            preview_scroll: 0,
            logs_scroll: None,
            trash_entries: Vec::new(),
            trash_selected: 0,
            trash_expanded: false,
            loading_label: None,
            quota_used: None,
            quota_limit: None,
            shares_pending: false,
            update_available: None,
            clock,
            screen: ScreenState::blank(),
            effects: Vec::new(),
        };
        assert(text_pairs(r.breadcrumb@) =~= Seq::empty());
        assert(texts(r.logs@) =~= Seq::empty());
        assert(crate::effect::effects_view(r.effects@) =~= Seq::empty());
        assert(r@.entries =~= Seq::empty());
        r
    }

    /// The interface of a session that is signed in: the listing, the quota and news of a newer
    /// version are asked for.
    pub fn new_authed(setup: Setup) -> (r: App)
        ensures
            r@ == AppView::authed(setup),
    {
        let mut setup = setup;
        let mut downloads: Vec<DownloadTask> = Vec::new();
        std::mem::swap(&mut downloads, &mut setup.downloads);
        let mut app: App = App::fresh(setup, InputMode::Normal, downloads);
        app.refresh();
        app.fetch_quota();
        app.check_for_update_async();
        app
    }

    /// The interface before the sign-in.
    pub fn new_login(setup: Setup, credentials: Option<(String, String)>) -> (r: App)
        ensures
            r@ == AppView::fresh(setup, login_mode(credentials_view(credentials)), Seq::empty()),
    {
        let input: InputMode = match credentials {
            Some((email, password)) => InputMode::Login {
                field: LoginField::Email,
                email,
                password,
                error: None,
                logging_in: true,
            },
            None => InputMode::Login {
                field: LoginField::Email,
                email: empty_text(),
                password: empty_text(),
                error: None,
                logging_in: false,
            },
        };
        let none: Vec<DownloadTask> = Vec::new();
        App::fresh(setup, input, none)
    }

    fn begin(&mut self)
        ensures
            final(self)@ == old(self)@.begun(),
    {
        let mut known: Option<(String, String)> = None;
        match &self.input {
            InputMode::Login { field: _, email, password, error: _, logging_in } => {
                if *logging_in {
                    known = Some((email.clone(), password.clone()));
                }
            },
            _ => {},
        }
        match known {
            Some((email, password)) => {
                self.attempt_login(email.as_str(), password.as_str());
                return;
            },
            None => {
                return;
            },
        }
    }

    fn set_time(&mut self, now: u64)
        ensures
            final(self)@ == old(self)@.at_time(now),
    {
        self.clock.now = now;
    }

    fn blink(&mut self)
        ensures
            final(self)@ == old(self)@.blinked(),
    {
        if is_past(self.clock.now, self.clock.last_blink, BLINK_MILLIS) {
            self.cursor_visible = !self.cursor_visible;
            self.clock.last_blink = self.clock.now;
            return;
        }
    }

    fn turn_spinner(&mut self, next: usize)
        ensures
            final(self)@ == (AppView {
                spinner_idx: next,
                clock: Clock { last_spinner: old(self)@.clock.now, ..old(self)@.clock },
                ..old(self)@
            }),
    {
        self.spinner_idx = next;
        self.clock.last_spinner = self.clock.now;
    }

    fn spin(&mut self)
        ensures
            final(self)@ == old(self)@.spun(),
    {
        if is_past(self.clock.now, self.clock.last_spinner, SPINNER_MILLIS) {
            let next: usize = next_picture(self.spinner_idx);
            self.turn_spinner(next);
            return;
        }
    }

    /// Lets the time go on: the cursor blinks and the spinner turns.
    pub fn tick(&mut self, now: u64)
        ensures
            final(self)@ == old(self)@.ticked(now),
    {
        self.set_time(now);
        self.blink();
        self.spin();
    }

    fn preview_due(&self) -> (r: bool)
        ensures
            r == self@.preview_is_due(),
    {
        self.config.lazy_preview && self.pending_preview_fetch && is_past(
            self.clock.now,
            self.clock.last_cursor_move,
            PREVIEW_DELAY_MILLIS,
        )
    }

    fn preview_too_long(&self) -> (r: bool)
        ensures
            r == self@.preview_is_too_long(),
    {
        match self.current_entry() {
            Some(e) => e.kind == EntryKind::File && e.text_previewable && e.size
                > self.config.preview_max_size,
            None => false,
        }
    }

    fn unask_preview(&mut self)
        ensures
            final(self)@ == old(self)@.preview_unasked(),
    {
        self.pending_preview_fetch = false;
    }

    /// Fetches the preview of the selected entry once the cursor has come to rest on it, where the
    /// settings say so. A text that is too long is not fetched unasked.
    pub fn settle_preview(&mut self)
        ensures
            final(self)@ == old(self)@.preview_settled(),
    {
        if !self.preview_due() {
            return;
        }
        if self.preview_too_long() {
            self.unask_preview();
            return;
        }
        self.unask_preview();
        self.fetch_preview_for_selected();
    }

    fn show_cursor(&mut self)
        ensures
            final(self)@ == old(self)@.cursor_shown(),
    {
        self.cursor_visible = true;
        self.clock.last_blink = self.clock.now;
    }

    /// A key is pressed: the text cursor is shown at once, and the key is handled. The answer tells
    /// whether it ends the program.
    pub fn key_pressed(&mut self, now: u64, code: KeyCode, modifiers: KeyModifiers) -> (quit: bool)
        ensures
            final(self)@ == old(self)@.at_time(now).cursor_shown().key_handled(code, modifiers),
            quit == old(self)@.at_time(now).cursor_shown().key_quits(code, modifiers),
    {
        self.set_time(now);
        self.show_cursor();
        self.handle_key(code, modifiers)
    }
}

/// Starts a session that is signed in.
pub fn run(setup: Setup) -> (r: App)
    ensures
        r@ == AppView::authed(setup),
{
    let mut app: App = App::new_authed(setup);
    app.begin();
    app
}

/// Starts with the sign-in, which is attempted at once where credentials are known.
pub fn run_with_credentials(credentials: Option<(String, String)>, setup: Setup) -> (r: App)
    ensures
        r@ == AppView::fresh(
            setup,
            login_mode(credentials_view(credentials)),
            Seq::empty(),
        ).begun(),
{
    let mut app: App = App::new_login(setup, credentials);
    app.begin();
    app
}

/// The spinner always stands at one of its ten pictures.
pub proof fn law_spinner_has_a_picture(a: AppView, now: u64)
    requires
        a.spinner_idx < 10,
    ensures
        a.ticked(now).spinner_idx < 10,
{
}

} // verus!
