//! Decisions of the desktop shell: tray and menu actions, window closing,
//! the exit/tray settings, page navigation, authentication retries, IPC
//! commands from the web views, install time limits and the window icon.

use vstd::prelude::*;

use crate::bootstrap::DSH_URL;
use crate::dsh_process::{join_path, join_spec};
use crate::env_check::{version_view, EnvCheckResult};
use crate::splash::{
    inject_navbar_script, nav_button_script, nav_set_exit_mode, nav_set_tray_mode,
    navbar_script, EXIT_TIP_OFF, EXIT_TIP_ON, TRAY_TIP_OFF, TRAY_TIP_ON,
};
use crate::text::{
    chars_of, contains_chars, contains_run, debug_quoted, debug_str, lower, lower_chars,
    same_chars, starts_with, starts_with_chars, trim, trim_chars,
};

verus! {

/// What to do with the main window.
#[derive(Debug, PartialEq, Eq, Structural)]
pub enum DesktopAction {
    Hide,
    Show,
    Exit,
}

/// A mouse button, as tray events report it.
#[derive(Debug, Clone, Copy, PartialEq, Eq, Structural)]
pub enum MouseButton {
    Left,
    Right,
    Middle,
}

/// Whether a mouse button went down or up.
#[derive(Debug, Clone, Copy, PartialEq, Eq, Structural)]
pub enum MouseButtonState {
    Up,
    Down,
}

/// A click on the tray icon shows the window when it is the release of the
/// left button; other clicks do nothing.
pub fn tray_click_action(button: MouseButton, state: MouseButtonState) -> (r: Option<
    DesktopAction,
>)
    ensures
        r == (if button == MouseButton::Left && state == MouseButtonState::Up {
            Some(DesktopAction::Show)
        } else {
            None
        }),
{
    if button == MouseButton::Left && state == MouseButtonState::Up {
        Some(DesktopAction::Show)
    } else {
        None
    }
}

/// The tray menu items: `show` shows the window, `quit` exits.
pub fn menu_action(id: &str) -> (r: Option<DesktopAction>)
    ensures
        r == (if id@ == "show"@ {
            Some(DesktopAction::Show)
        } else if id@ == "quit"@ {
            Some(DesktopAction::Exit)
        } else {
            None
        }),
{
    let v = chars_of(id);
    if same_chars(v.as_slice(), chars_of("show").as_slice()) {
        Some(DesktopAction::Show)
    } else if same_chars(v.as_slice(), chars_of("quit").as_slice()) {
        Some(DesktopAction::Exit)
    } else {
        None
    }
}

/// Closing the main window exits when "exit on close" is on and hides the
/// window otherwise; closing another window does nothing.
pub fn close_action(is_main_window: bool, exit_on_close: bool) -> (r: Option<DesktopAction>)
    ensures
        r == (if !is_main_window {
            None
        } else if exit_on_close {
            Some(DesktopAction::Exit)
        } else {
            Some(DesktopAction::Hide)
        }),
{
    if !is_main_window {
        None
    } else if exit_on_close {
        Some(DesktopAction::Exit)
    } else {
        Some(DesktopAction::Hide)
    }
}

/// The two window settings of the navigation bar.
pub struct AppSettings {
    pub exit_on_close: bool,
    pub tray_enabled: bool,
}

/// The settings never ask both to exit on close and to stay in the tray.
pub open spec fn settings_ok(s: AppSettings) -> bool {
    !(s.exit_on_close && s.tray_enabled)
}

impl AppSettings {
    /// Closing hides the window to the tray.
    pub fn new() -> (r: Self)
        ensures
            !r.exit_on_close,
            r.tray_enabled,
            settings_ok(r),
    {
        AppSettings { exit_on_close: false, tray_enabled: true }
    }

    /// Flips "exit on close"; turning it on turns the tray off. Returns the
    /// navigation-bar scripts that show the change, in order.
    pub fn toggle_exit_on_close(&mut self) -> (r: Vec<String>)
        ensures
            final(self).exit_on_close == !old(self).exit_on_close,
            final(self).tray_enabled == (old(self).tray_enabled && !final(self).exit_on_close),
            settings_ok(*old(self)) ==> settings_ok(*final(self)),
            r@.len() == if final(self).exit_on_close {
                2int
            } else {
                1int
            },
            final(self).exit_on_close ==> r@[0]@ == nav_button_script("tray"@, false, TRAY_TIP_OFF@),
            r@.last()@ == nav_button_script(
                "exit"@,
                final(self).exit_on_close,
                if final(self).exit_on_close {
                    EXIT_TIP_ON@
                } else {
                    EXIT_TIP_OFF@
                },
            ),
    {
        let mut scripts: Vec<String> = Vec::new();
        self.exit_on_close = !self.exit_on_close;
        if self.exit_on_close {
            self.tray_enabled = false;
            scripts.push(nav_set_tray_mode(false));
        }
        scripts.push(nav_set_exit_mode(self.exit_on_close));
        scripts
    }

    /// Flips "stay in the tray"; turning it on turns "exit on close" off.
    /// Returns the navigation-bar scripts that show the change, in order.
    pub fn toggle_tray(&mut self) -> (r: Vec<String>)
        ensures
            final(self).tray_enabled == !old(self).tray_enabled,
            final(self).exit_on_close == (old(self).exit_on_close && !final(self).tray_enabled),
            settings_ok(*old(self)) ==> settings_ok(*final(self)),
            r@.len() == if final(self).tray_enabled {
                2int
            } else {
                1int
            },
            final(self).tray_enabled ==> r@[0]@ == nav_button_script("exit"@, false, EXIT_TIP_OFF@),
            r@.last()@ == nav_button_script(
                "tray"@,
                final(self).tray_enabled,
                if final(self).tray_enabled {
                    TRAY_TIP_ON@
                } else {
                    TRAY_TIP_OFF@
                },
            ),
    {
        let mut scripts: Vec<String> = Vec::new();
        self.tray_enabled = !self.tray_enabled;
        if self.tray_enabled {
            self.exit_on_close = false;
            scripts.push(nav_set_exit_mode(false));
        }
        scripts.push(nav_set_tray_mode(self.tray_enabled));
        scripts
    }

    /// The navigation bar, followed by the scripts that show both settings.
    pub fn navbar_injection(&self) -> (r: String)
        ensures
            r@ == navbar_script() + nav_button_script(
                "exit"@,
                self.exit_on_close,
                if self.exit_on_close {
                    EXIT_TIP_ON@
                } else {
                    EXIT_TIP_OFF@
                },
            ) + nav_button_script(
                "tray"@,
                self.tray_enabled,
                if self.tray_enabled {
                    TRAY_TIP_ON@
                } else {
                    TRAY_TIP_OFF@
                },
            ),
    {
        let mut js = inject_navbar_script();
        js.append(nav_set_exit_mode(self.exit_on_close).as_str());
        js.append(nav_set_tray_mode(self.tray_enabled).as_str());
        js
    }
}

/// What follows a dsh update: a restart once it installed and validated.
#[derive(Debug, PartialEq, Eq, Structural)]
pub enum UpdateAction {
    Restart,
    FailInstall,
    FailValidation,
}

pub fn update_action(install_ok: bool, validation_ok: bool) -> (r: UpdateAction)
    ensures
        r == (if !install_ok {
            UpdateAction::FailInstall
        } else if !validation_ok {
            UpdateAction::FailValidation
        } else {
            UpdateAction::Restart
        }),
{
    if !install_ok {
        UpdateAction::FailInstall
    } else if !validation_ok {
        UpdateAction::FailValidation
    } else {
        UpdateAction::Restart
    }
}


pub const AUTH_REQUIRED: &'static str = "authentication required";

/// The page text asks for authentication (in any ASCII case).
pub open spec fn asks_auth(text: Seq<char>) -> bool {
    contains_run(lower(text), AUTH_REQUIRED@)
}

fn asks_auth_chars(text: &str) -> (r: bool)
    ensures
        r == asks_auth(text@),
{
    contains_chars(lower_chars(chars_of(text).as_slice()).as_slice(), chars_of(AUTH_REQUIRED).as_slice())
}

/// A page that asks for authentication is retried once, on the first attempt.
pub fn should_retry_auth_page(text: &str, attempts: u8) -> (r: bool)
    ensures
        r == (attempts == 0 && asks_auth(text@)),
{
    attempts == 0 && asks_auth_chars(text)
}

/// The startup overlay goes once the page shows text that does not ask for
/// authentication.
pub fn should_hide_startup_overlay(text: &str) -> (r: bool)
    ensures
        r == (text@.len() > 0 && !asks_auth(text@)),
{
    let lowered = lower_chars(chars_of(text).as_slice());
    lowered.len() > 0 && !contains_chars(lowered.as_slice(), chars_of(AUTH_REQUIRED).as_slice())
}

/// The pending retry of an authenticated page load.
pub struct AuthRetryState {
    pub session: u64,
    pub url: String,
    pub attempts: u8,
}

pub fn auth_retry_matches_session(state: Option<&AuthRetryState>, session: u64) -> (r: bool)
    ensures
        r == (state matches Some(st) && st.session == session),
{
    match state {
        Some(st) => st.session == session,
        None => false,
    }
}

/// A page load of `target` gets a retry state when it carries a token.
pub fn auth_retry_for_target(session: u64, target: &str) -> (r: Option<AuthRetryState>)
    ensures
        r is Some <==> contains_run(target@, "token="@),
        r matches Some(st) ==> st.session == session && st.url@ == target@ && st.attempts == 0,
{
    if contains_chars(chars_of(target).as_slice(), chars_of("token=").as_slice()) {
        Some(AuthRetryState { session, url: String::from_str(target), attempts: 0 })
    } else {
        None
    }
}

/// One page text seen for retry state `state`: the page of the state's own
/// session is loaded again when it asks for authentication on the first
/// attempt (the attempt is counted); a page of that session that does not ask
/// for authentication ends the retry state; anything else changes nothing.
/// The flag says whether to load the page again.
pub open spec fn probe_spec(state: Option<AuthRetryState>, session: u64, text: Seq<char>) -> (
    Option<AuthRetryState>,
    bool,
) {
    match state {
        Some(st) => if st.session != session {
            (state, false)
        } else if st.attempts == 0 && asks_auth(text) {
            (Some(AuthRetryState { session: st.session, url: st.url, attempts: 1 }), true)
        } else if !asks_auth(text) {
            (None, false)
        } else {
            (state, false)
        },
        None => (state, false),
    }
}

/// Handles the text of a loaded page for the retry `state` of `session`
/// (see `probe_spec`); returns whether the page must be loaded again.
pub fn on_auth_page_probe(state: &mut Option<AuthRetryState>, session: u64, text: &str) -> (r: bool)
    ensures
        (*final(state), r) == probe_spec(*old(state), session, text@),
{
    let matches = auth_retry_matches_session(state.as_ref(), session);
    if !matches {
        return false;
    }
    let asks = asks_auth_chars(text);
    let first = match state {
        Some(st) => st.attempts == 0,
        None => false,
    };
    if first && asks {
        match state {
            Some(st) => {
                st.attempts = 1;
            },
            None => {},
        }
        true
    } else {
        if !asks {
            *state = None;
        }
        false
    }
}

/// The retry state after the page texts `probes` (each with the session it
/// was loaded for), in order.
pub open spec fn probe_run(state: Option<AuthRetryState>, probes: Seq<(u64, Seq<char>)>) -> Option<
    AuthRetryState,
>
    decreases probes.len(),
{
    if probes.len() == 0 {
        state
    } else {
        probe_spec(probe_run(state, probes.drop_last()), probes.last().0, probes.last().1).0
    }
}

/// How many of `probes` asked for the page to be loaded again.
pub open spec fn probe_retries(state: Option<AuthRetryState>, probes: Seq<(u64, Seq<char>)>) -> nat
    decreases probes.len(),
{
    if probes.len() == 0 {
        0
    } else {
        probe_retries(state, probes.drop_last()) + if probe_spec(
            probe_run(state, probes.drop_last()),
            probes.last().0,
            probes.last().1,
        ).1 {
            1nat
        } else {
            0nat
        }
    }
}

spec fn retry_left(state: Option<AuthRetryState>) -> nat {
    match state {
        Some(st) => if st.attempts == 0 {
            1nat
        } else {
            0nat
        },
        None => 0,
    }
}

proof fn lemma_retries_bounded(state: Option<AuthRetryState>, probes: Seq<(u64, Seq<char>)>)
    ensures
        probe_retries(state, probes) + retry_left(probe_run(state, probes)) <= 1,
    decreases probes.len(),
{
    if probes.len() > 0 {
        lemma_retries_bounded(state, probes.drop_last());
    }
}

/// An authenticated page load is retried at most once, whatever pages load
/// afterwards and for whichever sessions.
pub proof fn law_auth_retried_at_most_once(
    state: Option<AuthRetryState>,
    probes: Seq<(u64, Seq<char>)>,
)
    ensures
        probe_retries(state, probes) <= 1,
{
    lemma_retries_bounded(state, probes);
}

/// Reloading goes to the authenticated URL when there is one, else to `DSH_URL`.
pub fn page_navigation_target<'a>(authenticated_url: Option<&'a str>) -> (r: &'a str)
    ensures
        r@ == match authenticated_url {
            Some(u) => u@,
            None => DSH_URL@,
        },
{
    match authenticated_url {
        Some(u) => u,
        None => DSH_URL,
    }
}

/// The script that replaces the page with `target`.
pub fn navigation_script(target: &str) -> (r: String)
    ensures
        r@ == "location.replace("@ + debug_str(target@) + ");"@,
{
    let mut r = String::from_str("location.replace(");
    r.append(debug_quoted(target).as_str());
    r.append(");");
    r
}

/// The splash-page script that shows `message` as the status line.
pub fn set_status_script(message: &str) -> (r: String)
    ensures
        r@ == "setStatus("@ + debug_str(message@) + ");"@,
{
    let mut r = String::from_str("setStatus(");
    r.append(debug_quoted(message).as_str());
    r.append(");");
    r
}

/// The splash-page script that reports a failed dsh update.
pub fn update_failure_script(error: &str) -> (r: String)
    ensures
        r@ == "showUpdateFail("@ + debug_str(error@) + ");"@,
{
    let mut r = String::from_str("showUpdateFail(");
    r.append(debug_quoted(error).as_str());
    r.append(");");
    r
}

pub const INSTALL_FAILED_SUFFIX: &'static str = " 安装失败，请按安装方式手动安装后重试";

/// The status line after an automatic install of `which` failed.
pub fn install_failure_message(which: &str) -> (r: String)
    ensures
        r@ == which@ + INSTALL_FAILED_SUFFIX@,
{
    let mut r = String::from_str(which);
    r.append(INSTALL_FAILED_SUFFIX);
    r
}

/// Pages of the dsh service (the navigation bar goes into these).
pub fn is_dsh_page(url: &str) -> (r: bool)
    ensures
        r == starts_with(url@, DSH_URL@),
{
    starts_with_chars(chars_of(url).as_slice(), chars_of(DSH_URL).as_slice())
}

/// The WebView2 data directory under `%LOCALAPPDATA%`.
pub fn webview_data_directory(local_app_data: &str) -> (r: String)
    ensures
        r@ == join_spec(join_spec(local_app_data@, "DSH Desktop"@), "WebView2"@),
{
    let d = join_path(local_app_data, "DSH Desktop");
    join_path(d.as_str(), "WebView2")
}

/// How long an install command may run: 15 minutes for `winget`, 5 for
/// anything else.
pub fn install_timeout_secs(bin: &str) -> (r: u64)
    ensures
        r == if bin@ == "winget"@ {
            900u64
        } else {
            300u64
        },
{
    if same_chars(chars_of(bin).as_slice(), chars_of("winget").as_slice()) {
        15 * 60
    } else {
        5 * 60
    }
}

/// A running dsh is out of date when its check passed and its version,
/// trimmed, is not the published one, trimmed.
pub fn update_available(local: &EnvCheckResult, latest: &str) -> (r: bool)
    ensures
        r == (local.ok && match version_view(*local) {
            Some(v) => trim(v) != trim(latest@),
            None => true,
        }),
{
    if !local.ok {
        return false;
    }
    match &local.version {
        Some(v) => {
            let a = trim_chars(chars_of(v.as_str()).as_slice());
            let b = trim_chars(chars_of(latest).as_slice());
            !same_chars(a.as_slice(), b.as_slice())
        },
        None => true,
    }
}

/// What the web views ask for over IPC.
#[derive(Debug, Clone, Copy, PartialEq, Eq, Structural)]
pub enum IpcCommand {
    Retry,
    Exit,
    Refresh,
    Restart,
    ToggleExitMode,
    ToggleTray,
    InstallNode,
    InstallDsh,
    UpdateDsh,
    DismissDshUpdate,
}

/// The IPC message that names each command.
pub open spec fn ipc_name(c: IpcCommand) -> Seq<char> {
    match c {
        IpcCommand::Retry => "retry"@,
        IpcCommand::Exit => "exit"@,
        IpcCommand::Refresh => "refresh"@,
        IpcCommand::Restart => "restart"@,
        IpcCommand::ToggleExitMode => "toggle-exit-mode"@,
        IpcCommand::ToggleTray => "toggle-tray"@,
        IpcCommand::InstallNode => "install-node"@,
        IpcCommand::InstallDsh => "install-dsh"@,
        IpcCommand::UpdateDsh => "update-dsh"@,
        IpcCommand::DismissDshUpdate => "dismiss-dsh-update"@,
    }
}

/// The commands the splash page may send (it has no navigation bar).
pub open spec fn splash_may_send(c: IpcCommand) -> bool {
    c is Retry || c is Exit || c is UpdateDsh || c is DismissDshUpdate || c is InstallNode
        || c is InstallDsh
}

fn named(body: &[char], name: &str) -> (r: bool)
    ensures
        r == (body@ == name@),
{
    same_chars(body, chars_of(name).as_slice())
}

/// The command a message from the main web view names, if any.
pub fn main_ipc_command(body: &str) -> (r: Option<IpcCommand>)
    ensures
        match r {
            Some(c) => ipc_name(c) == body@,
            None => forall|c: IpcCommand| ipc_name(c) != body@,
        },
{
    let b = chars_of(body);
    if named(b.as_slice(), "retry") {
        Some(IpcCommand::Retry)
    } else if named(b.as_slice(), "exit") {
        Some(IpcCommand::Exit)
    } else if named(b.as_slice(), "refresh") {
        Some(IpcCommand::Refresh)
    } else if named(b.as_slice(), "restart") {
        Some(IpcCommand::Restart)
    } else if named(b.as_slice(), "toggle-exit-mode") {
        Some(IpcCommand::ToggleExitMode)
    } else if named(b.as_slice(), "toggle-tray") {
        Some(IpcCommand::ToggleTray)
    } else if named(b.as_slice(), "install-node") {
        Some(IpcCommand::InstallNode)
    } else if named(b.as_slice(), "install-dsh") {
        Some(IpcCommand::InstallDsh)
    } else if named(b.as_slice(), "update-dsh") {
        Some(IpcCommand::UpdateDsh)
    } else if named(b.as_slice(), "dismiss-dsh-update") {
        Some(IpcCommand::DismissDshUpdate)
    } else {
        None
    }
}

/// The command a message from the splash page names, among those it may send.
pub fn splash_ipc_command(body: &str) -> (r: Option<IpcCommand>)
    ensures
        match r {
            Some(c) => ipc_name(c) == body@ && splash_may_send(c),
            None => forall|c: IpcCommand| splash_may_send(c) ==> ipc_name(c) != body@,
        },
{
    let b = chars_of(body);
    if named(b.as_slice(), "retry") {
        Some(IpcCommand::Retry)
    } else if named(b.as_slice(), "exit") {
        Some(IpcCommand::Exit)
    } else if named(b.as_slice(), "update-dsh") {
        Some(IpcCommand::UpdateDsh)
    } else if named(b.as_slice(), "dismiss-dsh-update") {
        Some(IpcCommand::DismissDshUpdate)
    } else if named(b.as_slice(), "install-node") {
        Some(IpcCommand::InstallNode)
    } else if named(b.as_slice(), "install-dsh") {
        Some(IpcCommand::InstallDsh)
    } else {
        None
    }
}


/// Half of `d`, rounded toward zero (integer `/ 2`).
pub open spec fn half_toward_zero(d: int) -> int {
    if d >= 0 {
        d / 2
    } else {
        -((-d) / 2)
    }
}

/// The start, along one axis, of a window of length `window_len` centred on
/// a monitor that starts at `monitor_pos` and has length `monitor_len`; both
/// lengths are taken as `i32`.
pub open spec fn centered_origin_spec(monitor_pos: i32, monitor_len: u32, window_len: u32) -> int {
    monitor_pos + half_toward_zero((monitor_len as i32) - (window_len as i32))
}

/// Where to put a window so that it is centred on the monitor, along one
/// axis (in physical pixels).
pub fn centered_origin(monitor_pos: i32, monitor_len: u32, window_len: u32) -> (r: i32)
    requires
        i32::MIN <= (monitor_len as i32) - (window_len as i32) <= i32::MAX,
        i32::MIN <= centered_origin_spec(monitor_pos, monitor_len, window_len) <= i32::MAX,
    ensures
        r == centered_origin_spec(monitor_pos, monitor_len, window_len),
{
    let d: i32 = (monitor_len as i32) - (window_len as i32);
    monitor_pos + d / 2
}

/// What the `image` crate's PNG decoder makes of a file: its 8-bit RGBA
/// pixels with width and height, or the text of its decoding error.
pub uninterp spec fn image_decode(file: Seq<u8>) -> Result<(Seq<u8>, u32, u32), Seq<char>>;

/// `image::load_from_memory_with_format(file, ImageFormat::Png)`, converted
/// with `to_rgba8`, split into the raw pixel buffer and its dimensions; the
/// error as its display text. With the format given, the reader consults
/// none of the process-wide format-detection or decoding hooks and uses the
/// default limits, so the outcome depends on the bytes alone: the contract
/// names it `image_decode(file@)`. Only PNG is decoded; what the pixels are
/// is not restated.
#[verifier::external_body]
fn decode_rgba(file: &[u8]) -> (r: Result<(Vec<u8>, u32, u32), String>)
    ensures
        match r {
            Ok((pixels, width, height)) => image_decode(file@) == Ok::<
                (Seq<u8>, u32, u32),
                Seq<char>,
            >((pixels@, width, height)),
            Err(e) => image_decode(file@) == Err::<(Seq<u8>, u32, u32), Seq<char>>(e@),
        },
{
    match image::load_from_memory_with_format(file, image::ImageFormat::Png) {
        Ok(image) => {
            let rgba = image.to_rgba8();
            let (width, height) = rgba.dimensions();
            Ok((rgba.into_raw(), width, height))
        },
        Err(error) => Err(error.to_string()),
    }
}

pub const ICON_DECODE_FAILED: &'static str = "图标解码失败: ";

/// The RGBA pixels and size of the window and tray icon, decoded from its
/// PNG file (only PNG is accepted); a decoding error is reported after
/// "图标解码失败: ".
pub fn icon_rgba(png: &[u8]) -> (r: Result<(Vec<u8>, u32, u32), String>)
    ensures
        match image_decode(png@) {
            Ok((pixels, width, height)) => r matches Ok((p, w, h)) && p@ == pixels && w == width
                && h == height,
            Err(e) => r matches Err(m) && m@ == ICON_DECODE_FAILED@ + e,
        },
{
    match decode_rgba(png) {
        Ok(decoded) => Ok(decoded),
        Err(e) => {
            let mut m = String::from_str(ICON_DECODE_FAILED);
            m.append(e.as_str());
            Err(m)
        },
    }
}

} // verus!
