//! The app shell's decisions: the command line, the probe-report flow,
//! the issue URL, the one-click setup's outcome, and the graphs window's
//! refresh-gate lifecycle.
use vstd::prelude::*;
use vstd::string::StringSliceAdditionalSpecFns;

use crate::first_run::{opt_text, SetupOutcome};
use crate::model::{AmdZen, CpuVendor, Section, TelemetryData};
use crate::status::{daemon_status_color, healthy, rank_view, GuiAction};
use crate::style::{CRIMSON, CYAN};
use crate::text::{
    chars_of, dec, has_prefix, owned, push_char, push_dec, push_str, same_text, starts_with,
};

verus! {

/// The daemon's default Unix socket.
pub const DEFAULT_SOCKET_PATH: &'static str = "/run/ramsleuth/ramsleuth.sock";

/// The parsed command line: the daemon Unix socket to connect to.
#[derive(Debug, Clone, PartialEq, Eq)]
pub struct GuiArgs {
    /// The daemon Unix socket (`--socket`).
    pub socket: String,
}

impl Default for GuiArgs {
    /// The default socket, [`DEFAULT_SOCKET_PATH`].
    fn default() -> (a: Self)
        ensures
            a.socket@ == DEFAULT_SOCKET_PATH@,
    {
        GuiArgs { socket: owned(DEFAULT_SOCKET_PATH) }
    }
}

/// The outcome of parsing `args` with `socket` as the socket so far:
/// `--socket <path>` sets the socket (the last one wins); a missing value,
/// any other flag, or any positional argument is an error naming it.
pub open spec fn parse_spec(args: Seq<Seq<char>>, socket: Seq<char>) -> Result<Seq<char>, Seq<char>>
    decreases args.len(),
{
    if args.len() == 0 {
        Ok(socket)
    } else if args[0] == "--socket"@ {
        if args.len() >= 2 {
            parse_spec(args.subrange(2, args.len() as int), args[1])
        } else {
            Err("--socket requires a value (the daemon's Unix socket path)"@)
        }
    } else if has_prefix(args[0], "--"@) {
        Err("unknown flag `"@ + args[0] + "` (expected `--socket <path>`)"@)
    } else {
        Err("unexpected argument `"@ + args[0] + "` (no positional arguments are accepted)"@)
    }
}

/// Appending `--socket <p>` to a command line that parses makes `p` the
/// socket: the last `--socket` wins.
pub proof fn lemma_last_socket_wins(args: Seq<Seq<char>>, socket: Seq<char>, p: Seq<char>)
    requires
        parse_spec(args, socket) is Ok,
    ensures
        parse_spec(args + seq!["--socket"@, p], socket) == Ok::<Seq<char>, Seq<char>>(p),
    decreases args.len(),
{
    let all = args + seq!["--socket"@, p];
    if args.len() == 0 {
        assert(all =~= seq!["--socket"@, p]);
        assert(all.subrange(2, all.len() as int) =~= Seq::<Seq<char>>::empty());
        assert(all[1] == p);
        assert(parse_spec(Seq::<Seq<char>>::empty(), p) == Ok::<Seq<char>, Seq<char>>(p));
        assert(all[0] == "--socket"@);
    } else {
        assert(all[0] == args[0]);
        assert(args[0] == "--socket"@ && args.len() >= 2);
        assert(all[1] == args[1]);
        assert(all.subrange(2, all.len() as int) =~= args.subrange(2, args.len() as int) + seq!["--socket"@, p]);
        lemma_last_socket_wins(args.subrange(2, args.len() as int), args[1], p);
    }
}

/// The text of each argument.
pub open spec fn arg_texts(args: Seq<&str>) -> Seq<Seq<char>> {
    args.map_values(|a: &str| a@)
}

/// Parses the command line (the program name already removed): the one
/// flag `--socket <path>` sets the daemon socket (default
/// [`DEFAULT_SOCKET_PATH`]; it may repeat, the last value wins). Any other
/// flag, any positional argument, or a missing flag value is an error
/// message naming the problem.
pub fn parse_args(args: &[&str]) -> (r: Result<GuiArgs, String>)
    ensures
        match (r, parse_spec(arg_texts(args@), DEFAULT_SOCKET_PATH@)) {
            (Ok(a), Ok(s)) => a.socket@ == s,
            (Err(e), Err(m)) => e@ == m,
            _ => false,
        },
{
    let mut socket = owned(DEFAULT_SOCKET_PATH);
    let mut i: usize = 0;
    assert(arg_texts(args@).subrange(0, args@.len() as int) =~= arg_texts(args@));
    while i < args.len()
        invariant
            i <= args@.len(),
            parse_spec(arg_texts(args@), DEFAULT_SOCKET_PATH@)
                == parse_spec(arg_texts(args@).subrange(i as int, args@.len() as int), socket@),
        decreases args.len() - i,
    {
        let ghost rest = arg_texts(args@).subrange(i as int, args@.len() as int);
        let arg = args[i];
        assert(rest[0] == arg@);
        if same_text(arg, "--socket") {
            if i + 1 < args.len() {
                socket = owned(args[i + 1]);
                assert(rest.subrange(2, rest.len() as int)
                    =~= arg_texts(args@).subrange(i + 2, args@.len() as int));
                i = i + 2;
            } else {
                return Err(owned("--socket requires a value (the daemon's Unix socket path)"));
            }
        } else {
            let cs = chars_of(arg);
            let dash = chars_of("--");
            if starts_with(&cs, &dash) {
                let mut e = owned("unknown flag `");
                push_str(&mut e, arg);
                push_str(&mut e, "` (expected `--socket <path>`)");
                return Err(e);
            } else {
                let mut e = owned("unexpected argument `");
                push_str(&mut e, arg);
                push_str(&mut e, "` (no positional arguments are accepted)");
                return Err(e);
            }
        }
    }
    Ok(GuiArgs { socket })
}

/// The platform tag follows the socket generation: an AMD host is AM4
/// exactly for Zen 1, Zen 2 and Zen 3, and AM5 exactly for Zen 4 and
/// Zen 5; an Intel host is LGA; an unknown vendor names no socket.
pub proof fn lemma_platform_tag_follows_the_socket(vendor: CpuVendor)
    ensures
        vendor matches CpuVendor::Amd(z) ==> (platform_view(vendor) == "AMD AM4 Platform"@ <==> (z
            == AmdZen::Zen1 || z == AmdZen::Zen2 || z == AmdZen::Zen3)),
        vendor matches CpuVendor::Amd(z) ==> (platform_view(vendor) == "AMD AM5 Platform"@ <==> (z
            == AmdZen::Zen4 || z == AmdZen::Zen5)),
        vendor is Intel ==> platform_view(vendor) == "Intel LGA Platform"@,
        vendor is Unknown ==> platform_view(vendor) == "Platform"@,
{
    reveal_strlit("AMD AM4 Platform");
    reveal_strlit("AMD AM5 Platform");
    assert("AMD AM4 Platform"@ != "AMD AM5 Platform"@) by {
        assert("AMD AM4 Platform"@[6] != "AMD AM5 Platform"@[6]);
    }
}

} // verus!

verus! {

/// The upper-case hex digit (as an ASCII code) of a nibble.
pub open spec fn hex_code(n: u8) -> u8 {
    if n < 10 { (48 + n) as u8 } else { (55 + n) as u8 }
}

/// A nibble as an upper-case hex digit's ASCII code: `'0' + n` below
/// ten, `'A' + (n - 10)` from ten on (any `n` up to 200, where the code
/// still fits a byte).
pub fn to_hex(n: u8) -> (h: u8)
    requires
        n <= 200,
    ensures
        h == hex_code(n),
        h as int == if n < 10 { n + 48 } else { n + 55 },
{
    if n <= 9 { 48 + n } else { 65 + (n - 10) }
}

/// The RFC 3986 unreserved bytes: `A-Z a-z 0-9 - _ . ~`.
pub open spec fn unreserved(b: u8) -> bool {
    (65 <= b && b <= 90) || (97 <= b && b <= 122) || (48 <= b && b <= 57)
        || b == 45 || b == 95 || b == 46 || b == 126
}

/// The percent-encoding of one byte: itself when unreserved, else `%XX`
/// in upper-case hex.
pub open spec fn pct_byte(b: u8) -> Seq<char> {
    if unreserved(b) {
        seq![b as char]
    } else {
        seq!['%', hex_code(b / 16) as char, hex_code(b % 16) as char]
    }
}

/// The percent-encoding of a byte string, byte by byte.
pub open spec fn pct_encode(bytes: Seq<u8>) -> Seq<char>
    decreases bytes.len(),
{
    if bytes.len() == 0 { seq![] } else { pct_encode(bytes.drop_last()) + pct_byte(bytes.last()) }
}

/// Percent-encodes `s` per RFC 3986 over its UTF-8 bytes: the unreserved
/// set passes through, every other byte becomes `%XX` (upper-case hex; a
/// space is `%20`, never `+`).
pub fn url_encode(s: &str) -> (r: String)
    ensures
        r@ == pct_encode(s.spec_bytes()),
{
    let bytes = s.as_bytes();
    let mut out = String::new();
    let mut i: usize = 0;
    while i < bytes.len()
        invariant
            i <= bytes@.len(),
            bytes@ == s.spec_bytes(),
            out@ == pct_encode(bytes@.take(i as int)),
        decreases bytes.len() - i,
    {
        let byte = bytes[i];
        assert(bytes@.take(i + 1).drop_last() =~= bytes@.take(i as int));
        let unres = (65 <= byte && byte <= 90) || (97 <= byte && byte <= 122)
            || (48 <= byte && byte <= 57) || byte == 45 || byte == 95 || byte == 46
            || byte == 126;
        if unres {
            push_char(&mut out, byte as char);
        } else {
            push_char(&mut out, '%');
            push_char(&mut out, to_hex(byte / 16) as char);
            push_char(&mut out, to_hex(byte % 16) as char);
        }
        i = i + 1;
        assert(out@ =~= pct_encode(bytes@.take(i as int)));
    }
    assert(bytes@.take(bytes@.len() as int) =~= bytes@);
    out
}

/// The GitHub issue form's URL, titled and without a body.
pub open spec fn issue_url_view(title: &str) -> Seq<char> {
    "https://github.com/MadGoat/RamSleuth/issues/new?title="@ + pct_encode(title.spec_bytes())
}

/// The issue URL of a title given by its characters (its UTF-8 bytes
/// percent-encoded, as [`issue_url_view`]).
pub open spec fn issue_url_text(title: Seq<char>) -> Seq<char> {
    "https://github.com/MadGoat/RamSleuth/issues/new?title="@ + pct_encode(vstd::utf8::encode_utf8(title))
}

/// The pre-filled issue title of a probe report:
/// `[Probe] <cpu brand> · <cpu generation> · <os> · v<version>`.
pub fn probe_issue_title(cpu_brand: &str, cpu_gen: &str, os: &str, version: &str) -> (t: String)
    ensures
        t@ == "[Probe] "@ + cpu_brand@ + " · "@ + cpu_gen@ + " · "@ + os@ + " · v"@ + version@,
{
    let mut t = owned("[Probe] ");
    push_str(&mut t, cpu_brand);
    push_str(&mut t, " · ");
    push_str(&mut t, cpu_gen);
    push_str(&mut t, " · ");
    push_str(&mut t, os);
    push_str(&mut t, " · v");
    push_str(&mut t, version);
    t
}

/// The pre-filled GitHub `issues/new` URL: the title only,
/// percent-encoded (the report itself rides the clipboard).
pub fn probe_issue_url(title: &str) -> (u: String)
    ensures
        u@ == issue_url_view(title),
{
    let mut u = owned("https://github.com/MadGoat/RamSleuth/issues/new?title=");
    let enc = url_encode(title);
    push_str(&mut u, enc.as_str());
    u
}

/// The consent-gated probe-report flow: no flow, the consent dialog, the
/// preview of the rendered report (its markdown), or submitted.
#[derive(Debug, Clone, PartialEq, Eq)]
pub enum ProbeState {
    Idle,
    Consent,
    Preview(String),
    Done,
}

impl Default for ProbeState {
    /// No flow in progress.
    fn default() -> (s: Self)
        ensures
            s is Idle,
    {
        ProbeState::Idle
    }
}

/// One user event on the probe flow.
#[derive(Debug, Clone, Copy, PartialEq, Eq)]
pub enum ProbeEvent {
    /// The header's "Probe" button.
    Open,
    /// The consent dialog's Cancel.
    CancelConsent,
    /// The preview dialog's Cancel.
    CancelPreview,
    /// The preview dialog's "Open GitHub Issue".
    Submit,
}

/// The probe flow's transition: `Open` (Idle → Consent), `CancelConsent`
/// (Consent → Idle), `CancelPreview` (Preview → Idle), `Submit` (Preview
/// → Done); any other event leaves the state unchanged.
pub open spec fn probe_step(s: ProbeState, e: ProbeEvent) -> ProbeState {
    match (s, e) {
        (ProbeState::Idle, ProbeEvent::Open) => ProbeState::Consent,
        (ProbeState::Consent, ProbeEvent::CancelConsent) => ProbeState::Idle,
        (ProbeState::Preview(_), ProbeEvent::CancelPreview) => ProbeState::Idle,
        (ProbeState::Preview(_), ProbeEvent::Submit) => ProbeState::Done,
        _ => s,
    }
}

impl ProbeState {
    /// Applies one user event (total: an event outside its state is a
    /// no-op).
    pub fn apply(&mut self, event: ProbeEvent)
        ensures
            *final(self) == probe_step(*old(self), event),
    {
        let next = match (&*self, event) {
            (ProbeState::Idle, ProbeEvent::Open) => Some(ProbeState::Consent),
            (ProbeState::Consent, ProbeEvent::CancelConsent) => Some(ProbeState::Idle),
            (ProbeState::Preview(_), ProbeEvent::CancelPreview) => Some(ProbeState::Idle),
            (ProbeState::Preview(_), ProbeEvent::Submit) => Some(ProbeState::Done),
            _ => None,
        };
        match next {
            Some(s) => *self = s,
            None => {},
        }
    }
}

/// What the poller has landed for the probe request.
#[derive(Debug, Clone, PartialEq, Eq)]
pub enum ProbeLanding {
    /// Nothing yet: the request is in flight or not yet taken.
    Waiting,
    /// The report, rendered: its markdown and its issue title.
    Ready { markdown: String, title: String },
    /// The daemon's failure message.
    Failed(String),
}

/// What advancing the probe flow does besides the state change.
#[derive(Debug, Clone, PartialEq, Eq)]
pub struct ProbeAdvance {
    /// The landed result was taken, and its slot is to be cleared.
    pub consumed: bool,
    /// When the result was taken, the issue title the flow now carries.
    pub title: Option<String>,
    /// The header notice to flash, if any.
    pub notice: Option<String>,
}

/// Advancing the flow over a landed result: only the consent state
/// takes one. A report moves it to the preview of its markdown and sets
/// the issue title; a failure returns it to idle, clears the title and
/// flashes `! <message>`; anything else changes nothing.
pub open spec fn advance_view(s: ProbeState, landing: ProbeLanding) -> (
    ProbeState,
    bool,
    Option<Seq<char>>,
    Option<Seq<char>>,
) {
    match (s, landing) {
        (ProbeState::Consent, ProbeLanding::Ready { markdown, title }) => (
            ProbeState::Preview(markdown),
            true,
            Some(title@),
            None,
        ),
        (ProbeState::Consent, ProbeLanding::Failed(m)) => (ProbeState::Idle, true, None, Some("! "@ + m@)),
        _ => (s, false, None, None),
    }
}

impl ProbeState {
    /// Takes the poller's landed result when the flow awaits one.
    pub fn advance(&mut self, landing: ProbeLanding) -> (a: ProbeAdvance)
        ensures
            (*final(self), a.consumed, opt_text(a.title), opt_text(a.notice)) == advance_view(
                *old(self),
                landing,
            ),
    {
        let consent = match &*self {
            ProbeState::Consent => true,
            _ => false,
        };
        if !consent {
            return ProbeAdvance { consumed: false, title: None, notice: None };
        }
        match landing {
            ProbeLanding::Ready { markdown, title } => {
                *self = ProbeState::Preview(markdown);
                ProbeAdvance { consumed: true, title: Some(title), notice: None }
            },
            ProbeLanding::Failed(m) => {
                *self = ProbeState::Idle;
                let mut t = owned("! ");
                push_str(&mut t, m.as_str());
                ProbeAdvance { consumed: true, title: None, notice: Some(t) }
            },
            ProbeLanding::Waiting => ProbeAdvance { consumed: false, title: None, notice: None },
        }
    }
}

/// The header notice after the preview's Open GitHub Issue: the report
/// rides the clipboard, not the URL.
pub const PROBE_ISSUE_COPY_NOTICE: &'static str = "Report copied to clipboard — paste it into the issue body.";

/// One click on a dialog or strip button.
#[derive(Debug, Clone, Copy, PartialEq, Eq)]
pub enum DialogEvent {
    /// The consent dialog's Allow.
    AllowProbe,
    /// The consent dialog's Cancel.
    CancelConsent,
    /// The preview dialog's Open GitHub Issue.
    OpenIssue,
    /// The preview dialog's Copy to Clipboard.
    CopyReport,
    /// The preview dialog's Cancel.
    CancelPreview,
    /// The setup-complete dialog's Later (also a Restart now whose
    /// relaunch failed).
    Later,
    /// The requirements strip's "Got it".
    GotIt,
    /// The setup wizard's button.
    RunSetup,
}

/// What the app does for one click besides the probe flow's own step.
#[derive(Debug, Clone, PartialEq, Eq)]
pub struct DialogEffect {
    /// Hand the probe request to the poller.
    pub request_probe: bool,
    /// Close the setup-complete dialog for the session.
    pub dismiss_prompt: bool,
    /// Close the requirements strip.
    pub close_requirements: bool,
    /// Ask for a setup helper run.
    pub start_setup: bool,
    /// The report markdown to copy to the clipboard.
    pub copy: Option<String>,
    /// The issue URL to open in the browser.
    pub open_url: Option<String>,
    /// The header notice to flash.
    pub notice: Option<String>,
}

/// The view of a [`DialogEffect`]: the flags, then the texts.
pub type EffectView = (bool, bool, bool, bool, Option<Seq<char>>, Option<Seq<char>>, Option<Seq<char>>);

/// The effect view of a [`DialogEffect`].
pub open spec fn effect_view(e: DialogEffect) -> EffectView {
    (
        e.request_probe,
        e.dismiss_prompt,
        e.close_requirements,
        e.start_setup,
        opt_text(e.copy),
        opt_text(e.open_url),
        opt_text(e.notice),
    )
}

/// The effect of nothing.
pub open spec fn no_effect() -> EffectView {
    (false, false, false, false, None, None, None)
}

/// One click's step: the probe flow's next state and the effect.
///
/// - Allow hands the request to the poller, from the consent dialog
///   while no report is being gathered; Cancel there returns to idle,
///   also only while nothing is in flight (the buttons are hidden then).
/// - Open GitHub Issue, from the preview, copies the report, flashes the
///   paste notice, opens the issue URL of the flow's title when it has
///   one, and ends the flow; Copy to Clipboard copies the report; Cancel
///   returns to idle.
/// - Later closes the setup-complete dialog, "Got it" the requirements
///   strip, and the wizard button asks for a helper run while none is
///   pending.
/// - Anything else does nothing.
pub open spec fn dialog_view(
    probe: ProbeState,
    event: DialogEvent,
    in_flight: bool,
    setup_running: bool,
    title: Option<String>,
) -> (ProbeState, EffectView) {
    match event {
        DialogEvent::AllowProbe => if probe is Consent && !in_flight {
            (probe, (true, false, false, false, None, None, None))
        } else {
            (probe, no_effect())
        },
        DialogEvent::CancelConsent => if in_flight {
            (probe, no_effect())
        } else {
            (probe_step(probe, ProbeEvent::CancelConsent), no_effect())
        },
        DialogEvent::OpenIssue => match probe {
            ProbeState::Preview(md) => (
                ProbeState::Done,
                (
                    false,
                    false,
                    false,
                    false,
                    Some(md@),
                    match title {
                        Some(t) => Some(issue_url_text(t@)),
                        None => None,
                    },
                    Some(PROBE_ISSUE_COPY_NOTICE@),
                ),
            ),
            _ => (probe, no_effect()),
        },
        DialogEvent::CopyReport => match probe {
            ProbeState::Preview(md) => (probe, (false, false, false, false, Some(md@), None, None)),
            _ => (probe, no_effect()),
        },
        DialogEvent::CancelPreview => (probe_step(probe, ProbeEvent::CancelPreview), no_effect()),
        DialogEvent::Later => (probe, (false, true, false, false, None, None, None)),
        DialogEvent::GotIt => (probe, (false, false, true, false, None, None, None)),
        DialogEvent::RunSetup => if setup_running {
            (probe, no_effect())
        } else {
            (probe, (false, false, false, true, None, None, None))
        },
    }
}

/// The effect that does nothing.
fn nothing() -> (e: DialogEffect)
    ensures
        effect_view(e) == no_effect(),
{
    DialogEffect {
        request_probe: false,
        dismiss_prompt: false,
        close_requirements: false,
        start_setup: false,
        copy: None,
        open_url: None,
        notice: None,
    }
}

impl ProbeState {
    /// Steps the dialogs for one click (see [`dialog_view`]); `in_flight`
    /// says a report is being gathered, `setup_running` that a helper run
    /// is pending, `title` is the flow's issue title.
    pub fn click(&mut self, event: DialogEvent, in_flight: bool, setup_running: bool, title: &Option<String>) -> (e:
        DialogEffect)
        ensures
            (*final(self), effect_view(e)) == dialog_view(*old(self), event, in_flight, setup_running, *title),
    {
        match event {
            DialogEvent::AllowProbe => {
                let consent = match &*self {
                    ProbeState::Consent => true,
                    _ => false,
                };
                if consent && !in_flight {
                    DialogEffect { request_probe: true, ..nothing() }
                } else {
                    nothing()
                }
            },
            DialogEvent::CancelConsent => {
                if !in_flight {
                    self.apply(ProbeEvent::CancelConsent);
                }
                nothing()
            },
            DialogEvent::OpenIssue => {
                let md = match &*self {
                    ProbeState::Preview(md) => Some(md.clone()),
                    _ => None,
                };
                match md {
                    Some(md) => {
                        *self = ProbeState::Done;
                        let open_url = match title {
                            Some(t) => Some(probe_issue_url(t.as_str())),
                            None => None,
                        };
                        DialogEffect {
                            copy: Some(md),
                            open_url,
                            notice: Some(owned(PROBE_ISSUE_COPY_NOTICE)),
                            ..nothing()
                        }
                    },
                    None => nothing(),
                }
            },
            DialogEvent::CopyReport => match &*self {
                ProbeState::Preview(md) => DialogEffect { copy: Some(md.clone()), ..nothing() },
                _ => nothing(),
            },
            DialogEvent::CancelPreview => {
                self.apply(ProbeEvent::CancelPreview);
                nothing()
            },
            DialogEvent::Later => DialogEffect { dismiss_prompt: true, ..nothing() },
            DialogEvent::GotIt => DialogEffect { close_requirements: true, ..nothing() },
            DialogEvent::RunSetup => if setup_running {
                nothing()
            } else {
                DialogEffect { start_setup: true, ..nothing() }
            },
        }
    }
}

/// The probe request reaches the poller only from the consent dialog
/// with nothing in flight, and the browser opens only from the preview,
/// on the flow's title, ending the flow.
pub proof fn lemma_dialog_effects_follow_their_dialog(
    probe: ProbeState,
    event: DialogEvent,
    in_flight: bool,
    setup_running: bool,
    title: Option<String>,
)
    ensures
        ({
            let (next, e) = dialog_view(probe, event, in_flight, setup_running, title);
            &&& e.0 ==> probe is Consent && !in_flight && next == probe
            &&& e.5 is Some ==> probe is Preview && next is Done && title is Some
            &&& e.3 ==> !setup_running
        }),
{
}

/// A landed result moves the flow only out of the consent dialog, and
/// only into the preview or back to idle.
pub proof fn lemma_landing_moves_only_consent(s: ProbeState, landing: ProbeLanding)
    ensures
        advance_view(s, landing).0 != s ==> s is Consent && (advance_view(s, landing).0 is Preview
            || advance_view(s, landing).0 is Idle),
        advance_view(s, landing).1 <==> s is Consent && !(landing is Waiting),
{
}

/// The probe flow only submits from the preview: a step that reaches
/// `Done` from another state is the preview's Submit, and every other
/// step out of `Done` stays there.
pub proof fn lemma_probe_submits_only_from_preview(s: ProbeState, e: ProbeEvent)
    ensures
        probe_step(s, e) is Done && !(s is Done) ==> s is Preview && e == ProbeEvent::Submit,
        s is Done ==> probe_step(s, e) is Done,
{
}

/// A modal dialog is up: the post-setup restart prompt, or the probe
/// flow's consent or preview dialog.
pub open spec fn modal_view(prompt_open: bool, probe: ProbeState) -> bool {
    prompt_open || probe is Consent || probe is Preview
}

/// Whether a modal dialog blocks the dashboard this frame.
pub fn modal_open(prompt_open: bool, probe: &ProbeState) -> (b: bool)
    ensures
        b == modal_view(prompt_open, *probe),
{
    prompt_open || match probe {
        ProbeState::Consent | ProbeState::Preview(_) => true,
        _ => false,
    }
}

/// What one frame dispatches: whether the header's Probe click opens the
/// probe flow, and the actions to execute, in order.
#[derive(Debug, Clone, PartialEq, Eq)]
pub struct FrameDispatch {
    pub open_probe: bool,
    pub actions: Vec<GuiAction>,
}

/// The frame's dispatch: nothing while a modal dialog is up; otherwise
/// the Probe click, the status zone's button action, then the key
/// action when it differs from the button's (the same action from both
/// fires once).
pub open spec fn dispatch_view(
    modal: bool,
    probe_clicked: bool,
    button: GuiAction,
    keyed: Option<GuiAction>,
) -> (bool, Seq<GuiAction>) {
    if modal {
        (false, Seq::<GuiAction>::empty())
    } else {
        match keyed {
            Some(k) => if k != button {
                (probe_clicked, seq![button, k])
            } else {
                (probe_clicked, seq![button])
            },
            None => (probe_clicked, seq![button]),
        }
    }
}

/// Decides what one frame dispatches from its inputs.
pub fn frame_dispatch(modal: bool, probe_clicked: bool, button: GuiAction, keyed: Option<GuiAction>) -> (d:
    FrameDispatch)
    ensures
        (d.open_probe, d.actions@) == dispatch_view(modal, probe_clicked, button, keyed),
{
    let mut actions: Vec<GuiAction> = Vec::new();
    if modal {
        return FrameDispatch { open_probe: false, actions };
    }
    actions.push(button);
    match keyed {
        Some(k) => {
            if k != button {
                actions.push(k);
            }
        },
        None => {},
    }
    proof {
        assert(actions@ =~= dispatch_view(modal, probe_clicked, button, keyed).1);
    }
    FrameDispatch { open_probe: probe_clicked, actions }
}

/// No action is dispatched twice in one frame, and none while a modal
/// dialog is up.
pub proof fn lemma_dispatch_fires_each_action_once(
    modal: bool,
    probe_clicked: bool,
    button: GuiAction,
    keyed: Option<GuiAction>,
)
    ensures
        ({
            let actions = dispatch_view(modal, probe_clicked, button, keyed).1;
            forall|i: int, j: int| 0 <= i < j < actions.len() ==> actions[i] != actions[j]
        }),
        modal ==> dispatch_view(modal, probe_clicked, button, keyed) == (false, Seq::<GuiAction>::empty()),
{
}

/// Header line 1's daemon status: a poll that reached the daemon names
/// the socket, the never-polled (empty) state shows `Disconnected` with
/// the socket being tried, any other status a bare `Disconnected`.
pub fn daemon_status_text(daemon_status: &str, socket: &str) -> (t: String)
    ensures
        t@ == (if has_prefix(daemon_status@, "connected"@) {
            "Daemon: Connected (IPC: "@ + socket@ + ")"@
        } else if daemon_status@.len() == 0 {
            "Daemon: Disconnected (IPC: "@ + socket@ + ")"@
        } else {
            "Daemon: Disconnected"@
        }),
{
    let cs = chars_of(daemon_status);
    let p = chars_of("connected");
    if starts_with(&cs, &p) {
        let mut t = owned("Daemon: Connected (IPC: ");
        push_str(&mut t, socket);
        push_str(&mut t, ")");
        t
    } else if daemon_status.is_empty() {
        let mut t = owned("Daemon: Disconnected (IPC: ");
        push_str(&mut t, socket);
        push_str(&mut t, ")");
        t
    } else {
        owned("Daemon: Disconnected")
    }
}

/// The channel label for a count of SPD-visible DIMMs: 1, 2 and 4 are
/// single-, dual- and quad-channel; any other count has no label.
pub open spec fn channel_label(count: nat) -> Seq<char> {
    if count == 1 {
        "Single-Channel"@
    } else if count == 2 {
        "Dual-Channel"@
    } else if count == 4 {
        "Quad-Channel"@
    } else {
        "N/A"@
    }
}

/// The channel mode from the SPD-visible DIMM count (the header's
/// fallback label).
pub fn channel_mode(dimm_count: usize) -> (t: String)
    ensures
        t@ == channel_label(dimm_count as nat),
{
    if dimm_count == 1 {
        owned("Single-Channel")
    } else if dimm_count == 2 {
        owned("Dual-Channel")
    } else if dimm_count == 4 {
        owned("Quad-Channel")
    } else {
        owned("N/A")
    }
}

/// The manual `sudo` equivalent of the one-click setup.
pub fn sudo_setup_command(user: &str, with_dkms: bool) -> (c: String)
    ensures
        c@ == "sudo ramsleuth-setup --user "@ + user@ + (if with_dkms { " --with-dkms"@ } else { ""@ }),
{
    let mut c = owned("sudo ramsleuth-setup --user ");
    push_str(&mut c, user);
    if with_dkms {
        push_str(&mut c, " --with-dkms");
    } else {
        proof {
            reveal_strlit("");
        }
        assert(c@ =~= c@ + ""@);
    }
    c
}

/// The post-setup restart prompt is open while the setup is done and
/// the user has not dismissed it.
pub fn setup_prompt_open(done: bool, dismissed: bool) -> (b: bool)
    ensures
        b == (done && !dismissed),
{
    done && !dismissed
}

/// The graphs window's auto-refresh lifecycle, run once per frame with
/// the window's open flag `now_open` and the current refresh setting
/// `current`. When the window opens, the current setting is kept aside
/// and refresh is switched on; when it closes, the kept setting comes
/// back (and is used up); otherwise nothing changes. `last` remembers
/// the open flag. Returns the setting to write, or `None` for no change.
pub fn apply_refresh_transition(
    saved: &mut Option<bool>,
    last: &mut bool,
    now_open: bool,
    current: bool,
) -> (change: Option<bool>)
    ensures
        *final(last) == now_open,
        now_open && !*old(last) ==> change == Some(true) && *final(saved) == Some(current),
        !now_open && *old(last) ==> change == *old(saved) && *final(saved) is None,
        now_open == *old(last) ==> change is None && *final(saved) == *old(saved),
        (*final(saved), *final(last), change) == refresh_step(*old(saved), *old(last), now_open, current),
{
    let change = if now_open && !*last {
        *saved = Some(current);
        Some(true)
    } else if !now_open && *last {
        saved.take()
    } else {
        None
    };
    *last = now_open;
    change
}

/// Opening the graphs window and closing it again leaves the refresh
/// gate as it was before the window opened: the opening frame forces it
/// on and saves it, the closing frame hands the saved value back.
pub proof fn lemma_refresh_round_trip(saved: Option<bool>, current: bool, forced: bool)
    ensures
        ({
            let (saved1, last1, change1) = refresh_step(saved, false, true, current);
            let (saved2, last2, change2) = refresh_step(saved1, last1, false, forced);
            change1 == Some(true) && change2 == Some(current) && saved2 is None && !last2
        }),
{
}

/// One frame of the refresh-gate lifecycle: the saved gate, the open
/// flag and the change after a frame with open flag `now_open` and gate
/// `current`.
pub open spec fn refresh_step(saved: Option<bool>, last: bool, now_open: bool, current: bool) -> (
    Option<bool>,
    bool,
    Option<bool>,
) {
    if now_open && !last {
        (Some(current), now_open, Some(true))
    } else if !now_open && last {
        (None, now_open, saved)
    } else {
        (saved, now_open, None)
    }
}

/// The header's daemon-status color: CYAN when connected and healthy,
/// CRIMSON otherwise; the status zone's rule.
pub fn header_status_color(data: &TelemetryData) -> (c: u32)
    ensures
        c == (if healthy(data.daemon_status@, data.error is Some) { CYAN } else { CRIMSON }),
{
    daemon_status_color(data.daemon_status.as_str(), data.error.is_some())
}

/// The platform family named in the header: AM4 for Zen 1-3, AM5 for
/// Zen 4-5, LGA for Intel, a bare `Platform` for an unknown vendor.
pub open spec fn platform_view(vendor: CpuVendor) -> Seq<char> {
    match vendor {
        CpuVendor::Amd(AmdZen::Zen1) | CpuVendor::Amd(AmdZen::Zen2) | CpuVendor::Amd(AmdZen::Zen3) => "AMD AM4 Platform"@,
        CpuVendor::Amd(_) => "AMD AM5 Platform"@,
        CpuVendor::Intel => "Intel LGA Platform"@,
        CpuVendor::Unknown => "Platform"@,
    }
}

/// The header's platform tag.
pub fn platform_tag(vendor: &CpuVendor) -> (t: String)
    ensures
        t@ == platform_view(*vendor),
{
    match vendor {
        CpuVendor::Amd(AmdZen::Zen1) | CpuVendor::Amd(AmdZen::Zen2) | CpuVendor::Amd(AmdZen::Zen3) => owned("AMD AM4 Platform"),
        CpuVendor::Amd(_) => owned("AMD AM5 Platform"),
        CpuVendor::Intel => owned("Intel LGA Platform"),
        CpuVendor::Unknown => owned("Platform"),
    }
}

/// The rank word of the header's DIMM breakdown: the SPD card's rank
/// label, with no word at all where the card shows `N/A` (an absent or
/// zero rank).
pub open spec fn rank_word_view(rank: Section<u8>) -> Option<Seq<char>> {
    match rank {
        Section::Na(_) => None,
        Section::Value(v) => if v == 0 {
            None
        } else if v == 1 {
            Some("Single-Rank"@)
        } else if v == 2 {
            Some("Dual-Rank"@)
        } else {
            Some(dec(v as nat) + "-Rank"@)
        },
    }
}

/// The header's rank word for a module.
pub fn rank_word(rank: &Section<u8>) -> (w: Option<String>)
    ensures
        match w {
            Some(t) => rank_word_view(*rank) == Some(t@),
            None => rank_word_view(*rank) is None,
        },
{
    match rank {
        Section::Na(_) => None,
        Section::Value(v) => {
            if *v == 0 {
                None
            } else if *v == 1 {
                Some(owned("Single-Rank"))
            } else if *v == 2 {
                Some(owned("Dual-Rank"))
            } else {
                let mut t = String::new();
                push_dec(&mut t, *v as u64);
                push_str(&mut t, "-Rank");
                assert(t@ =~= dec(*v as nat) + "-Rank"@);
                Some(t)
            }
        },
    }
}

/// The header's rank word mirrors the SPD card's rank label: the same
/// text where the card has one, no word where the card shows `N/A`.
pub proof fn lemma_rank_word_mirrors_rank_label(rank: Section<u8>)
    ensures
        match rank_word_view(rank) {
            Some(w) => w == rank_view(rank),
            None => rank_view(rank) == "N/A"@,
        },
{
}

/// The AGESA / SMU provenance of the header's CPU line: a true AGESA
/// version as `AGESA <v>`, else the SMU firmware version as `SMU <v>`,
/// else `AGESA N/A`.
pub open spec fn age_view(agesa: Section<String>, smu: Section<String>) -> Seq<char> {
    match agesa {
        Section::Value(v) => "AGESA "@ + v@,
        Section::Na(_) => match smu {
            Section::Value(v) => "SMU "@ + v@,
            Section::Na(_) => "AGESA N/A"@,
        },
    }
}

/// The header's AGESA / SMU fragment.
pub fn age_fragment(agesa: &Section<String>, smu_version: &Section<String>) -> (t: String)
    ensures
        t@ == age_view(*agesa, *smu_version),
{
    match agesa {
        Section::Value(v) => {
            let mut t = owned("AGESA ");
            push_str(&mut t, v.as_str());
            t
        },
        Section::Na(_) => match smu_version {
            Section::Value(v) => {
                let mut t = owned("SMU ");
                push_str(&mut t, v.as_str());
                t
            },
            Section::Na(_) => owned("AGESA N/A"),
        },
    }
}

/// The snapshot card's channel mode from the bound-DIMM count: the
/// header's rule.
pub fn channel_name(dimm_count: usize) -> (t: String)
    ensures
        t@ == channel_label(dimm_count as nat),
{
    channel_mode(dimm_count)
}

} // verus!

verus! {

/// The value of an upper-case hex digit.
pub open spec fn hex_val(c: char) -> int {
    if '0' <= c && c <= '9' { (c as int) - 48 } else { (c as int) - 55 }
}

/// Percent-decoding: `%XX` is the byte with hex value `XX`; any other
/// character stands for its own code.
pub open spec fn pct_decode(s: Seq<char>) -> Seq<u8>
    decreases s.len(),
{
    if s.len() == 0 {
        seq![]
    } else if s[0] == '%' && s.len() >= 3 {
        seq![(hex_val(s[1]) * 16 + hex_val(s[2])) as u8] + pct_decode(s.subrange(3, s.len() as int))
    } else {
        seq![s[0] as u8] + pct_decode(s.drop_first())
    }
}

/// The encoding can be built front to back as well.
proof fn lemma_pct_encode_front(bytes: Seq<u8>)
    requires
        bytes.len() > 0,
    ensures
        pct_encode(bytes) == pct_byte(bytes[0]) + pct_encode(bytes.drop_first()),
    decreases bytes.len(),
{
    if bytes.len() > 1 {
        lemma_pct_encode_front(bytes.drop_last());
        assert(bytes.drop_last().drop_first() =~= bytes.drop_first().drop_last());
        assert(bytes.drop_last()[0] == bytes[0]);
        assert(bytes.drop_first().last() == bytes.last());
        assert(pct_encode(bytes) =~= pct_byte(bytes[0]) + pct_encode(bytes.drop_first()));
    } else {
        assert(bytes.drop_last() =~= Seq::<u8>::empty());
        assert(bytes.drop_first() =~= Seq::<u8>::empty());
        assert(pct_encode(bytes) =~= pct_byte(bytes[0]) + pct_encode(bytes.drop_first()));
    }
}

/// Decoding one encoded byte followed by more text.
proof fn lemma_decode_one(b: u8, rest: Seq<char>)
    ensures
        pct_decode(pct_byte(b) + rest) == seq![b] + pct_decode(rest),
{
    let s = pct_byte(b) + rest;
    if unreserved(b) {
        assert(s[0] == b as char);
        assert(s.drop_first() =~= rest);
        assert((b as char) as u8 == b);
    } else {
        assert(s.subrange(3, s.len() as int) =~= rest);
        let hi = b / 16;
        let lo = b % 16;
        assert(hex_val(hex_code(hi) as char) == hi);
        assert(hex_val(hex_code(lo) as char) == lo);
    }
}

/// Percent-encoding is reversible: decoding the encoding of any byte
/// string gives the bytes back, so distinct strings never share a URL.
pub proof fn lemma_url_encoding_round_trips(bytes: Seq<u8>)
    ensures
        pct_decode(pct_encode(bytes)) == bytes,
    decreases bytes.len(),
{
    if bytes.len() > 0 {
        lemma_pct_encode_front(bytes);
        lemma_decode_one(bytes[0], pct_encode(bytes.drop_first()));
        lemma_url_encoding_round_trips(bytes.drop_first());
        assert(seq![bytes[0]] + bytes.drop_first() =~= bytes);
    }
}

/// Every character of an encoding is an unreserved character, `%`, or an
/// upper-case hex digit.
pub open spec fn url_safe(c: char) -> bool {
    unreserved(c as u8) && (c as u32) < 128 || c == '%'
}

/// The encoding only ever holds URL-safe characters.
pub proof fn lemma_url_encoding_is_safe(bytes: Seq<u8>)
    ensures
        forall|i: int| 0 <= i < pct_encode(bytes).len() ==> url_safe(#[trigger] pct_encode(bytes)[i]),
    decreases bytes.len(),
{
    if bytes.len() > 0 {
        lemma_url_encoding_is_safe(bytes.drop_last());
        let p = pct_encode(bytes.drop_last());
        let b = bytes.last();
        let q = pct_byte(b);
        assert forall|i: int| 0 <= i < q.len() implies url_safe(#[trigger] q[i]) by {
            if unreserved(b) {
                assert(((b as char) as u8) == b);
            } else if i > 0 {
                let h = if i == 1 { b / 16 } else { b % 16 };
                assert(q[i] == hex_code(h) as char);
            }
        }
        assert forall|i: int| 0 <= i < pct_encode(bytes).len() implies url_safe(#[trigger] pct_encode(bytes)[i]) by {
            if i < p.len() {
                assert(pct_encode(bytes)[i] == p[i]);
            } else {
                assert(pct_encode(bytes)[i] == q[i - p.len()]);
            }
        }
    }
}

} // verus!

verus! {

/// The marker of the setup helper's structured error lines.
pub const ERROR_MARKER: &'static str = "[ramsleuth-setup] ERROR:";

/// The pieces of `s` between `\n` separators, in order (`s` with no
/// newline is one piece; a trailing newline ends in an empty piece).
pub open spec fn pieces(s: Seq<char>) -> Seq<Seq<char>>
    decreases s.len(),
{
    if s.len() == 0 {
        seq![seq![]]
    } else {
        let p = pieces(s.drop_last());
        if s.last() == '\n' {
            p.push(seq![])
        } else {
            p.update(p.len() - 1, p.last().push(s.last()))
        }
    }
}

/// A line is blank when only white space remains after trimming.
pub open spec fn is_blank(l: Seq<char>) -> bool {
    crate::text::trimmed(l).len() == 0
}

/// The last non-blank line among `ls` that satisfies `marked` (when
/// `marked` is false: the last non-blank line at all).
pub open spec fn last_line(ls: Seq<Seq<char>>, marked: bool) -> Option<Seq<char>>
    decreases ls.len(),
{
    if ls.len() == 0 {
        None
    } else if !is_blank(ls.last())
        && (!marked || crate::text::has_infix(ls.last(), ERROR_MARKER@)) {
        Some(ls.last())
    } else {
        last_line(ls.drop_last(), marked)
    }
}

/// The generic pointer at the manual setup command.
pub open spec fn manual_pointer() -> Seq<char> {
    "the setup helper failed — run `sudo ramsleuth-setup --user <you>` in a terminal"@
}

/// The failure text for the helper's stderr: the last structured error
/// line, else the last non-blank line, trimmed; else the manual pointer.
pub open spec fn stderr_tail(stderr: Seq<char>) -> Seq<char> {
    match last_line(pieces(stderr), true) {
        Some(l) => crate::text::trimmed(l),
        None => match last_line(pieces(stderr), false) {
            Some(l) => crate::text::trimmed(l),
            None => manual_pointer(),
        },
    }
}

/// The lines of `s` (its pieces between newlines), as character vectors.
fn split_lines(s: &str) -> (ls: Vec<Vec<char>>)
    ensures
        ls@.map_values(|l: Vec<char>| l@) == pieces(s@),
{
    let cs = chars_of(s);
    let mut ls: Vec<Vec<char>> = Vec::new();
    let mut cur: Vec<char> = Vec::new();
    let mut i: usize = 0;
    assert(cs@.take(0) =~= Seq::<char>::empty());
    while i < cs.len()
        invariant
            i <= cs@.len(),
            ls@.map_values(|l: Vec<char>| l@).push(cur@) == pieces(cs@.take(i as int)),
        decreases cs.len() - i,
    {
        let c = cs[i];
        let ghost before = ls@.map_values(|l: Vec<char>| l@).push(cur@);
        assert(cs@.take(i + 1).drop_last() =~= cs@.take(i as int));
        if c == '\n' {
            let done = cur;
            ls.push(done);
            cur = Vec::new();
            assert(ls@.map_values(|l: Vec<char>| l@).push(cur@) =~= before.push(seq![]));
        } else {
            cur.push(c);
            assert(ls@.map_values(|l: Vec<char>| l@).push(cur@)
                =~= before.update(before.len() - 1, before.last().push(c)));
        }
        i = i + 1;
    }
    assert(cs@.take(cs@.len() as int) =~= cs@);
    ls.push(cur);
    ls
}

/// The stderr tail for the setup failure line: the last line carrying
/// the helper's structured error marker, else the last non-blank line,
/// trimmed; else the generic pointer at the manual command.
pub fn setup_stderr_tail(stderr: &str) -> (t: String)
    ensures
        t@ == stderr_tail(stderr@),
{
    let ls = split_lines(stderr);
    let ghost view = ls@.map_values(|l: Vec<char>| l@);
    let marker = chars_of(ERROR_MARKER);
    let mut found_marked: Option<usize> = None;
    let mut found_any: Option<usize> = None;
    let mut k: usize = ls.len();
    assert(view.take(k as int) =~= view);
    while k > 0
        invariant
            k <= ls@.len(),
            view == ls@.map_values(|l: Vec<char>| l@),
            marker@ == ERROR_MARKER@,
            found_marked is None ==> last_line(view, true) == last_line(view.take(k as int), true),
            found_marked matches Some(j) ==> j < ls@.len() && last_line(view, true) == Some(view[j as int]),
            found_any is None ==> last_line(view, false) == last_line(view.take(k as int), false),
            found_any matches Some(j) ==> j < ls@.len() && last_line(view, false) == Some(view[j as int]),
        decreases k,
    {
        let j = k - 1;
        let line = &ls[j];
        let ghost pre = view.take(k as int);
        assert(pre.drop_last() =~= view.take(j as int));
        assert(pre.last() == line@);
        let t = crate::text::trim(line.as_slice());
        let blank = t.len() == 0;
        if !blank {
            if found_any.is_none() {
                found_any = Some(j);
            }
            if found_marked.is_none() && crate::text::contains(line.as_slice(), marker.as_slice()) {
                found_marked = Some(j);
            }
        }
        k = j;
    }
    match found_marked {
        Some(j) => crate::text::string_of(crate::text::trim(ls[j].as_slice()).as_slice()),
        None => match found_any {
            Some(j) => crate::text::string_of(crate::text::trim(ls[j].as_slice()).as_slice()),
            None => {
                assert(view.take(0) =~= Seq::<Seq<char>>::empty());
                owned("the setup helper failed — run `sudo ramsleuth-setup --user <you>` in a terminal")
            },
        },
    }
}

/// The usage-error note (exit 2; not reachable through the dashboard).
pub open spec fn usage_note() -> Seq<char> {
    "the setup helper rejected its arguments (usage, exit 2 — this should not happen via the GUI) — run `sudo ramsleuth-setup --user <you>` in a terminal"@
}

/// Maps the setup helper's exit code into the outcome the status line
/// shows: 0 is done with no failure; 2 is the usage note; any other code
/// (including -1 for a helper killed by a signal) fails with the stderr
/// tail. The outcome never has a pending run.
pub fn map_setup_exit(code: i32, stderr: &str) -> (o: SetupOutcome)
    ensures
        !o.running,
        o.done == (code == 0),
        code == 0 ==> o.failure is None,
        code == 2 ==> (o.failure matches Some(f) && f@ == usage_note()),
        code != 0 && code != 2 ==> (o.failure matches Some(f) && f@ == stderr_tail(stderr@)),
{
    let failure = if code == 0 {
        None
    } else if code == 2 {
        Some(owned(
            "the setup helper rejected its arguments (usage, exit 2 — this should not happen via the GUI) — run `sudo ramsleuth-setup --user <you>` in a terminal",
        ))
    } else {
        Some(setup_stderr_tail(stderr))
    };
    SetupOutcome { running: false, done: code == 0, failure }
}

} // verus!
