//! Delivering text into the window that had the focus: which display
//! server is in charge, and the steps to run for it.

use vstd::prelude::*;
use crate::text::str_eq;

verus! {

/// The display server that text is delivered through.
#[derive(Clone, Copy, Debug, PartialEq, Eq, Structural)]
pub enum TextInjectionBackend {
    X11,
    Wayland,
}

/// What is known of a window.
#[derive(Debug, PartialEq)]
pub struct WindowInfo {
    pub id: String,
    pub title: String,
    pub class: String,
}

/// Why text could not be delivered, or a window not be found.
#[derive(Clone, Copy, Debug, PartialEq, Eq, Structural)]
pub enum InjectError {
    /// Neither a Wayland nor an X11 session was found.
    NoDisplayServer,
    /// The focused window could not be asked for.
    ActiveWindowFailed,
}

impl InjectError {
    /// The text shown for the error.
    pub fn message(&self) -> (text: &'static str)
        ensures
            text@ == match self {
                InjectError::NoDisplayServer => "No supported display server detected"@,
                InjectError::ActiveWindowFailed => "Failed to get active window"@,
            },
    {
        match self {
            InjectError::NoDisplayServer => "No supported display server detected",
            InjectError::ActiveWindowFailed => "Failed to get active window",
        }
    }
}

/// One step of a delivery. The caller runs the steps in order; a copy that
/// fails ends the delivery with an error, any other failure is passed over.
#[derive(Debug, PartialEq)]
pub enum InjectStep {
    /// Put the text on the X11 clipboard.
    CopyX11(String),
    /// Put the text on the Wayland clipboard.
    CopyWayland(String),
    /// Give the focus back to this window and wait for it.
    Focus(String),
    /// Let the window manager finish the focus switch: 50 ms.
    Settle,
    /// Press the paste chord on X11.
    PasteX11,
    /// Press the paste chord on Wayland.
    PasteWayland,
}

/// The value of an [`InjectStep`].
pub enum StepModel {
    CopyX11(Seq<char>),
    CopyWayland(Seq<char>),
    Focus(Seq<char>),
    Settle,
    PasteX11,
    PasteWayland,
}

impl View for InjectStep {
    type V = StepModel;

    open spec fn view(&self) -> StepModel {
        match self {
            InjectStep::CopyX11(t) => StepModel::CopyX11(t@),
            InjectStep::CopyWayland(t) => StepModel::CopyWayland(t@),
            InjectStep::Focus(w) => StepModel::Focus(w@),
            InjectStep::Settle => StepModel::Settle,
            InjectStep::PasteX11 => StepModel::PasteX11,
            InjectStep::PasteWayland => StepModel::PasteWayland,
        }
    }
}

impl InjectStep {
    /// Whether the delivery ends with an error where this step fails.
    pub fn required(&self) -> (required: bool)
        ensures
            required == (self is CopyX11 || self is CopyWayland),
    {
        match self {
            InjectStep::CopyX11(_) => true,
            InjectStep::CopyWayland(_) => true,
            _ => false,
        }
    }
}

/// The values of a run of steps.
pub open spec fn steps_view(steps: Seq<InjectStep>) -> Seq<StepModel> {
    Seq::new(steps.len(), |i: int| steps[i]@)
}

/// The display server for an environment: Wayland where its display is
/// named or the session says so, else X11 where its display is named.
pub open spec fn server_for(wayland_display: bool, session_type: Option<Seq<char>>, x_display: bool) -> Option<
    TextInjectionBackend,
> {
    if wayland_display || session_type == Some("wayland"@) {
        Some(TextInjectionBackend::Wayland)
    } else if x_display {
        Some(TextInjectionBackend::X11)
    } else {
        None
    }
}

/// The steps that deliver a text, with or without a window to return to.
pub open spec fn delivery(backend: TextInjectionBackend, text: Seq<char>, target: Option<Seq<char>>) -> Seq<
    StepModel,
> {
    match backend {
        TextInjectionBackend::X11 => match target {
            Some(w) => seq![
                StepModel::CopyX11(text),
                StepModel::Focus(w),
                StepModel::Settle,
                StepModel::PasteX11,
            ],
            None => seq![StepModel::CopyX11(text), StepModel::PasteX11],
        },
        TextInjectionBackend::Wayland => seq![StepModel::CopyWayland(text), StepModel::PasteWayland],
    }
}

/// The view of an optional borrowed text.
pub open spec fn text_view(text: Option<&str>) -> Option<Seq<char>> {
    match text {
        Some(s) => Some(s@),
        None => None,
    }
}

/// Delivers text through the display server found at start.
pub struct TextInjector {
    backend: TextInjectionBackend,
}

impl TextInjector {
    /// The display server in charge.
    pub closed spec fn server(&self) -> TextInjectionBackend {
        self.backend
    }

    /// Picks the display server from the environment: whether
    /// `WAYLAND_DISPLAY` is set, the value of `XDG_SESSION_TYPE`, and
    /// whether `DISPLAY` is set.
    pub fn detect_display_server(wayland_display: bool, session_type: Option<&str>, x_display: bool) -> (found:
        Result<TextInjectionBackend, InjectError>)
        ensures
            match server_for(wayland_display, text_view(session_type), x_display) {
                Some(b) => found == Ok::<TextInjectionBackend, InjectError>(b),
                None => found == Err::<TextInjectionBackend, InjectError>(InjectError::NoDisplayServer),
            },
    {
        let wayland_session = match session_type {
            Some(s) => str_eq(s, "wayland"),
            None => false,
        };
        if wayland_display || wayland_session {
            Ok(TextInjectionBackend::Wayland)
        } else if x_display {
            Ok(TextInjectionBackend::X11)
        } else {
            Err(InjectError::NoDisplayServer)
        }
    }

    /// An injector for the environment's display server; an error where
    /// there is none.
    pub fn new(wayland_display: bool, session_type: Option<&str>, x_display: bool) -> (made: Result<
        TextInjector,
        InjectError,
    >)
        ensures
            match server_for(wayland_display, text_view(session_type), x_display) {
                Some(b) => made matches Ok(injector) && injector.server() == b,
                None => made matches Err(e) && e == InjectError::NoDisplayServer,
            },
    {
        match Self::detect_display_server(wayland_display, session_type, x_display) {
            Ok(backend) => Ok(TextInjector { backend }),
            Err(e) => Err(e),
        }
    }

    /// The display server in charge.
    pub fn backend(&self) -> (backend: &TextInjectionBackend)
        ensures
            *backend == self.server(),
    {
        &self.backend
    }

    /// The steps that deliver `text` into the focused window.
    pub fn inject_text(&self, text: &str) -> (steps: Vec<InjectStep>)
        ensures
            steps_view(steps@) == delivery(self.server(), text@, None),
    {
        self.inject_text_to(text, None)
    }

    /// The steps that deliver `text`; with a target on X11 the focus goes
    /// back to that window first.
    pub fn inject_text_to(&self, text: &str, target_window_id: Option<&str>) -> (steps: Vec<InjectStep>)
        ensures
            steps_view(steps@) == delivery(self.server(), text@, text_view(target_window_id)),
    {
        let mut steps: Vec<InjectStep> = Vec::new();
        match self.backend {
            TextInjectionBackend::X11 => {
                steps.push(InjectStep::CopyX11(text.to_owned()));
                match target_window_id {
                    Some(w) => {
                        steps.push(InjectStep::Focus(w.to_owned()));
                        steps.push(InjectStep::Settle);
                    },
                    None => {},
                }
                steps.push(InjectStep::PasteX11);
            },
            TextInjectionBackend::Wayland => {
                steps.push(InjectStep::CopyWayland(text.to_owned()));
                steps.push(InjectStep::PasteWayland);
            },
        }
        assert(steps_view(steps@) =~= delivery(self.server(), text@, text_view(target_window_id)));
        steps
    }

    /// The id of the focused window, from what asking for it printed
    /// (trimmed); `None` where asking failed or printed nothing.
    pub fn get_active_window_id(&self, printed: Option<String>) -> (id: Option<String>)
        ensures
            id == match printed {
                Some(s) => if s@.len() == 0 {
                    None
                } else {
                    Some(s)
                },
                None => None,
            },
    {
        match printed {
            Some(s) => {
                if s.as_str().is_empty() {
                    None
                } else {
                    Some(s)
                }
            },
            None => None,
        }
    }

    /// What is known of the focused window. Each argument is what asking
    /// for that fact printed (trimmed), `None` where asking failed. On X11
    /// the id is needed, and a missing title or class reads "Unknown"; on
    /// Wayland nothing can be asked, and the answer says so.
    pub fn get_active_window_info(&self, id: Option<String>, title: Option<String>, class: Option<String>) -> (info:
        Result<WindowInfo, InjectError>)
        ensures
            self.server() == TextInjectionBackend::Wayland ==> (info matches Ok(w) && w.id@ == "unknown"@
                && w.title@ == "Unknown (Wayland)"@ && w.class@ == "Unknown (Wayland)"@),
            self.server() == TextInjectionBackend::X11 ==> match id {
                Some(i) => info matches Ok(w) && w.id == i && w.title@ == (match title {
                    Some(t) => t@,
                    None => "Unknown"@,
                }) && w.class@ == (match class {
                    Some(c) => c@,
                    None => "Unknown"@,
                }),
                None => info matches Err(e) && e == InjectError::ActiveWindowFailed,
            },
    {
        match self.backend {
            TextInjectionBackend::Wayland => Ok(
                WindowInfo {
                    id: "unknown".to_owned(),
                    title: "Unknown (Wayland)".to_owned(),
                    class: "Unknown (Wayland)".to_owned(),
                },
            ),
            TextInjectionBackend::X11 => match id {
                Some(i) => {
                    let title = match title {
                        Some(t) => t,
                        None => "Unknown".to_owned(),
                    };
                    let class = match class {
                        Some(c) => c,
                        None => "Unknown".to_owned(),
                    };
                    Ok(WindowInfo { id: i, title, class })
                },
                None => Err(InjectError::ActiveWindowFailed),
            },
        }
    }
}

} // verus!
