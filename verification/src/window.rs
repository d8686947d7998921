//! Windows that are not mapped yet, and the state of their initial configure.

use vstd::prelude::*;

use crate::layout::ColumnWidth;

verus! {

/// A window that has been created but not mapped yet.
///
/// `W` is the handle to the window and `O` the handle to an output. The window is owned
/// here until it is mapped; mapping destructures the value and moves the handle on.
#[derive(Debug)]
pub struct Unmapped<W, O> {
    pub window: W,
    pub state: InitialConfigureState<O>,
}

/// State of the initial configure of an unmapped window.
///
/// The placement lives in the `Configured` variant alone, so it cannot be read before it
/// was decided, and the fullscreen request of `NotConfigured` is gone once it was.
#[derive(Debug)]
pub enum InitialConfigureState<O> {
    /// The window has not been initially configured yet.
    NotConfigured {
        /// Whether the window requested to be fullscreened, and the requested output, if any.
        ///
        /// - `None`: no request.
        /// - `Some(None)`: fullscreen, with no preference for an output.
        /// - `Some(Some(output))`: fullscreen on that output.
        wants_fullscreen: Option<Option<O>>,
    },
    /// The window has been configured.
    Configured {
        /// Rules that matched the window when it was configured. They are tracked from this
        /// point on only: before it they affect nothing.
        rules: ResolvedWindowRules,
        /// Resolved default width for this window.
        ///
        /// `None` means that the window will pick its own width.
        width: Option<ColumnWidth>,
        /// Whether the window should open full-width.
        is_full_width: bool,
        /// Output to open this window on.
        ///
        /// `None` is a valid answer and is kept as it is. It stands for cases like:
        ///
        /// - There are no outputs connected.
        /// - This is a dialog with a parent, and no output was set explicitly, so the dialog
        ///   should fetch the parent's current output again upon mapping.
        output: Option<O>,
    },
}

/// Rules fully resolved for a window.
///
/// Every field is optional by itself: `None` says that no rule had an opinion on it.
#[derive(Debug)]
pub struct ResolvedWindowRules {
    /// Default width for this window.
    ///
    /// - `None`: unset (global default should be used).
    /// - `Some(None)`: set to empty (window picks its own width).
    /// - `Some(Some(width))`: set to a particular width.
    pub default_width: Option<Option<ColumnWidth>>,
    /// Name of the output to open this window on.
    pub open_on_output: Option<String>,
    /// Whether the window should open full-width.
    pub open_maximized: Option<bool>,
    /// Whether the window should open fullscreen.
    pub open_fullscreen: Option<bool>,
}

impl ResolvedWindowRules {
    /// The rules that have no opinion on anything.
    pub open spec fn unset() -> Self {
        ResolvedWindowRules {
            default_width: None,
            open_on_output: None,
            open_maximized: None,
            open_fullscreen: None,
        }
    }
}

impl Default for ResolvedWindowRules {
    /// Rules with all four fields unset.
    fn default() -> (rules: Self)
        ensures
            rules == Self::unset(),
    {
        ResolvedWindowRules {
            default_width: None,
            open_on_output: None,
            open_maximized: None,
            open_fullscreen: None,
        }
    }
}

impl<W, O> Unmapped<W, O> {
    /// Whether the initial configure is still to be sent: the state is `NotConfigured`,
    /// whatever the fullscreen request in it.
    pub open spec fn spec_needs_initial_configure(&self) -> bool {
        self.state is NotConfigured
    }

    /// Wraps a newly created window that hasn't been initially configured yet.
    ///
    /// No fullscreen request is recorded yet. There is no constructor for a configured
    /// window: the placement is decided later, once, by replacing the state.
    pub fn new(window: W) -> (unmapped: Self)
        ensures
            unmapped.window == window,
            unmapped.state == (InitialConfigureState::<O>::NotConfigured { wants_fullscreen: None }),
            unmapped.needs_initial_configure(),
    {
        Self { window, state: InitialConfigureState::NotConfigured { wants_fullscreen: None } }
    }

    /// Whether the window still waits for its initial configure.
    ///
    /// While this holds, a fullscreen request of the client is recorded in the state in
    /// place. Afterwards such a request has to take the ordinary path of a configured window.
    #[verifier::when_used_as_spec(spec_needs_initial_configure)]
    pub fn needs_initial_configure(&self) -> (pending: bool)
        ensures
            pending == self.spec_needs_initial_configure(),
    {
        matches!(self.state, InitialConfigureState::NotConfigured { .. })
    }
}

/// Configuring a window replaces its state as a whole and leaves the window alone. From
/// then on the window no longer needs its initial configure, and its state gives back
/// exactly the placement that it was configured with: the rules, the width, the full-width
/// flag and the output, an absent width or output included. This holds whatever the state
/// was before.
pub proof fn lemma_configured_holds_placement<W, O>(
    before: Unmapped<W, O>,
    rules: ResolvedWindowRules,
    width: Option<ColumnWidth>,
    is_full_width: bool,
    output: Option<O>,
)
    ensures
        ({
            let after = Unmapped {
                state: InitialConfigureState::Configured { rules, width, is_full_width, output },
                ..before
            };
            &&& !after.needs_initial_configure()
            &&& after.window == before.window
            &&& after.state is Configured
            &&& after.state->rules == rules
            &&& after.state->width == width
            &&& after.state->is_full_width == is_full_width
            &&& after.state->output == output
        }),
{
}

/// Recording a fullscreen request leaves the window waiting for its initial configure,
/// whatever the request, and the state gives back the request as it was recorded. Two
/// such states are the same only if the requests are.
pub proof fn lemma_not_configured_holds_request<W, O>(
    before: Unmapped<W, O>,
    request: Option<Option<O>>,
    other: Option<Option<O>>,
)
    ensures
        ({
            let after = Unmapped {
                state: InitialConfigureState::NotConfigured { wants_fullscreen: request },
                ..before
            };
            &&& after.needs_initial_configure()
            &&& after.window == before.window
            &&& after.state->wants_fullscreen == request
        }),
        (InitialConfigureState::NotConfigured { wants_fullscreen: request })
            == (InitialConfigureState::NotConfigured { wants_fullscreen: other })
            <==> request == other,
{
}

/// The three fullscreen requests stay apart once recorded: no request, fullscreen with no
/// preference for an output, and fullscreen on a given output give three different states,
/// whatever the output.
pub proof fn lemma_fullscreen_requests_differ<O>(output: O)
    ensures
        ({
            let none = InitialConfigureState::<O>::NotConfigured { wants_fullscreen: None };
            let anywhere = InitialConfigureState::<O>::NotConfigured {
                wants_fullscreen: Some(None),
            };
            let on_output = InitialConfigureState::<O>::NotConfigured {
                wants_fullscreen: Some(Some(output)),
            };
            &&& none != anywhere
            &&& none != on_output
            &&& anywhere != on_output
            &&& none->wants_fullscreen is None
            &&& anywhere->wants_fullscreen == Some(None::<O>)
            &&& on_output->wants_fullscreen == Some(Some(output))
        }),
{
}

/// Rules give back the default width that they were built with, whatever the other fields
/// hold, and two sets of rules are the same only if their default widths are.
pub proof fn lemma_rules_hold_default_width(
    rules: ResolvedWindowRules,
    default_width: Option<Option<ColumnWidth>>,
    other: Option<Option<ColumnWidth>>,
)
    ensures
        (ResolvedWindowRules { default_width, ..rules }).default_width == default_width,
        (ResolvedWindowRules { default_width, ..rules })
            == (ResolvedWindowRules { default_width: other, ..rules })
            <==> default_width == other,
{
}

/// The three default widths stay apart once stored: unset, set to empty and set to a given
/// width give three different sets of rules, whatever the width and the other fields.
pub proof fn lemma_default_widths_differ(rules: ResolvedWindowRules, width: ColumnWidth)
    ensures
        ({
            let unset = ResolvedWindowRules { default_width: None, ..rules };
            let empty = ResolvedWindowRules { default_width: Some(None), ..rules };
            let given = ResolvedWindowRules { default_width: Some(Some(width)), ..rules };
            &&& unset != empty
            &&& unset != given
            &&& empty != given
            &&& unset.default_width is None
            &&& empty.default_width == Some(None::<ColumnWidth>)
            &&& given.default_width == Some(Some(width))
        }),
{
}

} // verus!
