use vstd::prelude::*;

verus! {

/// The optional input reports that a session switches on.
#[derive(Clone, Copy, Debug, PartialEq, Eq, Structural)]
pub struct SessionConfig {
    /// Report the boundaries of pasted text as events.
    pub bracketed_paste: bool,
    /// Report focus gain and loss as events.
    pub focus_change: bool,
    /// Report mouse events instead of letting the terminal handle them.
    pub mouse_capture: bool,
}

/// One change of terminal state, for the caller to perform.
#[derive(Clone, Copy, Debug, PartialEq, Eq, Structural)]
pub enum TerminalAction {
    EnterAlternateScreen,
    EnableRawMode,
    EnableBracketedPaste,
    EnableFocusChange,
    EnableMouseCapture,
    DisableMouseCapture,
    DisableFocusChange,
    DisableBracketedPaste,
    DisableRawMode,
    LeaveAlternateScreen,
    ClearScreen,
}

/// Which changes of terminal state are in force.
#[derive(Clone, Copy, Debug, PartialEq, Eq, Structural)]
pub struct SessionState {
    pub alternate_screen_active: bool,
    pub raw_mode_enabled: bool,
    pub bracketed_paste_active: bool,
    pub focus_change_active: bool,
    pub mouse_capture_active: bool,
}

/// The state of a terminal that nothing has changed.
pub open spec fn untouched() -> SessionState {
    SessionState {
        alternate_screen_active: false,
        raw_mode_enabled: false,
        bracketed_paste_active: false,
        focus_change_active: false,
        mouse_capture_active: false,
    }
}

/// `a` if `cond`, else nothing.
pub open spec fn step_if(cond: bool, a: TerminalAction) -> Seq<TerminalAction> {
    if cond {
        seq![a]
    } else {
        Seq::empty()
    }
}

/// The startup actions still to perform from `s`: alternate screen, raw
/// mode, then the configured reports, each one only if not yet in force.
pub open spec fn startup_plan(config: SessionConfig, s: SessionState) -> Seq<TerminalAction> {
    step_if(!s.alternate_screen_active, TerminalAction::EnterAlternateScreen) + step_if(
        !s.raw_mode_enabled,
        TerminalAction::EnableRawMode,
    ) + step_if(
        config.bracketed_paste && !s.bracketed_paste_active,
        TerminalAction::EnableBracketedPaste,
    ) + step_if(config.focus_change && !s.focus_change_active, TerminalAction::EnableFocusChange)
        + step_if(
        config.mouse_capture && !s.mouse_capture_active,
        TerminalAction::EnableMouseCapture,
    )
}

/// The shutdown actions for `s`: undo each change in force, in the reverse
/// order of startup, then clear the screen; nothing at all if nothing is in
/// force.
pub open spec fn shutdown_plan(s: SessionState) -> Seq<TerminalAction> {
    step_if(s.mouse_capture_active, TerminalAction::DisableMouseCapture) + step_if(
        s.focus_change_active,
        TerminalAction::DisableFocusChange,
    ) + step_if(s.bracketed_paste_active, TerminalAction::DisableBracketedPaste) + step_if(
        s.raw_mode_enabled,
        TerminalAction::DisableRawMode,
    ) + step_if(s.alternate_screen_active, TerminalAction::LeaveAlternateScreen) + step_if(
        s != untouched(),
        TerminalAction::ClearScreen,
    )
}

/// The state after `a` has been performed.
pub open spec fn apply(s: SessionState, a: TerminalAction) -> SessionState {
    match a {
        TerminalAction::EnterAlternateScreen => SessionState { alternate_screen_active: true, ..s },
        TerminalAction::EnableRawMode => SessionState { raw_mode_enabled: true, ..s },
        TerminalAction::EnableBracketedPaste => SessionState { bracketed_paste_active: true, ..s },
        TerminalAction::EnableFocusChange => SessionState { focus_change_active: true, ..s },
        TerminalAction::EnableMouseCapture => SessionState { mouse_capture_active: true, ..s },
        TerminalAction::DisableMouseCapture => SessionState { mouse_capture_active: false, ..s },
        TerminalAction::DisableFocusChange => SessionState { focus_change_active: false, ..s },
        TerminalAction::DisableBracketedPaste => SessionState {
            bracketed_paste_active: false,
            ..s
        },
        TerminalAction::DisableRawMode => SessionState { raw_mode_enabled: false, ..s },
        TerminalAction::LeaveAlternateScreen => SessionState {
            alternate_screen_active: false,
            ..s
        },
        TerminalAction::ClearScreen => s,
    }
}

/// The terminal session: which changes of terminal state are in force, so
/// that every one of them is undone exactly once. The caller performs the
/// actions that `begin` and `end` hand out, and reports each startup action
/// that succeeded with `record`; `end` belongs on every exit path.
pub struct TerminalSession {
    config: SessionConfig,
    state: SessionState,
}

impl TerminalSession {
    /// A session with nothing in force yet.
    pub fn new(config: SessionConfig) -> (r: TerminalSession)
        ensures
            r.config() == config,
            r.state() == untouched(),
    {
        TerminalSession {
            config,
            state: SessionState {
                alternate_screen_active: false,
                raw_mode_enabled: false,
                bracketed_paste_active: false,
                focus_change_active: false,
                mouse_capture_active: false,
            },
        }
    }

    pub closed spec fn config(&self) -> SessionConfig {
        self.config
    }

    pub closed spec fn state(&self) -> SessionState {
        self.state
    }

    /// The changes in force.
    pub fn current(&self) -> (r: SessionState)
        ensures
            r == self.state(),
    {
        self.state
    }

    /// Whether raw input mode is in force.
    pub fn raw_mode_enabled(&self) -> (r: bool)
        ensures
            r == self.state().raw_mode_enabled,
    {
        self.state.raw_mode_enabled
    }

    /// Whether the alternate screen is in force.
    pub fn alternate_screen_active(&self) -> (r: bool)
        ensures
            r == self.state().alternate_screen_active,
    {
        self.state.alternate_screen_active
    }

    /// The startup actions to perform, in order. Should one fail, the caller
    /// stops there, calls `end` and reports a session error.
    pub fn begin(&self) -> (r: Vec<TerminalAction>)
        ensures
            r@ == startup_plan(self.config(), self.state()),
    {
        let mut r: Vec<TerminalAction> = Vec::new();
        let s = self.state;
        let c = self.config;
        if !s.alternate_screen_active {
            r.push(TerminalAction::EnterAlternateScreen);
        }
        if !s.raw_mode_enabled {
            r.push(TerminalAction::EnableRawMode);
        }
        if c.bracketed_paste && !s.bracketed_paste_active {
            r.push(TerminalAction::EnableBracketedPaste);
        }
        if c.focus_change && !s.focus_change_active {
            r.push(TerminalAction::EnableFocusChange);
        }
        if c.mouse_capture && !s.mouse_capture_active {
            r.push(TerminalAction::EnableMouseCapture);
        }
        assert(r@ =~= startup_plan(c, s));
        r
    }

    /// Records that the caller performed `action` with success.
    pub fn record(&mut self, action: TerminalAction)
        ensures
            final(self).config() == old(self).config(),
            final(self).state() == apply(old(self).state(), action),
    {
        match action {
            TerminalAction::EnterAlternateScreen => self.state.alternate_screen_active = true,
            TerminalAction::EnableRawMode => self.state.raw_mode_enabled = true,
            TerminalAction::EnableBracketedPaste => self.state.bracketed_paste_active = true,
            TerminalAction::EnableFocusChange => self.state.focus_change_active = true,
            TerminalAction::EnableMouseCapture => self.state.mouse_capture_active = true,
            TerminalAction::DisableMouseCapture => self.state.mouse_capture_active = false,
            TerminalAction::DisableFocusChange => self.state.focus_change_active = false,
            TerminalAction::DisableBracketedPaste => self.state.bracketed_paste_active = false,
            TerminalAction::DisableRawMode => self.state.raw_mode_enabled = false,
            TerminalAction::LeaveAlternateScreen => self.state.alternate_screen_active = false,
            TerminalAction::ClearScreen => {},
        }
    }

    /// Ends the session: hands out the actions that undo every change in
    /// force, in reverse order, and counts them as done. With nothing in
    /// force it hands out nothing and changes nothing.
    pub fn end(&mut self) -> (r: Vec<TerminalAction>)
        ensures
            r@ == shutdown_plan(old(self).state()),
            final(self).config() == old(self).config(),
            final(self).state() == untouched(),
    {
        let s = self.state;
        let mut r: Vec<TerminalAction> = Vec::new();
        if s.mouse_capture_active {
            r.push(TerminalAction::DisableMouseCapture);
        }
        if s.focus_change_active {
            r.push(TerminalAction::DisableFocusChange);
        }
        if s.bracketed_paste_active {
            r.push(TerminalAction::DisableBracketedPaste);
        }
        if s.raw_mode_enabled {
            r.push(TerminalAction::DisableRawMode);
        }
        if s.alternate_screen_active {
            r.push(TerminalAction::LeaveAlternateScreen);
        }
        if s.alternate_screen_active || s.raw_mode_enabled || s.bracketed_paste_active
            || s.focus_change_active || s.mouse_capture_active {
            r.push(TerminalAction::ClearScreen);
        }
        assert(r@ =~= shutdown_plan(s));
        self.state = SessionState {
            alternate_screen_active: false,
            raw_mode_enabled: false,
            bracketed_paste_active: false,
            focus_change_active: false,
            mouse_capture_active: false,
        };
        r
    }
}

/// Ending is idempotent: a session that was never begun is untouched, and so
/// is one that was just ended; on an untouched session `end` hands out no
/// action (and leaves it untouched, as its contract says of every session).
pub proof fn lemma_end_idempotent(before: SessionState)
    ensures
        shutdown_plan(untouched()) == Seq::<TerminalAction>::empty(),
        before == untouched() ==> shutdown_plan(before) == Seq::<TerminalAction>::empty(),
{
    assert(shutdown_plan(untouched()) =~= Seq::<TerminalAction>::empty());
}

/// The action that takes back `a`.
pub open spec fn undo(a: TerminalAction) -> TerminalAction {
    match a {
        TerminalAction::EnterAlternateScreen => TerminalAction::LeaveAlternateScreen,
        TerminalAction::EnableRawMode => TerminalAction::DisableRawMode,
        TerminalAction::EnableBracketedPaste => TerminalAction::DisableBracketedPaste,
        TerminalAction::EnableFocusChange => TerminalAction::DisableFocusChange,
        TerminalAction::EnableMouseCapture => TerminalAction::DisableMouseCapture,
        TerminalAction::DisableMouseCapture => TerminalAction::EnableMouseCapture,
        TerminalAction::DisableFocusChange => TerminalAction::EnableFocusChange,
        TerminalAction::DisableBracketedPaste => TerminalAction::EnableBracketedPaste,
        TerminalAction::DisableRawMode => TerminalAction::EnableRawMode,
        TerminalAction::LeaveAlternateScreen => TerminalAction::EnterAlternateScreen,
        TerminalAction::ClearScreen => TerminalAction::ClearScreen,
    }
}

/// The state after `actions` have been performed in order.
pub open spec fn apply_all(s: SessionState, actions: Seq<TerminalAction>) -> SessionState
    decreases actions.len(),
{
    if actions.len() == 0 {
        s
    } else {
        apply(apply_all(s, actions.drop_last()), actions.last())
    }
}

/// Ending a fully begun session takes back every startup action, in the
/// reverse order, and then clears the screen.
pub proof fn lemma_end_reverses_begin(config: SessionConfig)
    ensures
        shutdown_plan(apply_all(untouched(), startup_plan(config, untouched())))
            == startup_plan(config, untouched()).reverse().map_values(|a: TerminalAction| undo(a)).push(
            TerminalAction::ClearScreen,
        ),
{
    let plan = startup_plan(config, untouched());
    let tail = seq![TerminalAction::EnterAlternateScreen, TerminalAction::EnableRawMode];
    let p = step_if(config.bracketed_paste, TerminalAction::EnableBracketedPaste);
    let f = step_if(config.focus_change, TerminalAction::EnableFocusChange);
    let m = step_if(config.mouse_capture, TerminalAction::EnableMouseCapture);
    assert(step_if(true, TerminalAction::EnterAlternateScreen) + step_if(true, TerminalAction::EnableRawMode) =~= tail);
    assert(plan =~= tail + p + f + m);
    let s2 = apply_all(untouched(), tail);
    assert(tail.drop_last() =~= seq![TerminalAction::EnterAlternateScreen]);
    assert(tail.drop_last().drop_last() =~= Seq::<TerminalAction>::empty());
    let s1 = apply_all(untouched(), tail.drop_last());
    assert(apply_all(untouched(), tail.drop_last().drop_last()) == untouched());
    assert(s1 == apply(untouched(), TerminalAction::EnterAlternateScreen));
    assert(s2 == apply(s1, TerminalAction::EnableRawMode));
    assert(s2 == SessionState { alternate_screen_active: true, raw_mode_enabled: true, ..untouched() });
    let tp = tail + p;
    if config.bracketed_paste {
        assert(tp.drop_last() =~= tail);
    } else {
        assert(tp =~= tail);
    }
    let tpf = tp + f;
    if config.focus_change {
        assert(tpf.drop_last() =~= tp);
    } else {
        assert(tpf =~= tp);
    }
    let tpfm = tpf + m;
    if config.mouse_capture {
        assert(tpfm.drop_last() =~= tpf);
    } else {
        assert(tpfm =~= tpf);
    }
    let sp = apply_all(untouched(), tp);
    assert(sp == SessionState { bracketed_paste_active: config.bracketed_paste, ..s2 });
    let sf = apply_all(untouched(), tpf);
    assert(sf == SessionState { focus_change_active: config.focus_change, ..sp });
    let done = apply_all(untouched(), plan);
    assert(done == SessionState { mouse_capture_active: config.mouse_capture, ..sf });
    assert(done == SessionState {
        alternate_screen_active: true,
        raw_mode_enabled: true,
        bracketed_paste_active: config.bracketed_paste,
        focus_change_active: config.focus_change,
        mouse_capture_active: config.mouse_capture,
    });
    assert(shutdown_plan(done) =~= plan.reverse().map_values(|a: TerminalAction| undo(a)).push(
        TerminalAction::ClearScreen,
    ));
}

} // verus!
