//! The screens of the application and what an action of the user does to
//! them.

use crate::context::AppContext;
use crate::chain::Network;
use vstd::prelude::*;

verus! {

/// The kinds of screen.
#[derive(Clone, Copy, Debug, PartialEq, Eq, Structural)]
pub enum ScreenType {
    Main,
    DPNSActiveContests,
    DPNSPastContests,
    DPNSMyUsernames,
    DPNSScheduledVotes,
    KeyInfo,
    MyTokens,
    UpdateTokenConfig,
}

/// A screen: its kind, and how often it was asked to load its content
/// anew.
#[derive(Clone, Copy, Debug, PartialEq, Eq, Structural)]
pub struct Screen {
    pub screen_type: ScreenType,
    pub refreshes: u64,
}

impl ScreenType {
    /// A screen of this kind that has not loaded its content anew yet.
    pub fn create_screen(&self, app_context: &AppContext) -> (screen: Screen)
        ensures
            screen == (Screen { screen_type: *self, refreshes: 0 }),
    {
        Screen { screen_type: *self, refreshes: 0 }
    }
}

impl Screen {
    /// The kind of the screen.
    pub fn screen_type(&self) -> (screen_type: ScreenType)
        ensures
            screen_type == self.screen_type,
    {
        self.screen_type
    }

    /// The screen after it was asked to load its content anew.
    pub open spec fn spec_refreshed(self) -> Screen {
        Screen {
            screen_type: self.screen_type,
            refreshes: if self.refreshes == u64::MAX {
                u64::MAX
            } else {
                (self.refreshes + 1) as u64
            },
        }
    }

    /// Asks the screen to load its content anew.
    pub fn refresh(&mut self)
        ensures
            *final(self) == old(self).spec_refreshed(),
    {
        if self.refreshes < u64::MAX {
            self.refreshes = self.refreshes + 1;
        }
    }
}

/// What a screen asks the application to do, before the screen it may need
/// exists.
#[derive(Clone, Copy, Debug, PartialEq, Eq, Structural)]
pub enum DesiredAppAction {
    NoAction,
    PopScreen,
    GoToMainScreen,
    AddScreenType(ScreenType),
}

/// What a screen asks the application to do.
#[derive(Clone, Copy, Debug, PartialEq, Eq, Structural)]
pub enum AppAction {
    NoAction,
    PopScreen,
    PopScreenAndRefresh,
    GoToMainScreen,
    AddScreen(Screen),
}

impl DesiredAppAction {
    /// The action that is asked for; a screen that it names by its kind is
    /// created.
    pub open spec fn spec_create_action(&self) -> AppAction {
        match self {
            DesiredAppAction::NoAction => AppAction::NoAction,
            DesiredAppAction::PopScreen => AppAction::PopScreen,
            DesiredAppAction::GoToMainScreen => AppAction::GoToMainScreen,
            DesiredAppAction::AddScreenType(screen_type) => AppAction::AddScreen(
                Screen { screen_type: *screen_type, refreshes: 0 },
            ),
        }
    }

    /// The action that is asked for; a screen that it names by its kind is
    /// created.
    pub fn create_action(&self, app_context: &AppContext) -> (action: AppAction)
        ensures
            action == self.spec_create_action(),
    {
        match self {
            DesiredAppAction::NoAction => AppAction::NoAction,
            DesiredAppAction::PopScreen => AppAction::PopScreen,
            DesiredAppAction::GoToMainScreen => AppAction::GoToMainScreen,
            DesiredAppAction::AddScreenType(screen_type) => {
                AppAction::AddScreen(screen_type.create_screen(app_context))
            },
        }
    }
}

/// The main screen, the screens opened on top of it, and the context that
/// they work on.
pub struct AppState {
    pub main_screen: Screen,
    pub screen_stack: Vec<Screen>,
    pub app_context: AppContext,
}

/// The screen that is shown: the topmost of the stack, or the main screen
/// under an empty stack.
pub open spec fn spec_visible_screen(main_screen: Screen, screen_stack: Seq<Screen>) -> Screen {
    if screen_stack.len() > 0 {
        screen_stack.last()
    } else {
        main_screen
    }
}

/// The main screen and the stack after an action.
pub open spec fn spec_update(main_screen: Screen, screen_stack: Seq<Screen>, action: AppAction) -> (
    Screen,
    Seq<Screen>,
) {
    match action {
        AppAction::AddScreen(screen) => (main_screen, screen_stack.push(screen)),
        AppAction::NoAction => (main_screen, screen_stack),
        AppAction::PopScreen => if screen_stack.len() > 0 {
            (main_screen, screen_stack.drop_last())
        } else {
            (main_screen, screen_stack)
        },
        AppAction::PopScreenAndRefresh => {
            let popped = if screen_stack.len() > 0 {
                screen_stack.drop_last()
            } else {
                screen_stack
            };
            if popped.len() > 0 {
                (main_screen, popped.update(popped.len() - 1, popped.last().spec_refreshed()))
            } else {
                (main_screen.spec_refreshed(), popped)
            }
        },
        AppAction::GoToMainScreen => (main_screen.spec_refreshed(), Seq::empty()),
    }
}

impl AppState {
    /// The application as it starts: the main screen, nothing on top of
    /// it, and a fresh context of the main network.
    pub fn new() -> (state: AppState)
        ensures
            state.main_screen == (Screen { screen_type: ScreenType::Main, refreshes: 0 }),
            state.screen_stack@ == Seq::<Screen>::empty(),
            state.app_context.wf(),
            state.app_context.is_fresh(Network::Dash),
    {
        let app_context = AppContext::new(Network::Dash);
        let main_screen = ScreenType::Main.create_screen(&app_context);
        AppState { main_screen, screen_stack: Vec::new(), app_context }
    }

    /// The screen that is shown.
    pub fn visible_screen(&self) -> (screen: &Screen)
        ensures
            *screen == spec_visible_screen(self.main_screen, self.screen_stack@),
    {
        let depth = self.screen_stack.len();
        if depth > 0 {
            &self.screen_stack[depth - 1]
        } else {
            &self.main_screen
        }
    }

    /// The screen that is shown, to be changed.
    pub fn visible_screen_mut(&mut self) -> (screen: &mut Screen)
        ensures
            *screen == spec_visible_screen(old(self).main_screen, old(self).screen_stack@),
            final(self).app_context == old(self).app_context,
            old(self).screen_stack@.len() > 0 ==> final(self).main_screen == old(self).main_screen
                && final(self).screen_stack@ == old(self).screen_stack@.update(
                old(self).screen_stack@.len() - 1,
                *final(screen),
            ),
            old(self).screen_stack@.len() == 0 ==> final(self).main_screen == *final(screen)
                && final(self).screen_stack@ == old(self).screen_stack@,
    {
        let depth = self.screen_stack.len();
        if depth > 0 {
            &mut self.screen_stack[depth - 1]
        } else {
            &mut self.main_screen
        }
    }

    /// The kind of the screen that is shown: that of the topmost screen of
    /// the stack, or the main kind under an empty stack.
    pub fn visible_screen_type(&self) -> (screen_type: ScreenType)
        ensures
            screen_type == if self.screen_stack@.len() > 0 {
                self.screen_stack@.last().screen_type
            } else {
                ScreenType::Main
            },
    {
        let depth = self.screen_stack.len();
        if depth > 0 {
            self.screen_stack[depth - 1].screen_type()
        } else {
            ScreenType::Main
        }
    }

    /// Does what the screen that is shown has asked for.
    pub fn update(&mut self, action: AppAction)
        ensures
            final(self).app_context == old(self).app_context,
            (final(self).main_screen, final(self).screen_stack@) == spec_update(
                old(self).main_screen,
                old(self).screen_stack@,
                action,
            ),
    {
        match action {
            AppAction::AddScreen(screen) => self.screen_stack.push(screen),
            AppAction::NoAction => {},
            AppAction::PopScreen => {
                if self.screen_stack.len() > 0 {
                    self.screen_stack.pop();
                }
            },
            AppAction::PopScreenAndRefresh => {
                if self.screen_stack.len() > 0 {
                    self.screen_stack.pop();
                }
                let depth = self.screen_stack.len();
                if depth > 0 {
                    let mut top = self.screen_stack[depth - 1];
                    top.refresh();
                    self.screen_stack.set(depth - 1, top);
                } else {
                    self.main_screen.refresh();
                }
            },
            AppAction::GoToMainScreen => {
                self.screen_stack = Vec::new();
                self.main_screen.refresh();
            },
        }
    }
}

} // verus!
