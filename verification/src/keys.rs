use vstd::prelude::*;
use vstd::pervasive::VecAdditionalExecFns;

use crate::algorithms::GenAlgorithms;
use crate::app::{clear_text, spec_enter_value, App, AlgorithmSetting, CurrentScreen, SizeSetting};
use crate::app::enter_value;
use crate::spec_clamp;

verus! {

/// One key press, as handed in by the host's input loop.
#[derive(Debug, PartialEq, Eq, Structural, Clone, Copy)]
pub enum KeyInput {
    Char(char),
    Left,
    Right,
    Up,
    Down,
    Esc,
    Enter,
    Tab,
    Backspace,
}

/// What the host must do after a key press: nothing, quit, run the external
/// generator or solver, or play the step sequence.
#[derive(Debug, PartialEq, Eq, Structural, Clone, Copy)]
pub enum Action {
    Nothing,
    Quit,
    Generate,
    Solve,
    Playback,
}

/// Whether `c` is a decimal digit key.
pub open spec fn is_digit(c: char) -> bool {
    '0' <= c && c <= '9'
}

/// The value of a decimal digit key.
pub open spec fn digit_val(c: char) -> int {
    c as int - 48
}

/// How a key pressed on the main screen changes the state and which action
/// it requests.
pub open spec fn main_key_post(pre: App, post: App, key: KeyInput, r: Action) -> bool {
    match key {
        KeyInput::Char(c) => {
            if c == 'q' || c == 'Q' {
                post == pre && r == Action::Quit
            } else if c == 'z' || c == 'Z' {
                &&& post.tmp == (if pre.size_setting == SizeSetting::Width {
                    pre.width
                } else {
                    pre.height
                })
                &&& post == (App {
                    current_screen: CurrentScreen::Size,
                    tmp: post.tmp,
                    ..pre
                })
                &&& r == Action::Nothing
            } else if c == 'p' || c == 'P' {
                &&& post == (App {
                    current_screen: CurrentScreen::Speed,
                    tmp: pre.speed,
                    ..pre
                })
                &&& r == Action::Nothing
            } else if c == 'a' || c == 'A' {
                post == (App { current_screen: CurrentScreen::Algorithm, ..pre }) && r
                    == Action::Nothing
            } else if c == 'g' || c == 'G' {
                post == pre && r == Action::Generate
            } else if c == 's' || c == 'S' {
                post == pre && r == (if pre.has_generated {
                    Action::Solve
                } else {
                    Action::Nothing
                })
            } else if c == 'r' || c == 'R' {
                if pre.maze_steps@.len() == 0 {
                    post == pre && r == Action::Nothing
                } else {
                    &&& post.step == (if pre.step == pre.maze_steps@.len() - 1 {
                        0int
                    } else {
                        pre.step as int
                    })
                    &&& post == (App { step: post.step, ..pre })
                    &&& r == Action::Playback
                }
            } else {
                post == pre && r == Action::Nothing
            }
        },
        KeyInput::Left => {
            &&& r == Action::Nothing
            &&& if pre.has_generated && pre.step > 0 {
                &&& post.step == pre.step - 1
                &&& post.maze == pre.maze_steps@[post.step as int]
                &&& post == (App { step: post.step, maze: post.maze, ..pre })
            } else {
                post == pre
            }
        },
        KeyInput::Right => {
            &&& r == Action::Nothing
            &&& if pre.has_generated && pre.step + 1 < pre.maze_steps@.len() {
                &&& post.step == pre.step + 1
                &&& post.maze == pre.maze_steps@[post.step as int]
                &&& post == (App { step: post.step, maze: post.maze, ..pre })
            } else {
                post == pre
            }
        },
        _ => post == pre && r == Action::Nothing,
    }
}

/// How a key pressed on the size screen changes the state.  The pending
/// entry in `tmp` is committed to the selected dimension by enter, or by
/// leaving the screen or switching dimension.
pub open spec fn size_key_post(pre: App, post: App, key: KeyInput) -> bool {
    match key {
        KeyInput::Esc => {
            &&& post.width as int == (if pre.size_setting == SizeSetting::Width {
                spec_clamp(pre.tmp as int, 2, pre.max_size as int)
            } else {
                pre.width as int
            })
            &&& post.height as int == (if pre.size_setting == SizeSetting::Height {
                spec_clamp(pre.tmp as int, 2, pre.max_size as int)
            } else {
                pre.height as int
            })
            &&& post.maze@ == clear_text(post.width as int, post.height as int)
            &&& post == (App {
                current_screen: CurrentScreen::Main,
                width: post.width,
                height: post.height,
                maze: post.maze,
                has_generated: false,
                ..pre
            })
        },
        KeyInput::Char(c) => {
            if c == 'w' || c == 'W' {
                &&& post.height as int == (if pre.size_setting == SizeSetting::Height {
                    spec_clamp(pre.tmp as int, 2, pre.max_size as int)
                } else {
                    pre.height as int
                })
                &&& post == (App {
                    size_setting: SizeSetting::Width,
                    tmp: pre.width,
                    height: post.height,
                    ..pre
                })
            } else if c == 'h' || c == 'H' {
                &&& post.width as int == (if pre.size_setting == SizeSetting::Width {
                    spec_clamp(pre.tmp as int, 2, pre.max_size as int)
                } else {
                    pre.width as int
                })
                &&& post == (App {
                    size_setting: SizeSetting::Height,
                    tmp: pre.height,
                    width: post.width,
                    ..pre
                })
            } else if is_digit(c) {
                &&& post.tmp as int == spec_enter_value(
                    digit_val(c),
                    pre.tmp as int,
                    pre.max_size as int,
                )
                &&& post == (App { tmp: post.tmp, ..pre })
            } else {
                post == pre
            }
        },
        KeyInput::Backspace => {
            post == (App {
                tmp: (if pre.tmp < 10 {
                    0
                } else {
                    pre.tmp / 10
                }),
                ..pre
            })
        },
        KeyInput::Enter => {
            &&& post.width as int == (if pre.size_setting == SizeSetting::Width {
                spec_clamp(pre.tmp as int, 2, pre.max_size as int)
            } else {
                pre.width as int
            })
            &&& post.height as int == (if pre.size_setting == SizeSetting::Height {
                spec_clamp(pre.tmp as int, 2, pre.max_size as int)
            } else {
                pre.height as int
            })
            &&& post == (App { width: post.width, height: post.height, ..pre })
        },
        _ => post == pre,
    }
}

/// How a key pressed on the speed screen changes the state.
pub open spec fn speed_key_post(pre: App, post: App, key: KeyInput) -> bool {
    match key {
        KeyInput::Esc => {
            post == (App {
                current_screen: CurrentScreen::Main,
                speed: post.speed,
                ..pre
            }) && post.speed as int == spec_clamp(pre.tmp as int, 1, 100)
        },
        KeyInput::Char(c) => {
            if is_digit(c) {
                &&& post.tmp as int == spec_enter_value(digit_val(c), pre.tmp as int, 100)
                &&& post == (App { tmp: post.tmp, ..pre })
            } else {
                post == pre
            }
        },
        KeyInput::Enter => {
            &&& post.speed as int == spec_clamp(pre.tmp as int, 1, 100)
            &&& post == (App { speed: post.speed, tmp: post.speed, ..pre })
        },
        _ => post == pre,
    }
}

/// A digit pressed on the algorithm screen: if a paired growing-tree variant
/// is selected, its ratio accumulates the digit, the shared ratio follows,
/// and the selection list entry is rewritten.
pub open spec fn ratio_digit_post(pre: App, post: App, d: int) -> bool {
    match pre.gen_algorithm {
        GenAlgorithms::GrowingTree(m) => match m.spec_ratio() {
            Some(r) => {
                &&& post.tmp as int == spec_enter_value(d, r as int, 100)
                &&& post.ratio == post.tmp
                &&& post.gen_algorithm == GenAlgorithms::GrowingTree(
                    m.spec_with_ratio(post.ratio),
                )
                &&& post.gen_algo_lookup@ == pre.gen_algo_lookup@.update(
                    pre.gen_index as int,
                    post.gen_algorithm,
                )
                &&& post == (App {
                    tmp: post.tmp,
                    ratio: post.ratio,
                    gen_algorithm: post.gen_algorithm,
                    gen_algo_lookup: post.gen_algo_lookup,
                    ..pre
                })
            },
            None => post == pre,
        },
        _ => post == pre,
    }
}

/// Backspace on the algorithm screen: the selected ratio is shifted one
/// decimal place to the right (a tenth of its value), the shared ratio
/// follows, and the selection list entry is rewritten.
pub open spec fn ratio_backspace_post(pre: App, post: App) -> bool {
    match pre.gen_algorithm {
        GenAlgorithms::GrowingTree(m) => match m.spec_ratio() {
            Some(r) => {
                &&& post.ratio == r / 10
                &&& post.gen_algorithm == GenAlgorithms::GrowingTree(
                    m.spec_with_ratio(post.ratio),
                )
                &&& post.gen_algo_lookup@ == pre.gen_algo_lookup@.update(
                    pre.gen_index as int,
                    post.gen_algorithm,
                )
                &&& post == (App {
                    ratio: post.ratio,
                    gen_algorithm: post.gen_algorithm,
                    gen_algo_lookup: post.gen_algo_lookup,
                    ..pre
                })
            },
            None => post == pre,
        },
        _ => post == pre,
    }
}

/// A ring step (right or left) on the algorithm screen: the growing-tree
/// sub-variant or binary-tree bias of the selected generator advances around
/// its ring and the selection list entry is rewritten.
pub open spec fn ring_step_post(pre: App, post: App, right: bool) -> bool {
    if pre.algorithm_setting == AlgorithmSetting::Generator {
        match pre.gen_algorithm {
            GenAlgorithms::GrowingTree(m) => {
                &&& post.gen_algorithm == GenAlgorithms::GrowingTree(
                    if right {
                        m.spec_next(pre.ratio)
                    } else {
                        m.spec_prev(pre.ratio)
                    },
                )
                &&& post.gen_algo_lookup@ == pre.gen_algo_lookup@.update(
                    pre.gen_index as int,
                    post.gen_algorithm,
                )
                &&& post == (App {
                    gen_algorithm: post.gen_algorithm,
                    gen_algo_lookup: post.gen_algo_lookup,
                    ..pre
                })
            },
            GenAlgorithms::BinaryTree(b) => {
                &&& post.gen_algorithm == GenAlgorithms::BinaryTree(
                    if right {
                        b.spec_next()
                    } else {
                        b.spec_prev()
                    },
                )
                &&& post.gen_algo_lookup@ == pre.gen_algo_lookup@.update(
                    pre.gen_index as int,
                    post.gen_algorithm,
                )
                &&& post == (App {
                    gen_algorithm: post.gen_algorithm,
                    gen_algo_lookup: post.gen_algo_lookup,
                    ..pre
                })
            },
            _ => post == pre,
        }
    } else {
        post == pre
    }
}

/// How a key pressed on the algorithm screen changes the state.
pub open spec fn algorithm_key_post(pre: App, post: App, key: KeyInput) -> bool {
    match key {
        KeyInput::Esc => post == (App { current_screen: CurrentScreen::Main, ..pre }),
        KeyInput::Tab => {
            post == (App {
                algorithm_setting: (if pre.algorithm_setting == AlgorithmSetting::Generator {
                    AlgorithmSetting::Solver
                } else {
                    AlgorithmSetting::Generator
                }),
                ..pre
            })
        },
        KeyInput::Down => {
            if pre.algorithm_setting == AlgorithmSetting::Generator {
                if pre.gen_index + 1 < pre.gen_algo_lookup@.len() {
                    &&& post.gen_index == pre.gen_index + 1
                    &&& post.gen_algorithm == pre.gen_algo_lookup@[post.gen_index as int]
                    &&& post == (App {
                        gen_index: post.gen_index,
                        gen_algorithm: post.gen_algorithm,
                        ..pre
                    })
                } else {
                    post == pre
                }
            } else {
                if pre.solve_index + 1 < pre.solve_algo_lookup@.len() {
                    &&& post.solve_index == pre.solve_index + 1
                    &&& post.solve_algorithm == pre.solve_algo_lookup@[post.solve_index as int]
                    &&& post == (App {
                        solve_index: post.solve_index,
                        solve_algorithm: post.solve_algorithm,
                        ..pre
                    })
                } else {
                    post == pre
                }
            }
        },
        KeyInput::Up => {
            if pre.algorithm_setting == AlgorithmSetting::Generator {
                if pre.gen_index > 0 {
                    &&& post.gen_index == pre.gen_index - 1
                    &&& post.gen_algorithm == pre.gen_algo_lookup@[post.gen_index as int]
                    &&& post == (App {
                        gen_index: post.gen_index,
                        gen_algorithm: post.gen_algorithm,
                        ..pre
                    })
                } else {
                    post == pre
                }
            } else {
                if pre.solve_index > 0 {
                    &&& post.solve_index == pre.solve_index - 1
                    &&& post.solve_algorithm == pre.solve_algo_lookup@[post.solve_index as int]
                    &&& post == (App {
                        solve_index: post.solve_index,
                        solve_algorithm: post.solve_algorithm,
                        ..pre
                    })
                } else {
                    post == pre
                }
            }
        },
        KeyInput::Right => ring_step_post(pre, post, true),
        KeyInput::Left => ring_step_post(pre, post, false),
        KeyInput::Char(c) => {
            if is_digit(c) {
                ratio_digit_post(pre, post, digit_val(c))
            } else {
                post == pre
            }
        },
        KeyInput::Backspace => ratio_backspace_post(pre, post),
        _ => post == pre,
    }
}

/// Accumulate a digit into the selected generator's ratio, as
/// [`ratio_digit_post`] describes.
pub fn update_ratio(val: usize, app: &mut App)
    requires
        val <= 9,
        old(app).wf(),
    ensures
        final(app).wf(),
        ratio_digit_post(*old(app), *final(app), val as int),
{
    match app.gen_algorithm {
        GenAlgorithms::GrowingTree(m) => match m.ratio() {
            Some(r) => {
                app.tmp = r as usize;
                app.tmp = enter_value(val, app.tmp, 100);
                proof {
                    assert(app.tmp <= 100);
                }
                let t = app.tmp as u8;
                app.set_ratio(t);
                let ga = GenAlgorithms::GrowingTree(m.with_ratio(t));
                app.gen_algorithm = ga;
                let gi = app.gen_index;
                app.gen_algo_lookup.set(gi, ga);
                proof {
                    assert forall|i: int|
                        0 <= i < app.gen_algo_lookup@.len() implies (
                    #[trigger] app.gen_algo_lookup@[i]).wf() by {
                        if i != gi {
                            assert(app.gen_algo_lookup@[i] == old(app).gen_algo_lookup@[i]);
                        }
                    }
                }
            },
            None => {},
        },
        _ => {},
    }
}

impl App {
    /// Dispatch one key press to the active screen's handler.
    pub fn handle_key(&mut self, key: KeyInput) -> (r: Action)
        requires
            old(self).wf(),
        ensures
            final(self).wf(),
            match old(self).current_screen {
                CurrentScreen::Main => main_key_post(*old(self), *final(self), key, r),
                CurrentScreen::Size => size_key_post(*old(self), *final(self), key) && r
                    == Action::Nothing,
                CurrentScreen::Speed => speed_key_post(*old(self), *final(self), key) && r
                    == Action::Nothing,
                CurrentScreen::Algorithm => algorithm_key_post(*old(self), *final(self), key) && r
                    == Action::Nothing,
            },
    {
        match self.current_screen {
            CurrentScreen::Main => self.handle_main_key(key),
            CurrentScreen::Size => {
                self.handle_size_key(key);
                Action::Nothing
            },
            CurrentScreen::Speed => {
                self.handle_speed_key(key);
                Action::Nothing
            },
            CurrentScreen::Algorithm => {
                self.handle_algorithm_key(key);
                Action::Nothing
            },
        }
    }

    /// Handle a key on the main screen; see [`main_key_post`].
    pub fn handle_main_key(&mut self, key: KeyInput) -> (r: Action)
        requires
            old(self).wf(),
        ensures
            final(self).wf(),
            main_key_post(*old(self), *final(self), key, r),
    {
        match key {
            KeyInput::Char(c) => {
                if c == 'q' || c == 'Q' {
                    Action::Quit
                } else if c == 'z' || c == 'Z' {
                    self.current_screen = CurrentScreen::Size;
                    self.tmp = if self.size_setting == SizeSetting::Width {
                        self.width
                    } else {
                        self.height
                    };
                    Action::Nothing
                } else if c == 'p' || c == 'P' {
                    self.tmp = self.speed;
                    self.current_screen = CurrentScreen::Speed;
                    Action::Nothing
                } else if c == 'a' || c == 'A' {
                    self.current_screen = CurrentScreen::Algorithm;
                    Action::Nothing
                } else if c == 'g' || c == 'G' {
                    Action::Generate
                } else if c == 's' || c == 'S' {
                    if self.has_generated {
                        Action::Solve
                    } else {
                        Action::Nothing
                    }
                } else if c == 'r' || c == 'R' {
                    if self.maze_steps.len() == 0 {
                        Action::Nothing
                    } else {
                        if self.step == self.maze_steps.len() - 1 {
                            self.step = 0;
                        }
                        Action::Playback
                    }
                } else {
                    Action::Nothing
                }
            },
            KeyInput::Left => {
                if self.has_generated && self.step > 0 {
                    self.step = self.step - 1;
                    let s = self.get_step().clone();
                    self.maze = s;
                }
                Action::Nothing
            },
            KeyInput::Right => {
                let n = self.maze_steps.len();
                if self.has_generated && n > 0 && self.step < n - 1 {
                    self.step = self.step + 1;
                    let s = self.get_step().clone();
                    self.maze = s;
                }
                Action::Nothing
            },
            _ => Action::Nothing,
        }
    }

    /// Handle a key on the size screen; see [`size_key_post`].
    pub fn handle_size_key(&mut self, key: KeyInput)
        requires
            old(self).wf(),
        ensures
            final(self).wf(),
            size_key_post(*old(self), *final(self), key),
    {
        match key {
            KeyInput::Esc => {
                let t = self.tmp;
                if self.size_setting == SizeSetting::Width {
                    self.set_width(t);
                } else {
                    self.set_height(t);
                }
                self.clear_maze();
                self.current_screen = CurrentScreen::Main;
            },
            KeyInput::Char(c) => {
                if c == 'w' || c == 'W' {
                    if self.size_setting == SizeSetting::Height {
                        let t = self.tmp;
                        self.set_height(t);
                    }
                    self.size_setting = SizeSetting::Width;
                    self.tmp = self.width;
                } else if c == 'h' || c == 'H' {
                    if self.size_setting == SizeSetting::Width {
                        let t = self.tmp;
                        self.set_width(t);
                    }
                    self.size_setting = SizeSetting::Height;
                    self.tmp = self.height;
                } else if c >= '0' && c <= '9' {
                    let d = (c as u32 as usize) - 48;
                    self.tmp = enter_value(d, self.tmp, self.max_size);
                }
            },
            KeyInput::Backspace => {
                if self.tmp < 10 {
                    self.tmp = 0;
                } else {
                    self.tmp = self.tmp / 10;
                }
            },
            KeyInput::Enter => {
                let t = self.tmp;
                if self.size_setting == SizeSetting::Width {
                    self.set_width(t);
                } else {
                    self.set_height(t);
                }
            },
            _ => {},
        }
    }

    /// Handle a key on the speed screen; see [`speed_key_post`].
    pub fn handle_speed_key(&mut self, key: KeyInput)
        requires
            old(self).wf(),
        ensures
            final(self).wf(),
            speed_key_post(*old(self), *final(self), key),
    {
        match key {
            KeyInput::Esc => {
                let t = self.tmp;
                self.set_speed(t);
                self.current_screen = CurrentScreen::Main;
            },
            KeyInput::Char(c) => {
                if c >= '0' && c <= '9' {
                    let d = (c as u32 as usize) - 48;
                    self.tmp = enter_value(d, self.tmp, 100);
                }
            },
            KeyInput::Enter => {
                let t = self.tmp;
                self.set_speed(t);
                self.tmp = self.speed;
            },
            _ => {},
        }
    }

    /// Handle a key on the algorithm screen; see [`algorithm_key_post`].
    pub fn handle_algorithm_key(&mut self, key: KeyInput)
        requires
            old(self).wf(),
        ensures
            final(self).wf(),
            algorithm_key_post(*old(self), *final(self), key),
    {
        match key {
            KeyInput::Esc => {
                self.current_screen = CurrentScreen::Main;
            },
            KeyInput::Tab => {
                self.algorithm_setting = if self.algorithm_setting
                    == AlgorithmSetting::Generator {
                    AlgorithmSetting::Solver
                } else {
                    AlgorithmSetting::Generator
                };
            },
            KeyInput::Down => {
                if self.algorithm_setting == AlgorithmSetting::Generator {
                    let ns = self.gen_index + 1;
                    if ns < self.gen_algo_lookup.len() {
                        self.gen_index = ns;
                        self.gen_algorithm = self.gen_algo_lookup[ns];
                    }
                } else {
                    let ns = self.solve_index + 1;
                    if ns < self.solve_algo_lookup.len() {
                        self.solve_index = ns;
                        self.solve_algorithm = self.solve_algo_lookup[ns];
                    }
                }
            },
            KeyInput::Up => {
                if self.algorithm_setting == AlgorithmSetting::Generator {
                    if self.gen_index > 0 {
                        let ns = self.gen_index - 1;
                        self.gen_index = ns;
                        self.gen_algorithm = self.gen_algo_lookup[ns];
                    }
                } else {
                    if self.solve_index > 0 {
                        let ns = self.solve_index - 1;
                        self.solve_index = ns;
                        self.solve_algorithm = self.solve_algo_lookup[ns];
                    }
                }
            },
            KeyInput::Right => {
                self.ring_step(true);
            },
            KeyInput::Left => {
                self.ring_step(false);
            },
            KeyInput::Char(c) => {
                if c >= '0' && c <= '9' {
                    let d = (c as u32 as usize) - 48;
                    update_ratio(d, self);
                }
            },
            KeyInput::Backspace => {
                match self.gen_algorithm {
                    GenAlgorithms::GrowingTree(m) => {
                        match m.ratio() {
                            Some(r) => {
                                let nr = r / 10;
                                self.set_ratio(nr);
                                let ga = GenAlgorithms::GrowingTree(m.with_ratio(nr));
                                self.gen_algorithm = ga;
                                let gi = self.gen_index;
                                self.gen_algo_lookup.set(gi, ga);
                                proof {
                                    assert forall|i: int|
                                        0 <= i < self.gen_algo_lookup@.len() implies (
                                    #[trigger] self.gen_algo_lookup@[i]).wf() by {
                                        if i != gi {
                                            assert(self.gen_algo_lookup@[i] == old(
                                                self,
                                            ).gen_algo_lookup@[i]);
                                        }
                                    }
                                }
                            },
                            None => {},
                        }
                    },
                    _ => {},
                }
            },
            _ => {},
        }
    }

    /// Advance the selected generator's ring one step right or left; see
    /// [`ring_step_post`].
    pub fn ring_step(&mut self, right: bool)
        requires
            old(self).wf(),
        ensures
            final(self).wf(),
            ring_step_post(*old(self), *final(self), right),
    {
        if self.algorithm_setting == AlgorithmSetting::Generator {
            match self.gen_algorithm {
                GenAlgorithms::GrowingTree(m) => {
                    let ga = GenAlgorithms::GrowingTree(
                        if right {
                            m.next(self.ratio)
                        } else {
                            m.prev(self.ratio)
                        },
                    );
                    self.gen_algorithm = ga;
                    let gi = self.gen_index;
                    self.gen_algo_lookup.set(gi, ga);
                    proof {
                        assert forall|i: int|
                            0 <= i < self.gen_algo_lookup@.len() implies (
                        #[trigger] self.gen_algo_lookup@[i]).wf() by {
                            if i != gi {
                                assert(self.gen_algo_lookup@[i] == old(self).gen_algo_lookup@[i]);
                            }
                        }
                    }
                },
                GenAlgorithms::BinaryTree(b) => {
                    let ga = GenAlgorithms::BinaryTree(
                        if right {
                            b.next()
                        } else {
                            b.prev()
                        },
                    );
                    self.gen_algorithm = ga;
                    let gi = self.gen_index;
                    self.gen_algo_lookup.set(gi, ga);
                    proof {
                        assert forall|i: int|
                            0 <= i < self.gen_algo_lookup@.len() implies (
                        #[trigger] self.gen_algo_lookup@[i]).wf() by {
                            if i != gi {
                                assert(self.gen_algo_lookup@[i] == old(self).gen_algo_lookup@[i]);
                            }
                        }
                    }
                },
                _ => {},
            }
        }
    }
}

} // verus!
