use vstd::prelude::*;

use crate::algorithms::{BiasMethods, GenAlgorithms, SolveAlgorithms, TreeSubAlgorithm};
use crate::maze_view::MazeView;
use crate::spec_clamp;
use crate::text::{chars_of, normalize_chars, normalize_crlf, push_char, split_on_blank, split_steps, views};

verus! {

/// Which screen of the interface is active.
#[derive(Debug, PartialEq, Eq, Structural, Clone, Copy)]
pub enum CurrentScreen {
    Main,
    Size,
    Speed,
    Algorithm,
}

/// Which dimension the size screen is editing.
#[derive(Debug, PartialEq, Eq, Structural, Clone, Copy)]
pub enum SizeSetting {
    Width,
    Height,
}

/// Which list the algorithm screen is editing.
#[derive(Debug, PartialEq, Eq, Structural, Clone, Copy)]
pub enum AlgorithmSetting {
    Generator,
    Solver,
}

/// Clamp a value into `[lo, hi]`.
fn clamp_usize(v: usize, lo: usize, hi: usize) -> (r: usize)
    requires
        lo <= hi,
    ensures
        r as int == spec_clamp(v as int, lo as int, hi as int),
{
    if v < lo {
        lo
    } else if v > hi {
        hi
    } else {
        v
    }
}

/// The fixed order of the generator list.
pub open spec fn initial_gen_lookup() -> Seq<GenAlgorithms> {
    seq![
        GenAlgorithms::Kruskal,
        GenAlgorithms::Prim,
        GenAlgorithms::Back,
        GenAlgorithms::AldousBroder,
        GenAlgorithms::GrowingTree(TreeSubAlgorithm::Newest),
        GenAlgorithms::HuntAndKill,
        GenAlgorithms::Wilson,
        GenAlgorithms::Eller,
        GenAlgorithms::Divide,
        GenAlgorithms::Sidewinder,
        GenAlgorithms::BinaryTree(BiasMethods::NorthWest),
    ]
}

/// The fixed order of the solver list.
pub open spec fn initial_solve_lookup() -> Seq<SolveAlgorithms> {
    seq![
        SolveAlgorithms::Depth,
        SolveAlgorithms::Breadth,
        SolveAlgorithms::Dijkstra,
        SolveAlgorithms::AStar,
    ]
}

/// A maze wall row: `2*w + 1` wall characters.
pub open spec fn wall_row(w: int) -> Seq<char> {
    Seq::new((2 * w + 1) as nat, |i: int| '#')
}

/// A maze cell row: walls at even positions, open cells at odd ones.
pub open spec fn cell_row(w: int) -> Seq<char> {
    Seq::new(
        (2 * w + 1) as nat,
        |i: int| if i % 2 == 0 {
            '#'
        } else {
            ' '
        },
    )
}

/// One wall row and one cell row, each closed by a line break.
pub open spec fn row_pair(w: int) -> Seq<char> {
    wall_row(w) + seq!['\n'] + cell_row(w) + seq!['\n']
}

/// The canonical blank maze text for a `w x h` grid: `h` row pairs closed by
/// a final wall row, with no trailing line break.
pub open spec fn clear_text(w: int, h: int) -> Seq<char>
    decreases h,
{
    if h <= 0 {
        wall_row(w)
    } else {
        row_pair(w) + clear_text(w, h - 1)
    }
}

/// The session state: current screen, pending numeric entry, the maze text
/// and its step sequence, the algorithm selection, and the clamped numeric
/// settings.
pub struct App {
    pub current_screen: CurrentScreen,
    pub size_setting: SizeSetting,
    pub algorithm_setting: AlgorithmSetting,
    pub tmp: usize,
    pub maze: String,
    pub maze_steps: Vec<String>,
    pub has_generated: bool,
    pub maze_veiwer: MazeView,
    pub gen_algorithm: GenAlgorithms,
    pub solve_algorithm: SolveAlgorithms,
    pub gen_index: usize,
    pub solve_index: usize,
    pub gen_algo_lookup: Vec<GenAlgorithms>,
    pub solve_algo_lookup: Vec<SolveAlgorithms>,
    pub width: usize,
    pub height: usize,
    pub max_size: usize,
    pub ratio: u8,
    pub step: usize,
    pub speed: usize,
}

impl App {
    /// The state invariant: every clamped setting is inside its domain, the
    /// step index is valid for the loaded sequence, and the selection lists
    /// have their fixed lengths.
    pub open spec fn wf(self) -> bool {
        &&& 2 <= self.width <= self.max_size
        &&& 2 <= self.height <= self.max_size
        &&& 1 <= self.speed <= 100
        &&& self.ratio <= 100
        &&& self.step < self.maze_steps@.len() || (self.maze_steps@.len() == 0 && self.step == 0)
        &&& self.gen_algo_lookup@.len() == 11
        &&& self.solve_algo_lookup@.len() == 4
        &&& self.gen_index < 11
        &&& self.solve_index < 4
        &&& self.gen_algorithm.wf()
        &&& forall|i: int|
            0 <= i < self.gen_algo_lookup@.len() ==> (#[trigger] self.gen_algo_lookup@[i]).wf()
    }

    /// A fresh session: a 2x2 maze at half speed, nothing generated yet,
    /// Kruskal and depth-first selected.
    pub fn new() -> (a: App)
        ensures
            a.current_screen == CurrentScreen::Main,
            a.size_setting == SizeSetting::Width,
            a.algorithm_setting == AlgorithmSetting::Generator,
            a.tmp == 2,
            a.maze@ == Seq::<char>::empty(),
            a.maze_steps@.len() == 0,
            a.has_generated == false,
            a.maze_veiwer.cells is None,
            a.gen_algorithm == GenAlgorithms::Kruskal,
            a.solve_algorithm == SolveAlgorithms::Depth,
            a.gen_index == 0,
            a.solve_index == 0,
            a.gen_algo_lookup@ == initial_gen_lookup(),
            a.solve_algo_lookup@ == initial_solve_lookup(),
            a.width == 2,
            a.height == 2,
            a.max_size == 2,
            a.ratio == 50,
            a.step == 0,
            a.speed == 50,
            a.wf(),
    {
        let mut gen_algo_lookup: Vec<GenAlgorithms> = Vec::new();
        gen_algo_lookup.push(GenAlgorithms::Kruskal);
        gen_algo_lookup.push(GenAlgorithms::Prim);
        gen_algo_lookup.push(GenAlgorithms::Back);
        gen_algo_lookup.push(GenAlgorithms::AldousBroder);
        gen_algo_lookup.push(GenAlgorithms::GrowingTree(TreeSubAlgorithm::Newest));
        gen_algo_lookup.push(GenAlgorithms::HuntAndKill);
        gen_algo_lookup.push(GenAlgorithms::Wilson);
        gen_algo_lookup.push(GenAlgorithms::Eller);
        gen_algo_lookup.push(GenAlgorithms::Divide);
        gen_algo_lookup.push(GenAlgorithms::Sidewinder);
        gen_algo_lookup.push(GenAlgorithms::BinaryTree(BiasMethods::NorthWest));
        let mut solve_algo_lookup: Vec<SolveAlgorithms> = Vec::new();
        solve_algo_lookup.push(SolveAlgorithms::Depth);
        solve_algo_lookup.push(SolveAlgorithms::Breadth);
        solve_algo_lookup.push(SolveAlgorithms::Dijkstra);
        solve_algo_lookup.push(SolveAlgorithms::AStar);
        proof {
            assert(gen_algo_lookup@ =~= initial_gen_lookup());
            assert(solve_algo_lookup@ =~= initial_solve_lookup());
        }
        App {
            current_screen: CurrentScreen::Main,
            size_setting: SizeSetting::Width,
            algorithm_setting: AlgorithmSetting::Generator,
            tmp: 2,
            maze: String::new(),
            maze_steps: Vec::new(),
            has_generated: false,
            maze_veiwer: MazeView::new(),
            gen_algorithm: GenAlgorithms::Kruskal,
            solve_algorithm: SolveAlgorithms::Depth,
            gen_index: 0,
            solve_index: 0,
            gen_algo_lookup,
            solve_algo_lookup,
            width: 2,
            height: 2,
            max_size: 2,
            ratio: 50,
            step: 0,
            speed: 50,
        }
    }

    /// Rebuild `maze` as the canonical blank text for the current dimensions
    /// and mark the session as not generated.
    #[verifier::loop_isolation(false)]
    pub fn clear_maze(&mut self)
        ensures
            final(self).maze@ == clear_text(old(self).width as int, old(self).height as int),
            *final(self) == (App {
                maze: final(self).maze,
                has_generated: false,
                ..*old(self)
            }),
    {
        let mut wall: String = String::new();
        let mut i: usize = 0;
        while i < self.width
            invariant
                i <= self.width,
                wall@.len() == 2 * i,
                forall|k: int| 0 <= k < wall@.len() ==> wall@[k] == '#',
            decreases self.width - i,
        {
            push_char(&mut wall, '#');
            push_char(&mut wall, '#');
            i = i + 1;
        }
        push_char(&mut wall, '#');
        proof {
            assert(wall@ =~= wall_row(self.width as int));
        }

        let mut cells: String = String::new();
        let mut i: usize = 0;
        while i < self.width
            invariant
                i <= self.width,
                cells@.len() == 2 * i,
                forall|k: int|
                    0 <= k < cells@.len() ==> cells@[k] == (if k % 2 == 0 {
                        '#'
                    } else {
                        ' '
                    }),
            decreases self.width - i,
        {
            push_char(&mut cells, '#');
            push_char(&mut cells, ' ');
            i = i + 1;
        }
        push_char(&mut cells, '#');
        proof {
            assert(cells@ =~= cell_row(self.width as int));
        }

        let ghost w = self.width as int;
        let ghost h = self.height as int;
        let mut maze: String = String::new();
        let mut t: usize = 0;
        while t < self.height
            invariant
                t <= self.height,
                wall@ == wall_row(w),
                cells@ == cell_row(w),
                clear_text(w, h) =~= maze@ + clear_text(w, h - t),
            decreases self.height - t,
        {
            let ghost before = maze@;
            maze.append(wall.as_str());
            push_char(&mut maze, '\n');
            maze.append(cells.as_str());
            push_char(&mut maze, '\n');
            t = t + 1;
            proof {
                assert(maze@ =~= before + row_pair(w));
                assert(clear_text(w, h - t + 1) =~= row_pair(w) + clear_text(w, h - t));
                assert(clear_text(w, h) =~= maze@ + clear_text(w, h - t));
            }
        }
        maze.append(wall.as_str());
        proof {
            assert(maze@ =~= clear_text(w, h));
        }
        self.maze = maze;
        self.has_generated = false;
    }

    /// Replace the step sequence: normalize windows-style blank-line
    /// separators, split the text on blank lines, and rewind to the first
    /// step.
    pub fn load_steps(&mut self, text: &str)
        ensures
            views(final(self).maze_steps@) == split_on_blank(normalize_crlf(text@)),
            final(self).maze_steps@.len() >= 1,
            final(self).step == 0,
            *final(self) == (App {
                maze_steps: final(self).maze_steps,
                step: 0,
                ..*old(self)
            }),
            old(self).wf() ==> final(self).wf(),
    {
        let chars = chars_of(text);
        let normalized = normalize_chars(&chars);
        self.maze_steps = split_steps(&normalized);
        self.step = 0;
    }

    /// Set the maze width, clamped to `[2, max_size]`.
    pub fn set_width(&mut self, size: usize)
        requires
            2 <= old(self).max_size,
        ensures
            final(self).width as int == spec_clamp(size as int, 2, old(self).max_size as int),
            *final(self) == (App { width: final(self).width, ..*old(self) }),
            old(self).wf() ==> final(self).wf(),
    {
        self.width = clamp_usize(size, 2, self.max_size);
    }

    /// Set the maze height, clamped to `[2, max_size]`.
    pub fn set_height(&mut self, size: usize)
        requires
            2 <= old(self).max_size,
        ensures
            final(self).height as int == spec_clamp(size as int, 2, old(self).max_size as int),
            *final(self) == (App { height: final(self).height, ..*old(self) }),
            old(self).wf() ==> final(self).wf(),
    {
        self.height = clamp_usize(size, 2, self.max_size);
    }

    /// Set the upper bound for both dimensions, floored at 2, and re-clamp
    /// the dimensions so a shrunken bound cannot leave them out of range.
    pub fn set_max_size(&mut self, size: usize)
        ensures
            final(self).max_size as int == if size >= 2 {
                size as int
            } else {
                2
            },
            final(self).width as int == spec_clamp(
                old(self).width as int,
                2,
                final(self).max_size as int,
            ),
            final(self).height as int == spec_clamp(
                old(self).height as int,
                2,
                final(self).max_size as int,
            ),
            *final(self) == (App {
                max_size: final(self).max_size,
                width: final(self).width,
                height: final(self).height,
                ..*old(self)
            }),
            old(self).wf() ==> final(self).wf(),
    {
        self.max_size = if size > 2 {
            size
        } else {
            2
        };
        self.width = clamp_usize(self.width, 2, self.max_size);
        self.height = clamp_usize(self.height, 2, self.max_size);
    }

    /// Set the current step, clamped to the loaded sequence.  The sequence
    /// must not be empty.
    pub fn set_step_val(&mut self, step: usize)
        requires
            old(self).maze_steps@.len() > 0,
        ensures
            final(self).step as int == spec_clamp(
                step as int,
                0,
                old(self).maze_steps@.len() - 1,
            ),
            *final(self) == (App { step: final(self).step, ..*old(self) }),
            old(self).wf() ==> final(self).wf(),
    {
        self.step = clamp_usize(step, 0, self.maze_steps.len() - 1);
    }

    /// Set the playback speed in steps per second, clamped to `[1, 100]`.
    pub fn set_speed(&mut self, speed: usize)
        ensures
            final(self).speed as int == spec_clamp(speed as int, 1, 100),
            *final(self) == (App { speed: final(self).speed, ..*old(self) }),
            old(self).wf() ==> final(self).wf(),
    {
        self.speed = clamp_usize(speed, 1, 100);
    }

    /// Set the shared selection ratio in hundredths, clamped to `[0, 100]`.
    pub fn set_ratio(&mut self, ratio: u8)
        ensures
            final(self).ratio as int == spec_clamp(ratio as int, 0, 100),
            *final(self) == (App { ratio: final(self).ratio, ..*old(self) }),
            old(self).wf() ==> final(self).wf(),
    {
        self.ratio = if ratio > 100 {
            100
        } else {
            ratio
        };
    }

    pub fn get_width(&self) -> (r: usize)
        ensures
            r == self.width,
    {
        self.width
    }

    pub fn get_height(&self) -> (r: usize)
        ensures
            r == self.height,
    {
        self.height
    }

    pub fn get_max_size(&self) -> (r: usize)
        ensures
            r == self.max_size,
    {
        self.max_size
    }

    pub fn get_step_val(&self) -> (r: usize)
        ensures
            r == self.step,
    {
        self.step
    }

    /// The current snapshot text.  The step sequence must not be empty.
    pub fn get_step(&self) -> (r: &String)
        requires
            self.step < self.maze_steps@.len(),
        ensures
            r == self.maze_steps@[self.step as int],
    {
        &self.maze_steps[self.step]
    }

    pub fn get_speed(&self) -> (r: usize)
        ensures
            r == self.speed,
    {
        self.speed
    }

    /// The frame period in milliseconds: `1000 / speed`, by integer division.
    /// With the speed clamped to `[1, 100]` this lies in `[10, 1000]`; a
    /// division by zero is unreachable because zero is clamped to one.
    pub fn get_period(&self) -> (r: u64)
        requires
            1 <= self.speed,
        ensures
            r as int == 1000int / self.speed as int,
    {
        (1000 / self.speed) as u64
    }

    pub fn get_ratio(&self) -> (r: u8)
        ensures
            r == self.ratio,
    {
        self.ratio
    }
}

/// The digit-entry accumulator: append a decimal digit to `current_val`,
/// falling back to the digit alone if the result would pass `max_val`.
pub open spec fn spec_enter_value(val: int, current_val: int, max_val: int) -> int {
    if current_val * 10 + val > max_val {
        val
    } else {
        current_val * 10 + val
    }
}

/// Append a decimal digit to a pending numeric entry; an entry that would
/// pass `max_val` restarts from the digit alone.
pub fn enter_value(val: usize, current_val: usize, max_val: usize) -> (r: usize)
    ensures
        r as int == spec_enter_value(val as int, current_val as int, max_val as int),
{
    if val > max_val {
        val
    } else if current_val > max_val / 10 {
        val
    } else if current_val * 10 > max_val - val {
        val
    } else {
        current_val * 10 + val
    }
}

} // verus!
