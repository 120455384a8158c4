use vstd::prelude::*;

use crate::text::push_char;

verus! {

/// Sub-variant ring of the growing-tree generator.  The paired variants carry
/// a cell-selection ratio, stored in hundredths (`0..=100`).
#[derive(Debug, PartialEq, Eq, Structural, Clone, Copy)]
pub enum TreeSubAlgorithm {
    Newest,
    Middle,
    Oldest,
    Random,
    NewestMiddle(u8),
    NewestOldest(u8),
    NewestRandom(u8),
    MiddleOldest(u8),
    MiddleRandom(u8),
    OldestRandom(u8),
}

/// Bias ring of the binary-tree generator.
#[derive(Debug, PartialEq, Eq, Structural, Clone, Copy)]
pub enum BiasMethods {
    NorthWest,
    NorthEast,
    SouthWest,
    SouthEast,
}

/// The closed set of maze generators.
#[derive(Debug, PartialEq, Eq, Structural, Clone, Copy)]
pub enum GenAlgorithms {
    Kruskal,
    Prim,
    Back,
    AldousBroder,
    GrowingTree(TreeSubAlgorithm),
    HuntAndKill,
    Wilson,
    Eller,
    Divide,
    Sidewinder,
    BinaryTree(BiasMethods),
}

/// The closed set of maze solvers.
#[derive(Debug, PartialEq, Eq, Structural, Clone, Copy)]
pub enum SolveAlgorithms {
    Depth,
    Breadth,
    Dijkstra,
    AStar,
}

impl TreeSubAlgorithm {
    /// The next ring position.  A transition entering a paired variant takes
    /// the selector's shared ratio; one moving between paired variants keeps
    /// the value already set.
    pub open spec fn spec_next(self, ratio: u8) -> TreeSubAlgorithm {
        match self {
            TreeSubAlgorithm::Newest => TreeSubAlgorithm::Middle,
            TreeSubAlgorithm::Middle => TreeSubAlgorithm::Oldest,
            TreeSubAlgorithm::Oldest => TreeSubAlgorithm::Random,
            TreeSubAlgorithm::Random => TreeSubAlgorithm::NewestMiddle(ratio),
            TreeSubAlgorithm::NewestMiddle(r) => TreeSubAlgorithm::NewestOldest(r),
            TreeSubAlgorithm::NewestOldest(r) => TreeSubAlgorithm::NewestRandom(r),
            TreeSubAlgorithm::NewestRandom(r) => TreeSubAlgorithm::MiddleOldest(r),
            TreeSubAlgorithm::MiddleOldest(r) => TreeSubAlgorithm::MiddleRandom(r),
            TreeSubAlgorithm::MiddleRandom(r) => TreeSubAlgorithm::OldestRandom(r),
            TreeSubAlgorithm::OldestRandom(_) => TreeSubAlgorithm::Newest,
        }
    }

    /// The previous ring position, inverse of [`Self::spec_next`].
    pub open spec fn spec_prev(self, ratio: u8) -> TreeSubAlgorithm {
        match self {
            TreeSubAlgorithm::Newest => TreeSubAlgorithm::OldestRandom(ratio),
            TreeSubAlgorithm::Middle => TreeSubAlgorithm::Newest,
            TreeSubAlgorithm::Oldest => TreeSubAlgorithm::Middle,
            TreeSubAlgorithm::Random => TreeSubAlgorithm::Oldest,
            TreeSubAlgorithm::NewestMiddle(_) => TreeSubAlgorithm::Random,
            TreeSubAlgorithm::NewestOldest(r) => TreeSubAlgorithm::NewestMiddle(r),
            TreeSubAlgorithm::NewestRandom(r) => TreeSubAlgorithm::NewestOldest(r),
            TreeSubAlgorithm::MiddleOldest(r) => TreeSubAlgorithm::NewestRandom(r),
            TreeSubAlgorithm::MiddleRandom(r) => TreeSubAlgorithm::MiddleOldest(r),
            TreeSubAlgorithm::OldestRandom(r) => TreeSubAlgorithm::MiddleRandom(r),
        }
    }

    /// Step right around the ring.
    pub fn next(self, ratio: u8) -> (r: TreeSubAlgorithm)
        ensures
            r == self.spec_next(ratio),
    {
        match self {
            TreeSubAlgorithm::Newest => TreeSubAlgorithm::Middle,
            TreeSubAlgorithm::Middle => TreeSubAlgorithm::Oldest,
            TreeSubAlgorithm::Oldest => TreeSubAlgorithm::Random,
            TreeSubAlgorithm::Random => TreeSubAlgorithm::NewestMiddle(ratio),
            TreeSubAlgorithm::NewestMiddle(r) => TreeSubAlgorithm::NewestOldest(r),
            TreeSubAlgorithm::NewestOldest(r) => TreeSubAlgorithm::NewestRandom(r),
            TreeSubAlgorithm::NewestRandom(r) => TreeSubAlgorithm::MiddleOldest(r),
            TreeSubAlgorithm::MiddleOldest(r) => TreeSubAlgorithm::MiddleRandom(r),
            TreeSubAlgorithm::MiddleRandom(r) => TreeSubAlgorithm::OldestRandom(r),
            TreeSubAlgorithm::OldestRandom(_) => TreeSubAlgorithm::Newest,
        }
    }

    /// Step left around the ring.
    pub fn prev(self, ratio: u8) -> (r: TreeSubAlgorithm)
        ensures
            r == self.spec_prev(ratio),
    {
        match self {
            TreeSubAlgorithm::Newest => TreeSubAlgorithm::OldestRandom(ratio),
            TreeSubAlgorithm::Middle => TreeSubAlgorithm::Newest,
            TreeSubAlgorithm::Oldest => TreeSubAlgorithm::Middle,
            TreeSubAlgorithm::Random => TreeSubAlgorithm::Oldest,
            TreeSubAlgorithm::NewestMiddle(_) => TreeSubAlgorithm::Random,
            TreeSubAlgorithm::NewestOldest(r) => TreeSubAlgorithm::NewestMiddle(r),
            TreeSubAlgorithm::NewestRandom(r) => TreeSubAlgorithm::NewestOldest(r),
            TreeSubAlgorithm::MiddleOldest(r) => TreeSubAlgorithm::NewestRandom(r),
            TreeSubAlgorithm::MiddleRandom(r) => TreeSubAlgorithm::MiddleOldest(r),
            TreeSubAlgorithm::OldestRandom(r) => TreeSubAlgorithm::MiddleRandom(r),
        }
    }

    /// A valid variant: any stored ratio is at most one hundred hundredths.
    pub open spec fn wf(self) -> bool {
        match self.spec_ratio() {
            Some(r) => r <= 100,
            None => true,
        }
    }

    /// The stored ratio of a paired variant, if any.
    pub open spec fn spec_ratio(self) -> Option<u8> {
        match self {
            TreeSubAlgorithm::NewestMiddle(r) => Some(r),
            TreeSubAlgorithm::NewestOldest(r) => Some(r),
            TreeSubAlgorithm::NewestRandom(r) => Some(r),
            TreeSubAlgorithm::MiddleOldest(r) => Some(r),
            TreeSubAlgorithm::MiddleRandom(r) => Some(r),
            TreeSubAlgorithm::OldestRandom(r) => Some(r),
            _ => None,
        }
    }

    /// The stored ratio of a paired variant, or `None` for the plain ones.
    pub fn ratio(self) -> (r: Option<u8>)
        ensures
            r == self.spec_ratio(),
    {
        match self {
            TreeSubAlgorithm::NewestMiddle(r) => Some(r),
            TreeSubAlgorithm::NewestOldest(r) => Some(r),
            TreeSubAlgorithm::NewestRandom(r) => Some(r),
            TreeSubAlgorithm::MiddleOldest(r) => Some(r),
            TreeSubAlgorithm::MiddleRandom(r) => Some(r),
            TreeSubAlgorithm::OldestRandom(r) => Some(r),
            _ => None,
        }
    }

    /// The same variant with its stored ratio replaced; a plain variant is
    /// returned unchanged.
    pub open spec fn spec_with_ratio(self, ratio: u8) -> TreeSubAlgorithm {
        match self {
            TreeSubAlgorithm::NewestMiddle(_) => TreeSubAlgorithm::NewestMiddle(ratio),
            TreeSubAlgorithm::NewestOldest(_) => TreeSubAlgorithm::NewestOldest(ratio),
            TreeSubAlgorithm::NewestRandom(_) => TreeSubAlgorithm::NewestRandom(ratio),
            TreeSubAlgorithm::MiddleOldest(_) => TreeSubAlgorithm::MiddleOldest(ratio),
            TreeSubAlgorithm::MiddleRandom(_) => TreeSubAlgorithm::MiddleRandom(ratio),
            TreeSubAlgorithm::OldestRandom(_) => TreeSubAlgorithm::OldestRandom(ratio),
            _ => self,
        }
    }

    /// Replace the stored ratio of a paired variant.
    pub fn with_ratio(self, ratio: u8) -> (r: TreeSubAlgorithm)
        ensures
            r == self.spec_with_ratio(ratio),
    {
        match self {
            TreeSubAlgorithm::NewestMiddle(_) => TreeSubAlgorithm::NewestMiddle(ratio),
            TreeSubAlgorithm::NewestOldest(_) => TreeSubAlgorithm::NewestOldest(ratio),
            TreeSubAlgorithm::NewestRandom(_) => TreeSubAlgorithm::NewestRandom(ratio),
            TreeSubAlgorithm::MiddleOldest(_) => TreeSubAlgorithm::MiddleOldest(ratio),
            TreeSubAlgorithm::MiddleRandom(_) => TreeSubAlgorithm::MiddleRandom(ratio),
            TreeSubAlgorithm::OldestRandom(_) => TreeSubAlgorithm::OldestRandom(ratio),
            _ => self,
        }
    }
}

impl BiasMethods {
    /// The next ring position.
    pub open spec fn spec_next(self) -> BiasMethods {
        match self {
            BiasMethods::NorthWest => BiasMethods::NorthEast,
            BiasMethods::NorthEast => BiasMethods::SouthWest,
            BiasMethods::SouthWest => BiasMethods::SouthEast,
            BiasMethods::SouthEast => BiasMethods::NorthWest,
        }
    }

    /// The previous ring position, inverse of [`Self::spec_next`].
    pub open spec fn spec_prev(self) -> BiasMethods {
        match self {
            BiasMethods::NorthWest => BiasMethods::SouthEast,
            BiasMethods::NorthEast => BiasMethods::NorthWest,
            BiasMethods::SouthWest => BiasMethods::NorthEast,
            BiasMethods::SouthEast => BiasMethods::SouthWest,
        }
    }

    /// Step right around the ring.
    pub fn next(self) -> (r: BiasMethods)
        ensures
            r == self.spec_next(),
    {
        match self {
            BiasMethods::NorthWest => BiasMethods::NorthEast,
            BiasMethods::NorthEast => BiasMethods::SouthWest,
            BiasMethods::SouthWest => BiasMethods::SouthEast,
            BiasMethods::SouthEast => BiasMethods::NorthWest,
        }
    }

    /// Step left around the ring.
    pub fn prev(self) -> (r: BiasMethods)
        ensures
            r == self.spec_prev(),
    {
        match self {
            BiasMethods::NorthWest => BiasMethods::SouthEast,
            BiasMethods::NorthEast => BiasMethods::NorthWest,
            BiasMethods::SouthWest => BiasMethods::NorthEast,
            BiasMethods::SouthEast => BiasMethods::SouthWest,
        }
    }
}

/// The character for a decimal digit.
pub open spec fn digit_char(d: int) -> char {
    ((48 + d) as u8) as char
}

/// A ratio in hundredths rendered with two decimal places (`0.50`, `1.00`).
/// Both the display name and the canonical token form use this one policy.
pub open spec fn ratio_text(r: int) -> Seq<char> {
    if r == 100 {
        seq!['1', '.', '0', '0']
    } else {
        seq!['0', '.', digit_char(r / 10), digit_char(r % 10)]
    }
}

/// Render a ratio in hundredths with two decimal places.
pub fn ratio_string(r: u8) -> (s: String)
    requires
        r <= 100,
    ensures
        s@ == ratio_text(r as int),
{
    let mut s = String::new();
    if r == 100 {
        push_char(&mut s, '1');
        push_char(&mut s, '.');
        push_char(&mut s, '0');
        push_char(&mut s, '0');
    } else {
        push_char(&mut s, '0');
        push_char(&mut s, '.');
        push_char(&mut s, (48 + r / 10) as char);
        push_char(&mut s, (48 + r % 10) as char);
    }
    proof {
        assert(s@ =~= ratio_text(r as int));
    }
    s
}

/// The display name of a growing-tree sub-variant; paired variants append
/// their ratio with two decimal places.  The canonical token form is the
/// same text.
pub open spec fn tree_name(t: TreeSubAlgorithm) -> Seq<char> {
    match t {
        TreeSubAlgorithm::Newest => "Newest"@,
        TreeSubAlgorithm::Middle => "Middle"@,
        TreeSubAlgorithm::Oldest => "Oldest"@,
        TreeSubAlgorithm::Random => "Random"@,
        TreeSubAlgorithm::NewestMiddle(r) => "Newest-Middle "@ + ratio_text(r as int),
        TreeSubAlgorithm::NewestOldest(r) => "Newest-Oldest "@ + ratio_text(r as int),
        TreeSubAlgorithm::NewestRandom(r) => "Newest-Random "@ + ratio_text(r as int),
        TreeSubAlgorithm::MiddleOldest(r) => "Middle-Oldest "@ + ratio_text(r as int),
        TreeSubAlgorithm::MiddleRandom(r) => "Middle-Random "@ + ratio_text(r as int),
        TreeSubAlgorithm::OldestRandom(r) => "Oldest-Random "@ + ratio_text(r as int),
    }
}

/// The canonical token of a binary-tree bias.
pub open spec fn bias_token(b: BiasMethods) -> Seq<char> {
    match b {
        BiasMethods::NorthWest => "NorthWest"@,
        BiasMethods::NorthEast => "NorthEast"@,
        BiasMethods::SouthWest => "SouthWest"@,
        BiasMethods::SouthEast => "SouthEast"@,
    }
}

/// The human-readable name of a generator.
pub open spec fn gen_display_name(g: GenAlgorithms) -> Seq<char> {
    match g {
        GenAlgorithms::Kruskal => "Kruskal"@,
        GenAlgorithms::Prim => "Prim"@,
        GenAlgorithms::Back => "Recursive Backtracking"@,
        GenAlgorithms::AldousBroder => "Aldous-Broder"@,
        GenAlgorithms::GrowingTree(method) => "Growing-Tree "@ + tree_name(method),
        GenAlgorithms::HuntAndKill => "Hunt-and-Kill"@,
        GenAlgorithms::Wilson => "Wilson"@,
        GenAlgorithms::Eller => "Eller"@,
        GenAlgorithms::Divide => "Recursive Division"@,
        GenAlgorithms::Sidewinder => "Sidewinder"@,
        GenAlgorithms::BinaryTree(bias) => "Binary-Tree "@ + bias_token(bias),
    }
}

/// The canonical, space-separated token form of a generator, used to build
/// the arguments of the external generator process.
pub open spec fn gen_token_name(g: GenAlgorithms) -> Seq<char> {
    match g {
        GenAlgorithms::Back => "Back"@,
        GenAlgorithms::Divide => "Divide"@,
        _ => gen_display_name(g),
    }
}

/// The human-readable name of a solver.
pub open spec fn solve_display_name(s: SolveAlgorithms) -> Seq<char> {
    match s {
        SolveAlgorithms::Depth => "Depth First"@,
        SolveAlgorithms::Breadth => "Breadth First"@,
        SolveAlgorithms::Dijkstra => "Dijkstra"@,
        SolveAlgorithms::AStar => "A-Star"@,
    }
}

/// The canonical token form of a solver.
pub open spec fn solve_token_name(s: SolveAlgorithms) -> Seq<char> {
    match s {
        SolveAlgorithms::Depth => "Depth"@,
        SolveAlgorithms::Breadth => "Breadth"@,
        SolveAlgorithms::Dijkstra => "Dijkstra"@,
        SolveAlgorithms::AStar => "A-Star"@,
    }
}

impl TreeSubAlgorithm {
    /// The display name; see [`tree_name`].
    pub fn get_name(&self) -> (s: String)
        requires
            self.wf(),
        ensures
            s@ == tree_name(*self),
    {
        match *self {
            TreeSubAlgorithm::Newest => String::from_str("Newest"),
            TreeSubAlgorithm::Middle => String::from_str("Middle"),
            TreeSubAlgorithm::Oldest => String::from_str("Oldest"),
            TreeSubAlgorithm::Random => String::from_str("Random"),
            TreeSubAlgorithm::NewestMiddle(r) => String::from_str("Newest-Middle ").concat(
                ratio_string(r).as_str(),
            ),
            TreeSubAlgorithm::NewestOldest(r) => String::from_str("Newest-Oldest ").concat(
                ratio_string(r).as_str(),
            ),
            TreeSubAlgorithm::NewestRandom(r) => String::from_str("Newest-Random ").concat(
                ratio_string(r).as_str(),
            ),
            TreeSubAlgorithm::MiddleOldest(r) => String::from_str("Middle-Oldest ").concat(
                ratio_string(r).as_str(),
            ),
            TreeSubAlgorithm::MiddleRandom(r) => String::from_str("Middle-Random ").concat(
                ratio_string(r).as_str(),
            ),
            TreeSubAlgorithm::OldestRandom(r) => String::from_str("Oldest-Random ").concat(
                ratio_string(r).as_str(),
            ),
        }
    }

    /// The canonical token form: under this crate's one formatting policy it
    /// is the same text as the display name.
    pub fn to_string(&self) -> (s: String)
        requires
            self.wf(),
        ensures
            s@ == tree_name(*self),
    {
        self.get_name()
    }
}

impl BiasMethods {
    /// The canonical token; see [`bias_token`].
    pub fn to_string(&self) -> (s: String)
        ensures
            s@ == bias_token(*self),
    {
        match *self {
            BiasMethods::NorthWest => String::from_str("NorthWest"),
            BiasMethods::NorthEast => String::from_str("NorthEast"),
            BiasMethods::SouthWest => String::from_str("SouthWest"),
            BiasMethods::SouthEast => String::from_str("SouthEast"),
        }
    }
}

impl GenAlgorithms {
    /// A valid generator: any growing-tree ratio is at most one hundred
    /// hundredths.
    pub open spec fn wf(self) -> bool {
        match self {
            GenAlgorithms::GrowingTree(m) => m.wf(),
            _ => true,
        }
    }

    /// The display name; see [`gen_display_name`].
    pub fn get_name(&self) -> (s: String)
        requires
            self.wf(),
        ensures
            s@ == gen_display_name(*self),
    {
        match *self {
            GenAlgorithms::Kruskal => String::from_str("Kruskal"),
            GenAlgorithms::Prim => String::from_str("Prim"),
            GenAlgorithms::Back => String::from_str("Recursive Backtracking"),
            GenAlgorithms::AldousBroder => String::from_str("Aldous-Broder"),
            GenAlgorithms::GrowingTree(method) => String::from_str("Growing-Tree ").concat(
                method.get_name().as_str(),
            ),
            GenAlgorithms::HuntAndKill => String::from_str("Hunt-and-Kill"),
            GenAlgorithms::Wilson => String::from_str("Wilson"),
            GenAlgorithms::Eller => String::from_str("Eller"),
            GenAlgorithms::Divide => String::from_str("Recursive Division"),
            GenAlgorithms::Sidewinder => String::from_str("Sidewinder"),
            GenAlgorithms::BinaryTree(bias) => String::from_str("Binary-Tree ").concat(
                bias.to_string().as_str(),
            ),
        }
    }

    /// The canonical token form; see [`gen_token_name`].
    pub fn to_string(&self) -> (s: String)
        requires
            self.wf(),
        ensures
            s@ == gen_token_name(*self),
    {
        match *self {
            GenAlgorithms::Back => String::from_str("Back"),
            GenAlgorithms::Divide => String::from_str("Divide"),
            GenAlgorithms::GrowingTree(method) => String::from_str("Growing-Tree ").concat(
                method.to_string().as_str(),
            ),
            GenAlgorithms::BinaryTree(bias) => String::from_str("Binary-Tree ").concat(
                bias.to_string().as_str(),
            ),
            _ => self.get_name(),
        }
    }
}

impl SolveAlgorithms {
    /// The display name; see [`solve_display_name`].
    pub fn get_name(&self) -> (s: String)
        ensures
            s@ == solve_display_name(*self),
    {
        match *self {
            SolveAlgorithms::Depth => String::from_str("Depth First"),
            SolveAlgorithms::Breadth => String::from_str("Breadth First"),
            SolveAlgorithms::Dijkstra => String::from_str("Dijkstra"),
            SolveAlgorithms::AStar => String::from_str("A-Star"),
        }
    }

    /// The canonical token form; see [`solve_token_name`].
    pub fn to_string(&self) -> (s: String)
        ensures
            s@ == solve_token_name(*self),
    {
        match *self {
            SolveAlgorithms::Depth => String::from_str("Depth"),
            SolveAlgorithms::Breadth => String::from_str("Breadth"),
            SolveAlgorithms::Dijkstra => String::from_str("Dijkstra"),
            SolveAlgorithms::AStar => String::from_str("A-Star"),
        }
    }
}

} // verus!
