use vstd::prelude::*;

verus! {

/// Which end of the spectrum the solver is asked to find.
#[derive(Debug, Clone, Copy, PartialEq, Eq, Structural)]
pub enum Which {
    LargestAlgebraic,
    SmallestAlgebraic,
    LargestMagnitude,
    SmallestMagnitude,
    LargestRealPart,
    SmallestRealPart,
    LargestImaginaryPart,
    SmallestImaginaryPart,
}

impl Which {
    /// The two-letter selection code the solver reads.
    pub open spec fn code(self) -> Seq<char> {
        match self {
            Which::LargestAlgebraic => seq!['L', 'A'],
            Which::SmallestAlgebraic => seq!['S', 'A'],
            Which::LargestMagnitude => seq!['L', 'M'],
            Which::SmallestMagnitude => seq!['S', 'M'],
            Which::LargestRealPart => seq!['L', 'R'],
            Which::SmallestRealPart => seq!['S', 'R'],
            Which::LargestImaginaryPart => seq!['L', 'I'],
            Which::SmallestImaginaryPart => seq!['S', 'I'],
        }
    }

    /// The selection code as a string.
    pub fn as_str(&self) -> (r: &'static str)
        ensures
            r@ == self.code(),
            r@.len() == 2,
    {
        match self {
            Which::LargestAlgebraic => {
                let s = "LA";
                proof {
                    reveal_strlit("LA");
                }
                assert(s@ =~= seq!['L', 'A']);
                s
            },
            Which::SmallestAlgebraic => {
                let s = "SA";
                proof {
                    reveal_strlit("SA");
                }
                assert(s@ =~= seq!['S', 'A']);
                s
            },
            Which::LargestMagnitude => {
                let s = "LM";
                proof {
                    reveal_strlit("LM");
                }
                assert(s@ =~= seq!['L', 'M']);
                s
            },
            Which::SmallestMagnitude => {
                let s = "SM";
                proof {
                    reveal_strlit("SM");
                }
                assert(s@ =~= seq!['S', 'M']);
                s
            },
            Which::LargestRealPart => {
                let s = "LR";
                proof {
                    reveal_strlit("LR");
                }
                assert(s@ =~= seq!['L', 'R']);
                s
            },
            Which::SmallestRealPart => {
                let s = "SR";
                proof {
                    reveal_strlit("SR");
                }
                assert(s@ =~= seq!['S', 'R']);
                s
            },
            Which::LargestImaginaryPart => {
                let s = "LI";
                proof {
                    reveal_strlit("LI");
                }
                assert(s@ =~= seq!['L', 'I']);
                s
            },
            Which::SmallestImaginaryPart => {
                let s = "SI";
                proof {
                    reveal_strlit("SI");
                }
                assert(s@ =~= seq!['S', 'I']);
                s
            },
        }
    }
}

} // verus!
