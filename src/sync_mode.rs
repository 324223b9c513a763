//! The durability level that the database is told to keep.

use vstd::prelude::*;

verus! {

/// How hard the database works to make each write durable, strongest first.
#[derive(Debug, Clone, Copy, PartialEq, Eq, Structural)]
pub enum SqliteSynchronousMode {
    Extra,
    Full,
    Normal,
    Off,
}

/// The word by which the database names a mode.
pub open spec fn mode_name(m: SqliteSynchronousMode) -> Seq<char> {
    match m {
        SqliteSynchronousMode::Extra => seq!['e', 'x', 't', 'r', 'a'],
        SqliteSynchronousMode::Full => seq!['f', 'u', 'l', 'l'],
        SqliteSynchronousMode::Normal => seq!['n', 'o', 'r', 'm', 'a', 'l'],
        SqliteSynchronousMode::Off => seq!['o', 'f', 'f'],
    }
}

impl SqliteSynchronousMode {
    /// The lower-case word by which the database names this mode.
    pub fn as_str(&self) -> (r: &'static str)
        ensures
            r@ == mode_name(*self),
    {
        match self {
            SqliteSynchronousMode::Extra => {
                proof { reveal_strlit("extra"); }
                "extra"
            },
            SqliteSynchronousMode::Full => {
                proof { reveal_strlit("full"); }
                "full"
            },
            SqliteSynchronousMode::Normal => {
                proof { reveal_strlit("normal"); }
                "normal"
            },
            SqliteSynchronousMode::Off => {
                proof { reveal_strlit("off"); }
                "off"
            },
        }
    }
}

impl Default for SqliteSynchronousMode {
    fn default() -> (r: Self)
        ensures
            r == SqliteSynchronousMode::Normal,
    {
        SqliteSynchronousMode::Normal
    }
}

} // verus!
