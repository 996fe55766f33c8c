//! The scheduling state of a process, as the `State:` line of
//! `/proc/<pid>/status` reports it.

use vstd::prelude::*;
use vstd::string::*;

verus! {

/// The scheduling state of a process.
#[derive(Debug, Clone, Copy, PartialEq, Eq, Structural)]
pub enum Status {
    /// Uninterruptible sleep (usually I/O).
    D,
    /// Running or runnable (on the run queue).
    R,
    /// Interruptible sleep (waiting for an event to complete).
    S,
    /// Stopped, by a job control signal or because it is being traced.
    T,
    /// Paging (not valid since the 2.6.xx kernel).
    W,
    /// Dead (should never be seen).
    X,
    /// Defunct ("zombie") process, terminated but not reaped by its parent.
    Z,
    /// Any state letter this library does not know.
    Unknown,
}

/// The status a state text stands for: one of the known letters, in upper
/// or lower case, and nothing else; every other text is `Unknown`.
pub open spec fn status_from_name(s: Seq<char>) -> Status {
    if s == seq!['D'] || s == seq!['d'] {
        Status::D
    } else if s == seq!['R'] || s == seq!['r'] {
        Status::R
    } else if s == seq!['S'] || s == seq!['s'] {
        Status::S
    } else if s == seq!['T'] || s == seq!['t'] {
        Status::T
    } else if s == seq!['W'] || s == seq!['w'] {
        Status::W
    } else if s == seq!['X'] || s == seq!['x'] {
        Status::X
    } else if s == seq!['Z'] || s == seq!['z'] {
        Status::Z
    } else {
        Status::Unknown
    }
}

/// The text a status is written as: its upper-case letter, or `unknown`.
pub open spec fn status_name(s: Status) -> Seq<char> {
    match s {
        Status::D => seq!['D'],
        Status::R => seq!['R'],
        Status::S => seq!['S'],
        Status::T => seq!['T'],
        Status::W => seq!['W'],
        Status::X => seq!['X'],
        Status::Z => seq!['Z'],
        Status::Unknown => seq!['u', 'n', 'k', 'n', 'o', 'w', 'n'],
    }
}

impl Status {
    /// Reads a state letter; the letter may be in either case, and any
    /// other text gives `Status::Unknown`.
    pub fn from_str(s: &str) -> (r: Status)
        ensures
            r == status_from_name(s@),
    {
        if s.unicode_len() != 1 {
            return Status::Unknown;
        }
        let c = s.get_char(0);
        assert(s@ =~= seq![c]);
        if c == 'D' || c == 'd' {
            Status::D
        } else if c == 'R' || c == 'r' {
            Status::R
        } else if c == 'S' || c == 's' {
            Status::S
        } else if c == 'T' || c == 't' {
            Status::T
        } else if c == 'W' || c == 'w' {
            Status::W
        } else if c == 'X' || c == 'x' {
            Status::X
        } else if c == 'Z' || c == 'z' {
            Status::Z
        } else {
            Status::Unknown
        }
    }

    /// The text of this status: its upper-case letter, or `unknown`.
    pub fn to_str(&self) -> (r: &str)
        ensures
            r@ == status_name(*self),
    {
        match *self {
            Status::D => {
                proof {
                    reveal_strlit("D");
                }
                "D"
            },
            Status::R => {
                proof {
                    reveal_strlit("R");
                }
                "R"
            },
            Status::S => {
                proof {
                    reveal_strlit("S");
                }
                "S"
            },
            Status::T => {
                proof {
                    reveal_strlit("T");
                }
                "T"
            },
            Status::W => {
                proof {
                    reveal_strlit("W");
                }
                "W"
            },
            Status::X => {
                proof {
                    reveal_strlit("X");
                }
                "X"
            },
            Status::Z => {
                proof {
                    reveal_strlit("Z");
                }
                "Z"
            },
            Status::Unknown => {
                proof {
                    reveal_strlit("unknown");
                }
                "unknown"
            },
        }
    }
}

/// Reading back the text of a status gives that status, for every status
/// (`unknown` is no letter, so it reads back as `Unknown`).
pub proof fn lemma_status_name_round_trip(s: Status)
    ensures
        status_from_name(status_name(s)) == s,
{
    let n = status_name(s);
    match s {
        Status::Unknown => {
            assert(n.len() == 7);
        },
        _ => {
            assert(n.len() == 1);
            assert(n =~= seq![n[0]]);
        },
    }
}

/// Exactly two texts name each known status: its letter in upper case and
/// in lower case. Every other text, whatever its length, is `Unknown`.
pub proof fn lemma_status_names_exact(s: Seq<char>)
    ensures
        (status_from_name(s) == Status::D) <==> (s == seq!['D'] || s == seq!['d']),
        (status_from_name(s) == Status::R) <==> (s == seq!['R'] || s == seq!['r']),
        (status_from_name(s) == Status::S) <==> (s == seq!['S'] || s == seq!['s']),
        (status_from_name(s) == Status::T) <==> (s == seq!['T'] || s == seq!['t']),
        (status_from_name(s) == Status::W) <==> (s == seq!['W'] || s == seq!['w']),
        (status_from_name(s) == Status::X) <==> (s == seq!['X'] || s == seq!['x']),
        (status_from_name(s) == Status::Z) <==> (s == seq!['Z'] || s == seq!['z']),
        status_from_name(s) != Status::Unknown ==> s.len() == 1,
{
    if s.len() == 1 {
        let c = s[0];
        assert(s =~= seq![c]);
        assert(seq!['D'][0] == 'D' && seq!['d'][0] == 'd' && seq!['R'][0] == 'R' && seq!['r'][0]
            == 'r' && seq!['S'][0] == 'S' && seq!['s'][0] == 's' && seq!['T'][0] == 'T'
            && seq!['t'][0] == 't' && seq!['W'][0] == 'W' && seq!['w'][0] == 'w' && seq!['X'][0]
            == 'X' && seq!['x'][0] == 'x' && seq!['Z'][0] == 'Z' && seq!['z'][0] == 'z');
    }
}

/// Every known status is written as one upper-case letter.
pub proof fn lemma_status_name_upper_letter(s: Status)
    requires
        s != Status::Unknown,
    ensures
        status_name(s).len() == 1,
        'A' <= status_name(s)[0] <= 'Z',
{
}

} // verus!
