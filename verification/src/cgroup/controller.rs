//! The closed enumeration of cgroup v2 controllers, with a strict
//! parser at the type and the kernel's lowercase names as text.

use vstd::prelude::*;
use crate::strutil::str_eq;

verus! {

/// A cgroup v2 controller. `Unknown` is a forward-compatibility
/// sentinel for controllers this library does not model; the strict
/// parser never produces it, the permissive call sites in the
/// control-file driver map unfamiliar tokens to it.
#[derive(Debug, Clone, Copy, PartialEq, Eq, Structural)]
pub enum Controller {
    Cpu,
    Cpuset,
    Memory,
    Io,
    Hugetlb,
    Misc,
    Pids,
    Rdma,
    Unknown,
}

/// The error of the strict controller parser: the token names no known
/// controller.
#[derive(Debug, PartialEq, Eq, Structural)]
pub struct ParseControllerError;

/// The kernel's name for a controller.
pub open spec fn controller_name(c: Controller) -> Seq<char> {
    match c {
        Controller::Cpu => "cpu"@,
        Controller::Cpuset => "cpuset"@,
        Controller::Memory => "memory"@,
        Controller::Io => "io"@,
        Controller::Hugetlb => "hugetlb"@,
        Controller::Misc => "misc"@,
        Controller::Pids => "pids"@,
        Controller::Rdma => "rdma"@,
        Controller::Unknown => "unknown"@,
    }
}

/// The controller a token names, if any. The token `"unknown"` names
/// none: only the eight kernel controllers can be parsed.
pub open spec fn controller_of_name(s: Seq<char>) -> Option<Controller> {
    if s == "cpu"@ {
        Some(Controller::Cpu)
    } else if s == "cpuset"@ {
        Some(Controller::Cpuset)
    } else if s == "memory"@ {
        Some(Controller::Memory)
    } else if s == "io"@ {
        Some(Controller::Io)
    } else if s == "hugetlb"@ {
        Some(Controller::Hugetlb)
    } else if s == "misc"@ {
        Some(Controller::Misc)
    } else if s == "pids"@ {
        Some(Controller::Pids)
    } else if s == "rdma"@ {
        Some(Controller::Rdma)
    } else {
        None
    }
}

impl Controller {
    /// Strict parsing: a token that names no known controller is an
    /// error, never `Unknown`.
    pub fn from_str(s: &str) -> (r: Result<Controller, ParseControllerError>)
        ensures
            (match r {
                Ok(c) => controller_of_name(s@) == Some(c),
                Err(_) => controller_of_name(s@) is None,
            }),
    {
        if str_eq(s, "cpu") {
            Ok(Controller::Cpu)
        } else if str_eq(s, "cpuset") {
            Ok(Controller::Cpuset)
        } else if str_eq(s, "memory") {
            Ok(Controller::Memory)
        } else if str_eq(s, "io") {
            Ok(Controller::Io)
        } else if str_eq(s, "hugetlb") {
            Ok(Controller::Hugetlb)
        } else if str_eq(s, "misc") {
            Ok(Controller::Misc)
        } else if str_eq(s, "pids") {
            Ok(Controller::Pids)
        } else if str_eq(s, "rdma") {
            Ok(Controller::Rdma)
        } else {
            Err(ParseControllerError)
        }
    }

    /// The kernel's name for this controller.
    pub fn to_string(&self) -> (r: String)
        ensures
            r@ == controller_name(*self),
    {
        match self {
            Controller::Cpu => String::from_str("cpu"),
            Controller::Cpuset => String::from_str("cpuset"),
            Controller::Memory => String::from_str("memory"),
            Controller::Io => String::from_str("io"),
            Controller::Hugetlb => String::from_str("hugetlb"),
            Controller::Misc => String::from_str("misc"),
            Controller::Pids => String::from_str("pids"),
            Controller::Rdma => String::from_str("rdma"),
            Controller::Unknown => String::from_str("unknown"),
        }
    }
}

/// Formatting inverts parsing: a token that parses to a controller is
/// that controller's name.
pub proof fn lemma_controller_parse_then_format(s: Seq<char>)
    ensures
        (match controller_of_name(s) {
            Some(c) => controller_name(c) == s,
            None => true,
        }),
{
}

/// Parsing inverts formatting: every known controller's name parses
/// back to it.
pub proof fn lemma_controller_format_then_parse(c: Controller)
    requires
        c != Controller::Unknown,
    ensures
        controller_of_name(controller_name(c)) == Some(c),
{
    reveal_strlit("cpu");
    reveal_strlit("cpuset");
    reveal_strlit("memory");
    reveal_strlit("io");
    reveal_strlit("hugetlb");
    reveal_strlit("misc");
    reveal_strlit("pids");
    reveal_strlit("rdma");
    match c {
        Controller::Cpu => {
            assert(controller_of_name("cpu"@) == Some(Controller::Cpu));
        },
        Controller::Cpuset => {
            assert("cpuset"@ != "cpu"@) by {
                if "cpuset"@ == "cpu"@ {
                    assert("cpuset"@.len() == "cpu"@.len());
                }
            }
            assert(controller_of_name("cpuset"@) == Some(Controller::Cpuset));
        },
        Controller::Memory => {
            assert("memory"@ != "cpu"@) by {
                if "memory"@ == "cpu"@ {
                    assert("memory"@.len() == "cpu"@.len());
                }
            }
            assert("memory"@ != "cpuset"@) by {
                if "memory"@ == "cpuset"@ {
                    assert("memory"@[0] == "cpuset"@[0]);
                }
            }
            assert(controller_of_name("memory"@) == Some(Controller::Memory));
        },
        Controller::Io => {
            assert(controller_of_name("io"@) == Some(Controller::Io)) by {
                assert("io"@.len() == 2);
            }
        },
        Controller::Hugetlb => {
            assert(controller_of_name("hugetlb"@) == Some(Controller::Hugetlb)) by {
                assert("hugetlb"@.len() == 7);
            }
        },
        Controller::Misc => {
            assert(controller_of_name("misc"@) == Some(Controller::Misc)) by {
                assert("misc"@.len() == 4);
                assert("misc"@[0] == 'm');
            }
        },
        Controller::Pids => {
            assert(controller_of_name("pids"@) == Some(Controller::Pids)) by {
                assert("pids"@.len() == 4);
                assert("pids"@[0] == 'p');
            }
        },
        Controller::Rdma => {
            assert(controller_of_name("rdma"@) == Some(Controller::Rdma)) by {
                assert("rdma"@.len() == 4);
                assert("rdma"@[0] == 'r');
            }
        },
        Controller::Unknown => {
        },
    }
}

} // verus!
