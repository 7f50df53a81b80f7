//! One cgroup v2 hierarchy node: path derivation under the fixed mount
//! root, typed parsers for its control files, and the exact writes its
//! mutating operations issue.
//!
//! The driver is pure. Readers take the text of the control file they
//! are about; writers and `apply_options` return [`FileWrite`] values
//! naming the control file and the payload, to be issued (in order,
//! append-mode, stopping at the first failure) by the unverified shell
//! that touches the filesystem.

use vstd::prelude::*;
use crate::cgroup::cgroup_option::CGroupOption;
use crate::cgroup::cgroup_stat::{stat_from_spec, CGroupStat, ParseCGroupStatError};
use crate::cgroup::controller::{controller_name, controller_of_name, Controller};
use crate::cgroup::cpu_limit::cpu_limit_to_spec;
use crate::cgroup::limit_value::{
    limit_u32_to_spec, limit_u64_from_spec, limit_u64_to_spec, CGroupLimitValue,
    ParseCGroupLimitValueError,
};
use crate::strutil::{
    all_digits, dec_digits, dec_value, format_u32, join, join_spec, lines_spec, parse_u32,
    split_char, split_lines, split_spec, trim, trim_spec,
};

verus! {

/// One cgroup v2 node, identified by its path relative to the fixed
/// mount root `/sys/fs/cgroup/`.
#[derive(Debug, Clone)]
pub struct CGroup {
    pub path: String,
}

/// One append-mode write to a control file of a cgroup node: the file
/// name relative to the node's directory, and the full payload.
#[derive(Debug, Clone, PartialEq, Eq)]
pub struct FileWrite {
    pub file: String,
    pub data: String,
}

/// The error of the id-list parsers: a line that is not an in-range
/// decimal id. Parsing is all-or-nothing, so one malformed line fails
/// the whole list.
#[derive(Debug, Clone, Copy, PartialEq, Eq, Structural)]
pub struct ParseIdError;

/// The absolute directory of a node with the given relative path.
pub open spec fn root_path_spec(path: Seq<char>) -> Seq<char> {
    "/sys/fs/cgroup/"@ + path
}

/// The absolute path of a control file of that node.
pub open spec fn file_path_spec(path: Seq<char>, name: Seq<char>) -> Seq<char> {
    root_path_spec(path) + seq!['/'] + name
}

/// Permissive reading of one controller token: an unfamiliar name is
/// `Unknown`, never an error.
pub open spec fn controller_or_unknown(s: Seq<char>) -> Controller {
    match controller_of_name(s) {
        Some(c) => c,
        None => Controller::Unknown,
    }
}

/// The controller list some control-file text reads as: trimmed, split
/// on single spaces, each token read permissively.
pub open spec fn controllers_from_spec(s: Seq<char>) -> Seq<Controller> {
    split_spec(trim_spec(s), ' ').map_values(|t: Seq<char>| controller_or_unknown(t))
}

/// One line of an id list is well-formed when it trims to an in-range
/// decimal number.
pub open spec fn id_line_ok(l: Seq<char>) -> bool {
    let t = trim_spec(l);
    t.len() > 0 && all_digits(t) && dec_value(t) <= u32::MAX
}

/// The id list some control-file text reads as, if every line is
/// well-formed.
pub open spec fn ids_from_spec(s: Seq<char>) -> Option<Seq<u32>> {
    let ls = lines_spec(s);
    if forall|i: int| 0 <= i < ls.len() ==> id_line_ok(ls[i]) {
        Some(ls.map_values(|l: Seq<char>| dec_value(trim_spec(l)) as u32))
    } else {
        None
    }
}

/// Each controller prefixed with the sign character.
pub open spec fn signed_controller_names(cs: Seq<Controller>, sign: char) -> Seq<Seq<char>> {
    cs.map_values(|c: Controller| seq![sign] + controller_name(c))
}

/// The signed-delta payload of `cgroup.subtree_control`: the signed
/// controller names joined with single spaces.
pub open spec fn subtree_payload_spec(cs: Seq<Controller>, sign: char) -> Seq<char> {
    join_spec(signed_controller_names(cs, sign), seq![' '])
}

/// The payload of an id-list write: decimal ids joined with newlines.
pub open spec fn ids_payload_spec(ids: Seq<u32>) -> Seq<char> {
    join_spec(ids.map_values(|n: u32| dec_digits(n as int)), seq!['\n'])
}

/// The payload of a `cpuset.cpus` write: decimal cpu numbers joined
/// with commas.
pub open spec fn cpus_payload_spec(ids: Seq<u32>) -> Seq<char> {
    join_spec(ids.map_values(|n: u32| dec_digits(n as int)), seq![','])
}

/// The writes a configuration calls for: `cpu.max`, `memory.max`,
/// `pids.max`, `cpuset.cpus`, in that fixed order, one write per set
/// field.
pub open spec fn apply_writes_spec(o: CGroupOption) -> Seq<(Seq<char>, Seq<char>)> {
    let cpu = match o.cpu_max {
        Some(l) => seq![("cpu.max"@, cpu_limit_to_spec(l))],
        None => Seq::empty(),
    };
    let mem = match o.memory_max {
        Some(v) => seq![("memory.max"@, limit_u32_to_spec(v))],
        None => Seq::empty(),
    };
    let pids = match o.pids_max {
        Some(v) => seq![("pids.max"@, limit_u32_to_spec(v))],
        None => Seq::empty(),
    };
    let cpus = match o.cpus {
        Some(ids) => seq![("cpuset.cpus"@, cpus_payload_spec(ids@))],
        None => Seq::empty(),
    };
    cpu + mem + pids + cpus
}

impl CGroup {
    /// A handle on the node with the given relative path. The shell
    /// around the library must ensure the directory exists (creating
    /// it recursively, as an idempotent step) before reads or writes
    /// are issued.
    pub fn new(path: &str) -> (r: CGroup)
        ensures
            r.path@ == path@,
    {
        CGroup { path: String::from_str(path) }
    }

    /// The absolute directory of this node.
    pub fn get_root_path(&self) -> (r: String)
        ensures
            r@ == root_path_spec(self.path@),
    {
        let mut r = String::from_str("/sys/fs/cgroup/");
        r.append(self.path.as_str());
        r
    }

    /// The absolute path of the control file `name` of this node.
    pub fn get_file_path(&self, name: &str) -> (r: String)
        ensures
            r@ == file_path_spec(self.path@, name@),
    {
        let mut r = self.get_root_path();
        r.append("/");
        r.append(name);
        proof {
            reveal_strlit("/");
            assert("/"@ =~= seq!['/']);
        }
        r
    }

    /// The controllers available on this node, from the text of
    /// `cgroup.controllers`; deliberately tolerant of unfamiliar
    /// kernels.
    pub fn get_controllers(&self, content: &str) -> (r: Vec<Controller>)
        ensures
            r@ == controllers_from_spec(content@),
    {
        self.inner_get_controllers(content)
    }

    /// The controllers enabled for children, from the text of
    /// `cgroup.subtree_control`; tolerant in the same way.
    pub fn get_subtree_control(&self, content: &str) -> (r: Vec<Controller>)
        ensures
            r@ == controllers_from_spec(content@),
    {
        self.inner_get_controllers(content)
    }

    fn inner_get_controllers(&self, content: &str) -> (r: Vec<Controller>)
        ensures
            r@ == controllers_from_spec(content@),
    {
        let t = trim(content);
        let toks = split_char(t, ' ');
        let mut r: Vec<Controller> = Vec::new();
        let mut i: usize = 0;
        while i < toks.len()
            invariant
                toks.deep_view() == split_spec(trim_spec(content@), ' '),
                forall|k: int| 0 <= k < toks@.len() ==> toks@[k]@ == toks.deep_view()[k],
                i <= toks@.len(),
                r@.len() == i,
                forall|k: int|
                    0 <= k < i ==> r@[k] == controller_or_unknown(toks.deep_view()[k]),
            decreases toks@.len() - i,
        {
            match Controller::from_str(toks[i]) {
                Ok(c) => r.push(c),
                Err(_) => r.push(Controller::Unknown),
            }
            i += 1;
        }
        proof {
            assert(r@ =~= controllers_from_spec(content@));
        }
        r
    }

    /// The member process ids of this node, from the text of
    /// `cgroup.procs`; all-or-nothing.
    pub fn get_procs(&self, content: &str) -> (r: Result<Vec<u32>, ParseIdError>)
        ensures
            (match r {
                Ok(ids) => ids_from_spec(content@) == Some(ids@),
                Err(_) => ids_from_spec(content@) is None,
            }),
    {
        self.get_u32_list(content)
    }

    /// The member thread ids of this node, from the text of
    /// `cgroup.threads`; all-or-nothing.
    pub fn get_threads(&self, content: &str) -> (r: Result<Vec<u32>, ParseIdError>)
        ensures
            (match r {
                Ok(ids) => ids_from_spec(content@) == Some(ids@),
                Err(_) => ids_from_spec(content@) is None,
            }),
    {
        self.get_u32_list(content)
    }

    fn get_u32_list(&self, content: &str) -> (r: Result<Vec<u32>, ParseIdError>)
        ensures
            (match r {
                Ok(ids) => ids_from_spec(content@) == Some(ids@),
                Err(_) => ids_from_spec(content@) is None,
            }),
    {
        let lines = split_lines(content);
        let mut r: Vec<u32> = Vec::new();
        let mut i: usize = 0;
        while i < lines.len()
            invariant
                lines.deep_view() == lines_spec(content@),
                forall|k: int| 0 <= k < lines@.len() ==> lines@[k]@ == lines.deep_view()[k],
                i <= lines@.len(),
                r@.len() == i,
                forall|k: int| 0 <= k < i ==> id_line_ok(lines.deep_view()[k]),
                forall|k: int|
                    0 <= k < i ==> r@[k] == dec_value(trim_spec(lines.deep_view()[k])) as u32,
            decreases lines@.len() - i,
        {
            let t = trim(lines[i]);
            match parse_u32(t) {
                Some(v) => r.push(v),
                None => {
                    proof {
                        let ls = lines_spec(content@);
                        assert(!id_line_ok(ls[i as int]));
                    }
                    return Err(ParseIdError);
                },
            }
            i += 1;
        }
        proof {
            let ls = lines_spec(content@);
            assert(r@ =~= ls.map_values(|l: Seq<char>| dec_value(trim_spec(l)) as u32));
        }
        Ok(r)
    }

    /// The descendant counters of this node, from the text of
    /// `cgroup.stat`.
    pub fn get_stat(&self, content: &str) -> (r: Result<CGroupStat, ParseCGroupStatError>)
        ensures
            (match r {
                Ok(st) => stat_from_spec(content@) == Some(st),
                Err(_) => stat_from_spec(content@) is None,
            }),
    {
        CGroupStat::from_str(content)
    }

    /// The depth limit of this node, from the text of
    /// `cgroup.max.depth`.
    pub fn get_max_depth(&self, content: &str) -> (r: Result<
        CGroupLimitValue<u64>,
        ParseCGroupLimitValueError,
    >)
        ensures
            (match r {
                Ok(v) => limit_u64_from_spec(content@) == Some(v),
                Err(_) => limit_u64_from_spec(content@) is None,
            }),
    {
        self.get_limit_value(content)
    }

    /// The descendant limit of this node, from the text of
    /// `cgroup.max.descendants`.
    pub fn get_max_descendants(&self, content: &str) -> (r: Result<
        CGroupLimitValue<u64>,
        ParseCGroupLimitValueError,
    >)
        ensures
            (match r {
                Ok(v) => limit_u64_from_spec(content@) == Some(v),
                Err(_) => limit_u64_from_spec(content@) is None,
            }),
    {
        self.get_limit_value(content)
    }

    fn get_limit_value(&self, content: &str) -> (r: Result<
        CGroupLimitValue<u64>,
        ParseCGroupLimitValueError,
    >)
        ensures
            (match r {
                Ok(v) => limit_u64_from_spec(content@) == Some(v),
                Err(_) => limit_u64_from_spec(content@) is None,
            }),
    {
        CGroupLimitValue::<u64>::from_str(content)
    }

    /// The single write that enables `controllers` for this node's
    /// children: each name with a leading `+`, space-joined — the
    /// kernel's signed-delta protocol, relative rather than a
    /// replacement list.
    pub fn add_subtree_control(&self, controllers: Vec<Controller>) -> (w: FileWrite)
        ensures
            w.file@ == "cgroup.subtree_control"@,
            w.data@ == subtree_payload_spec(controllers@, '+'),
    {
        proof {
            reveal_strlit("+");
        }
        let data = Self::signed_payload(&controllers, "+");
        FileWrite { file: String::from_str("cgroup.subtree_control"), data }
    }

    /// The single write that disables `controllers` for this node's
    /// children: each name with a leading `-`, space-joined.
    pub fn remove_subtree_control(&self, controllers: Vec<Controller>) -> (w: FileWrite)
        ensures
            w.file@ == "cgroup.subtree_control"@,
            w.data@ == subtree_payload_spec(controllers@, '-'),
    {
        proof {
            reveal_strlit("-");
        }
        let data = Self::signed_payload(&controllers, "-");
        FileWrite { file: String::from_str("cgroup.subtree_control"), data }
    }

    fn signed_payload(controllers: &Vec<Controller>, sign: &str) -> (r: String)
        requires
            sign@.len() == 1,
        ensures
            r@ == subtree_payload_spec(controllers@, sign@[0]),
    {
        let mut parts: Vec<String> = Vec::new();
        let mut i: usize = 0;
        while i < controllers.len()
            invariant
                sign@.len() == 1,
                i <= controllers@.len(),
                parts@.len() == i,
                forall|k: int|
                    0 <= k < i ==> parts.deep_view()[k] == seq![sign@[0]] + controller_name(
                        controllers@[k],
                    ),
            decreases controllers@.len() - i,
        {
            let mut p = String::from_str(sign);
            let n = controllers[i].to_string();
            p.append(n.as_str());
            proof {
                assert(sign@ =~= seq![sign@[0]]);
            }
            let ghost prev = parts.deep_view();
            parts.push(p);
            proof {
                assert(parts.deep_view() =~= prev.push(p@));
            }
            i += 1;
        }
        proof {
            assert(parts.deep_view() =~= signed_controller_names(controllers@, sign@[0]));
            reveal_strlit(" ");
            assert(" "@ =~= seq![' ']);
        }
        join(&parts, " ")
    }

    /// The single write that sets this node's depth limit in
    /// `cgroup.max.depth`.
    pub fn set_max_depth(&self, max: CGroupLimitValue<u64>) -> (w: FileWrite)
        ensures
            w.file@ == "cgroup.max.depth"@,
            w.data@ == limit_u64_to_spec(max),
    {
        self.write_value("cgroup.max.depth", &max)
    }

    /// The single write that sets this node's descendant limit in
    /// `cgroup.max.descendants`.
    pub fn set_max_descendants(&self, max: CGroupLimitValue<u64>) -> (w: FileWrite)
        ensures
            w.file@ == "cgroup.max.descendants"@,
            w.data@ == limit_u64_to_spec(max),
    {
        self.write_value("cgroup.max.descendants", &max)
    }

    /// The single write that moves the given processes into this node:
    /// ids newline-joined into one `cgroup.procs` write. Whether one
    /// batched write is accepted for several ids is a kernel question
    /// deliberately left to the shell that issues it.
    pub fn add_procs(&self, procs: Vec<u32>) -> (w: FileWrite)
        ensures
            w.file@ == "cgroup.procs"@,
            w.data@ == ids_payload_spec(procs@),
    {
        self.write_list("cgroup.procs", &procs)
    }

    /// The single write that moves the given threads into this node:
    /// ids newline-joined into one `cgroup.threads` write.
    pub fn add_threads(&self, threads: Vec<u32>) -> (w: FileWrite)
        ensures
            w.file@ == "cgroup.threads"@,
            w.data@ == ids_payload_spec(threads@),
    {
        self.write_list("cgroup.threads", &threads)
    }

    fn write_value(&self, name: &str, value: &CGroupLimitValue<u64>) -> (w: FileWrite)
        ensures
            w.file@ == name@,
            w.data@ == limit_u64_to_spec(*value),
    {
        FileWrite { file: String::from_str(name), data: value.to_string() }
    }

    fn write_list(&self, name: &str, ids: &Vec<u32>) -> (w: FileWrite)
        ensures
            w.file@ == name@,
            w.data@ == ids_payload_spec(ids@),
    {
        let data = Self::joined_ids(ids, "\n");
        proof {
            reveal_strlit("\n");
            assert("\n"@ =~= seq!['\n']);
        }
        FileWrite { file: String::from_str(name), data }
    }

    fn joined_ids(ids: &Vec<u32>, sep: &str) -> (r: String)
        ensures
            r@ == join_spec(ids@.map_values(|n: u32| dec_digits(n as int)), sep@),
    {
        let mut parts: Vec<String> = Vec::new();
        let mut i: usize = 0;
        while i < ids.len()
            invariant
                i <= ids@.len(),
                parts@.len() == i,
                forall|k: int|
                    0 <= k < i ==> parts.deep_view()[k] == dec_digits(ids@[k] as int),
            decreases ids@.len() - i,
        {
            let p = format_u32(ids[i]);
            let ghost prev = parts.deep_view();
            parts.push(p);
            proof {
                assert(parts.deep_view() =~= prev.push(p@));
            }
            i += 1;
        }
        proof {
            assert(parts.deep_view() =~= ids@.map_values(|n: u32| dec_digits(n as int)));
        }
        join(&parts, sep)
    }

    /// The writes that apply a limit configuration to this node:
    /// `cpu.max` (if set), `memory.max`, `pids.max`, `cpuset.cpus`, in
    /// that fixed order. The shell issues them sequentially and stops
    /// at the first failure, surfacing it; already-issued writes are
    /// not rolled back.
    pub fn apply_options(&self, option: &CGroupOption) -> (ws: Vec<FileWrite>)
        ensures
            ws@.map_values(|w: FileWrite| (w.file@, w.data@)) == apply_writes_spec(*option),
    {
        let mut ws: Vec<FileWrite> = Vec::new();
        if let Some(l) = &option.cpu_max {
            ws.push(FileWrite { file: String::from_str("cpu.max"), data: l.to_string() });
        }
        if let Some(v) = &option.memory_max {
            ws.push(FileWrite { file: String::from_str("memory.max"), data: v.to_string() });
        }
        if let Some(v) = &option.pids_max {
            ws.push(FileWrite { file: String::from_str("pids.max"), data: v.to_string() });
        }
        if let Some(ids) = &option.cpus {
            let data = Self::joined_ids(ids, ",");
            proof {
                reveal_strlit(",");
                assert(","@ =~= seq![',']);
            }
            ws.push(FileWrite { file: String::from_str("cpuset.cpus"), data });
        }
        proof {
            assert(ws@.map_values(|w: FileWrite| (w.file@, w.data@)) =~= apply_writes_spec(
                *option,
            ));
        }
        ws
    }
}

} // verus!
