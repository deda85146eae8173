//! The real unit's data model, and the parse of the unit tool's status and
//! configuration output into it. The tool invocations themselves happen
//! outside the library; the parse takes their captured text as plain values
//! together with the separately queried activity flag.

use vstd::prelude::*;
use vstd::string::StrSliceExecFns;

use crate::systemctl::unit::{doc_parse_spec, doc_view, AutoStartStatus, Doc, State, Type};
use crate::text::{ends_with_spec, ends_with_str, find_char, find_last_char, find_last_char_index,
    join_seq, join_words, lines_spec, parse_u64, parse_u64_spec, split_char, split_fields,
    split_lines, split_once_char, split_str, starts_with_spec, starts_with_str, str_eq,
    strip_prefix_str, strip_suffix_str, trim_spec, trim_start_str, trim_str, vec_to_string};

verus! {

/// Structure to describe a unit of the external service manager, as read
/// from the manager's status output.
#[derive(Debug)]
pub struct SysUnit {
    /// Unit full name, as handed to the status query
    pub full_name: String,
    /// Unit name, without its type extension
    pub name: String,
    /// Unit type
    pub utype: Type,
    /// Optional unit description
    pub description: Option<String>,
    /// Current load state
    pub state: State,
    /// Auto start feature
    pub auto_start: AutoStartStatus,
    /// `true` if the unit is actively running
    pub active: bool,
    /// `true` if this unit is auto started by default
    pub preset: bool,
    /// Configuration script loaded when starting this unit
    pub script: String,
    /// Restart policy
    pub restart_policy: Option<String>,
    /// Optional kill mode info
    pub kill_mode: Option<String>,
    /// Optional main task name
    pub process: Option<String>,
    /// Optional main task process ID
    pub pid: Option<u64>,
    /// Running task counts; the status output's task line is not read
    pub tasks: Option<u64>,
    /// Optional CPU load consumption info
    pub cpu: Option<String>,
    /// Optional memory consumption info
    pub memory: Option<String>,
    /// Mounted partition, for a mount unit
    pub mounted: Option<String>,
    /// Mount point, for a mount unit
    pub mountpoint: Option<String>,
    /// Documentation available for this unit
    pub docs: Option<Vec<Doc>>,
    /// `Wants` attributes from the unit's configuration
    pub wants: Option<Vec<String>>,
    /// `WantedBy` attributes
    pub wanted_by: Option<Vec<String>>,
    /// `Also` attributes
    pub also: Option<Vec<String>>,
    /// `Before` attributes
    pub before: Option<Vec<String>>,
    /// `After` attributes
    pub after: Option<Vec<String>>,
    /// Command line run on start requests
    pub exec_start: Option<String>,
    /// Command line run on reload requests
    pub exec_reload: Option<String>,
    /// Whether the unit is transient
    pub transient: bool,
}

/// A unit's content as plain values, the model every parsing contract
/// speaks of.
#[verifier::ext_equal]
pub struct UnitModel {
    pub full_name: Seq<char>,
    pub name: Seq<char>,
    pub utype: Type,
    pub description: Option<Seq<char>>,
    pub state: State,
    pub auto_start: AutoStartStatus,
    pub active: bool,
    pub preset: bool,
    pub script: Seq<char>,
    pub restart_policy: Option<Seq<char>>,
    pub kill_mode: Option<Seq<char>>,
    pub process: Option<Seq<char>>,
    pub pid: Option<u64>,
    pub tasks: Option<u64>,
    pub cpu: Option<Seq<char>>,
    pub memory: Option<Seq<char>>,
    pub mounted: Option<Seq<char>>,
    pub mountpoint: Option<Seq<char>>,
    pub docs: Option<Seq<(bool, Seq<char>)>>,
    pub wants: Option<Seq<Seq<char>>>,
    pub wanted_by: Option<Seq<Seq<char>>>,
    pub also: Option<Seq<Seq<char>>>,
    pub before: Option<Seq<Seq<char>>>,
    pub after: Option<Seq<Seq<char>>>,
    pub exec_start: Option<Seq<char>>,
    pub exec_reload: Option<Seq<char>>,
    pub transient: bool,
}

pub open spec fn opt_str_view(o: Option<String>) -> Option<Seq<char>> {
    match o {
        Some(s) => Some(s@),
        None => None,
    }
}

pub open spec fn opt_strs_view(o: Option<Vec<String>>) -> Option<Seq<Seq<char>>> {
    match o {
        Some(v) => Some(v.deep_view()),
        None => None,
    }
}

pub open spec fn opt_docs_view(o: Option<Vec<Doc>>) -> Option<Seq<(bool, Seq<char>)>> {
    match o {
        Some(v) => Some(v@.map_values(|d: Doc| doc_view(d))),
        None => None,
    }
}

impl View for SysUnit {
    type V = UnitModel;

    open spec fn view(&self) -> UnitModel {
        UnitModel {
            full_name: self.full_name@,
            name: self.name@,
            utype: self.utype,
            description: opt_str_view(self.description),
            state: self.state,
            auto_start: self.auto_start,
            active: self.active,
            preset: self.preset,
            script: self.script@,
            restart_policy: opt_str_view(self.restart_policy),
            kill_mode: opt_str_view(self.kill_mode),
            process: opt_str_view(self.process),
            pid: self.pid,
            tasks: self.tasks,
            cpu: opt_str_view(self.cpu),
            memory: opt_str_view(self.memory),
            mounted: opt_str_view(self.mounted),
            mountpoint: opt_str_view(self.mountpoint),
            docs: opt_docs_view(self.docs),
            wants: opt_strs_view(self.wants),
            wanted_by: opt_strs_view(self.wanted_by),
            also: opt_strs_view(self.also),
            before: opt_strs_view(self.before),
            after: opt_strs_view(self.after),
            exec_start: opt_str_view(self.exec_start),
            exec_reload: opt_str_view(self.exec_reload),
            transient: self.transient,
        }
    }
}

/// The model every parse starts from: nothing known yet.
pub open spec fn empty_model() -> UnitModel {
    UnitModel {
        full_name: Seq::empty(),
        name: Seq::empty(),
        utype: Type::Service,
        description: None,
        state: State::Masked,
        auto_start: AutoStartStatus::Disabled,
        active: false,
        preset: false,
        script: Seq::empty(),
        restart_policy: None,
        kill_mode: None,
        process: None,
        pid: None,
        tasks: None,
        cpu: None,
        memory: None,
        mounted: None,
        mountpoint: None,
        docs: None,
        wants: None,
        wanted_by: None,
        also: None,
        before: None,
        after: None,
        exec_start: None,
        exec_reload: None,
        transient: false,
    }
}

/// The value of a numeric field: its decimal parse, or 0 when it does not
/// parse.
pub open spec fn parse_u64_or_zero(s: Seq<char>) -> u64 {
    match parse_u64_spec(s) {
        Some(v) => v,
        None => 0,
    }
}

/// `s` with every parenthesis removed, as the process name is written
/// `(name)` in the status output.
pub open spec fn strip_parens_spec(s: Seq<char>) -> Seq<char>
    decreases s.len(),
{
    if s.len() == 0 {
        Seq::empty()
    } else {
        let rest = strip_parens_spec(s.drop_first());
        if s[0] == '(' || s[0] == ')' {
            rest
        } else {
            seq![s[0]] + rest
        }
    }
}

/// A parsed documentation entry appended to a list that springs into being
/// at the first entry; an entry that does not parse changes nothing.
pub open spec fn push_doc_docs(
    ds: Option<Seq<(bool, Seq<char>)>>,
    d: Seq<char>,
) -> Option<Seq<(bool, Seq<char>)>> {
    match doc_parse_spec(d) {
        Some(doc) => Some(
            match ds {
                Some(x) => x.push(doc),
                None => seq![doc],
            },
        ),
        None => ds,
    }
}

/// The model with a documentation entry folded into its list.
pub open spec fn push_doc(m: UnitModel, d: Seq<char>) -> UnitModel {
    UnitModel { docs: push_doc_docs(m.docs, d), ..m }
}

/// What a load-state line contributes: `loaded (script; auto-start[; preset])`
/// fills the script, auto-start and preset fields, `masked` records the
/// masked state, and anything else leaves the model alone. A `loaded` body
/// without its parentheses or its semicolon is malformed.
pub open spec fn apply_loaded(m: UnitModel, rest: Seq<char>) -> Option<UnitModel> {
    if starts_with_spec(rest, "loaded "@) {
        let body = rest.skip("loaded "@.len() as int);
        if !starts_with_spec(body, "("@) {
            None
        } else {
            let opened = body.skip("("@.len() as int);
            if !ends_with_spec(opened, ")"@) {
                None
            } else {
                let inner = opened.take(opened.len() - ")"@.len());
                let items = split_char(inner, ';');
                if items.len() < 2 {
                    None
                } else {
                    Some(
                        UnitModel {
                            state: State::Loaded,
                            script: trim_spec(items[0]),
                            auto_start: match AutoStartStatus::parse_spec(trim_spec(items[1])) {
                                Some(a) => a,
                                None => AutoStartStatus::Disabled,
                            },
                            preset: if items.len() > 2 {
                                ends_with_spec(trim_spec(items[2]), "enabled"@)
                            } else {
                                m.preset
                            },
                            ..m
                        },
                    )
                }
            }
        }
    } else if starts_with_spec(rest, "masked"@) {
        Some(UnitModel { state: State::Masked, ..m })
    } else {
        Some(m)
    }
}

/// What a main-task line contributes: before the first space stands the
/// process ID (0 when it does not parse), after it the process name with
/// its parentheses removed. Without a space the line is passed over.
pub open spec fn apply_pid(m: UnitModel, rest: Seq<char>) -> UnitModel {
    let i = find_char(rest, ' ');
    if i >= 0 {
        UnitModel {
            pid: Some(parse_u64_or_zero(rest.take(i))),
            process: Some(strip_parens_spec(rest.skip(i + 1))),
            ..m
        }
    } else {
        m
    }
}

/// What one status line contributes to the model, with `is_doc` carrying
/// whether a documentation list is in progress so that its continuation
/// lines are read as further entries. `None` means the status output is
/// malformed.
pub open spec fn apply_status_line(m: UnitModel, is_doc: bool, raw: Seq<char>) -> Option<
    (UnitModel, bool),
> {
    let line = crate::text::trim_start_spec(raw);
    if starts_with_spec(line, "Loaded: "@) {
        match apply_loaded(m, line.skip("Loaded: "@.len() as int)) {
            Some(m2) => Some((m2, is_doc)),
            None => None,
        }
    } else if starts_with_spec(line, "Transient: "@) {
        Some(
            (
                if line.skip("Transient: "@.len() as int) == "yes"@ {
                    UnitModel { transient: true, ..m }
                } else {
                    m
                },
                is_doc,
            ),
        )
    } else if starts_with_spec(line, "Active: "@) {
        Some((m, is_doc))
    } else if starts_with_spec(line, "Docs: "@) {
        Some((push_doc(m, line.skip("Docs: "@.len() as int)), true))
    } else if starts_with_spec(line, "What: "@) {
        Some((UnitModel { mounted: Some(line.skip("What: "@.len() as int)), ..m }, is_doc))
    } else if starts_with_spec(line, "Where: "@) {
        Some((UnitModel { mountpoint: Some(line.skip("Where: "@.len() as int)), ..m }, is_doc))
    } else if starts_with_spec(line, "Main PID: "@) {
        Some((apply_pid(m, line.skip("Main PID: "@.len() as int)), is_doc))
    } else if starts_with_spec(line, "Cntrl PID: "@) {
        Some((apply_pid(m, line.skip("Cntrl PID: "@.len() as int)), is_doc))
    } else if starts_with_spec(line, "Process: "@) || starts_with_spec(line, "CGroup: "@)
        || starts_with_spec(line, "Tasks: "@) {
        Some((m, is_doc))
    } else if starts_with_spec(line, "Memory: "@) {
        Some(
            (
                UnitModel { memory: Some(trim_spec(line.skip("Memory: "@.len() as int))), ..m },
                is_doc,
            ),
        )
    } else if starts_with_spec(line, "CPU: "@) {
        Some(
            (UnitModel { cpu: Some(trim_spec(line.skip("CPU: "@.len() as int))), ..m }, is_doc),
        )
    } else {
        Some(
            (
                if is_doc {
                    push_doc(m, line)
                } else {
                    m
                },
                is_doc,
            ),
        )
    }
}

/// The status body folded line by line.
pub open spec fn fold_status_lines(m: UnitModel, is_doc: bool, lines: Seq<Seq<char>>) -> Option<
    (UnitModel, bool),
>
    decreases lines.len(),
{
    if lines.len() == 0 {
        Some((m, is_doc))
    } else {
        match apply_status_line(m, is_doc, lines[0]) {
            Some(p) => fold_status_lines(p.0, p.1, lines.drop_first()),
            None => None,
        }
    }
}

/// An attribute value appended to a list that springs into being at its
/// first entry.
pub open spec fn push_attr(o: Option<Seq<Seq<char>>>, v: Seq<char>) -> Option<Seq<Seq<char>>> {
    match o {
        Some(s) => Some(s.push(v)),
        None => Some(seq![v]),
    }
}

/// What one line of the unit's configuration contributes: a `key=value`
/// setting feeds the matching attribute; anything else is passed over.
pub open spec fn apply_cat_line(m: UnitModel, line: Seq<char>) -> UnitModel {
    let i = find_char(line, '=');
    if i < 0 {
        m
    } else {
        let k = line.take(i);
        let v = line.skip(i + 1);
        if k == "Wants"@ {
            UnitModel { wants: push_attr(m.wants, v), ..m }
        } else if k == "WantedBy"@ {
            UnitModel { wanted_by: push_attr(m.wanted_by, v), ..m }
        } else if k == "Also"@ {
            UnitModel { also: push_attr(m.also, v), ..m }
        } else if k == "Before"@ {
            UnitModel { before: push_attr(m.before, v), ..m }
        } else if k == "After"@ {
            UnitModel { after: push_attr(m.after, v), ..m }
        } else if k == "ExecStart"@ {
            UnitModel { exec_start: Some(v), ..m }
        } else if k == "ExecReload"@ {
            UnitModel { exec_reload: Some(v), ..m }
        } else if k == "Restart"@ {
            UnitModel { restart_policy: Some(v), ..m }
        } else if k == "KillMode"@ {
            UnitModel { kill_mode: Some(v), ..m }
        } else {
            m
        }
    }
}

/// The unit's configuration folded line by line.
pub open spec fn fold_cat_lines(m: UnitModel, lines: Seq<Seq<char>>) -> UnitModel
    decreases lines.len(),
{
    if lines.len() == 0 {
        m
    } else {
        fold_cat_lines(apply_cat_line(m, lines[0]), lines.drop_first())
    }
}

/// The status header with its three leading bytes (the activity bullet and
/// its following space) dropped, when what remains is well-formed text.
pub open spec fn header_rest(header: Seq<char>) -> Option<Seq<char>> {
    let hb = vstd::utf8::encode_utf8(header);
    if hb.len() < 3 {
        None
    } else if !vstd::utf8::valid_utf8(hb.skip(3)) {
        None
    } else {
        Some(vstd::utf8::decode_utf8(hb.skip(3)))
    }
}

/// The whole parse of a unit from the status query's output, the optional
/// configuration output, and the separately queried activity flag. `None`
/// means the output did not have the expected shape: no header line, a
/// header without a unit name or a type extension the tool knows, or a
/// malformed load-state line.
pub open spec fn status_parse_spec(
    full_name: Seq<char>,
    status: Seq<char>,
    cat: Option<Seq<char>>,
    active: bool,
) -> Option<UnitModel> {
    let lines = lines_spec(status);
    if lines.len() == 0 {
        None
    } else {
        match header_rest(lines[0]) {
            None => None,
            Some(rem) => {
                let toks = crate::text::fields_spec(rem);
                if toks.len() == 0 {
                    None
                } else {
                    let name_raw = toks[0];
                    let k = find_last_char(name_raw, '.');
                    if k < 0 {
                        None
                    } else {
                        match Type::parse_spec(name_raw.skip(k + 1)) {
                            None => None,
                            Some(ty) => {
                                let desc = if toks.len() >= 2 && toks[1] == "-"@ {
                                    Some(join_seq(toks.skip(2), " "@))
                                } else {
                                    None
                                };
                                let m0 = UnitModel {
                                    utype: ty,
                                    description: desc,
                                    ..empty_model()
                                };
                                match fold_status_lines(m0, false, lines.drop_first()) {
                                    None => None,
                                    Some(p) => {
                                        let m1 = match cat {
                                            Some(cc) => fold_cat_lines(p.0, lines_spec(cc)),
                                            None => p.0,
                                        };
                                        Some(
                                            UnitModel {
                                                full_name: full_name,
                                                name: name_raw.take(k),
                                                active: active,
                                                ..m1
                                            },
                                        )
                                    },
                                }
                            },
                        }
                    }
                }
            },
        }
    }
}

/// The view of an optionally captured text.
pub open spec fn opt_sref_view(o: Option<&str>) -> Option<Seq<char>> {
    match o {
        Some(s) => Some(s@),
        None => None,
    }
}

/// Removes every parenthesis, agreeing with `strip_parens_spec`.
fn remove_parens(s: &str) -> (r: String)
    ensures
        r@ == strip_parens_spec(s@),
{
    let n = s.unicode_len();
    let mut out = String::new();
    let mut i: usize = 0;
    proof {
        assert(s@.skip(0) =~= s@);
        assert(out@ + strip_parens_spec(s@) =~= strip_parens_spec(s@));
    }
    while i < n
        invariant
            i <= n,
            n == s@.len(),
            strip_parens_spec(s@) == out@ + strip_parens_spec(s@.skip(i as int)),
        decreases n - i,
    {
        let c = s.get_char(i);
        let ghost before = out@;
        let ghost cur = s@.skip(i as int);
        proof {
            assert(cur[0] == s@[i as int]);
            assert(cur.drop_first() =~= s@.skip(i as int + 1));
        }
        if !(c == '(' || c == ')') {
            out.append(s.substring_char(i, i + 1));
            proof {
                assert(s@.subrange(i as int, i as int + 1) =~= seq![s@[i as int]]);
                assert(out@ =~= before + seq![s@[i as int]]);
                assert(out@ + strip_parens_spec(s@.skip(i as int + 1)) =~= before
                    + strip_parens_spec(cur));
            }
        }
        i += 1;
    }
    proof {
        assert(s@.skip(n as int) =~= Seq::<char>::empty());
        assert(out@ + strip_parens_spec(s@.skip(n as int)) =~= out@);
    }
    out
}

/// Appends a parsed documentation entry, agreeing with `push_doc_docs`.
fn add_doc(docs: Option<Vec<Doc>>, d: &str) -> (r: Option<Vec<Doc>>)
    ensures
        opt_docs_view(r) == push_doc_docs(opt_docs_view(docs), d@),
{
    match Doc::parse(d) {
        Some(doc) => {
            let ghost spec_doc = doc_parse_spec(d@)->0;
            proof {
                assert(doc_view(doc) == spec_doc);
            }
            let mut v = match docs {
                Some(v) => v,
                None => Vec::new(),
            };
            let ghost before = v@.map_values(|dd: Doc| doc_view(dd));
            v.push(doc);
            proof {
                assert(v@.map_values(|dd: Doc| doc_view(dd)) =~= before.push(spec_doc));
                assert(Seq::<Doc>::empty().map_values(|dd: Doc| doc_view(dd)) =~= Seq::<
                    (bool, Seq<char>),
                >::empty());
                assert(Seq::<(bool, Seq<char>)>::empty().push(spec_doc) =~= seq![spec_doc]);
            }
            Some(v)
        },
        None => docs,
    }
}

/// Appends an attribute value, agreeing with `push_attr`.
fn push_attr_vec(o: Option<Vec<String>>, v: &str) -> (r: Option<Vec<String>>)
    ensures
        opt_strs_view(r) == push_attr(opt_strs_view(o), v@),
{
    let mut list = match o {
        Some(x) => x,
        None => Vec::new(),
    };
    let ghost before = list.deep_view();
    list.push(String::from_str(v));
    proof {
        assert(list.deep_view() =~= before.push(v@));
        assert(Seq::<Seq<char>>::empty().push(v@) =~= seq![v@]);
    }
    Some(list)
}

/// Folds a load-state line's body into the unit, agreeing with
/// `apply_loaded`; `false` reports a malformed body.
fn apply_loaded_exec(u: &mut SysUnit, rest: &str) -> (r: bool)
    ensures
        r <==> apply_loaded(old(u)@, rest@) is Some,
        r ==> Some(final(u)@) == apply_loaded(old(u)@, rest@),
        !r ==> *final(u) == *old(u),
{
    if let Some(body) = strip_prefix_str(rest, "loaded ") {
        let opened = match strip_prefix_str(body, "(") {
            Some(x) => x,
            None => {
                return false;
            },
        };
        let inner = match strip_suffix_str(opened, ")") {
            Some(x) => x,
            None => {
                return false;
            },
        };
        let items = split_str(inner, ';');
        if items.len() < 2 {
            return false;
        }
        proof {
            assert(items.deep_view()[0] == split_char(inner@, ';')[0]);
            assert(items.deep_view()[1] == split_char(inner@, ';')[1]);
        }
        u.state = State::Loaded;
        u.script = String::from_str(trim_str(items[0].as_str()));
        u.auto_start = match AutoStartStatus::parse(trim_str(items[1].as_str())) {
            Some(a) => a,
            None => AutoStartStatus::Disabled,
        };
        if items.len() > 2 {
            proof {
                assert(items.deep_view()[2] == split_char(inner@, ';')[2]);
            }
            u.preset = ends_with_str(trim_str(items[2].as_str()), "enabled");
        }
        true
    } else if starts_with_str(rest, "masked") {
        u.state = State::Masked;
        true
    } else {
        true
    }
}

/// Folds a main-task line's body into the unit, agreeing with `apply_pid`.
fn apply_pid_exec(u: &mut SysUnit, rest: &str)
    ensures
        final(u)@ == apply_pid(old(u)@, rest@),
{
    match split_once_char(rest, ' ') {
        Some((pid_s, proc_s)) => {
            let v = match parse_u64(pid_s) {
                Some(v) => v,
                None => 0,
            };
            u.pid = Some(v);
            u.process = Some(remove_parens(proc_s));
        },
        None => {},
    }
}

/// Folds one status line into the unit, agreeing with `apply_status_line`;
/// the returned flag is the updated documentation-list marker, `None`
/// reports a malformed line.
fn apply_status_line_exec(u: &mut SysUnit, is_doc: bool, raw: &str) -> (r: Option<bool>)
    ensures
        r matches Some(d2) ==> apply_status_line(old(u)@, is_doc, raw@) == Some(
            (final(u)@, d2),
        ),
        r is None ==> apply_status_line(old(u)@, is_doc, raw@) is None,
{
    let line = trim_start_str(raw);
    if let Some(rest) = strip_prefix_str(line, "Loaded: ") {
        if apply_loaded_exec(u, rest) {
            Some(is_doc)
        } else {
            None
        }
    } else if let Some(rest) = strip_prefix_str(line, "Transient: ") {
        if str_eq(rest, "yes") {
            u.transient = true;
        }
        Some(is_doc)
    } else if starts_with_str(line, "Active: ") {
        Some(is_doc)
    } else if let Some(rest) = strip_prefix_str(line, "Docs: ") {
        let docs = u.docs.take();
        u.docs = add_doc(docs, rest);
        Some(true)
    } else if let Some(rest) = strip_prefix_str(line, "What: ") {
        u.mounted = Some(String::from_str(rest));
        Some(is_doc)
    } else if let Some(rest) = strip_prefix_str(line, "Where: ") {
        u.mountpoint = Some(String::from_str(rest));
        Some(is_doc)
    } else if let Some(rest) = strip_prefix_str(line, "Main PID: ") {
        apply_pid_exec(u, rest);
        Some(is_doc)
    } else if let Some(rest) = strip_prefix_str(line, "Cntrl PID: ") {
        apply_pid_exec(u, rest);
        Some(is_doc)
    } else if starts_with_str(line, "Process: ") || starts_with_str(line, "CGroup: ")
        || starts_with_str(line, "Tasks: ") {
        Some(is_doc)
    } else if let Some(rest) = strip_prefix_str(line, "Memory: ") {
        u.memory = Some(String::from_str(trim_str(rest)));
        Some(is_doc)
    } else if let Some(rest) = strip_prefix_str(line, "CPU: ") {
        u.cpu = Some(String::from_str(trim_str(rest)));
        Some(is_doc)
    } else {
        if is_doc {
            let docs = u.docs.take();
            u.docs = add_doc(docs, line);
        }
        Some(is_doc)
    }
}

/// Folds one configuration line into the unit, agreeing with
/// `apply_cat_line`.
fn apply_cat_line_exec(u: &mut SysUnit, line: &str)
    ensures
        final(u)@ == apply_cat_line(old(u)@, line@),
{
    match split_once_char(line, '=') {
        Some((k, v)) => {
            if str_eq(k, "Wants") {
                let cur = u.wants.take();
                u.wants = push_attr_vec(cur, v);
            } else if str_eq(k, "WantedBy") {
                let cur = u.wanted_by.take();
                u.wanted_by = push_attr_vec(cur, v);
            } else if str_eq(k, "Also") {
                let cur = u.also.take();
                u.also = push_attr_vec(cur, v);
            } else if str_eq(k, "Before") {
                let cur = u.before.take();
                u.before = push_attr_vec(cur, v);
            } else if str_eq(k, "After") {
                let cur = u.after.take();
                u.after = push_attr_vec(cur, v);
            } else if str_eq(k, "ExecStart") {
                u.exec_start = Some(String::from_str(v));
            } else if str_eq(k, "ExecReload") {
                u.exec_reload = Some(String::from_str(v));
            } else if str_eq(k, "Restart") {
                u.restart_policy = Some(String::from_str(v));
            } else if str_eq(k, "KillMode") {
                u.kill_mode = Some(String::from_str(v));
            }
        },
        None => {},
    }
}

impl SysUnit {
    /// Builds a unit from the status query's captured output, the optional
    /// configuration output, and the separately queried activity flag,
    /// agreeing with `status_parse_spec` in every case. `None` reports
    /// output without the expected shape.
    #[verifier::rlimit(100)]
    pub fn from_status_output(full_name: &str, status: &str, cat: Option<&str>, active: bool) -> (r:
        Option<SysUnit>)
        ensures
            r is Some <==> status_parse_spec(full_name@, status@, opt_sref_view(cat), active)
                is Some,
            r matches Some(u) ==> status_parse_spec(full_name@, status@, opt_sref_view(cat), active)
                == Some(u@),
    {
        let lines = split_lines(status);
        if lines.len() == 0 {
            return None;
        }
        let header = lines[0].as_str();
        let hb = header.as_bytes_vec();
        proof {
            assert(header@ == lines_spec(status@)[0]);
        }
        if hb.len() < 3 {
            return None;
        }
        let mut tail: Vec<u8> = Vec::new();
        let mut j: usize = 3;
        proof {
            assert(tail@ =~= hb@.subrange(3, 3));
        }
        while j < hb.len()
            invariant
                3 <= j <= hb@.len(),
                tail@ == hb@.subrange(3, j as int),
            decreases hb@.len() - j,
        {
            let b = hb[j];
            let ghost before = tail@;
            tail.push(b);
            proof {
                assert(tail@ =~= hb@.subrange(3, j + 1));
            }
            j += 1;
        }
        proof {
            assert(tail@ =~= hb@.skip(3));
        }
        let rem = match vec_to_string(tail) {
            Some(s) => s,
            None => {
                return None;
            },
        };
        proof {
            vstd::utf8::encode_utf8_decode_utf8(rem@);
            assert(rem@ == vstd::utf8::decode_utf8(hb@.skip(3)));
            assert(header_rest(lines_spec(status@)[0]) == Some(rem@));
        }
        let toks = split_fields(rem.as_str());
        if toks.len() == 0 {
            return None;
        }
        let tok0 = toks[0].as_str();
        proof {
            assert(tok0@ == crate::text::fields_spec(rem@)[0]);
        }
        let k = match find_last_char_index(tok0, '.') {
            Some(k) => k,
            None => {
                return None;
            },
        };
        let tn = tok0.unicode_len();
        let ext = tok0.substring_char(k + 1, tn);
        proof {
            assert(ext@ =~= tok0@.skip(k as int + 1));
        }
        let ty = match Type::parse(ext) {
            Some(t) => t,
            None => {
                return None;
            },
        };
        let name_part_owned = String::from_str(tok0.substring_char(0, k));
        proof {
            assert(name_part_owned@ =~= tok0@.take(k as int));
        }
        let description: Option<String> = if toks.len() >= 2 && str_eq(toks[1].as_str(), "-") {
            let mut items: Vec<String> = Vec::new();
            let mut t: usize = 2;
            while t < toks.len()
                invariant
                    2 <= t <= toks@.len(),
                    items@.len() == t - 2,
                    toks.deep_view() == crate::text::fields_spec(rem@),
                    forall|q: int|
                        0 <= q < t - 2 ==> items.deep_view()[q] == toks.deep_view()[q + 2],
                decreases toks@.len() - t,
            {
                let ghost before = items.deep_view();
                items.push(String::from_str(toks[t].as_str()));
                proof {
                    assert(items.deep_view() =~= before.push(toks.deep_view()[t as int]));
                }
                t += 1;
            }
            proof {
                assert(items.deep_view() =~= toks.deep_view().skip(2));
            }
            Some(join_words(&items, " "))
        } else {
            None
        };
        let ghost spec_desc = if crate::text::fields_spec(rem@).len() >= 2 && crate::text::fields_spec(
            rem@,
        )[1] == "-"@ {
            Some(join_seq(crate::text::fields_spec(rem@).skip(2), " "@))
        } else {
            None
        };
        proof {
            assert(opt_str_view(description) == spec_desc);
        }
        let mut u = SysUnit {
            full_name: String::new(),
            name: String::new(),
            utype: ty,
            description,
            state: State::Masked,
            auto_start: AutoStartStatus::Disabled,
            active: false,
            preset: false,
            script: String::new(),
            restart_policy: None,
            kill_mode: None,
            process: None,
            pid: None,
            tasks: None,
            cpu: None,
            memory: None,
            mounted: None,
            mountpoint: None,
            docs: None,
            wants: None,
            wanted_by: None,
            also: None,
            before: None,
            after: None,
            exec_start: None,
            exec_reload: None,
            transient: false,
        };
        let ghost m0 = UnitModel { utype: ty, description: spec_desc, ..empty_model() };
        proof {
            assert(u@ =~= m0);
        }
        let ghost body = lines_spec(status@).drop_first();
        let mut is_doc = false;
        let mut idx: usize = 1;
        proof {
            assert(body.skip(0) =~= body);
        }
        while idx < lines.len()
            invariant
                1 <= idx <= lines@.len(),
                lines.deep_view() == lines_spec(status@),
                body == lines_spec(status@).drop_first(),
                fold_status_lines(m0, false, body) == fold_status_lines(
                    u@,
                    is_doc,
                    body.skip(idx - 1),
                ),
                fold_status_lines(m0, false, body) is None ==> status_parse_spec(
                    full_name@,
                    status@,
                    opt_sref_view(cat),
                    active,
                ) is None,
            decreases lines@.len() - idx,
        {
            proof {
                assert(body.skip(idx - 1)[0] == lines.deep_view()[idx as int]);
                assert(body.skip(idx - 1).drop_first() =~= body.skip(idx as int));
            }
            let line = lines[idx].as_str();
            match apply_status_line_exec(&mut u, is_doc, line) {
                Some(d2) => {
                    is_doc = d2;
                },
                None => {
                    proof {
                        assert(fold_status_lines(m0, false, body) is None);
                    }
                    return None;
                },
            }
            idx += 1;
        }
        proof {
            assert(body.skip(lines.deep_view().len() - 1) =~= Seq::<Seq<char>>::empty());
            assert(fold_status_lines(m0, false, body) == Some((u@, is_doc)));
        }
        let ghost after_body = u@;
        if let Some(cc) = cat {
            let clines = split_lines(cc);
            let ghost cseq = lines_spec(cc@);
            let mut ci: usize = 0;
            proof {
                assert(cseq.skip(0) =~= cseq);
            }
            while ci < clines.len()
                invariant
                    ci <= clines@.len(),
                    clines.deep_view() == cseq,
                    fold_cat_lines(after_body, cseq) == fold_cat_lines(u@, cseq.skip(ci as int)),
                decreases clines@.len() - ci,
            {
                proof {
                    assert(cseq.skip(ci as int)[0] == clines.deep_view()[ci as int]);
                    assert(cseq.skip(ci as int).drop_first() =~= cseq.skip(ci as int + 1));
                }
                apply_cat_line_exec(&mut u, clines[ci].as_str());
                ci += 1;
            }
            proof {
                assert(cseq.skip(clines.deep_view().len() as int) =~= Seq::<Seq<char>>::empty());
                assert(fold_cat_lines(after_body, cseq) == u@);
            }
        }
        u.full_name = String::from_str(full_name);
        u.name = name_part_owned;
        u.active = active;
        proof {
            assert(status_parse_spec(full_name@, status@, opt_sref_view(cat), active) =~= Some(
                u@,
            ));
        }
        Some(u)
    }
}

} // verus!
