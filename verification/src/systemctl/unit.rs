//! The unit data model and the backend capability trait.

use vstd::prelude::*;
use vstd::string::StrSliceExecFns;

use crate::error::McResult;
use crate::text::{find_char, find_char_index, str_eq, trim_spec, trim_str};

verus! {

/// `AutoStartStatus` describes a unit's auto-start configuration.
#[derive(Copy, Clone, PartialEq, Eq, Structural, Debug)]
pub enum AutoStartStatus {
    Static,
    Enabled,
    EnabledRuntime,
    Disabled,
    Generated,
    Indirect,
    Transient,
}

impl Default for AutoStartStatus {
    fn default() -> (r: Self)
        ensures
            r is Disabled,
    {
        AutoStartStatus::Disabled
    }
}

impl AutoStartStatus {
    /// The parse of the textual form the unit tool prints.
    pub open spec fn parse_spec(s: Seq<char>) -> Option<AutoStartStatus> {
        if s == "static"@ {
            Some(AutoStartStatus::Static)
        } else if s == "enabled"@ {
            Some(AutoStartStatus::Enabled)
        } else if s == "enabled-runtime"@ {
            Some(AutoStartStatus::EnabledRuntime)
        } else if s == "disabled"@ {
            Some(AutoStartStatus::Disabled)
        } else if s == "generated"@ {
            Some(AutoStartStatus::Generated)
        } else if s == "indirect"@ {
            Some(AutoStartStatus::Indirect)
        } else if s == "transient"@ {
            Some(AutoStartStatus::Transient)
        } else {
            None
        }
    }

    /// Parses the textual form the unit tool prints.
    pub fn parse(s: &str) -> (r: Option<AutoStartStatus>)
        ensures
            r == Self::parse_spec(s@),
    {
        if str_eq(s, "static") {
            Some(AutoStartStatus::Static)
        } else if str_eq(s, "enabled") {
            Some(AutoStartStatus::Enabled)
        } else if str_eq(s, "enabled-runtime") {
            Some(AutoStartStatus::EnabledRuntime)
        } else if str_eq(s, "disabled") {
            Some(AutoStartStatus::Disabled)
        } else if str_eq(s, "generated") {
            Some(AutoStartStatus::Generated)
        } else if str_eq(s, "indirect") {
            Some(AutoStartStatus::Indirect)
        } else if str_eq(s, "transient") {
            Some(AutoStartStatus::Transient)
        } else {
            None
        }
    }
}

/// `Type` describes a unit declaration type.
#[derive(Copy, Clone, PartialEq, Eq, Structural, Debug)]
pub enum Type {
    AutoMount,
    Mount,
    Service,
    Scope,
    Socket,
    Slice,
    Timer,
    Path,
    Target,
}

impl Default for Type {
    fn default() -> (r: Self)
        ensures
            r is Service,
    {
        Type::Service
    }
}

impl Type {
    /// The parse of the declaration type, which the unit tool writes as the
    /// unit name's extension.
    pub open spec fn parse_spec(s: Seq<char>) -> Option<Type> {
        if s == "automount"@ {
            Some(Type::AutoMount)
        } else if s == "mount"@ {
            Some(Type::Mount)
        } else if s == "service"@ {
            Some(Type::Service)
        } else if s == "scope"@ {
            Some(Type::Scope)
        } else if s == "socket"@ {
            Some(Type::Socket)
        } else if s == "slice"@ {
            Some(Type::Slice)
        } else if s == "timer"@ {
            Some(Type::Timer)
        } else if s == "path"@ {
            Some(Type::Path)
        } else if s == "target"@ {
            Some(Type::Target)
        } else {
            None
        }
    }

    /// Parses the declaration type from its textual form.
    pub fn parse(s: &str) -> (r: Option<Type>)
        ensures
            r == Self::parse_spec(s@),
    {
        if str_eq(s, "automount") {
            Some(Type::AutoMount)
        } else if str_eq(s, "mount") {
            Some(Type::Mount)
        } else if str_eq(s, "service") {
            Some(Type::Service)
        } else if str_eq(s, "scope") {
            Some(Type::Scope)
        } else if str_eq(s, "socket") {
            Some(Type::Socket)
        } else if str_eq(s, "slice") {
            Some(Type::Slice)
        } else if str_eq(s, "timer") {
            Some(Type::Timer)
        } else if str_eq(s, "path") {
            Some(Type::Path)
        } else if str_eq(s, "target") {
            Some(Type::Target)
        } else {
            None
        }
    }
}

/// `State` describes whether a unit's definition is loaded or masked.
#[derive(Copy, Clone, PartialEq, Eq, Structural, Debug)]
pub enum State {
    Masked,
    Loaded,
}

impl Default for State {
    fn default() -> (r: Self)
        ensures
            r is Masked,
    {
        State::Masked
    }
}

impl State {
    /// The parse of the load state's textual form.
    pub open spec fn parse_spec(s: Seq<char>) -> Option<State> {
        if s == "masked"@ {
            Some(State::Masked)
        } else if s == "loaded"@ {
            Some(State::Loaded)
        } else {
            None
        }
    }

    /// Parses the load state from its textual form.
    pub fn parse(s: &str) -> (r: Option<State>)
        ensures
            r == Self::parse_spec(s@),
    {
        if str_eq(s, "masked") {
            Some(State::Masked)
        } else if str_eq(s, "loaded") {
            Some(State::Loaded)
        } else {
            None
        }
    }
}

/// Doc describes one kind of documentation available for a unit.
#[derive(Debug)]
pub enum Doc {
    /// Man page is available
    Man(String),
    /// Webpage URL is indicated
    Url(String),
}

impl Doc {
    /// Unwraps self as a `Man` page.
    pub fn as_man(&self) -> (r: Option<&str>)
        ensures
            (self matches Doc::Man(s) ==> r matches Some(m) && m@ == s@),
            (self matches Doc::Url(_) ==> r is None),
    {
        match self {
            Doc::Man(s) => Some(s.as_str()),
            _ => None,
        }
    }

    /// Unwraps self as a webpage `Url`.
    pub fn as_url(&self) -> (r: Option<&str>)
        ensures
            (self matches Doc::Url(s) ==> r matches Some(u) && u@ == s@),
            (self matches Doc::Man(_) ==> r is None),
    {
        match self {
            Doc::Url(s) => Some(s.as_str()),
            _ => None,
        }
    }

    /// Parses a documentation descriptor as the unit tool's status output
    /// prints it, agreeing with `doc_parse_spec`: a man page gives
    /// `Doc::Man`, a web address gives `Doc::Url`.
    pub fn parse(descriptor: &str) -> (r: Option<Doc>)
        ensures
            r is Some <==> doc_parse_spec(descriptor@) is Some,
            r matches Some(d) ==> (match d {
                Doc::Man(m) => doc_parse_spec(descriptor@) == Some((true, m@)),
                Doc::Url(u) => doc_parse_spec(descriptor@) == Some((false, u@)),
            }),
    {
        let n = descriptor.unicode_len();
        let i = match find_char_index(descriptor, ':') {
            Some(i) => i,
            None => {
                return None;
            },
        };
        let prefix = descriptor.substring_char(0, i);
        let rest = descriptor.substring_char(i + 1, n);
        if find_char_index(rest, ':').is_some() {
            return None;
        }
        if str_eq(prefix, "man") {
            let k = match find_char_index(rest, '(') {
                Some(k) => k,
                None => rest.unicode_len(),
            };
            let content = rest.substring_char(0, k);
            Some(Doc::Man(String::from_str(content)))
        } else if str_eq(prefix, "http") {
            let mut url = String::from_str("http:");
            url.append(trim_str(rest));
            Some(Doc::Url(url))
        } else if str_eq(prefix, "https") {
            let mut url = String::from_str("https:");
            url.append(trim_str(rest));
            Some(Doc::Url(url))
        } else {
            None
        }
    }
}

/// A documentation entry as plain values: whether it is a man page, and
/// its content.
pub open spec fn doc_view(d: Doc) -> (bool, Seq<char>) {
    match d {
        Doc::Man(s) => (true, s@),
        Doc::Url(s) => (false, s@),
    }
}

/// The descriptor split at its first colon: what stands before it and what
/// stands after it.
pub open spec fn doc_descriptor_parts(s: Seq<char>) -> (Seq<char>, Seq<char>) {
    let i = find_char(s, ':');
    (s.subrange(0, i), s.subrange(i + 1, s.len() as int))
}

/// A descriptor is well-formed when it holds exactly one colon.
pub open spec fn doc_descriptor_wf(s: Seq<char>) -> bool {
    &&& find_char(s, ':') >= 0
    &&& find_char(s.subrange(find_char(s, ':') + 1, s.len() as int), ':') == -1
}

/// A man descriptor's content: what stands after the colon, cut at the
/// first opening parenthesis if any (dropping the section suffix).
pub open spec fn man_content(rest: Seq<char>) -> Seq<char> {
    let k = find_char(rest, '(');
    if k == -1 {
        rest
    } else {
        rest.subrange(0, k)
    }
}

/// The parse of a documentation descriptor: `Some((true, m))` for the man
/// page `m`, `Some((false, u))` for the web address `u` with its scheme put
/// back and its remainder trimmed, `None` for a malformed descriptor or an
/// unknown kind.
pub open spec fn doc_parse_spec(s: Seq<char>) -> Option<(bool, Seq<char>)> {
    if !doc_descriptor_wf(s) {
        None
    } else {
        let (p, rest) = doc_descriptor_parts(s);
        if p == "man"@ {
            Some((true, man_content(rest)))
        } else if p == "http"@ {
            Some((false, "http:"@ + trim_spec(rest)))
        } else if p == "https"@ {
            Some((false, "https:"@ + trim_spec(rest)))
        } else {
            None
        }
    }
}

/// The backend capability the lifecycle controller consumes: a handle on one
/// external service that can report whether it is running and can be started
/// and stopped. The simulated backend implements it here. The real service
/// manager is driven from outside the library instead, feeding each fetched
/// unit and command outcome into the controller record for the real manager
/// as plain values.
///
/// Time enters every operation as an explicit millisecond reading so that the
/// whole state machine is a function of plain values.
pub trait Unit: Sized {
    /// Identifier of the managed external service.
    spec fn spec_name(&self) -> Seq<char>;

    /// Activity flag as of this backend's last refresh.
    spec fn active(&self) -> bool;

    /// What a completed `refresh` at `now_ms` guarantees: relates the
    /// backend before the call to the backend after it and the result.
    spec fn refresh_ens(&self, now_ms: u64, post: Self, r: McResult<()>) -> bool;

    /// What a completed `start` at `now_ms` guarantees.
    spec fn start_ens(&self, now_ms: u64, post: Self, r: McResult<i32>) -> bool;

    /// What a completed `stop` at `now_ms` guarantees.
    spec fn stop_ens(&self, now_ms: u64, post: Self, r: McResult<i32>) -> bool;

    /// Stable name of the managed external service.
    fn name(&self) -> (r: &str)
        ensures
            r@ == self.spec_name(),
    ;

    /// Re-reads authoritative status from the external system into this
    /// backend's own cached fields.
    fn refresh(&mut self, now_ms: u64) -> (r: McResult<()>)
        ensures
            old(self).refresh_ens(now_ms, *final(self), r),
    ;

    /// Returns the activity flag as of the last refresh.
    fn is_active(&self) -> (r: bool)
        ensures
            r == self.active(),
    ;

    /// Issues the external start operation and returns its exit code
    /// (0 = success) once known.
    fn start(&mut self, now_ms: u64) -> (r: McResult<i32>)
        ensures
            old(self).start_ens(now_ms, *final(self), r),
    ;

    /// Issues the external stop operation and returns its exit code
    /// (0 = success) once known.
    fn stop(&mut self, now_ms: u64) -> (r: McResult<i32>)
        ensures
            old(self).stop_ens(now_ms, *final(self), r),
    ;
}

} // verus!
