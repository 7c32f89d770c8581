//! Where a session comes from, and which product restrictions it satisfies.
use vstd::prelude::*;

use crate::text::append_str;
use crate::text::chars_of;
use crate::text::dec;
use crate::text::eq_str;
use crate::text::lower;
use crate::text::lowercase;
use crate::text::string_of;
use crate::text::trim;
use crate::text::trim_chars;

verus! {

/// The kind of thread a thread record describes.
#[derive(Clone, Copy, PartialEq, Eq, Structural, Debug)]
pub enum ThreadSource {
    User,
    Subagent,
    MemoryConsolidation,
}

/// Internal (non-user) sessions.
#[derive(Clone, Copy, PartialEq, Eq, Structural, Debug)]
pub enum InternalSessionSource {
    MemoryConsolidation,
}

/// Sessions started by another agent.
#[derive(Clone, Debug, PartialEq, Eq)]
pub enum SubAgentSource {
    Review,
    Compact,
    ThreadSpawn {
        parent_thread_id: String,
        depth: i32,
        agent_path: Option<String>,
        agent_nickname: Option<String>,
        agent_role: Option<String>,
    },
    MemoryConsolidation,
    Other(String),
}

/// The client or agent that started a session.
#[derive(Clone, Debug, PartialEq, Eq)]
pub enum SessionSource {
    Cli,
    VSCode,
    Exec,
    Mcp,
    Custom(String),
    Internal(InternalSessionSource),
    SubAgent(SubAgentSource),
    Unknown,
}

/// The products a restriction can name.
#[derive(Clone, Copy, PartialEq, Eq, Structural, Debug)]
pub enum Product {
    Chatgpt,
    Codex,
    Atlas,
}

pub enum SubAgentView {
    Review,
    Compact,
    ThreadSpawn {
        parent_thread_id: Seq<char>,
        depth: i32,
        agent_path: Option<Seq<char>>,
        agent_nickname: Option<Seq<char>>,
        agent_role: Option<Seq<char>>,
    },
    MemoryConsolidation,
    Other(Seq<char>),
}

pub enum SourceView {
    Cli,
    VSCode,
    Exec,
    Mcp,
    Custom(Seq<char>),
    Internal(InternalSessionSource),
    SubAgent(SubAgentView),
    Unknown,
}

pub open spec fn opt_str(o: Option<String>) -> Option<Seq<char>> {
    match o {
        Some(s) => Some(s@),
        None => None,
    }
}

impl View for SubAgentSource {
    type V = SubAgentView;

    open spec fn view(&self) -> SubAgentView {
        match self {
            SubAgentSource::Review => SubAgentView::Review,
            SubAgentSource::Compact => SubAgentView::Compact,
            SubAgentSource::ThreadSpawn {
                parent_thread_id,
                depth,
                agent_path,
                agent_nickname,
                agent_role,
            } => SubAgentView::ThreadSpawn {
                parent_thread_id: parent_thread_id@,
                depth: *depth,
                agent_path: opt_str(*agent_path),
                agent_nickname: opt_str(*agent_nickname),
                agent_role: opt_str(*agent_role),
            },
            SubAgentSource::MemoryConsolidation => SubAgentView::MemoryConsolidation,
            SubAgentSource::Other(s) => SubAgentView::Other(s@),
        }
    }
}

impl View for SessionSource {
    type V = SourceView;

    open spec fn view(&self) -> SourceView {
        match self {
            SessionSource::Cli => SourceView::Cli,
            SessionSource::VSCode => SourceView::VSCode,
            SessionSource::Exec => SourceView::Exec,
            SessionSource::Mcp => SourceView::Mcp,
            SessionSource::Custom(s) => SourceView::Custom(s@),
            SessionSource::Internal(i) => SourceView::Internal(*i),
            SessionSource::SubAgent(s) => SourceView::SubAgent(s@),
            SessionSource::Unknown => SourceView::Unknown,
        }
    }
}

impl Default for SessionSource {
    fn default() -> (r: SessionSource)
        ensures
            r@ == SourceView::VSCode,
    {
        SessionSource::VSCode
    }
}

impl ThreadSource {
    pub open spec fn spec_as_str(self) -> Seq<char> {
        match self {
            ThreadSource::User => "user"@,
            ThreadSource::Subagent => "subagent"@,
            ThreadSource::MemoryConsolidation => "memory_consolidation"@,
        }
    }

    pub fn as_str(self) -> (r: &'static str)
        ensures
            r@ == self.spec_as_str(),
    {
        match self {
            ThreadSource::User => "user",
            ThreadSource::Subagent => "subagent",
            ThreadSource::MemoryConsolidation => "memory_consolidation",
        }
    }

    /// Parses the name [`ThreadSource::as_str`] gives; any other text is an error.
    pub fn parse(value: &str) -> (r: Result<ThreadSource, String>)
        ensures
            match r {
                Ok(t) => t.spec_as_str() == value@,
                Err(e) => e@ == "unknown thread source: "@ + value@ && value@ != "user"@
                    && value@ != "subagent"@ && value@ != "memory_consolidation"@,
            },
    {
        let v = chars_of(value);
        if eq_str(&v, "user") {
            Ok(ThreadSource::User)
        } else if eq_str(&v, "subagent") {
            Ok(ThreadSource::Subagent)
        } else if eq_str(&v, "memory_consolidation") {
            Ok(ThreadSource::MemoryConsolidation)
        } else {
            let mut e = chars_of("unknown thread source: ");
            append_str(&mut e, value);
            Err(string_of(&e))
        }
    }
}

impl InternalSessionSource {
    pub open spec fn spec_display(self) -> Seq<char> {
        match self {
            InternalSessionSource::MemoryConsolidation => "memory_consolidation"@,
        }
    }

    /// The display name.
    pub fn fmt(&self) -> (r: String)
        ensures
            r@ == self.spec_display(),
    {
        String::from_str("memory_consolidation")
    }
}

/// The decimal rendering of a signed integer.
pub open spec fn dec_i32(n: i32) -> Seq<char> {
    if n < 0 {
        "-"@ + dec((-(n as int)) as nat)
    } else {
        dec(n as nat)
    }
}

fn push_dec_i32(dst: &mut Vec<char>, n: i32)
    ensures
        final(dst)@ == old(dst)@ + dec_i32(n),
{
    if n < 0 {
        append_str(dst, "-");
        let m: u64 = (-(n as i64)) as u64;
        crate::text::push_dec_u64(dst, m);
    } else {
        crate::text::push_dec_u64(dst, n as u64);
    }
}

impl SubAgentSource {
    pub open spec fn spec_display(v: SubAgentView) -> Seq<char> {
        match v {
            SubAgentView::Review => "review"@,
            SubAgentView::Compact => "compact"@,
            SubAgentView::MemoryConsolidation => "memory_consolidation"@,
            SubAgentView::ThreadSpawn { parent_thread_id, depth, .. } => "thread_spawn_"@
                + parent_thread_id + "_d"@ + dec_i32(depth),
            SubAgentView::Other(o) => o,
        }
    }

    /// The display name: the kind, or the spawning thread and depth.
    pub fn fmt(&self) -> (r: String)
        ensures
            r@ == SubAgentSource::spec_display(self@),
    {
        match self {
            SubAgentSource::Review => String::from_str("review"),
            SubAgentSource::Compact => String::from_str("compact"),
            SubAgentSource::MemoryConsolidation => String::from_str("memory_consolidation"),
            SubAgentSource::ThreadSpawn { parent_thread_id, depth, .. } => {
                let mut r = chars_of("thread_spawn_");
                append_str(&mut r, parent_thread_id.as_str());
                append_str(&mut r, "_d");
                push_dec_i32(&mut r, *depth);
                string_of(&r)
            },
            SubAgentSource::Other(other) => other.clone(),
        }
    }
}

pub open spec fn startup_error() -> Seq<char> {
    "session source must not be empty"@
}

/// The source a startup argument names: the known client names (case and
/// surrounding blanks ignored, `appserver` and its spellings meaning MCP),
/// else a custom source with the normalized name; an error when blank.
pub open spec fn spec_from_startup_arg(value: Seq<char>) -> Option<SourceView> {
    let n = lower(trim(value));
    if trim(value).len() == 0 {
        None
    } else if n == "cli"@ {
        Some(SourceView::Cli)
    } else if n == "vscode"@ {
        Some(SourceView::VSCode)
    } else if n == "exec"@ {
        Some(SourceView::Exec)
    } else if n == "mcp"@ || n == "appserver"@ || n == "app-server"@ || n == "app_server"@ {
        Some(SourceView::Mcp)
    } else if n == "unknown"@ {
        Some(SourceView::Unknown)
    } else {
        Some(SourceView::Custom(n))
    }
}

/// The product a name stands for, case and surrounding blanks ignored.
pub open spec fn spec_product_from_name(value: Seq<char>) -> Option<Product> {
    let n = lower(trim(value));
    if n == "chatgpt"@ {
        Some(Product::Chatgpt)
    } else if n == "codex"@ {
        Some(Product::Codex)
    } else if n == "atlas"@ {
        Some(Product::Atlas)
    } else {
        None
    }
}

/// The product whose restrictions a source is held to: the named product
/// for custom sources, Codex for the known clients, none for agents.
pub open spec fn spec_restriction_product(s: SourceView) -> Option<Product> {
    match s {
        SourceView::Custom(name) => spec_product_from_name(name),
        SourceView::Internal(_) | SourceView::SubAgent(_) => None,
        _ => Some(Product::Codex),
    }
}

pub open spec fn spec_matches_restriction(s: SourceView, products: Seq<Product>) -> bool {
    products.len() == 0 || match spec_restriction_product(s) {
        Some(p) => products.contains(p),
        None => false,
    }
}

impl SessionSource {
    pub fn from_startup_arg(value: &str) -> (r: Result<SessionSource, &'static str>)
        ensures
            match r {
                Ok(s) => spec_from_startup_arg(value@) == Some(s@),
                Err(e) => spec_from_startup_arg(value@) is None && e@ == startup_error(),
            },
    {
        let trimmed = trim_chars(&chars_of(value));
        if trimmed.len() == 0 {
            return Err("session source must not be empty");
        }
        let n = lowercase(&trimmed);
        if eq_str(&n, "cli") {
            Ok(SessionSource::Cli)
        } else if eq_str(&n, "vscode") {
            Ok(SessionSource::VSCode)
        } else if eq_str(&n, "exec") {
            Ok(SessionSource::Exec)
        } else if eq_str(&n, "mcp") || eq_str(&n, "appserver") || eq_str(&n, "app-server") || eq_str(
            &n,
            "app_server",
        ) {
            Ok(SessionSource::Mcp)
        } else if eq_str(&n, "unknown") {
            Ok(SessionSource::Unknown)
        } else {
            Ok(SessionSource::Custom(string_of(&n)))
        }
    }

    pub fn is_internal(&self) -> (r: bool)
        ensures
            r == self@ is Internal,
    {
        matches!(self, SessionSource::Internal(_))
    }

    pub fn is_non_root_agent(&self) -> (r: bool)
        ensures
            r == (self@ is Internal || self@ is SubAgent),
    {
        matches!(self, SessionSource::Internal(_) | SessionSource::SubAgent(_))
    }

    pub fn get_nickname(&self) -> (r: Option<String>)
        ensures
            opt_str(r) == match self@ {
                SourceView::SubAgent(SubAgentView::ThreadSpawn { agent_nickname, .. }) => agent_nickname,
                _ => None,
            },
    {
        match self {
            SessionSource::SubAgent(SubAgentSource::ThreadSpawn { agent_nickname, .. }) => {
                match agent_nickname {
                    Some(n) => Some(n.clone()),
                    None => None,
                }
            },
            _ => None,
        }
    }

    pub fn get_agent_role(&self) -> (r: Option<String>)
        ensures
            opt_str(r) == match self@ {
                SourceView::SubAgent(SubAgentView::ThreadSpawn { agent_role, .. }) => agent_role,
                _ => None,
            },
    {
        match self {
            SessionSource::SubAgent(SubAgentSource::ThreadSpawn { agent_role, .. }) => {
                match agent_role {
                    Some(n) => Some(n.clone()),
                    None => None,
                }
            },
            _ => None,
        }
    }

    pub fn get_agent_path(&self) -> (r: Option<String>)
        ensures
            opt_str(r) == match self@ {
                SourceView::SubAgent(SubAgentView::ThreadSpawn { agent_path, .. }) => agent_path,
                _ => None,
            },
    {
        match self {
            SessionSource::SubAgent(SubAgentSource::ThreadSpawn { agent_path, .. }) => {
                match agent_path {
                    Some(n) => Some(n.clone()),
                    None => None,
                }
            },
            _ => None,
        }
    }

    pub fn restriction_product(&self) -> (r: Option<Product>)
        ensures
            r == spec_restriction_product(self@),
    {
        match self {
            SessionSource::Custom(source) => Product::from_session_source_name(source.as_str()),
            SessionSource::Internal(_) | SessionSource::SubAgent(_) => None,
            _ => Some(Product::Codex),
        }
    }

    /// Whether the source may run under a product restriction: always when
    /// the restriction lists no product, else when its product is listed.
    pub fn matches_product_restriction(&self, products: &[Product]) -> (r: bool)
        ensures
            r == spec_matches_restriction(self@, products@),
    {
        if products.len() == 0 {
            return true;
        }
        match self.restriction_product() {
            Some(p) => p.matches_product_restriction(products),
            None => false,
        }
    }

    pub open spec fn spec_display(s: SourceView) -> Seq<char> {
        match s {
            SourceView::Cli => "cli"@,
            SourceView::VSCode => "vscode"@,
            SourceView::Exec => "exec"@,
            SourceView::Mcp => "mcp"@,
            SourceView::Custom(c) => c,
            SourceView::Internal(i) => "internal_"@ + i.spec_display(),
            SourceView::SubAgent(a) => "subagent_"@ + SubAgentSource::spec_display(a),
            SourceView::Unknown => "unknown"@,
        }
    }

    /// The display name.
    pub fn fmt(&self) -> (r: String)
        ensures
            r@ == SessionSource::spec_display(self@),
    {
        match self {
            SessionSource::Cli => String::from_str("cli"),
            SessionSource::VSCode => String::from_str("vscode"),
            SessionSource::Exec => String::from_str("exec"),
            SessionSource::Mcp => String::from_str("mcp"),
            SessionSource::Custom(source) => source.clone(),
            SessionSource::Internal(source) => {
                let mut r = String::from_str("internal_");
                let d = source.fmt();
                r.append(d.as_str());
                r
            },
            SessionSource::SubAgent(sub) => {
                let mut r = String::from_str("subagent_");
                let d = sub.fmt();
                r.append(d.as_str());
                r
            },
            SessionSource::Unknown => String::from_str("unknown"),
        }
    }
}

impl Product {
    pub open spec fn spec_app_platform(self) -> Seq<char> {
        match self {
            Product::Chatgpt => "chat"@,
            Product::Codex => "codex"@,
            Product::Atlas => "atlas"@,
        }
    }

    pub fn to_app_platform(self) -> (r: &'static str)
        ensures
            r@ == self.spec_app_platform(),
    {
        match self {
            Product::Chatgpt => "chat",
            Product::Codex => "codex",
            Product::Atlas => "atlas",
        }
    }

    pub fn from_session_source_name(value: &str) -> (r: Option<Product>)
        ensures
            r == spec_product_from_name(value@),
    {
        let n = lowercase(&trim_chars(&chars_of(value)));
        if eq_str(&n, "chatgpt") {
            Some(Product::Chatgpt)
        } else if eq_str(&n, "codex") {
            Some(Product::Codex)
        } else if eq_str(&n, "atlas") {
            Some(Product::Atlas)
        } else {
            None
        }
    }

    pub fn matches_product_restriction(&self, products: &[Product]) -> (r: bool)
        ensures
            r == (products@.len() == 0 || products@.contains(*self)),
    {
        if products.len() == 0 {
            return true;
        }
        for i in 0..products.len()
            invariant
                forall|j: int| 0 <= j < i ==> products@[j] != *self,
        {
            if products[i] == *self {
                return true;
            }
        }
        false
    }
}

/// An empty restriction admits every source.
pub proof fn law_empty_restriction_admits_all(s: SourceView)
    ensures
        spec_matches_restriction(s, Seq::<Product>::empty()),
{
}

/// Agent sessions are never held to a product, so a non-empty restriction
/// never admits them.
pub proof fn law_agents_fail_nonempty_restrictions(s: SourceView, products: Seq<Product>)
    requires
        s is Internal || s is SubAgent,
        products.len() > 0,
    ensures
        !spec_matches_restriction(s, products),
{
}

/// A parsed startup argument displays as its normalized name, except for
/// the app-server spellings, which display as `mcp`.
pub proof fn law_startup_arg_round_trip(value: Seq<char>)
    requires
        spec_from_startup_arg(value) is Some,
        !(seq!["appserver"@, "app-server"@, "app_server"@].contains(lower(trim(value)))),
    ensures
        SessionSource::spec_display(spec_from_startup_arg(value).unwrap()) == lower(trim(value)),
{
}

} // verus!
